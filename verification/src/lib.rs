//! The decisions of a small platform as a service: it takes uploaded binaries, gives each project
//! a port, a directory and a bucket, runs them, and routes requests to them by host name.
//!
//! The library holds what is decided and computed, each part with a contract; the program around
//! it performs the reads, writes, look-ups and process calls that the library asks for.

pub mod api;
pub mod clock;
pub mod config;
pub mod dashboard;
pub mod db;
pub mod ident;
pub mod password;
pub mod paths;
pub mod runner;
pub mod s3;
pub mod table;
pub mod text;
pub mod text_laws;
pub mod tree;
