//! The HTTP API: what each request does, and how it is answered.

pub mod access;
pub mod backup;
pub mod caddy;
pub mod deploy;
pub mod deploys;
pub mod form;
pub mod laws;
pub mod refusal;
pub mod requests;
pub mod runs;
