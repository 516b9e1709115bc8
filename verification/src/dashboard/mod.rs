//! The dashboard: its pages, its texts, and logging in to it.

pub mod auth;
pub mod handlers;
pub mod i18n;
pub mod laws;
pub mod templates;
