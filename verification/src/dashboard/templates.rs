//! What the pages of the dashboard show.

use vstd::prelude::*;

use crate::dashboard::i18n::Dict;
use crate::db::models::{Bucket, Project, User};
use crate::s3::S3Object;

verus! {

/// The page with all projects.
#[derive(Debug)]
pub struct IndexTemplate {
    pub projects: Vec<Project>,
    pub user: Option<User>,
    pub app_name: String,
    pub t: Dict,
    pub paas_version: &'static str,
}

/// The page of one project.
#[derive(Debug)]
pub struct ProjectDetailTemplate {
    pub project: Project,
    pub buckets: Vec<Bucket>,
    /// What the first bucket holds.
    pub objects: Vec<S3Object>,
    pub s3_port: u16,
    pub s3_access_key: String,
    pub s3_secret_key: String,
    /// The last lines of the project's log.
    pub log_lines: Vec<String>,
    pub user: Option<User>,
    pub app_name: String,
    pub t: Dict,
    pub paas_version: &'static str,
}

/// The page that tells of an error.
#[derive(Debug)]
pub struct ErrorTemplate {
    pub code: u16,
    pub message: String,
    pub user: Option<User>,
    pub app_name: String,
    pub t: Dict,
    pub paas_version: &'static str,
}

} // verus!
