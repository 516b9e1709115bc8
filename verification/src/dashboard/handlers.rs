//! The pages of the dashboard: what each one shows, and what it shows instead where that fails.

use vstd::prelude::*;
use vstd::string::*;

use crate::dashboard::i18n::Dict;
use crate::dashboard::templates::{ErrorTemplate, IndexTemplate, ProjectDetailTemplate};
use crate::db::models::{Bucket, Project, User};
use crate::runner::launch;
use crate::s3::S3Object;
use crate::text;

verus! {

/// Number of lines of a project's log that are shown.
pub const LOG_LINES: usize = 100;

// ---------------------------------------------------------------------------------------------
// Errors
// ---------------------------------------------------------------------------------------------

/// Calls `http::StatusCode::from_u16`, which takes the numbers from 100 to 999, and
/// `StatusCode::as_u16`, which gives the number back.
#[verifier::external_body]
pub(crate) fn status_code(code: u16) -> (r: Option<u16>)
    ensures
        r == (if 100 <= code <= 999 {
            Some(code)
        } else {
            None
        }),
{
    axum::http::StatusCode::from_u16(code).ok().map(|s| s.as_u16())
}

/// The HTTP status of the page for an error code: the code itself where it is one, else 500.
pub fn error_status(code: u16) -> (r: u16)
    ensures
        r == (if 100 <= code <= 999 {
            code
        } else {
            500
        }),
{
    match status_code(code) {
        Some(status) => status,
        None => 500,
    }
}

/// An error that a page tells of.
#[derive(Debug)]
pub enum PageError {
    /// The projects could not be loaded.
    NotLoaded(String),
    /// There is no project with this identifier.
    NoProject(String),
    /// The project could not be looked up.
    Database(String),
}

impl PageError {
    /// The error code.
    pub open spec fn spec_code(self) -> u16 {
        match self {
            PageError::NotLoaded(_) => 500,
            PageError::NoProject(_) => 404,
            PageError::Database(_) => 500,
        }
    }

    /// The text of the error.
    pub open spec fn text(self) -> Seq<char> {
        match self {
            PageError::NotLoaded(e) => "Failed to load projects: "@ + e@,
            PageError::NoProject(id) => "Project '"@ + id@ + "' not found"@,
            PageError::Database(e) => "DB error: "@ + e@,
        }
    }

    /// The error code.
    pub fn code(&self) -> (r: u16)
        ensures
            r == self.spec_code(),
    {
        match self {
            PageError::NotLoaded(_) => 500,
            PageError::NoProject(_) => 404,
            PageError::Database(_) => 500,
        }
    }

    /// The text of the error.
    pub fn message(&self) -> (r: String)
        ensures
            r@ == self.text(),
    {
        match self {
            PageError::NotLoaded(e) => "Failed to load projects: ".to_owned().concat(e.as_str()),
            PageError::NoProject(id) => "Project '".to_owned().concat(id.as_str()).concat(
                "' not found",
            ),
            PageError::Database(e) => "DB error: ".to_owned().concat(e.as_str()),
        }
    }
}

/// The page that tells of an error, and its HTTP status.
pub fn error_page(
    code: u16,
    message: String,
    user: Option<User>,
    app_name: String,
    t: Dict,
    paas_version: &'static str,
) -> (r: (u16, ErrorTemplate))
    ensures
        r.0 == (if 100 <= code <= 999 {
            code
        } else {
            500
        }),
        r.1 == (ErrorTemplate { code, message, user, app_name, t, paas_version }),
{
    (error_status(code), ErrorTemplate { code, message, user, app_name, t, paas_version })
}

// ---------------------------------------------------------------------------------------------
// Pages
// ---------------------------------------------------------------------------------------------

/// Where the landing page sends a client: somebody who is logged in goes to the dashboard.
pub fn landing(user: Option<&User>) -> (r: Option<&'static str>)
    ensures
        match r {
            Some(url) => user is Some && url@ == "/dashboard"@,
            None => user is None,
        },
{
    match user {
        Some(_) => Some("/dashboard"),
        None => None,
    }
}

/// The page with all projects.
pub fn index(
    found: Result<Vec<Project>, String>,
    user: User,
    app_name: String,
    t: Dict,
    paas_version: &'static str,
) -> (r: Result<IndexTemplate, (u16, ErrorTemplate)>)
    ensures
        match found {
            Ok(projects) => r == Ok::<IndexTemplate, (u16, ErrorTemplate)>(
                IndexTemplate { projects, user: Some(user), app_name, t, paas_version },
            ),
            Err(e) => {
                &&& r matches Err((status, page))
                &&& status == 500
                &&& page.code == 500
                &&& page.message@ == "Failed to load projects: "@ + e@
                &&& page.user == Some(user)
                &&& page.app_name == app_name
                &&& page.t == t
                &&& page.paas_version == paas_version
            },
        },
{
    match found {
        Ok(projects) => Ok(
            IndexTemplate { projects, user: Some(user), app_name, t, paas_version },
        ),
        Err(e) => {
            let error = PageError::NotLoaded(e);
            Err(error_page(error.code(), error.message(), Some(user), app_name, t, paas_version))
        },
    }
}

/// The project whose page is shown, or the error that is told of instead.
pub fn project_or_error(found: Result<Option<Project>, String>, id: &str) -> (r: Result<
    Project,
    PageError,
>)
    ensures
        match found {
            Ok(Some(project)) => r == Ok::<Project, PageError>(project),
            Ok(None) => r matches Err(PageError::NoProject(asked)) && asked@ == id@,
            Err(e) => r == Err::<Project, PageError>(PageError::Database(e)),
        },
{
    match found {
        Ok(Some(project)) => Ok(project),
        Ok(None) => Err(PageError::NoProject(id.to_owned())),
        Err(e) => Err(PageError::Database(e)),
    }
}

/// The bucket whose objects are shown: the first one.
pub fn shown_bucket(buckets: &Vec<Bucket>) -> (r: Option<&Bucket>)
    ensures
        match r {
            Some(bucket) => buckets@.len() > 0 && *bucket == buckets@[0],
            None => buckets@.len() == 0,
        },
{
    if buckets.len() > 0 {
        Some(&buckets[0])
    } else {
        None
    }
}

/// The page of a project. `objects` is what the first bucket holds, if there is one and it could be
/// listed.
pub fn project_detail(
    project: Project,
    buckets: Vec<Bucket>,
    objects: Vec<S3Object>,
    s3_secret_key: String,
    log_lines: Vec<String>,
    user: User,
    app_name: String,
    t: Dict,
    paas_version: &'static str,
) -> (r: ProjectDetailTemplate)
    requires
        launch::has_s3_port(project.port),
    ensures
        r == (ProjectDetailTemplate {
            project,
            buckets,
            objects,
            s3_port: launch::s3_port_of(project.port) as u16,
            s3_access_key: project.id,
            s3_secret_key,
            log_lines,
            user: Some(user),
            app_name,
            t,
            paas_version,
        }),
{
    let s3_port = launch::s3_port(project.port);
    let s3_access_key = project.id.clone();
    ProjectDetailTemplate {
        project,
        buckets,
        objects,
        s3_port,
        s3_access_key,
        s3_secret_key,
        log_lines,
        user: Some(user),
        app_name,
        t,
        paas_version,
    }
}

/// What is answered to a request for a project's log that fails: the HTTP status and the text.
pub fn logs_error(error: PageError) -> (r: (u16, String))
    ensures
        r.0 == error.spec_code(),
        match error {
            PageError::NoProject(_) => r.1@ == "Project not found"@,
            PageError::NotLoaded(e) | PageError::Database(e) => r.1 == e,
        },
{
    let code = error.code();
    match error {
        PageError::NoProject(_) => (code, "Project not found".to_owned()),
        PageError::NotLoaded(e) | PageError::Database(e) => (code, e),
    }
}

/// The last lines of a project's log as one text.
pub fn project_logs(lines: &Vec<String>) -> (r: String)
    ensures
        r@ == text::joined_by(text::views(lines@), "\n"@),
{
    text::join_lines(lines, "\n")
}

// ---------------------------------------------------------------------------------------------
// The language
// ---------------------------------------------------------------------------------------------

/// The language that a client chooses, and the page that it goes on to.
#[derive(Debug)]
pub struct LangQuery {
    pub lang: String,
    pub next: Option<String>,
}

/// The value of the cookie for a chosen language, and where the client is sent next: to the start
/// page where it does not say.
pub fn set_lang(query: LangQuery) -> (r: (String, String))
    ensures
        r.0 == query.lang,
        match query.next {
            Some(url) => r.1 == url,
            None => r.1@ == "/"@,
        },
{
    let url = match query.next {
        Some(url) => url,
        None => "/".to_owned(),
    };
    (query.lang, url)
}

} // verus!
