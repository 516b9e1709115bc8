//! What holds of logging in and of the pages.

use vstd::prelude::*;
use vstd::string::*;

use crate::clock::Timestamp;
use crate::dashboard::auth;
use crate::dashboard::auth::{
    AuthRejection, AuthUser, LoginError, LoginPayload, LoginStep, OptionalAuthUser, SessionLookup,
};
use crate::dashboard::handlers;
use crate::dashboard::handlers::{LangQuery, PageError};
use crate::dashboard::i18n;
use crate::dashboard::i18n::{Dict, Lang};
use crate::dashboard::templates::{ErrorTemplate, IndexTemplate, ProjectDetailTemplate};
use crate::db::models::{Bucket, Project, Session, User};
use crate::runner::launch;
use crate::s3::S3Object;
use crate::text;
use crate::text_laws;

verus! {

// ---------------------------------------------------------------------------------------------
// Who is logged in
// ---------------------------------------------------------------------------------------------

/// A page that asks for a user is shown to the user of the session and to nobody else. A page that
/// anybody may see knows the same user, and shows itself where none is known.
pub proof fn law_pages_know_the_user(
    found: SessionLookup,
    asked: Result<AuthUser, AuthRejection>,
    welcome: OptionalAuthUser,
)
    requires
        call_ensures(AuthUser::from_lookup, (found,), asked),
        call_ensures(OptionalAuthUser::from_lookup, (found,), welcome),
    ensures
        asked matches Ok(user) ==> found == Some(Ok::<Option<User>, String>(Some(user.0)))
            && welcome.0 == Some(user.0),
        asked is Err ==> welcome.0 is None,
        asked == Err::<AuthUser, AuthRejection>(AuthRejection::Database) <==> (found matches Some(
            looked_up,
        ) && looked_up is Err),
        found matches Some(Ok(Some(_))) ==> asked is Ok,
{
}

/// Logging in gives a session exactly where the user is there and the password is the user's. The
/// session is that user's; an unknown name and a wrong password are told apart.
pub proof fn law_login(payload: LoginPayload, user: User, known: LoginStep, unknown: LoginStep)
    requires
        call_ensures(auth::login_post, (&payload, Some(&user)), known),
        call_ensures(auth::login_post, (&payload, None), unknown),
    ensures
        known is Store <==> user.accepts(payload.password@),
        known matches LoginStep::Store(session) ==> session.user_id@ == user.id@,
        known matches LoginStep::Fail(e) ==> e == LoginError::WrongPassword,
        unknown == LoginStep::Fail(LoginError::NoSuchUser),
{
}

/// A session that a login gives is the user's and lasts seven days; where the password was not
/// accepted there is none.
pub proof fn law_judged_login(
    user: User,
    accepted: bool,
    id: String,
    now: Timestamp,
    r: LoginStep,
    s: LoginStep,
)
    requires
        call_ensures(auth::judge_login_at, (&user, accepted, id, now), r),
        call_ensures(auth::judge_login, (&user, accepted), s),
    ensures
        r is Store <==> accepted,
        s is Store <==> accepted,
        r matches LoginStep::Store(session) ==> {
            &&& session.id == id
            &&& session.user_id@ == user.id@
            &&& session.expires_at.secs == now.secs + 604_800
            &&& session.expires_at.nanos == now.nanos
        },
        s matches LoginStep::Store(session) ==> session.user_id@ == user.id@,
        !accepted ==> r == LoginStep::Fail(LoginError::WrongPassword) && s == LoginStep::Fail(
            LoginError::WrongPassword,
        ),
{
}

/// The session that was stored is the one that the user gets, and nobody gets one that was not
/// stored. Logging out deletes the session that the cookie names.
pub proof fn law_sessions_are_stored(
    session: Session,
    stored: Result<(), String>,
    r: Result<Session, LoginError>,
    cookie: Option<&str>,
    out: Option<String>,
)
    requires
        call_ensures(auth::after_store, (session, stored), r),
        call_ensures(auth::logout_post, (cookie,), out),
    ensures
        r is Ok <==> stored is Ok,
        r matches Ok(given) ==> given == session,
        r matches Err(e) ==> e == LoginError::Internal,
        out is Some <==> cookie is Some,
        out matches Some(id) ==> id@ == cookie->0@,
{
}

// ---------------------------------------------------------------------------------------------
// Pages
// ---------------------------------------------------------------------------------------------

/// The list of projects shows all that were found, to the user who asked; where none could be
/// loaded, it says why.
pub proof fn law_index(
    found: Result<Vec<Project>, String>,
    user: User,
    app_name: String,
    t: Dict,
    paas_version: &'static str,
    r: Result<IndexTemplate, (u16, ErrorTemplate)>,
)
    requires
        call_ensures(handlers::index, (found, user, app_name, t, paas_version), r),
    ensures
        r is Ok <==> found is Ok,
        r matches Ok(page) ==> page.projects == found->Ok_0 && page.user == Some(user)
            && page.app_name == app_name && page.t == t && page.paas_version == paas_version,
        r matches Err((status, page)) ==> status == page.code && page.code == 500 && page.user
            == Some(user) && page.app_name == app_name && page.t == t && page.paas_version
            == paas_version && found->Err_0@.is_suffix_of(page.message@),
{
    if r is Err {
        let e = found->Err_0@;
        let message = r->Err_0.1.message@;
        assert(message.subrange(message.len() - e.len(), message.len() as int) =~= e);
    }
}

/// The page of a project shows that project, with its own keys and the port of its S3 server, which
/// is ten thousand above the project's.
pub proof fn law_project_page(
    project: Project,
    buckets: Vec<Bucket>,
    objects: Vec<S3Object>,
    secret: String,
    log_lines: Vec<String>,
    user: User,
    app_name: String,
    t: Dict,
    paas_version: &'static str,
    page: ProjectDetailTemplate,
)
    requires
        call_ensures(
            handlers::project_detail,
            (project, buckets, objects, secret, log_lines, user, app_name, t, paas_version),
            page,
        ),
        0 <= project.port <= 55_535,
    ensures
        page.project == project,
        page.buckets == buckets,
        page.objects == objects,
        page.log_lines == log_lines,
        page.s3_port == project.port + 10_000,
        page.s3_access_key == project.id,
        page.s3_secret_key == secret,
        page.user == Some(user),
        page.app_name == app_name,
        page.t == t,
        page.paas_version == paas_version,
{
    launch::law_s3_port(project.port);
}

/// A project that is there is shown; one that is not is told by the identifier that was asked for,
/// and as not there; anything else went wrong here.
pub proof fn law_project_or_error(
    found: Result<Option<Project>, String>,
    id: &str,
    r: Result<Project, PageError>,
)
    requires
        call_ensures(handlers::project_or_error, (found, id), r),
    ensures
        r is Ok <==> (found matches Ok(row) && row is Some),
        r matches Ok(project) ==> found == Ok::<Option<Project>, String>(Some(project)),
        r matches Err(e) ==> {
            &&& found is Ok <==> e.spec_code() == 404
            &&& found is Err <==> e.spec_code() == 500
            &&& found is Ok ==> e.text() == "Project '"@ + id@ + "' not found"@
            &&& found matches Err(why) ==> e.text() == "DB error: "@ + why@
        },
{
}

/// The first bucket is the one whose objects are shown, and none where there is none.
pub proof fn law_shown_bucket(buckets: Vec<Bucket>, r: Option<&Bucket>)
    requires
        call_ensures(handlers::shown_bucket, (&buckets,), r),
    ensures
        r is Some <==> buckets@.len() > 0,
        r matches Some(bucket) ==> *bucket == buckets@[0],
{
}

/// The logs are shown line by line, so that reading them gives the lines back, where none of them
/// holds a line feed, none ends in a carriage return and the last is not empty.
pub proof fn law_shown_logs(lines: Vec<String>, r: String)
    requires
        call_ensures(handlers::project_logs, (&lines,), r),
        forall|i: int|
            0 <= i < lines@.len() ==> !(#[trigger] lines@[i])@.contains('\n') && !(lines@[i]@.len()
                > 0 && lines@[i]@.last() == '\r'),
        lines@.len() > 0 ==> lines@.last()@.len() > 0,
    ensures
        text::lines_of(r@) == text::views(lines@),
{
    reveal_strlit("\n");
    assert("\n"@ =~= seq!['\n']);
    let views = text::views(lines@);
    assert forall|i: int| 0 <= i < views.len() implies !(#[trigger] views[i]).contains('\n') && !(
    views[i].len() > 0 && views[i].last() == '\r') by {
        assert(views[i] == lines@[i]@);
    }
    text_laws::law_joined_lines_come_back(views);
}

/// What goes wrong with the logs is told in plain text, with the status of the page.
pub proof fn law_logs_error(error: PageError, r: (u16, String))
    requires
        call_ensures(handlers::logs_error, (error,), r),
    ensures
        r.0 == (if error is NoProject {
            404u16
        } else {
            500u16
        }),
        error is NoProject ==> r.1@ == "Project not found"@,
        error matches PageError::Database(e) ==> r.1 == e,
        error matches PageError::NotLoaded(e) ==> r.1 == e,
{
}

/// An error page has the code as its status, where it is one, and shows what it was given.
pub proof fn law_error_page(
    code: u16,
    message: String,
    user: Option<User>,
    app_name: String,
    t: Dict,
    paas_version: &'static str,
    r: (u16, ErrorTemplate),
    status: u16,
)
    requires
        call_ensures(handlers::error_page, (code, message, user, app_name, t, paas_version), r),
        call_ensures(handlers::error_status, (code,), status),
    ensures
        r.0 == status,
        100 <= code <= 999 ==> status == code,
        !(100 <= code <= 999) ==> status == 500,
        r.1.code == code && r.1.message == message && r.1.user == user && r.1.app_name == app_name
            && r.1.t == t && r.1.paas_version == paas_version,
{
}

/// Who is logged in goes on to the dashboard; everybody else sees the landing page.
pub proof fn law_landing(user: User, known: Option<&'static str>, unknown: Option<&'static str>)
    requires
        call_ensures(handlers::landing, (Some(&user),), known),
        call_ensures(handlers::landing, (None,), unknown),
    ensures
        known matches Some(url) && url@ == "/dashboard"@,
        unknown is None,
{
}

/// A language is set to what was asked for, and the way back leads to where the visitor wanted to
/// go, or to the start.
pub proof fn law_set_lang(query: LangQuery, r: (String, String))
    requires
        call_ensures(handlers::set_lang, (query,), r),
    ensures
        r.0 == query.lang,
        query.next matches Some(url) ==> r.1 == url,
        query.next is None ==> r.1@ == "/"@,
{
}

/// A visitor who asks for English first, in letters of either size, gets English, and everybody
/// else Spanish, also who asks for nothing.
pub proof fn law_language(accept: &str, asked: Lang, not_asked: Lang)
    requires
        call_ensures(Lang::from_header, (Some(accept),), asked),
        call_ensures(Lang::from_header, (None,), not_asked),
        vstd::utf8::is_ascii_chars(accept@),
    ensures
        not_asked.0 == i18n::spanish(),
        ({
            let english = accept@.len() >= 2 && (accept@[0] == 'e' || accept@[0] == 'E') && (
            accept@[1] == 'n' || accept@[1] == 'N');
            asked.0 == (if english {
                i18n::english()
            } else {
                i18n::spanish()
            })
        }),
{
    reveal_strlit("en");
    let lowered = accept@.map_values(|c: char| text::ascii_lower(c));
    if accept@.len() >= 2 {
        assert(lowered[0] == text::ascii_lower(accept@[0]));
        assert(lowered[1] == text::ascii_lower(accept@[1]));
        assert("en"@[0] == 'e' && "en"@[1] == 'n' && "en"@.len() == 2);
        if lowered[0] == 'e' && lowered[1] == 'n' {
            assert("en"@ =~= lowered.subrange(0, 2));
        }
        if "en"@.is_prefix_of(lowered) {
            assert(lowered.subrange(0, 2)[0] == 'e' && lowered.subrange(0, 2)[1] == 'n');
        }
    }
}

/// A login that fails is told in the words of the dictionaries: what the user got wrong in Spanish,
/// and what went wrong here in English.
pub proof fn law_login_errors_are_worded()
    ensures
        LoginError::WrongPassword.text() == i18n::spanish().login_err_pass@,
        LoginError::NoSuchUser.text() == i18n::spanish().login_err_user@,
        LoginError::Internal.text() == i18n::english().login_err_internal@,
{
}

} // verus!
