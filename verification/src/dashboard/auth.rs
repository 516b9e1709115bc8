//! Logging in to the dashboard and out of it.

use vstd::prelude::*;
use vstd::string::*;

use crate::clock;
use crate::clock::Timestamp;
use crate::db::models;
use crate::db::models::{Session, User};
use crate::ident;

verus! {

/// Name of the cookie that holds the session's identifier.
pub const SESSION_COOKIE_NAME: &'static str = "rustpaas_session";

// ---------------------------------------------------------------------------------------------
// Who is logged in
// ---------------------------------------------------------------------------------------------

/// The user who is logged in, on a page that asks for one.
#[derive(Debug)]
pub struct AuthUser(pub User);

/// The user who is logged in, if anybody is.
#[derive(Debug)]
pub struct OptionalAuthUser(pub Option<User>);

/// Why a page that asks for a user is not shown.
#[derive(Debug, Clone, Copy, PartialEq, Eq, Structural)]
pub enum AuthRejection {
    /// The session could not be looked up.
    Database,
    /// Nobody is logged in.
    NotLoggedIn,
}

/// What came of looking for the user of the session that the cookie names, if it has not expired;
/// `None` where there is no cookie.
pub type SessionLookup = Option<Result<Option<User>, String>>;

impl AuthUser {
    /// The user for a page that asks for one.
    pub fn from_lookup(found: SessionLookup) -> (r: Result<AuthUser, AuthRejection>)
        ensures
            r == (match found {
                Some(Ok(Some(user))) => Ok::<AuthUser, AuthRejection>(AuthUser(user)),
                Some(Err(_)) => Err(AuthRejection::Database),
                _ => Err(AuthRejection::NotLoggedIn),
            }),
    {
        match found {
            Some(Ok(Some(user))) => Ok(AuthUser(user)),
            Some(Err(_)) => Err(AuthRejection::Database),
            _ => Err(AuthRejection::NotLoggedIn),
        }
    }
}

impl OptionalAuthUser {
    /// The user for a page that anybody may see. A session that could not be looked up counts as
    /// none.
    pub fn from_lookup(found: SessionLookup) -> (r: OptionalAuthUser)
        ensures
            r == OptionalAuthUser(
                match found {
                    Some(Ok(Some(user))) => Some(user),
                    _ => None,
                },
            ),
    {
        match found {
            Some(Ok(Some(user))) => OptionalAuthUser(Some(user)),
            _ => OptionalAuthUser(None),
        }
    }
}

// ---------------------------------------------------------------------------------------------
// Logging in
// ---------------------------------------------------------------------------------------------

/// What is typed in to log in.
#[derive(Debug)]
pub struct LoginPayload {
    pub username: String,
    pub password: String,
}

/// Why nobody was logged in.
#[derive(Debug, Clone, Copy, PartialEq, Eq, Structural)]
pub enum LoginError {
    WrongPassword,
    NoSuchUser,
    Internal,
}

impl LoginError {
    /// The text on the page.
    pub open spec fn text(self) -> Seq<char> {
        match self {
            LoginError::WrongPassword => "Contraseña incorrecta"@,
            LoginError::NoSuchUser => "Usuario no encontrado"@,
            LoginError::Internal => "Internal error"@,
        }
    }

    /// The text on the page.
    pub fn message(&self) -> (r: &'static str)
        ensures
            r@ == self.text(),
    {
        match self {
            LoginError::WrongPassword => "Contraseña incorrecta",
            LoginError::NoSuchUser => "Usuario no encontrado",
            LoginError::Internal => "Internal error",
        }
    }
}

/// What to do with somebody who wants to log in.
#[derive(Debug)]
pub enum LoginStep {
    /// Store this session, and log the user in once it is stored.
    Store(Session),
    /// Show the page again, with an error.
    Fail(LoginError),
}

/// What to do with somebody who wants to log in as a user at a given time. `accepted` says whether
/// the password is the user's; the session has the given identifier and lasts a week.
pub fn judge_login_at(user: &User, accepted: bool, id: String, now: Timestamp) -> (r: LoginStep)
    requires
        now.secs + models::SESSION_DAYS * clock::SECONDS_PER_DAY <= i64::MAX,
    ensures
        if accepted {
            &&& r matches LoginStep::Store(session)
            &&& session.id == id
            &&& session.user_id@ == user.id@
            &&& session.lasts_from(now)
        } else {
            r == LoginStep::Fail(LoginError::WrongPassword)
        },
{
    if accepted {
        LoginStep::Store(Session::starting(id, user.id.as_str(), now))
    } else {
        LoginStep::Fail(LoginError::WrongPassword)
    }
}

/// What to do with somebody who wants to log in as a user. `accepted` says whether the password is
/// the user's; the session has a random identifier and lasts a week from now.
pub fn judge_login(user: &User, accepted: bool) -> (r: LoginStep)
    ensures
        if accepted {
            r matches LoginStep::Store(session) && session.is_new_for(user.id@)
        } else {
            r == LoginStep::Fail(LoginError::WrongPassword)
        },
{
    if accepted {
        judge_login_at(user, true, ident::new_uuid(), clock::now())
    } else {
        LoginStep::Fail(LoginError::WrongPassword)
    }
}

/// What to do with somebody who wants to log in. `found` is the user with the name that was typed
/// in, if there is one.
pub fn login_post(payload: &LoginPayload, found: Option<&User>) -> (r: LoginStep)
    ensures
        match found {
            Some(user) => if user.accepts(payload.password@) {
                r matches LoginStep::Store(session) && session.is_new_for(user.id@)
            } else {
                r == LoginStep::Fail(LoginError::WrongPassword)
            },
            None => r == LoginStep::Fail(LoginError::NoSuchUser),
        },
{
    match found {
        Some(user) => {
            let accepted = user.verify_password(payload.password.as_str());
            judge_login(user, accepted)
        },
        None => LoginStep::Fail(LoginError::NoSuchUser),
    }
}

/// The session that somebody is logged in with, once it was stored or could not be.
pub fn after_store(session: Session, stored: Result<(), String>) -> (r: Result<Session, LoginError>)
    ensures
        r == (match stored {
            Ok(_) => Ok::<Session, LoginError>(session),
            Err(_) => Err(LoginError::Internal),
        }),
{
    match stored {
        Ok(_) => Ok(session),
        Err(_) => Err(LoginError::Internal),
    }
}

/// The session to delete when somebody logs out: the one that the cookie names.
pub fn logout_post(cookie: Option<&str>) -> (r: Option<String>)
    ensures
        match cookie {
            Some(id) => r matches Some(s) && s@ == id@,
            None => r is None,
        },
{
    match cookie {
        Some(id) => Some(id.to_owned()),
        None => None,
    }
}

} // verus!
