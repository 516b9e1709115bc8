//! Who a request comes from.

use vstd::prelude::*;
use vstd::string::*;

use crate::db::models::User;
use crate::text;

verus! {

/// What to do next to find out who a request comes from.
#[derive(Debug)]
pub enum AccessStep {
    /// Look for the user with this API key.
    FindKey(String),
    /// Look for the user of the session with this identifier, if it has not expired.
    FindSession(String),
    /// It is the user with this identifier.
    Known(String),
    /// Nobody is known to have sent it.
    Unknown,
}

/// The API key that an `Authorization` header carries.
pub open spec fn bearer_key(header: Option<&str>) -> Option<Seq<char>> {
    match header {
        Some(h) => if "Bearer "@.is_prefix_of(h@) {
            Some(h@.skip("Bearer "@.len() as int))
        } else {
            None
        },
        None => None,
    }
}

/// True for the step that goes on with the session cookie.
pub open spec fn tries_session(step: AccessStep, cookie: Option<&str>) -> bool {
    match cookie {
        Some(c) => step matches AccessStep::FindSession(id) && id@ == c@,
        None => step is Unknown,
    }
}

fn try_session(cookie: Option<&str>) -> (r: AccessStep)
    ensures
        tries_session(r, cookie),
{
    match cookie {
        Some(c) => AccessStep::FindSession(c.to_owned()),
        None => AccessStep::Unknown,
    }
}

/// True for the first step of a request with this header and this session cookie: an API key is
/// tried before the cookie.
pub open spec fn starts(step: AccessStep, header: Option<&str>, cookie: Option<&str>) -> bool {
    match bearer_key(header) {
        Some(key) => step matches AccessStep::FindKey(k) && k@ == key,
        None => tries_session(step, cookie),
    }
}

/// Starts to find out who a request comes from.
pub fn authenticate(header: Option<&str>, cookie: Option<&str>) -> (r: AccessStep)
    ensures
        starts(r, header, cookie),
{
    match header {
        Some(h) => if text::starts_with(h, "Bearer ") {
            let n = h.unicode_len();
            let m = "Bearer ".unicode_len();
            assert(h@.subrange(m as int, n as int) =~= h@.skip(m as int));
            AccessStep::FindKey(h.substring_char(m, n).to_owned())
        } else {
            try_session(cookie)
        },
        None => try_session(cookie),
    }
}

/// Goes on once the API key was looked for. A key that nobody has, or that could not be looked
/// for, leaves the session cookie.
pub fn after_key(found: Result<Option<String>, String>, cookie: Option<&str>) -> (r: AccessStep)
    ensures
        match found {
            Ok(Some(user)) => r == AccessStep::Known(user),
            _ => tries_session(r, cookie),
        },
{
    match found {
        Ok(Some(user)) => AccessStep::Known(user),
        _ => try_session(cookie),
    }
}

/// Ends once the session was looked for.
pub fn after_session(found: Result<Option<String>, String>) -> (r: AccessStep)
    ensures
        r == (match found {
            Ok(Some(user)) => AccessStep::Known(user),
            _ => AccessStep::Unknown,
        }),
{
    match found {
        Ok(Some(user)) => AccessStep::Known(user),
        _ => AccessStep::Unknown,
    }
}

/// Nobody is known to have sent a request before something was looked up for it, and nothing is
/// looked up only where it has neither an API key nor a session cookie.
pub proof fn law_no_credentials_no_user(
    step: AccessStep,
    header: Option<&str>,
    cookie: Option<&str>,
)
    requires
        starts(step, header, cookie),
    ensures
        !(step is Known),
        step is Unknown <==> bearer_key(header) is None && cookie is None,
{
}

// ---------------------------------------------------------------------------------------------
// The first user
// ---------------------------------------------------------------------------------------------

/// What to do so that there is an administrator.
#[derive(Debug)]
pub enum AdminStep {
    /// There is one, with this identifier.
    Exists(String),
    /// Store this one.
    Create(User),
}

/// Sees to it that there is an administrator. `existing` is the identifier of the one there is.
pub fn ensure_admin_user(existing: Option<String>) -> (r: AdminStep)
    ensures
        match existing {
            Some(id) => r == AdminStep::Exists(id),
            None => r matches AdminStep::Create(user) && user.is_new("admin"@, "admin123"@),
        },
{
    match existing {
        Some(id) => AdminStep::Exists(id),
        None => AdminStep::Create(User::new("admin", "admin123")),
    }
}

} // verus!
