//! What holds of the rows of the platform's database.

use vstd::prelude::*;
use vstd::string::*;

use crate::clock::Timestamp;
use crate::config::Config;
use crate::db;
use crate::db::models;
use crate::db::models::{Bucket, DeployHistory, Project, ProjectStatus, Session, User};
use crate::ident;

verus! {

// ---------------------------------------------------------------------------------------------
// Users and sessions
// ---------------------------------------------------------------------------------------------

/// A point in time is later than another where its second is, or where it is in the same second
/// and its nanosecond is later; a session counts up to, and not including, its end.
pub proof fn law_session_ends(session: Session, t: Timestamp)
    requires
        session.expires_at.wf(),
        t.wf(),
    ensures
        session.valid_at(t) <==> {
            ||| session.expires_at.secs > t.secs
            ||| session.expires_at.secs == t.secs && session.expires_at.nanos > t.nanos
        },
        !session.valid_at(session.expires_at),
{
    if session.expires_at.secs > t.secs {
        assert(session.expires_at.secs * 1_000_000_000 >= (t.secs + 1) * 1_000_000_000);
    }
    if session.expires_at.secs < t.secs {
        assert(t.secs * 1_000_000_000 >= (session.expires_at.secs + 1) * 1_000_000_000);
    }
}

/// A session lasts seven days from its start: it counts at its start and until a nanosecond before
/// the same time of day a week later.
pub proof fn law_session_lasts_a_week(
    id: String,
    user_id: &str,
    start: Timestamp,
    t: Timestamp,
    session: Session,
)
    requires
        call_ensures(Session::starting, (id, user_id, start), session),
        start.wf(),
        t.wf(),
    ensures
        session.id == id,
        session.user_id@ == user_id@,
        session.expires_at.wf(),
        session.valid_at(t) <==> {
            ||| t.secs < start.secs + 7 * 24 * 60 * 60
            ||| t.secs == start.secs + 7 * 24 * 60 * 60 && t.nanos < start.nanos
        },
{
    law_session_ends(session, t);
}

/// A new session belongs to the user that it was made for, and lasts seven days from some reading
/// of the clock.
pub proof fn law_new_session(user_id: &str, session: Session) -> (start: Timestamp)
    requires
        call_ensures(Session::new, (user_id,), session),
    ensures
        session.user_id@ == user_id@,
        ident::is_uuid(session.id@),
        start.wf(),
        session.expires_at.secs == start.secs + 604_800,
        session.expires_at.nanos == start.nanos,
        session.valid_at(start),
{
    let start = choose|start: Timestamp| #[trigger]
        crate::clock::is_reading(start) && session.lasts_from(start);
    law_session_ends(session, start);
    start
}

/// A user is made of the parts that are given, and has the digits of the second identifier as the
/// key, behind the prefix that every key has.
pub proof fn law_user_of_parts(
    id: String,
    username: &str,
    hash: Option<String>,
    key_uuid: &str,
    created_at: Timestamp,
    user: User,
)
    requires
        call_ensures(User::from_parts, (id, username, hash, key_uuid, created_at), user),
    ensures
        user.id == id,
        user.username@ == username@,
        hash matches Some(h) ==> user.password_hash == h,
        hash is None ==> user.password_hash@.len() == 0,
        user.created_at == created_at,
        user.api_key matches Some(key) && "paas_sk_"@.is_prefix_of(key@),
        ident::is_uuid(key_uuid@) ==> (user.api_key matches Some(key) && key@.len() == 40),
{
    reveal_strlit("paas_sk_");
    let key = user.api_key->0@;
    assert(key.take(8) =~= "paas_sk_"@);
}

/// A new user has the name, and logs in with the password unless it could not be hashed; nobody's
/// key is without the prefix.
pub proof fn law_new_user(username: &str, password: &str, user: User)
    requires
        call_ensures(User::new, (username, password), user),
    ensures
        user.username@ == username@,
        user.accepts(password@) || user.password_hash@.len() == 0,
        ident::is_uuid(user.id@),
        user.api_key matches Some(key) && key@.len() == 40 && "paas_sk_"@.is_prefix_of(key@),
{
    reveal_strlit("paas_sk_");
    let key = user.api_key->0@;
    let digits = choose|digits: Seq<char>|
        {
            &&& #[trigger] digits.len() == 32
            &&& forall|i: int| 0 <= i < 32 ==> ident::is_hex(#[trigger] digits[i])
            &&& key == models::api_key_prefix() + digits
        };
    assert(key == "paas_sk_"@ + digits);
    assert(key.take(8) =~= "paas_sk_"@);
}

/// Only a clear yes lets anybody in.
pub proof fn law_accepted(verdict: Option<bool>, r: bool)
    requires
        call_ensures(models::accepted, (verdict,), r),
    ensures
        r <==> verdict is Some && verdict->0,
{
}

// ---------------------------------------------------------------------------------------------
// Projects
// ---------------------------------------------------------------------------------------------

/// A project's row has what it was made with, each in its own field, and nothing else: it has no
/// process, no domain and no limit, and waits to be started.
pub proof fn law_row_of_project(
    id: String,
    name: &str,
    subdomain: &str,
    port: u16,
    user_id: &str,
    t: Timestamp,
    project: Project,
)
    requires
        call_ensures(Project::made_at, (id, name, subdomain, port, user_id, t), project),
    ensures
        project.id == id,
        project.name@ == name@,
        project.subdomain@ == subdomain@,
        project.port == port,
        project.user_id@ == user_id@,
        project.created_at == t,
        project.updated_at == t,
        project.status@ == "Stopped"@,
        project.pid is None,
        project.custom_domain is None,
        project.ram_limit_mb is None,
{
}

/// A new project's row has what it was made with and was made and changed at one time.
pub proof fn law_new_row(name: &str, subdomain: &str, port: u16, user_id: &str, project: Project)
    requires
        call_ensures(Project::new, (name, subdomain, port, user_id), project),
    ensures
        ident::is_uuid(project.id@),
        project.name@ == name@,
        project.subdomain@ == subdomain@,
        project.port == port,
        project.user_id@ == user_id@,
        project.created_at == project.updated_at,
        project.status@ == "Stopped"@,
        project.pid is None,
        project.custom_domain is None,
        project.ram_limit_mb is None,
{
}

/// A project is running exactly where its row says so, and its status is the one that the row
/// names.
pub proof fn law_running_is_stored(project: Project, running: bool, status: ProjectStatus)
    requires
        call_ensures(Project::is_running, (&project,), running),
        call_ensures(Project::status, (&project,), status),
    ensures
        running <==> project.status@ == "Running"@,
        status == ProjectStatus::Running <==> project.status@ == "Running"@,
        status == ProjectStatus::Suspended <==> project.status@ == "Suspended"@,
        status == ProjectStatus::Stopped <==> project.status@ == "Stopped"@,
        status == ProjectStatus::Deploying <==> project.status@ == "Deploying"@,
{
    models::law_status_labels(project.status@);
}

// ---------------------------------------------------------------------------------------------
// History and buckets
// ---------------------------------------------------------------------------------------------

/// Of a history, the entry at a place stays exactly where fewer than the given number come before
/// it, and what goes is deleted under its own path.
pub proof fn law_prune(
    history: Vec<DeployHistory>,
    max: i64,
    split: (Vec<DeployHistory>, Vec<DeployHistory>),
    paths: Vec<String>,
    i: int,
)
    requires
        call_ensures(DeployHistory::prune, (history, max), split),
        call_ensures(DeployHistory::binary_paths, (&split.1,), paths),
        0 <= i < history@.len(),
    ensures
        split.0@.len() + split.1@.len() == history@.len(),
        paths@.len() == split.1@.len(),
        i < max ==> i < split.0@.len() && split.0@[i] == history@[i],
        i >= max ==> {
            &&& i >= split.0@.len()
            &&& split.1@[i - split.0@.len()] == history@[i]
            &&& paths@[i - split.0@.len()] == history@[i].binary_path
        },
{
}

/// A bucket has the name and the project that it was made for.
pub proof fn law_bucket(
    id: String,
    name: &str,
    project_id: &str,
    t: Timestamp,
    made: Bucket,
    new: Bucket,
)
    requires
        call_ensures(Bucket::made_at, (id, name, project_id, t), made),
        call_ensures(Bucket::new, (name, project_id), new),
    ensures
        made.id == id,
        made.created_at == t,
        ident::is_uuid(new.id@),
        made.name@ == name@ && new.name@ == name@,
        made.project_id@ == project_id@ && new.project_id@ == project_id@,
{
}

/// The bucket of a project is named after it, behind the same word for all.
pub proof fn law_bucket_name(name: &str, bucket: String)
    requires
        call_ensures(models::bucket_name, (name,), bucket),
    ensures
        bucket@ == "bucket-"@ + name@,
{
}

/// The platform's database lies in its data directory and is made where it is not there.
pub proof fn law_database_url(config: Config, url: String)
    requires
        call_ensures(db::init_pool, (&config,), url),
        config.data_dir@.len() > 0,
        config.data_dir@.last() != '/',
    ensures
        url@ == "sqlite://"@ + config.data_dir@ + "/paas.db?mode=rwc"@,
{
    reveal_strlit("paas.db");
    reveal_strlit("?mode=rwc");
    reveal_strlit("/paas.db?mode=rwc");
    assert("sqlite://"@ + (config.data_dir@.push('/') + "paas.db"@) + "?mode=rwc"@ =~= "sqlite://"@
        + config.data_dir@ + "/paas.db?mode=rwc"@);
}

} // verus!
