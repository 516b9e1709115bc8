//! The rows of the database.

use vstd::prelude::*;
use vstd::string::*;

use crate::clock;
use crate::clock::Timestamp;
use crate::ident;
use crate::password;
use crate::text;

verus! {

// ---------------------------------------------------------------------------------------------
// Project status
// ---------------------------------------------------------------------------------------------

/// What a project is doing.
#[derive(Debug, Clone, Copy, PartialEq, Eq, Structural)]
pub enum ProjectStatus {
    Running,
    Stopped,
    Deploying,
    Suspended,
    Error,
}

impl ProjectStatus {
    /// The status as it is stored.
    pub open spec fn label(self) -> Seq<char> {
        match self {
            ProjectStatus::Running => "Running"@,
            ProjectStatus::Stopped => "Stopped"@,
            ProjectStatus::Deploying => "Deploying"@,
            ProjectStatus::Suspended => "Suspended"@,
            ProjectStatus::Error => "Error"@,
        }
    }

    /// The status that a stored text stands for; an unknown text stands for an error.
    pub open spec fn from_label(s: Seq<char>) -> ProjectStatus {
        if s == "Running"@ {
            ProjectStatus::Running
        } else if s == "Stopped"@ {
            ProjectStatus::Stopped
        } else if s == "Deploying"@ {
            ProjectStatus::Deploying
        } else if s == "Suspended"@ {
            ProjectStatus::Suspended
        } else {
            ProjectStatus::Error
        }
    }

    /// The status as it is stored.
    pub fn to_string(&self) -> (r: String)
        ensures
            r@ == self.label(),
    {
        match self {
            ProjectStatus::Running => "Running".to_owned(),
            ProjectStatus::Stopped => "Stopped".to_owned(),
            ProjectStatus::Deploying => "Deploying".to_owned(),
            ProjectStatus::Suspended => "Suspended".to_owned(),
            ProjectStatus::Error => "Error".to_owned(),
        }
    }
}

/// Reading back a status that was stored gives the status.
pub proof fn law_status_round_trip(status: ProjectStatus)
    ensures
        ProjectStatus::from_label(status.label()) == status,
{
    reveal_strlit("Running");
    reveal_strlit("Stopped");
    reveal_strlit("Deploying");
    reveal_strlit("Suspended");
    reveal_strlit("Error");
    assert("Running"@[0] == 'R' && "Stopped"@[0] == 'S' && "Deploying"@[0] == 'D');
    assert("Suspended"@[0] == 'S' && "Suspended"@[1] == 'u' && "Stopped"@[1] == 't');
    assert("Error"@[0] == 'E');
}

/// Each status is stored under its own name, and any text but the names of the other four stands
/// for an error.
pub proof fn law_status_labels(s: Seq<char>)
    ensures
        ProjectStatus::from_label(s) == ProjectStatus::Running <==> s == "Running"@,
        ProjectStatus::from_label(s) == ProjectStatus::Stopped <==> s == "Stopped"@,
        ProjectStatus::from_label(s) == ProjectStatus::Deploying <==> s == "Deploying"@,
        ProjectStatus::from_label(s) == ProjectStatus::Suspended <==> s == "Suspended"@,
{
    law_status_round_trip(ProjectStatus::Running);
    law_status_round_trip(ProjectStatus::Stopped);
    law_status_round_trip(ProjectStatus::Deploying);
    law_status_round_trip(ProjectStatus::Suspended);
}

// ---------------------------------------------------------------------------------------------
// User
// ---------------------------------------------------------------------------------------------

/// A user of the platform.
#[derive(Debug)]
pub struct User {
    pub id: String,
    pub username: String,
    pub password_hash: String,
    pub api_key: Option<String>,
    pub created_at: Timestamp,
}

/// The start of every API key.
pub open spec fn api_key_prefix() -> Seq<char> {
    "paas_sk_"@
}

/// True for an API key: the prefix, and 32 hexadecimal digits.
pub open spec fn is_api_key(key: Seq<char>) -> bool {
    exists|digits: Seq<char>|
        {
            &&& #[trigger] digits.len() == 32
            &&& forall|i: int| 0 <= i < 32 ==> ident::is_hex(#[trigger] digits[i])
            &&& key == api_key_prefix() + digits
        }
}

/// The API key made from a UUID.
pub fn api_key_from(uuid: &str) -> (r: String)
    ensures
        r@ == api_key_prefix() + text::substituted(uuid@, '-', Seq::empty()),
        ident::is_uuid(uuid@) ==> is_api_key(r@),
{
    let mut r = "paas_sk_".to_owned();
    let digits = text::replace_char(uuid, '-', "");
    r.append(digits.as_str());
    proof {
        reveal_strlit("");
        assert(""@ =~= Seq::<char>::empty());
        if ident::is_uuid(uuid@) {
            ident::lemma_uuid_without_hyphens(uuid@);
            assert(digits@.len() == 32);
        }
    }
    r
}

/// True where checking a password gave a positive verdict; a check that failed gives none.
pub fn accepted(verdict: Option<bool>) -> (r: bool)
    ensures
        r == (verdict == Some(true)),
{
    match verdict {
        Some(b) => b,
        None => false,
    }
}

impl User {
    /// True for the passwords that this user logs in with.
    pub open spec fn accepts(self, password: Seq<char>) -> bool {
        password::verdict(password, self.password_hash@) == Some(true)
    }

    /// A user with the given values; where no hash could be made, the stored hash is empty.
    pub fn from_parts(
        id: String,
        username: &str,
        hash: Option<String>,
        key_uuid: &str,
        created_at: Timestamp,
    ) -> (r: User)
        ensures
            r.id == id,
            r.username@ == username@,
            match hash {
                Some(h) => r.password_hash == h,
                None => r.password_hash@.len() == 0,
            },
            r.api_key matches Some(k) && k@ == api_key_prefix() + text::substituted(
                key_uuid@,
                '-',
                Seq::empty(),
            ),
            ident::is_uuid(key_uuid@) ==> is_api_key(r.api_key->0@),
            r.created_at == created_at,
    {
        let password_hash = match hash {
            Some(h) => h,
            None => String::new(),
        };
        User {
            id,
            username: username.to_owned(),
            password_hash,
            api_key: Some(api_key_from(key_uuid)),
            created_at,
        }
    }

    /// True for a user who was just made with this name and password.
    pub open spec fn is_new(self, username: Seq<char>, password: Seq<char>) -> bool {
        &&& ident::is_uuid(self.id@)
        &&& self.username@ == username
        &&& self.accepts(password) || self.password_hash@.len() == 0
        &&& self.api_key is Some
        &&& is_api_key(self.api_key->0@)
        &&& self.created_at.wf()
        &&& self.created_at.secs >= 0
    }

    /// A new user with this name and password, a random identifier and a random API key. The user
    /// logs in with the password, unless no hash could be made: then the stored hash is empty.
    pub fn new(username: &str, password: &str) -> (r: User)
        ensures
            r.is_new(username@, password@),
    {
        let hash = password::hash(password).ok();
        let key_uuid = ident::new_uuid();
        let id = ident::new_uuid();
        User::from_parts(id, username, hash, key_uuid.as_str(), clock::now())
    }

    /// True when the password is this user's. A stored hash that is no bcrypt hash has no password,
    /// and so has an empty one.
    pub fn verify_password(&self, password: &str) -> (r: bool)
        ensures
            r == self.accepts(password@),
            !password::is_bcrypt_shaped(self.password_hash@) ==> !r,
            !self.password_hash@.contains('$') ==> !r,
    {
        proof {
            if !self.password_hash@.contains('$') {
                password::lemma_without_dollar(self.password_hash@);
            }
        }
        accepted(password::verify(password, self.password_hash.as_str()).ok())
    }
}

// ---------------------------------------------------------------------------------------------
// Session
// ---------------------------------------------------------------------------------------------

/// Days that a session lasts.
pub const SESSION_DAYS: u32 = 7;

/// A login.
#[derive(Debug)]
pub struct Session {
    pub id: String,
    pub user_id: String,
    pub expires_at: Timestamp,
}

impl Session {
    /// True at the points in time at which the session still counts.
    pub open spec fn valid_at(self, t: Timestamp) -> bool {
        self.expires_at.instant() > t.instant()
    }

    /// True for a session that started at this time: it expires a week later.
    pub open spec fn lasts_from(self, start: Timestamp) -> bool {
        &&& self.expires_at.secs == start.secs + SESSION_DAYS * clock::SECONDS_PER_DAY
        &&& self.expires_at.nanos == start.nanos
    }

    /// True for a session of this user that started at a reading of the clock.
    pub open spec fn is_new_for(self, user_id: Seq<char>) -> bool {
        &&& ident::is_uuid(self.id@)
        &&& self.user_id@ == user_id
        &&& self.expires_at.wf()
        &&& self.expires_at.secs >= SESSION_DAYS * clock::SECONDS_PER_DAY
        &&& exists|start: Timestamp| #[trigger] clock::is_reading(start) && self.lasts_from(start)
    }

    /// A session that starts at the given time.
    pub fn starting(id: String, user_id: &str, start: Timestamp) -> (r: Session)
        requires
            start.secs + SESSION_DAYS * clock::SECONDS_PER_DAY <= i64::MAX,
        ensures
            r.id == id,
            r.user_id@ == user_id@,
            r.lasts_from(start),
    {
        Session { id, user_id: user_id.to_owned(), expires_at: start.plus_days(SESSION_DAYS) }
    }

    /// A session with a random identifier that starts now.
    pub fn new(user_id: &str) -> (r: Session)
        ensures
            r.is_new_for(user_id@),
    {
        let id = ident::new_uuid();
        Session::starting(id, user_id, clock::now())
    }

    /// True when the session still counts at the given time.
    pub fn is_valid_at(&self, t: &Timestamp) -> (r: bool)
        requires
            self.expires_at.wf(),
            t.wf(),
        ensures
            r == self.valid_at(*t),
    {
        self.expires_at.is_after(t)
    }
}

/// A session counts for seven days after it started, and no longer.
pub proof fn law_session_lasts_a_week(session: Session, start: Timestamp, t: Timestamp)
    requires
        session.lasts_from(start),
    ensures
        session.valid_at(t) <==> t.instant() - start.instant() < 7 * 24 * 3600 * 1_000_000_000,
{
}

// ---------------------------------------------------------------------------------------------
// Project
// ---------------------------------------------------------------------------------------------

/// A deployed project.
#[derive(Debug)]
pub struct Project {
    pub id: String,
    pub name: String,
    pub subdomain: String,
    /// Port on the host that the project's process listens on.
    pub port: i64,
    /// The status, as text.
    pub status: String,
    /// Process identifier of the running process, if there is one.
    pub pid: Option<i64>,
    pub user_id: String,
    pub created_at: Timestamp,
    pub updated_at: Timestamp,
    /// Domain of its own that the project is reached by, if it has one.
    pub custom_domain: Option<String>,
    /// Memory limit in MB; none where it is unlimited.
    pub ram_limit_mb: Option<i64>,
}

impl Clone for Project {
    fn clone(&self) -> (r: Project)
        ensures
            r == *self,
    {
        Project {
            id: self.id.clone(),
            name: self.name.clone(),
            subdomain: self.subdomain.clone(),
            port: self.port,
            status: self.status.clone(),
            pid: self.pid,
            user_id: self.user_id.clone(),
            created_at: self.created_at,
            updated_at: self.updated_at,
            custom_domain: text::clone_opt(&self.custom_domain),
            ram_limit_mb: self.ram_limit_mb,
        }
    }
}

impl Project {
    /// The status that the row stands for.
    pub open spec fn spec_status(self) -> ProjectStatus {
        ProjectStatus::from_label(self.status@)
    }

    /// True for the row of a project that was just made at time `t`.
    pub open spec fn is_fresh(
        self,
        name: Seq<char>,
        subdomain: Seq<char>,
        port: u16,
        user_id: Seq<char>,
        t: Timestamp,
    ) -> bool {
        &&& self.name@ == name
        &&& self.subdomain@ == subdomain
        &&& self.port == port
        &&& self.status@ == ProjectStatus::Stopped.label()
        &&& self.pid is None
        &&& self.user_id@ == user_id
        &&& self.created_at == t
        &&& self.updated_at == t
        &&& self.custom_domain is None
        &&& self.ram_limit_mb is None
    }

    /// The row of a project made at the given time.
    pub fn made_at(
        id: String,
        name: &str,
        subdomain: &str,
        port: u16,
        user_id: &str,
        t: Timestamp,
    ) -> (r: Project)
        ensures
            r.id == id,
            r.is_fresh(name@, subdomain@, port, user_id@, t),
    {
        Project {
            id,
            name: name.to_owned(),
            subdomain: subdomain.to_owned(),
            port: port as i64,
            status: ProjectStatus::Stopped.to_string(),
            pid: None,
            user_id: user_id.to_owned(),
            created_at: t,
            updated_at: t,
            custom_domain: None,
            ram_limit_mb: None,
        }
    }

    /// The row of a new project, with a random identifier, made now.
    pub fn new(name: &str, subdomain: &str, port: u16, user_id: &str) -> (r: Project)
        ensures
            ident::is_uuid(r.id@),
            r.is_fresh(name@, subdomain@, port, user_id@, r.created_at),
            r.created_at.wf(),
            r.created_at.secs >= 0,
    {
        let t = clock::now();
        Project::made_at(ident::new_uuid(), name, subdomain, port, user_id, t)
    }

    /// The status that the row stands for.
    pub fn status(&self) -> (r: ProjectStatus)
        ensures
            r == self.spec_status(),
    {
        let s = self.status.as_str();
        if text::same(s, "Running") {
            ProjectStatus::Running
        } else if text::same(s, "Stopped") {
            ProjectStatus::Stopped
        } else if text::same(s, "Deploying") {
            ProjectStatus::Deploying
        } else if text::same(s, "Suspended") {
            ProjectStatus::Suspended
        } else {
            ProjectStatus::Error
        }
    }

    /// True when the row says that the project is running.
    pub fn is_running(&self) -> (r: bool)
        ensures
            r == (self.spec_status() == ProjectStatus::Running),
    {
        self.status() == ProjectStatus::Running
    }
}

// ---------------------------------------------------------------------------------------------
// Deploy history
// ---------------------------------------------------------------------------------------------

/// A snapshot that a project can be rolled back to.
#[derive(Debug)]
pub struct DeployHistory {
    pub id: String,
    pub project_id: String,
    pub binary_path: String,
    pub is_bundle: bool,
    pub deployed_at: Timestamp,
}

/// The number of entries of a history that stay when only the last `max` are kept.
pub open spec fn kept(len: nat, max: i64) -> int {
    if max <= 0 {
        0
    } else if max < len {
        max as int
    } else {
        len as int
    }
}

/// True for a history with the newest entry first.
pub open spec fn newest_first(history: Seq<DeployHistory>) -> bool {
    forall|i: int, j: int|
        0 <= i < j < history.len() ==> #[trigger] history[i].deployed_at.instant()
            >= #[trigger] history[j].deployed_at.instant()
}

impl DeployHistory {
    /// Splits a history, newest entry first, into the last `max` entries, which stay, and the
    /// older ones, which go.
    pub fn prune(history: Vec<DeployHistory>, max: i64) -> (r: (
        Vec<DeployHistory>,
        Vec<DeployHistory>,
    ))
        ensures
            r.0@ == history@.take(kept(history@.len(), max)),
            r.1@ == history@.skip(kept(history@.len(), max)),
    {
        let n = history.len();
        let keep: usize = if max <= 0 {
            0
        } else if (max as u64) < n as u64 {
            max as usize
        } else {
            n
        };
        let mut stay = history;
        let go = stay.split_off(keep);
        proof {
            assert(keep == kept(history@.len(), max));
            assert(stay@ =~= history@.take(keep as int));
            assert(go@ =~= history@.skip(keep as int));
        }
        (stay, go)
    }

    /// The files of the given entries.
    pub fn binary_paths(history: &Vec<DeployHistory>) -> (r: Vec<String>)
        ensures
            r@ == history@.map_values(|h: DeployHistory| h.binary_path),
    {
        let mut r: Vec<String> = Vec::new();
        let mut i: usize = 0;
        while i < history.len()
            invariant
                i <= history@.len(),
                r@ == history@.take(i as int).map_values(|h: DeployHistory| h.binary_path),
            decreases history@.len() - i,
        {
            r.push(history[i].binary_path.clone());
            i += 1;
            assert(r@ =~= history@.take(i as int).map_values(|h: DeployHistory| h.binary_path));
        }
        assert(history@.take(history@.len() as int) =~= history@);
        r
    }
}

/// Pruning splits the history in two and keeps at most `max` entries of it.
pub proof fn law_prune_splits(history: Seq<DeployHistory>, max: i64)
    ensures
        history.take(kept(history.len(), max)) + history.skip(kept(history.len(), max)) == history,
        max >= 0 ==> history.take(kept(history.len(), max)).len() <= max,
        max >= history.len() ==> history.skip(kept(history.len(), max)).len() == 0,
{
    let k = kept(history.len(), max);
    assert(history.take(k) + history.skip(k) =~= history);
}

/// Pruning keeps the newest entries: none that goes is newer than one that stays.
pub proof fn law_prune_keeps_the_newest(history: Seq<DeployHistory>, max: i64, i: int, j: int)
    requires
        newest_first(history),
        0 <= i < kept(history.len(), max) <= j < history.len(),
    ensures
        history[i].deployed_at.instant() >= history[j].deployed_at.instant(),
{
}

/// A history from which all but the newest `max` entries are dropped before each new one never
/// holds more than one entry beyond those.
pub proof fn law_history_stays_short(history: Seq<DeployHistory>, entry: DeployHistory, max: i64)
    requires
        max >= 0,
    ensures
        (seq![entry] + history.take(kept(history.len(), max))).len() <= max + 1,
{
}

// ---------------------------------------------------------------------------------------------
// Bucket
// ---------------------------------------------------------------------------------------------

/// A bucket of a project.
#[derive(Debug)]
pub struct Bucket {
    pub id: String,
    pub name: String,
    pub project_id: String,
    pub created_at: Timestamp,
}

/// The name of the bucket that a project is given when it is first deployed.
pub open spec fn bucket_name_of(project_name: Seq<char>) -> Seq<char> {
    "bucket-"@ + project_name
}

/// The name of the bucket that a project is given when it is first deployed.
pub fn bucket_name(project_name: &str) -> (r: String)
    ensures
        r@ == bucket_name_of(project_name@),
{
    let mut r = "bucket-".to_owned();
    r.append(project_name);
    r
}

/// Two projects with different names have different buckets.
pub proof fn law_bucket_names_differ(a: Seq<char>, b: Seq<char>)
    requires
        a != b,
    ensures
        bucket_name_of(a) != bucket_name_of(b),
{
    let n = "bucket-"@.len() as int;
    if bucket_name_of(a) == bucket_name_of(b) {
        assert(a =~= bucket_name_of(a).skip(n));
        assert(b =~= bucket_name_of(b).skip(n));
    }
}

impl Bucket {
    /// The row of a bucket made at the given time.
    pub fn made_at(id: String, name: &str, project_id: &str, t: Timestamp) -> (r: Bucket)
        ensures
            r.id == id,
            r.name@ == name@,
            r.project_id@ == project_id@,
            r.created_at == t,
    {
        Bucket { id, name: name.to_owned(), project_id: project_id.to_owned(), created_at: t }
    }

    /// The row of a new bucket, with a random identifier, made now.
    pub fn new(name: &str, project_id: &str) -> (r: Bucket)
        ensures
            ident::is_uuid(r.id@),
            r.name@ == name@,
            r.project_id@ == project_id@,
            r.created_at.wf(),
            r.created_at.secs >= 0,
    {
        let id = ident::new_uuid();
        Bucket::made_at(id, name, project_id, clock::now())
    }
}

} // verus!
