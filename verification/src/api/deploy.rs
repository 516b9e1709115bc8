//! The requests to the API, step by step. A request is a run: at each stage there is one action to
//! take outside, and what came of it takes the run to its next stage, until it is answered.

use vstd::prelude::*;
use vstd::string::*;

use crate::api::form;
use crate::api::form::Upload;
use crate::api::refusal::Refusal;
use crate::db::models::{DeployHistory, Project, ProjectStatus};
use crate::ident;
use crate::text;

verus! {

/// Number of snapshots of a project that are kept when another one is added.
pub const MAX_DEPLOY_HISTORY: i64 = 3;

// ---------------------------------------------------------------------------------------------
// What clients send
// ---------------------------------------------------------------------------------------------

/// The query of a deploy.
#[derive(Debug)]
pub struct DeployQuery {
    pub name: Option<String>,
    pub subdomain: Option<String>,
}

/// New contents of a project's `.env` file.
#[derive(Debug)]
pub struct UpdateEnvPayload {
    pub env_content: String,
}

/// A new custom domain; none, or a blank one, takes the custom domain away.
#[derive(Debug)]
pub struct CustomDomainPayload {
    pub domain: Option<String>,
}

/// A new memory limit in MB; none takes the limit away.
#[derive(Debug)]
pub struct ResourceLimitsPayload {
    pub ram_limit_mb: Option<i64>,
}

/// A request. Those about one project carry its identifier.
#[derive(Debug)]
pub enum Command {
    /// Deploy what is uploaded. A new project gets a port of the range, both ends included.
    Deploy { start: u16, end: u16 },
    ListProjects,
    DeleteProject { id: String },
    RestartProject { id: String },
    StopProject { id: String },
    DownloadBackup { id: String },
    GetEnv { id: String },
    UpdateEnv { id: String, content: String },
    ListDeploys { id: String },
    RollbackDeploy { id: String, deploy_id: String },
    GetMetrics { id: String },
    SetCustomDomain { id: String, domain: Option<String> },
    SetLimits { id: String, ram_limit_mb: Option<i64> },
    CaddyConfig,
}

// ---------------------------------------------------------------------------------------------
// Answers
// ---------------------------------------------------------------------------------------------

/// The answer to a request that was not refused.
#[derive(Debug)]
pub enum Reply {
    /// A project runs what was uploaded; `fresh` tells a new project from one that was there.
    Deployed { project_id: String, name: String, port: u16, pid: u32, fresh: bool },
    Projects(Vec<Project>),
    Deleted(String),
    Restarted(u32),
    Stopped,
    /// The backup of the project with this name.
    Backup { name: String, bytes: Vec<u8> },
    /// The project's `.env` file, if it could be read.
    Env(Option<String>),
    EnvUpdated,
    Deploys(Vec<DeployHistory>),
    RolledBack(u32),
    /// What the process of the project with this identifier uses.
    Metrics(String),
    DomainSet(Option<String>),
    LimitSet,
    /// A configuration for these projects.
    Caddy(Vec<Project>),
}

impl Reply {
    /// The HTTP status of the answer.
    pub open spec fn code(self) -> u16 {
        match self {
            Reply::Deployed { fresh, .. } => if fresh {
                201
            } else {
                200
            },
            _ => 200,
        }
    }

    /// The HTTP status of the answer.
    pub fn status(&self) -> (r: u16)
        ensures
            r == self.code(),
    {
        match self {
            Reply::Deployed { fresh, .. } => if *fresh {
                201
            } else {
                200
            },
            _ => 200,
        }
    }
}

/// What the client is told of a deploy.
#[derive(Debug)]
pub struct DeployResponse {
    pub project_id: String,
    pub name: String,
    pub port: u16,
    pub pid: u32,
    pub message: String,
}

impl DeployResponse {
    /// What the client is told of a deploy.
    pub fn of(project_id: String, name: String, port: u16, pid: u32, fresh: bool) -> (r:
        DeployResponse)
        ensures
            r.project_id == project_id,
            r.name == name,
            r.port == port,
            r.pid == pid,
            r.message@ == (if fresh {
                "Deployed successfully"@
            } else {
                "Re-deployed successfully"@
            }),
    {
        let message = if fresh {
            "Deployed successfully".to_owned()
        } else {
            "Re-deployed successfully".to_owned()
        };
        DeployResponse { project_id, name, port, pid, message }
    }
}

/// The text of a `.env` file; one that could not be read is empty.
pub fn env_text(content: Option<String>) -> (r: String)
    ensures
        match content {
            Some(s) => r == s,
            None => r@.len() == 0,
        },
{
    match content {
        Some(s) => s,
        None => String::new(),
    }
}

// ---------------------------------------------------------------------------------------------
// Actions and events
// ---------------------------------------------------------------------------------------------

/// What to do next for a request, and what event tells of it.
#[derive(Debug)]
pub enum Action {
    /// Find out who the request comes from. `User`.
    Authenticate,
    /// Take the lock that only one deploy holds at a time, for the rest of the run. `Locked`.
    AcquireLock,
    /// Read the form. `Form`.
    ReadForm,
    /// Look for the project with this name. `Found`.
    FindByName(String),
    /// Look for the project with this identifier. `Found`.
    FindById(String),
    /// Look for all projects. `AllFound`.
    FindAll,
    /// Save a snapshot of what the upload of this stage replaces. `Saved`.
    SaveSnapshot,
    /// Drop all but the newest entries of the project's history. `Pruned`.
    PruneHistory { project_id: String, keep: i64 },
    /// Delete these files; those that are gone already are passed over. `Done`.
    DeleteSnapshots(Vec<String>),
    /// Add an entry to the project's history. `Done`.
    RecordSnapshot { project_id: String, path: String, is_bundle: bool },
    /// Unpack the bundle of this stage into the workspace of the project with this name.
    /// `Extracted`.
    ExtractBundle(String),
    /// Keep these bytes as the current bundle of the project with this name. `Done`.
    KeepBundle { name: String, bytes: Vec<u8> },
    /// Remove the current bundle of the project with this name, if there is one: it is not what the
    /// project runs any more. `Done`.
    DropBundle(String),
    /// Write the binary of the project with this name, and make it executable. `Done`.
    WriteBinary { name: String, bytes: Vec<u8> },
    /// Copy this file, if there is one, to where the binary of the project with this name is, and
    /// make that executable. `Done`.
    PlaceBinary { from: Option<String>, name: String },
    /// List the ports of all projects. `Ports`.
    ListPorts,
    /// Store a new project. `Done`.
    StoreProject(Project),
    /// Make the bucket that a new project gets. `Done`.
    MakeBucket { project_id: String, name: String },
    /// Store that bucket. `Done`.
    StoreBucket { project_id: String, name: String },
    /// Kill the process of the project with this identifier, if there is one. `Done`.
    Kill(String),
    /// Store the status of the project with this identifier. `Done`.
    SetStatus { id: String, status: ProjectStatus, pid: Option<i64> },
    /// Start this project. `Spawned`.
    Spawn(Project),
    /// Delete the project with this identifier. `Done`.
    Delete(String),
    /// Remove the directory of the project with this name. `Done`.
    RemoveAppDir(String),
    /// Remove the storage of the project with this identifier. `Done`.
    RemoveStorage(String),
    /// See whether the project with this name has a database. `Exists`.
    CheckDatabase(String),
    /// Remove the copy of the database of the project with this name, if there is one. `Done`.
    RemoveBackup(String),
    /// Copy the database of the project with this name. The copy must not be there yet. `Vacuumed`.
    Vacuum(String),
    /// Read that copy. `Bytes`.
    ReadBackup(String),
    /// Read the `.env` file of the project with this name. `Text`.
    ReadEnv(String),
    /// Make the directory for the data of the project with this name. `Done`.
    MakeDataDir(String),
    /// Write the `.env` file of the project with this name. `Done`.
    SaveEnv { name: String, content: String },
    /// Look for the history of the project with this identifier. `Deploys`.
    FindDeploys(String),
    /// Look for the entry of a history with this identifier. `FoundDeploy`.
    FindDeploy(String),
    /// See whether this file is there. `Exists`.
    CheckSnapshot(String),
    /// Read this file. `Bytes`.
    ReadSnapshot(String),
    /// Look for the entry named after the project at the root of its workspace. `Located`.
    SearchWorkspace(String),
    /// Copy this file to where the binary of the project with this name is. `Done`.
    RestoreBinary { snapshot: String, name: String },
    /// Store the custom domain of the project with this identifier. `Done`.
    SetDomain { id: String, domain: Option<String> },
    /// Store the memory limit of the project with this identifier. `Done`.
    SetRamLimit { id: String, ram_limit_mb: Option<i64> },
    /// Answer. Nothing follows.
    Reply(Reply),
    /// Answer with a refusal. Nothing follows.
    Refuse(Refusal),
}

/// Why a database was not copied.
#[derive(Debug)]
pub enum VacuumError {
    /// It could not be opened.
    Open(String),
    /// The copy failed.
    Copy(String),
    /// The copy could not be waited for.
    Task(String),
}

/// What came of an action. Where something failed, its text is told.
#[derive(Debug)]
pub enum Event {
    User(Option<String>),
    Locked(bool),
    Form(Result<Upload, Refusal>),
    Found(Result<Option<Project>, String>),
    AllFound(Result<Vec<Project>, String>),
    Saved(Result<String, String>),
    Pruned(Result<Vec<String>, String>),
    Extracted(Result<String, String>),
    Ports(Result<Vec<i64>, String>),
    Spawned(Result<u32, String>),
    Exists(bool),
    Vacuumed(Result<(), VacuumError>),
    Bytes(Result<Vec<u8>, String>),
    Text(Option<String>),
    Deploys(Result<Vec<DeployHistory>, String>),
    FoundDeploy(Result<Option<DeployHistory>, String>),
    Located(Option<String>),
    Done(Result<(), String>),
}

// ---------------------------------------------------------------------------------------------
// Stages
// ---------------------------------------------------------------------------------------------

/// What a project that was looked up by its identifier is wanted for.
#[derive(Debug)]
pub enum Errand {
    Delete,
    Restart,
    Backup,
    GetEnv,
    UpdateEnv { content: String },
    Rollback { deploy_id: String },
    Limits,
}

/// Why a project is started.
#[derive(Debug)]
pub enum Why {
    /// A new project was deployed under this name.
    Deploy { name: String },
    /// The project was deployed again under this name.
    Redeploy { name: String },
    Restart,
    UpdateEnv,
    Rollback,
    Limits,
}

/// A project that is about to be started, and the identifier that its status is stored under.
#[derive(Debug)]
pub struct Launch {
    pub id: String,
    pub project: Project,
    pub why: Why,
}

/// How far a run has come: what is being done, and what is known for the rest.
#[derive(Debug)]
pub enum Stage {
    Authenticating { command: Command },
    // Deploying.
    Locking { user: String, start: u16, end: u16 },
    ReadingForm { user: String, start: u16, end: u16 },
    FindingByName { user: String, upload: Upload, start: u16, end: u16 },
    SavingSnapshot { upload: Upload, project: Project },
    Pruning { upload: Upload, project: Project, snapshot: String },
    DeletingSnapshots { upload: Upload, project: Project, snapshot: String },
    RecordingSnapshot { upload: Upload, project: Project },
    ListingPorts { user: String, upload: Upload, start: u16, end: u16 },
    Storing { upload: Upload, project: Project },
    Extracting { project: Project, upload: Upload, fresh: bool },
    KeepingBundle { project: Project, name: String, fresh: bool, binary: String },
    DroppingBundle { project: Project, name: String, fresh: bool, binary: String },
    Placing { project: Project, name: String, fresh: bool },
    Writing { project: Project, name: String, fresh: bool },
    Superseding { project: Project, name: String, fresh: bool },
    MakingBucket { project: Project, name: String },
    StoringBucket { project: Project, name: String },
    // A project by its identifier.
    Finding { id: String, errand: Errand },
    // Starting a project.
    Killing { launch: Launch },
    MarkingDeploying { launch: Launch },
    Spawning { launch: Launch },
    MarkingRunning { launch: Launch, pid: u32 },
    MarkingError { launch: Launch, error: String },
    // Deleting a project.
    KillingDeleted { id: String, project: Project },
    Deleting { id: String, project: Project },
    RemovingAppDir { id: String, project: Project },
    RemovingStorage { id: String },
    // Stopping a project.
    Stopping { id: String },
    MarkingStopped,
    // Backups.
    CheckingDatabase { name: String },
    ClearingBackup { name: String },
    Vacuuming { name: String },
    ReadingBackup { name: String },
    DiscardingBackup { name: String, bytes: Vec<u8> },
    // Variables.
    ReadingEnv,
    MakingDataDir { id: String, project: Project, content: String },
    SavingEnv { id: String, project: Project },
    // Rolling back.
    FindingDeploy { id: String, project: Project },
    CheckingSnapshot { id: String, project: Project, entry: DeployHistory },
    ReadingSnapshot { id: String, project: Project },
    ExtractingSnapshot { id: String, project: Project, bytes: Vec<u8> },
    KeepingSnapshot { id: String, project: Project },
    DroppingSnapshot { id: String, project: Project },
    SearchingWorkspace { id: String, project: Project },
    PlacingSnapshot { id: String, project: Project },
    Restoring { id: String, project: Project },
    SupersedingRestored { id: String, project: Project },
    // Lists and settings.
    ListingProjects,
    ListingForCaddy,
    ListingDeploys,
    SettingDomain { domain: Option<String> },
    SettingLimit { id: String },
    /// The request was answered.
    Finished,
}

impl Stage {
    /// True for an event that can follow the action of this stage.
    pub open spec fn expects(self, event: Event) -> bool {
        match self {
            Stage::Authenticating { .. } => event is User,
            Stage::Locking { .. } => event is Locked,
            Stage::ReadingForm { .. } => event is Form,
            Stage::FindingByName { .. } => event is Found,
            Stage::SavingSnapshot { .. } => event is Saved,
            Stage::Pruning { .. } => event is Pruned,
            Stage::ListingPorts { .. } => event is Ports,
            Stage::Extracting { .. } => event is Extracted,
            Stage::Finding { .. } => event is Found,
            Stage::Spawning { .. } => event is Spawned,
            Stage::CheckingDatabase { .. } => event is Exists,
            Stage::Vacuuming { .. } => event is Vacuumed,
            Stage::ReadingBackup { .. } => event is Bytes,
            Stage::ReadingEnv => event is Text,
            Stage::FindingDeploy { .. } => event is FoundDeploy,
            Stage::CheckingSnapshot { .. } => event is Exists,
            Stage::ReadingSnapshot { .. } => event is Bytes,
            Stage::ExtractingSnapshot { .. } => event is Extracted,
            Stage::SearchingWorkspace { .. } => event is Located,
            Stage::ListingProjects => event is AllFound,
            Stage::ListingForCaddy => event is AllFound,
            Stage::ListingDeploys => event is Deploys,
            Stage::Finished => false,
            _ => event is Done,
        }
    }

    /// True for an event that can follow the action of this stage.
    pub fn is_expected(&self, event: &Event) -> (r: bool)
        ensures
            r == self.expects(*event),
    {
        match self {
            Stage::Authenticating { .. } => matches!(event, Event::User(_)),
            Stage::Locking { .. } => matches!(event, Event::Locked(_)),
            Stage::ReadingForm { .. } => matches!(event, Event::Form(_)),
            Stage::FindingByName { .. } => matches!(event, Event::Found(_)),
            Stage::SavingSnapshot { .. } => matches!(event, Event::Saved(_)),
            Stage::Pruning { .. } => matches!(event, Event::Pruned(_)),
            Stage::ListingPorts { .. } => matches!(event, Event::Ports(_)),
            Stage::Extracting { .. } => matches!(event, Event::Extracted(_)),
            Stage::Finding { .. } => matches!(event, Event::Found(_)),
            Stage::Spawning { .. } => matches!(event, Event::Spawned(_)),
            Stage::CheckingDatabase { .. } => matches!(event, Event::Exists(_)),
            Stage::Vacuuming { .. } => matches!(event, Event::Vacuumed(_)),
            Stage::ReadingBackup { .. } => matches!(event, Event::Bytes(_)),
            Stage::ReadingEnv => matches!(event, Event::Text(_)),
            Stage::FindingDeploy { .. } => matches!(event, Event::FoundDeploy(_)),
            Stage::CheckingSnapshot { .. } => matches!(event, Event::Exists(_)),
            Stage::ReadingSnapshot { .. } => matches!(event, Event::Bytes(_)),
            Stage::ExtractingSnapshot { .. } => matches!(event, Event::Extracted(_)),
            Stage::SearchingWorkspace { .. } => matches!(event, Event::Located(_)),
            Stage::ListingProjects => matches!(event, Event::AllFound(_)),
            Stage::ListingForCaddy => matches!(event, Event::AllFound(_)),
            Stage::ListingDeploys => matches!(event, Event::Deploys(_)),
            Stage::Finished => false,
            _ => matches!(event, Event::Done(_)),
        }
    }

    /// The upload, at the stage at which a snapshot of what it replaces is saved.
    pub fn upload(&self) -> (r: Option<&Upload>)
        ensures
            match self {
                Stage::SavingSnapshot { upload, .. } => r == Some(upload),
                _ => r is None,
            },
    {
        match self {
            Stage::SavingSnapshot { upload, .. } => Some(upload),
            _ => None,
        }
    }

    /// The bundle, at a stage at which it is unpacked.
    pub fn bundle(&self) -> (r: Option<&Vec<u8>>)
        ensures
            match self {
                Stage::Extracting { upload, .. } => r == Some(&upload.binary),
                Stage::ExtractingSnapshot { bytes, .. } => r == Some(bytes),
                _ => r is None,
            },
    {
        match self {
            Stage::Extracting { upload, .. } => Some(&upload.binary),
            Stage::ExtractingSnapshot { bytes, .. } => Some(bytes),
            _ => None,
        }
    }

    /// Steps that are left at most.
    pub open spec fn rank(self) -> nat {
        match self {
            Stage::Authenticating { .. } => 17,
            Stage::Locking { .. } => 16,
            Stage::ReadingForm { .. } => 15,
            Stage::FindingByName { .. } | Stage::SettingLimit { .. } => 14,
            Stage::SavingSnapshot { .. } | Stage::Finding { .. } => 13,
            Stage::Pruning { .. } | Stage::FindingDeploy { .. } => 12,
            Stage::DeletingSnapshots { .. } | Stage::CheckingSnapshot { .. }
            | Stage::ListingPorts { .. } => 11,
            Stage::Storing { .. } | Stage::RecordingSnapshot { .. }
            | Stage::ReadingSnapshot { .. } => 10,
            Stage::Extracting { .. } | Stage::ExtractingSnapshot { .. } => 9,
            Stage::KeepingBundle { .. } | Stage::KeepingSnapshot { .. } => 8,
            Stage::DroppingBundle { .. } | Stage::DroppingSnapshot { .. }
            | Stage::Writing { .. } => 7,
            Stage::Superseding { .. } | Stage::Placing { .. } | Stage::MakingDataDir { .. }
            | Stage::SearchingWorkspace { .. } | Stage::Restoring { .. } => 6,
            Stage::MakingBucket { .. } | Stage::SavingEnv { .. } | Stage::SupersedingRestored { .. }
            | Stage::PlacingSnapshot { .. } | Stage::CheckingDatabase { .. } => 5,
            Stage::Killing { .. } | Stage::KillingDeleted { .. } | Stage::StoringBucket { .. }
            | Stage::ClearingBackup { .. } => 4,
            Stage::MarkingDeploying { .. } | Stage::Deleting { .. } | Stage::Vacuuming { .. } => 3,
            Stage::Spawning { .. } | Stage::RemovingAppDir { .. } | Stage::ReadingBackup { .. }
            | Stage::Stopping { .. } => 2,
            Stage::Finished => 0,
            _ => 1,
        }
    }
}

// ---------------------------------------------------------------------------------------------
// Steps
// ---------------------------------------------------------------------------------------------

/// The run is answered.
pub open spec fn replied(reply: Reply) -> (Stage, Action) {
    (Stage::Finished, Action::Reply(reply))
}

/// The run is refused.
pub open spec fn refused(refusal: Refusal) -> (Stage, Action) {
    (Stage::Finished, Action::Refuse(refusal))
}

/// The project with this identifier is looked up.
pub open spec fn looked_up(id: String, errand: Errand) -> (Stage, Action) {
    (Stage::Finding { id, errand }, Action::FindById(id))
}

/// The project's process is killed before the project is started.
pub open spec fn killed_first(launch: Launch) -> (Stage, Action) {
    (Stage::Killing { launch }, Action::Kill(launch.id))
}

/// The project is marked as being deployed before it is started.
pub open spec fn marked_deploying(launch: Launch) -> (Stage, Action) {
    (
        Stage::MarkingDeploying { launch },
        Action::SetStatus { id: launch.id, status: ProjectStatus::Deploying, pid: None },
    )
}

/// The project is started.
pub open spec fn spawned(launch: Launch) -> (Stage, Action) {
    (Stage::Spawning { launch }, Action::Spawn(launch.project))
}

/// The upload is put in place: a bundle is unpacked, a binary is written.
pub open spec fn installed(upload: Upload, project: Project, fresh: bool) -> (Stage, Action) {
    if upload.spec_is_bundle() {
        (Stage::Extracting { project, upload, fresh }, Action::ExtractBundle(upload.name))
    } else {
        (
            Stage::Writing { project, name: upload.name, fresh },
            Action::WriteBinary { name: upload.name, bytes: upload.binary },
        )
    }
}

/// The binary of a bundle that was unpacked is put in place.
pub open spec fn placed(project: Project, name: String, fresh: bool, binary: String) -> (
    Stage,
    Action,
) {
    (
        Stage::Placing { project, name, fresh },
        Action::PlaceBinary { from: Some(binary), name },
    )
}

/// The workspace into which a snapshot was unpacked is searched for the binary.
pub open spec fn searched(id: String, project: Project) -> (Stage, Action) {
    (Stage::SearchingWorkspace { id, project }, Action::SearchWorkspace(project.name))
}

/// What follows once the upload is in place: a new project gets its bucket, the process of one
/// that was there is killed.
pub open spec fn in_place(project: Project, name: String, fresh: bool) -> (Stage, Action) {
    if fresh {
        (
            Stage::MakingBucket { project, name },
            Action::MakeBucket { project_id: project.id, name },
        )
    } else {
        killed_first(Launch { id: project.id, project, why: Why::Redeploy { name } })
    }
}

/// A snapshot is entered in the project's history.
pub open spec fn snapshot_recorded(upload: Upload, project: Project, snapshot: String) -> (
    Stage,
    Action,
) {
    (
        Stage::RecordingSnapshot { upload, project },
        Action::RecordSnapshot {
            project_id: project.id,
            path: snapshot,
            is_bundle: upload.spec_is_bundle(),
        },
    )
}

/// What a new project is started for.
pub open spec fn first_launch(project: Project, name: String) -> Launch {
    Launch { id: project.id, project, why: Why::Deploy { name } }
}

/// The custom domain that a text stands for: a blank one stands for none.
pub open spec fn meant_domain(domain: Option<String>) -> Option<String> {
    match domain {
        Some(d) => if text::trimmed(d@).len() == 0 {
            None
        } else {
            Some(d)
        },
        None => None,
    }
}

/// What a request starts with, once it is known who it comes from.
pub open spec fn begun(user: String, command: Command) -> (Stage, Action) {
    match command {
        Command::Deploy { start, end } => (
            Stage::Locking { user, start, end },
            Action::AcquireLock,
        ),
        Command::ListProjects => (Stage::ListingProjects, Action::FindAll),
        Command::DeleteProject { id } => looked_up(id, Errand::Delete),
        Command::RestartProject { id } => looked_up(id, Errand::Restart),
        Command::StopProject { id } => (Stage::Stopping { id }, Action::Kill(id)),
        Command::DownloadBackup { id } => looked_up(id, Errand::Backup),
        Command::GetEnv { id } => looked_up(id, Errand::GetEnv),
        Command::UpdateEnv { id, content } => looked_up(id, Errand::UpdateEnv { content }),
        Command::ListDeploys { id } => (Stage::ListingDeploys, Action::FindDeploys(id)),
        Command::RollbackDeploy { id, deploy_id } => looked_up(
            id,
            Errand::Rollback { deploy_id },
        ),
        Command::GetMetrics { id } => replied(Reply::Metrics(id)),
        Command::SetCustomDomain { id, domain } => (
            Stage::SettingDomain { domain: meant_domain(domain) },
            Action::SetDomain { id, domain: meant_domain(domain) },
        ),
        Command::SetLimits { id, ram_limit_mb } => (
            Stage::SettingLimit { id },
            Action::SetRamLimit { id, ram_limit_mb },
        ),
        Command::CaddyConfig => (Stage::ListingForCaddy, Action::FindAll),
    }
}

/// What follows once a project was found by its identifier.
pub open spec fn pursued(id: String, errand: Errand, project: Project) -> (Stage, Action) {
    match errand {
        Errand::Delete => (Stage::KillingDeleted { id, project }, Action::Kill(id)),
        Errand::Restart => killed_first(Launch { id, project, why: Why::Restart }),
        Errand::Backup => (
            Stage::CheckingDatabase { name: project.name },
            Action::CheckDatabase(project.name),
        ),
        Errand::GetEnv => (Stage::ReadingEnv, Action::ReadEnv(project.name)),
        Errand::UpdateEnv { content } => (
            Stage::MakingDataDir { id, project, content },
            Action::MakeDataDir(project.name),
        ),
        Errand::Rollback { deploy_id } => (
            Stage::FindingDeploy { id, project },
            Action::FindDeploy(deploy_id),
        ),
        Errand::Limits => killed_first(Launch { id, project, why: Why::Limits }),
    }
}

/// What follows once the process of a project that is to be started was killed, or could not be: a
/// project with another binary than before is marked as being deployed.
pub open spec fn after_kill(launch: Launch) -> (Stage, Action) {
    match launch.why {
        Why::Redeploy { .. } | Why::Rollback => marked_deploying(launch),
        _ => spawned(launch),
    }
}

/// The answer once a project was started.
pub open spec fn success(launch: Launch, pid: u32) -> Reply {
    match launch.why {
        Why::Deploy { name } => Reply::Deployed {
            project_id: launch.project.id,
            name,
            port: #[verifier::truncate] (launch.project.port as u16),
            pid,
            fresh: true,
        },
        Why::Redeploy { name } => Reply::Deployed {
            project_id: launch.project.id,
            name,
            port: #[verifier::truncate] (launch.project.port as u16),
            pid,
            fresh: false,
        },
        Why::Restart => Reply::Restarted(pid),
        Why::UpdateEnv => Reply::EnvUpdated,
        Why::Rollback => Reply::RolledBack(pid),
        Why::Limits => Reply::LimitSet,
    }
}

/// The refusal once a project could not be started.
pub open spec fn failure(why: Why, error: String) -> Refusal {
    match why {
        Why::Deploy { .. } => Refusal::DeployFailed(error),
        Why::Redeploy { .. } => Refusal::RedeployFailed(error),
        Why::Restart => Refusal::RestartFailed(error),
        Why::UpdateEnv => Refusal::EnvRestartFailed(error),
        Why::Rollback => Refusal::RollbackFailed(error),
        Why::Limits => Refusal::LimitRestartFailed(error),
    }
}

/// What follows once a project was started, or could not be. One that was deployed or rolled back,
/// and does not start, is marked as broken.
pub open spec fn after_spawn(launch: Launch, outcome: Result<u32, String>) -> (Stage, Action) {
    match outcome {
        Ok(pid) => (
            Stage::MarkingRunning { launch, pid },
            Action::SetStatus {
                id: launch.id,
                status: ProjectStatus::Running,
                pid: Some(pid as i64),
            },
        ),
        Err(error) => match launch.why {
            Why::Deploy { .. } | Why::Redeploy { .. } | Why::Rollback => (
                Stage::MarkingError { launch, error },
                Action::SetStatus { id: launch.id, status: ProjectStatus::Error, pid: None },
            ),
            why => refused(failure(why, error)),
        },
    }
}

/// What follows once an entry of a history was looked for: it has to be one of the project's.
pub open spec fn after_find_deploy(
    id: String,
    project: Project,
    found: Result<Option<DeployHistory>, String>,
) -> (Stage, Action) {
    match found {
        Ok(Some(entry)) => if entry.project_id@ == id@ {
            (
                Stage::CheckingSnapshot { id, project, entry },
                Action::CheckSnapshot(entry.binary_path),
            )
        } else {
            refused(Refusal::NoDeploy)
        },
        Ok(None) => refused(Refusal::NoDeploy),
        Err(e) => refused(Refusal::Failed(e)),
    }
}

/// What a project is started for once a snapshot was put in place.
pub open spec fn rolled_back(id: String, project: Project) -> (Stage, Action) {
    killed_first(Launch { id, project, why: Why::Rollback })
}

/// The stage that an event leads to, and the action that is taken there. A new project is told of
/// separately.
pub open spec fn next(stage: Stage, event: Event) -> (Stage, Action) {
    match (stage, event) {
        (Stage::Authenticating { command }, Event::User(user)) => match user {
            Some(user) => begun(user, command),
            None => refused(
                if command is Deploy {
                    Refusal::UnauthenticatedDeploy
                } else {
                    Refusal::Unauthenticated
                },
            ),
        },
        // Deploying.
        (Stage::Locking { user, start, end }, Event::Locked(locked)) => if locked {
            (Stage::ReadingForm { user, start, end }, Action::ReadForm)
        } else {
            refused(Refusal::DeployInProgress)
        },
        (Stage::ReadingForm { user, start, end }, Event::Form(form)) => match form {
            Ok(upload) => (
                Stage::FindingByName { user, upload, start, end },
                Action::FindByName(upload.name),
            ),
            Err(refusal) => refused(refusal),
        },
        (Stage::FindingByName { user, upload, start, end }, Event::Found(found)) => match found {
            Ok(Some(project)) => if project.user_id@ == user@ {
                (Stage::SavingSnapshot { upload, project }, Action::SaveSnapshot)
            } else {
                refused(Refusal::OwnedByAnother)
            },
            _ => (Stage::ListingPorts { user, upload, start, end }, Action::ListPorts),
        },
        (Stage::SavingSnapshot { upload, project }, Event::Saved(saved)) => match saved {
            Ok(snapshot) => (
                Stage::Pruning { upload, project, snapshot },
                Action::PruneHistory { project_id: project.id, keep: MAX_DEPLOY_HISTORY },
            ),
            Err(_) => installed(upload, project, false),
        },
        (Stage::Pruning { upload, project, snapshot }, Event::Pruned(pruned)) => match pruned {
            Ok(paths) => (
                Stage::DeletingSnapshots { upload, project, snapshot },
                Action::DeleteSnapshots(paths),
            ),
            Err(_) => snapshot_recorded(upload, project, snapshot),
        },
        (
            Stage::DeletingSnapshots { upload, project, snapshot },
            Event::Done(_),
        ) => snapshot_recorded(upload, project, snapshot),
        (Stage::RecordingSnapshot { upload, project }, Event::Done(_)) => installed(
            upload,
            project,
            false,
        ),
        (Stage::ListingPorts { .. }, Event::Ports(Err(e))) => refused(Refusal::PortsUnknown(e)),
        (Stage::Storing { upload, project }, Event::Done(done)) => match done {
            Ok(_) => installed(upload, project, true),
            Err(e) => refused(Refusal::NotStored(e)),
        },
        (Stage::Extracting { project, upload, fresh }, Event::Extracted(found)) => match found {
            Ok(binary) => (
                Stage::KeepingBundle { project, name: upload.name, fresh, binary },
                Action::KeepBundle { name: upload.name, bytes: upload.binary },
            ),
            Err(e) => refused(Refusal::NotExtracted(e)),
        },
        (Stage::KeepingBundle { project, name, fresh, binary }, Event::Done(done)) => match done {
            Ok(_) => placed(project, name, fresh, binary),
            Err(_) => (
                Stage::DroppingBundle { project, name, fresh, binary },
                Action::DropBundle(name),
            ),
        },
        (Stage::DroppingBundle { project, name, fresh, binary }, Event::Done(_)) => placed(
            project,
            name,
            fresh,
            binary,
        ),
        (Stage::Placing { project, name, fresh }, Event::Done(_)) => in_place(project, name, fresh),
        (Stage::Writing { project, name, fresh }, Event::Done(done)) => match done {
            Ok(_) => (Stage::Superseding { project, name, fresh }, Action::DropBundle(name)),
            Err(e) => refused(Refusal::NotWritten(e)),
        },
        (Stage::Superseding { project, name, fresh }, Event::Done(_)) => in_place(
            project,
            name,
            fresh,
        ),
        (Stage::MakingBucket { project, name }, Event::Done(done)) => match done {
            Ok(_) => (
                Stage::StoringBucket { project, name },
                Action::StoreBucket { project_id: project.id, name },
            ),
            Err(_) => marked_deploying(first_launch(project, name)),
        },
        (Stage::StoringBucket { project, name }, Event::Done(_)) => marked_deploying(
            first_launch(project, name),
        ),
        // A project by its identifier.
        (Stage::Finding { id, errand }, Event::Found(found)) => match found {
            Ok(Some(project)) => pursued(id, errand, project),
            Ok(None) => refused(Refusal::NoProject),
            Err(e) => refused(Refusal::Failed(e)),
        },
        // Starting a project.
        (Stage::Killing { launch }, Event::Done(_)) => after_kill(launch),
        (Stage::MarkingDeploying { launch }, Event::Done(_)) => spawned(launch),
        (Stage::Spawning { launch }, Event::Spawned(outcome)) => after_spawn(launch, outcome),
        (Stage::MarkingRunning { launch, pid }, Event::Done(_)) => replied(success(launch, pid)),
        (Stage::MarkingError { launch, error }, Event::Done(_)) => refused(
            failure(launch.why, error),
        ),
        // Deleting a project.
        (Stage::KillingDeleted { id, project }, Event::Done(_)) => (
            Stage::Deleting { id, project },
            Action::Delete(id),
        ),
        (Stage::Deleting { id, project }, Event::Done(done)) => match done {
            Ok(_) => (
                Stage::RemovingAppDir { id, project },
                Action::RemoveAppDir(project.name),
            ),
            Err(e) => refused(Refusal::Failed(e)),
        },
        (Stage::RemovingAppDir { id, project }, Event::Done(_)) => (
            Stage::RemovingStorage { id },
            Action::RemoveStorage(project.id),
        ),
        (Stage::RemovingStorage { id }, Event::Done(_)) => replied(Reply::Deleted(id)),
        // Stopping a project.
        (Stage::Stopping { id }, Event::Done(done)) => match done {
            Ok(_) => (
                Stage::MarkingStopped,
                Action::SetStatus { id, status: ProjectStatus::Stopped, pid: None },
            ),
            Err(e) => refused(Refusal::Failed(e)),
        },
        (Stage::MarkingStopped, Event::Done(_)) => replied(Reply::Stopped),
        // Backups.
        (Stage::CheckingDatabase { name }, Event::Exists(exists)) => if exists {
            (Stage::ClearingBackup { name }, Action::RemoveBackup(name))
        } else {
            refused(Refusal::NoDatabase)
        },
        (Stage::ClearingBackup { name }, Event::Done(_)) => (
            Stage::Vacuuming { name },
            Action::Vacuum(name),
        ),
        (Stage::Vacuuming { name }, Event::Vacuumed(outcome)) => match outcome {
            Ok(_) => (Stage::ReadingBackup { name }, Action::ReadBackup(name)),
            Err(VacuumError::Open(e)) => refused(Refusal::Failed(e)),
            Err(VacuumError::Copy(e)) => refused(Refusal::BackupFailed(e)),
            Err(VacuumError::Task(e)) => refused(Refusal::BackupTaskFailed(e)),
        },
        (Stage::ReadingBackup { name }, Event::Bytes(read)) => match read {
            Ok(bytes) => (
                Stage::DiscardingBackup { name, bytes },
                Action::RemoveBackup(name),
            ),
            Err(e) => refused(Refusal::BackupUnreadable(e)),
        },
        (Stage::DiscardingBackup { name, bytes }, Event::Done(_)) => replied(
            Reply::Backup { name, bytes },
        ),
        // Variables.
        (Stage::ReadingEnv, Event::Text(content)) => replied(Reply::Env(content)),
        (Stage::MakingDataDir { id, project, content }, Event::Done(done)) => match done {
            Ok(_) => (
                Stage::SavingEnv { id, project },
                Action::SaveEnv { name: project.name, content },
            ),
            Err(e) => refused(Refusal::NoDataDir(e)),
        },
        (Stage::SavingEnv { id, project }, Event::Done(done)) => match done {
            Ok(_) => killed_first(Launch { id, project, why: Why::UpdateEnv }),
            Err(e) => refused(Refusal::EnvNotSaved(e)),
        },
        // Rolling back.
        (Stage::FindingDeploy { id, project }, Event::FoundDeploy(found)) => after_find_deploy(
            id,
            project,
            found,
        ),
        (Stage::CheckingSnapshot { id, project, entry }, Event::Exists(exists)) => if !exists {
            refused(Refusal::NoSnapshot)
        } else if entry.is_bundle {
            (Stage::ReadingSnapshot { id, project }, Action::ReadSnapshot(entry.binary_path))
        } else {
            (
                Stage::Restoring { id, project },
                Action::RestoreBinary { snapshot: entry.binary_path, name: project.name },
            )
        },
        (Stage::ReadingSnapshot { id, project }, Event::Bytes(read)) => match read {
            Ok(bytes) => (
                Stage::ExtractingSnapshot { id, project, bytes },
                Action::ExtractBundle(project.name),
            ),
            Err(e) => refused(Refusal::SnapshotUnreadable(e)),
        },
        (Stage::ExtractingSnapshot { id, project, bytes }, Event::Extracted(found)) => match found {
            Ok(_) => (
                Stage::KeepingSnapshot { id, project },
                Action::KeepBundle { name: project.name, bytes },
            ),
            Err(e) => refused(Refusal::NotExtracted(e)),
        },
        (Stage::KeepingSnapshot { id, project }, Event::Done(done)) => match done {
            Ok(_) => searched(id, project),
            Err(_) => (
                Stage::DroppingSnapshot { id, project },
                Action::DropBundle(project.name),
            ),
        },
        (Stage::DroppingSnapshot { id, project }, Event::Done(_)) => searched(id, project),
        (Stage::SearchingWorkspace { id, project }, Event::Located(path)) => (
            Stage::PlacingSnapshot { id, project },
            Action::PlaceBinary { from: path, name: project.name },
        ),
        (Stage::PlacingSnapshot { id, project }, Event::Done(_)) => rolled_back(id, project),
        (Stage::Restoring { id, project }, Event::Done(done)) => match done {
            Ok(_) => (
                Stage::SupersedingRestored { id, project },
                Action::DropBundle(project.name),
            ),
            Err(e) => refused(Refusal::NotRestored(e)),
        },
        (Stage::SupersedingRestored { id, project }, Event::Done(_)) => rolled_back(id, project),
        // Lists and settings.
        (Stage::ListingProjects, Event::AllFound(found)) => match found {
            Ok(projects) => replied(Reply::Projects(projects)),
            Err(e) => refused(Refusal::Failed(e)),
        },
        (Stage::ListingForCaddy, Event::AllFound(found)) => match found {
            Ok(projects) => replied(Reply::Caddy(projects)),
            Err(e) => refused(Refusal::Failed(e)),
        },
        (Stage::ListingDeploys, Event::Deploys(found)) => match found {
            Ok(history) => replied(Reply::Deploys(history)),
            Err(e) => refused(Refusal::Failed(e)),
        },
        (Stage::SettingDomain { domain }, Event::Done(done)) => match done {
            Ok(_) => replied(Reply::DomainSet(domain)),
            Err(e) => refused(Refusal::Failed(e)),
        },
        (Stage::SettingLimit { id }, Event::Done(done)) => match done {
            Ok(_) => looked_up(id, Errand::Limits),
            Err(e) => refused(Refusal::Failed(e)),
        },
        (stage, _) => (stage, Action::Authenticate),
    }
}

/// True for the step in which a new project gets the first free port of the range: it is stored
/// under the name of the upload, for the user who sent it. Where no port is free, the run is
/// refused.
pub open spec fn new_project(
    user: String,
    upload: Upload,
    start: u16,
    end: u16,
    used: Seq<i64>,
    after: Stage,
    action: Action,
) -> bool {
    match after {
        Stage::Storing { upload: kept, project } => {
            &&& kept == upload
            &&& action == Action::StoreProject(project)
            &&& ident::is_uuid(project.id@)
            &&& project.created_at.wf()
            &&& project.created_at.secs >= 0
            &&& exists|port: u16|
                {
                    &&& #[trigger] form::is_first_free(port, start, end, used)
                    &&& project.is_fresh(
                        upload.name@,
                        upload.name@,
                        port,
                        user@,
                        project.created_at,
                    )
                }
        },
        _ => {
            &&& (after, action) == refused(Refusal::NoPort { start, end })
            &&& forall|port: u16| start <= port <= end ==> !#[trigger] form::is_free(port, used)
        },
    }
}

/// True for the step that a run makes on an event.
pub open spec fn steps(stage: Stage, event: Event, after: Stage, action: Action) -> bool {
    stage.expects(event) && match (stage, event) {
        (Stage::ListingPorts { user, upload, start, end }, Event::Ports(Ok(used))) => new_project(
            user,
            upload,
            start,
            end,
            used@,
            after,
            action,
        ),
        _ => (after, action) == next(stage, event),
    }
}

// ---------------------------------------------------------------------------------------------
// Requests
// ---------------------------------------------------------------------------------------------

/// Where every request starts: with finding out who it comes from.
pub open spec fn received(command: Command) -> (Stage, Action) {
    (Stage::Authenticating { command }, Action::Authenticate)
}

fn receive(command: Command) -> (r: (Stage, Action))
    ensures
        r == received(command),
{
    (Stage::Authenticating { command }, Action::Authenticate)
}

/// A deploy; a new project gets a port of the range, both ends included.
pub fn deploy(start: u16, end: u16) -> (r: (Stage, Action))
    ensures
        r == received(Command::Deploy { start, end }),
{
    receive(Command::Deploy { start, end })
}

/// Lists all projects.
pub fn list_projects() -> (r: (Stage, Action))
    ensures
        r == received(Command::ListProjects),
{
    receive(Command::ListProjects)
}

/// Deletes a project, its files and its storage.
pub fn delete_project(id: String) -> (r: (Stage, Action))
    ensures
        r == received(Command::DeleteProject { id }),
{
    receive(Command::DeleteProject { id })
}

/// Restarts a project.
pub fn restart_project(id: String) -> (r: (Stage, Action))
    ensures
        r == received(Command::RestartProject { id }),
{
    receive(Command::RestartProject { id })
}

/// Stops a project.
pub fn stop_project(id: String) -> (r: (Stage, Action))
    ensures
        r == received(Command::StopProject { id }),
{
    receive(Command::StopProject { id })
}

/// Sends a copy of a project's database.
pub fn download_backup(id: String) -> (r: (Stage, Action))
    ensures
        r == received(Command::DownloadBackup { id }),
{
    receive(Command::DownloadBackup { id })
}

/// Sends a project's `.env` file.
pub fn get_env(id: String) -> (r: (Stage, Action))
    ensures
        r == received(Command::GetEnv { id }),
{
    receive(Command::GetEnv { id })
}

/// Lists the snapshots of a project.
pub fn list_deploys(id: String) -> (r: (Stage, Action))
    ensures
        r == received(Command::ListDeploys { id }),
{
    receive(Command::ListDeploys { id })
}

/// Puts a snapshot of a project in place again.
pub fn rollback_deploy(id: String, deploy_id: String) -> (r: (Stage, Action))
    ensures
        r == received(Command::RollbackDeploy { id, deploy_id }),
{
    receive(Command::RollbackDeploy { id, deploy_id })
}

/// Sends what a project's process uses.
pub fn get_metrics(id: String) -> (r: (Stage, Action))
    ensures
        r == received(Command::GetMetrics { id }),
{
    receive(Command::GetMetrics { id })
}

/// Sends a configuration for the Caddy web server.
pub fn caddy_config() -> (r: (Stage, Action))
    ensures
        r == received(Command::CaddyConfig),
{
    receive(Command::CaddyConfig)
}

/// Writes a project's `.env` file and restarts the project.
pub fn update_env(id: String, payload: UpdateEnvPayload) -> (r: (Stage, Action))
    ensures
        r == received(Command::UpdateEnv { id, content: payload.env_content }),
{
    receive(Command::UpdateEnv { id, content: payload.env_content })
}

/// Sets a project's custom domain.
pub fn set_custom_domain(id: String, payload: CustomDomainPayload) -> (r: (Stage, Action))
    ensures
        r == received(Command::SetCustomDomain { id, domain: payload.domain }),
{
    receive(Command::SetCustomDomain { id, domain: payload.domain })
}

/// Sets a project's memory limit and restarts the project.
pub fn set_limits(id: String, payload: ResourceLimitsPayload) -> (r: (Stage, Action))
    ensures
        r == received(Command::SetLimits { id, ram_limit_mb: payload.ram_limit_mb }),
{
    receive(Command::SetLimits { id, ram_limit_mb: payload.ram_limit_mb })
}

// ---------------------------------------------------------------------------------------------
// Advancing a run
// ---------------------------------------------------------------------------------------------

fn answer(reply: Reply) -> (r: (Stage, Action))
    ensures
        r == replied(reply),
{
    (Stage::Finished, Action::Reply(reply))
}

fn refuse(refusal: Refusal) -> (r: (Stage, Action))
    ensures
        r == refused(refusal),
{
    (Stage::Finished, Action::Refuse(refusal))
}

fn look_up(id: String, errand: Errand) -> (r: (Stage, Action))
    ensures
        r == looked_up(id, errand),
{
    let sought = id.clone();
    (Stage::Finding { id, errand }, Action::FindById(sought))
}

fn kill_first(launch: Launch) -> (r: (Stage, Action))
    ensures
        r == killed_first(launch),
{
    let id = launch.id.clone();
    (Stage::Killing { launch }, Action::Kill(id))
}

fn mark_deploying(launch: Launch) -> (r: (Stage, Action))
    ensures
        r == marked_deploying(launch),
{
    let id = launch.id.clone();
    (
        Stage::MarkingDeploying { launch },
        Action::SetStatus { id, status: ProjectStatus::Deploying, pid: None },
    )
}

fn spawn(launch: Launch) -> (r: (Stage, Action))
    ensures
        r == spawned(launch),
{
    let project = launch.project.clone();
    (Stage::Spawning { launch }, Action::Spawn(project))
}

fn install(upload: Upload, project: Project, fresh: bool) -> (r: (Stage, Action))
    ensures
        r == installed(upload, project, fresh),
{
    let is_bundle = upload.is_bundle();
    let name = upload.name.clone();
    if is_bundle {
        (Stage::Extracting { project, upload, fresh }, Action::ExtractBundle(name))
    } else {
        (
            Stage::Writing { project, name, fresh },
            Action::WriteBinary { name: upload.name, bytes: upload.binary },
        )
    }
}

fn place(project: Project, name: String, fresh: bool, binary: String) -> (r: (Stage, Action))
    ensures
        r == placed(project, name, fresh, binary),
{
    let named = name.clone();
    (
        Stage::Placing { project, name, fresh },
        Action::PlaceBinary { from: Some(binary), name: named },
    )
}

fn search(id: String, project: Project) -> (r: (Stage, Action))
    ensures
        r == searched(id, project),
{
    let name = project.name.clone();
    (Stage::SearchingWorkspace { id, project }, Action::SearchWorkspace(name))
}

fn go_on_in_place(project: Project, name: String, fresh: bool) -> (r: (Stage, Action))
    ensures
        r == in_place(project, name, fresh),
{
    let id = project.id.clone();
    if fresh {
        let named = name.clone();
        (
            Stage::MakingBucket { project, name },
            Action::MakeBucket { project_id: id, name: named },
        )
    } else {
        kill_first(Launch { id, project, why: Why::Redeploy { name } })
    }
}

fn record_snapshot(upload: Upload, project: Project, snapshot: String) -> (r: (Stage, Action))
    ensures
        r == snapshot_recorded(upload, project, snapshot),
{
    let is_bundle = upload.is_bundle();
    let project_id = project.id.clone();
    (
        Stage::RecordingSnapshot { upload, project },
        Action::RecordSnapshot { project_id, path: snapshot, is_bundle },
    )
}

fn launch_first(project: Project, name: String) -> (r: (Stage, Action))
    ensures
        r == marked_deploying(first_launch(project, name)),
{
    let id = project.id.clone();
    mark_deploying(Launch { id, project, why: Why::Deploy { name } })
}

/// The custom domain that a text stands for: a blank one stands for none.
pub fn normalize_domain(domain: Option<String>) -> (r: Option<String>)
    ensures
        r == meant_domain(domain),
{
    match domain {
        Some(d) => if text::trim(d.as_str()).unicode_len() == 0 {
            None
        } else {
            Some(d)
        },
        None => None,
    }
}

fn begin(user: String, command: Command) -> (r: (Stage, Action))
    ensures
        r == begun(user, command),
{
    match command {
        Command::Deploy { start, end } => (
            Stage::Locking { user, start, end },
            Action::AcquireLock,
        ),
        Command::ListProjects => (Stage::ListingProjects, Action::FindAll),
        Command::DeleteProject { id } => look_up(id, Errand::Delete),
        Command::RestartProject { id } => look_up(id, Errand::Restart),
        Command::StopProject { id } => {
            let killed = id.clone();
            (Stage::Stopping { id }, Action::Kill(killed))
        },
        Command::DownloadBackup { id } => look_up(id, Errand::Backup),
        Command::GetEnv { id } => look_up(id, Errand::GetEnv),
        Command::UpdateEnv { id, content } => look_up(id, Errand::UpdateEnv { content }),
        Command::ListDeploys { id } => (Stage::ListingDeploys, Action::FindDeploys(id)),
        Command::RollbackDeploy { id, deploy_id } => look_up(id, Errand::Rollback { deploy_id }),
        Command::GetMetrics { id } => answer(Reply::Metrics(id)),
        Command::SetCustomDomain { id, domain } => {
            let domain = normalize_domain(domain);
            let stored = text::clone_opt(&domain);
            (Stage::SettingDomain { domain }, Action::SetDomain { id, domain: stored })
        },
        Command::SetLimits { id, ram_limit_mb } => {
            let limited = id.clone();
            (Stage::SettingLimit { id }, Action::SetRamLimit { id: limited, ram_limit_mb })
        },
        Command::CaddyConfig => (Stage::ListingForCaddy, Action::FindAll),
    }
}

fn pursue(id: String, errand: Errand, project: Project) -> (r: (Stage, Action))
    ensures
        r == pursued(id, errand, project),
{
    match errand {
        Errand::Delete => {
            let killed = id.clone();
            (Stage::KillingDeleted { id, project }, Action::Kill(killed))
        },
        Errand::Restart => kill_first(Launch { id, project, why: Why::Restart }),
        Errand::Backup => {
            let name = project.name.clone();
            (Stage::CheckingDatabase { name: project.name }, Action::CheckDatabase(name))
        },
        Errand::GetEnv => (Stage::ReadingEnv, Action::ReadEnv(project.name)),
        Errand::UpdateEnv { content } => {
            let name = project.name.clone();
            (Stage::MakingDataDir { id, project, content }, Action::MakeDataDir(name))
        },
        Errand::Rollback { deploy_id } => (
            Stage::FindingDeploy { id, project },
            Action::FindDeploy(deploy_id),
        ),
        Errand::Limits => kill_first(Launch { id, project, why: Why::Limits }),
    }
}

fn go_on_after_kill(launch: Launch) -> (r: (Stage, Action))
    ensures
        r == after_kill(launch),
{
    match launch.why {
        Why::Redeploy { .. } | Why::Rollback => mark_deploying(launch),
        _ => spawn(launch),
    }
}

fn succeed(launch: Launch, pid: u32) -> (r: Reply)
    ensures
        r == success(launch, pid),
{
    let port: u16 = #[verifier::truncate] (launch.project.port as u16);
    match launch.why {
        Why::Deploy { name } => Reply::Deployed {
            project_id: launch.project.id,
            name,
            port,
            pid,
            fresh: true,
        },
        Why::Redeploy { name } => Reply::Deployed {
            project_id: launch.project.id,
            name,
            port,
            pid,
            fresh: false,
        },
        Why::Restart => Reply::Restarted(pid),
        Why::UpdateEnv => Reply::EnvUpdated,
        Why::Rollback => Reply::RolledBack(pid),
        Why::Limits => Reply::LimitSet,
    }
}

fn fail(why: Why, error: String) -> (r: Refusal)
    ensures
        r == failure(why, error),
{
    match why {
        Why::Deploy { .. } => Refusal::DeployFailed(error),
        Why::Redeploy { .. } => Refusal::RedeployFailed(error),
        Why::Restart => Refusal::RestartFailed(error),
        Why::UpdateEnv => Refusal::EnvRestartFailed(error),
        Why::Rollback => Refusal::RollbackFailed(error),
        Why::Limits => Refusal::LimitRestartFailed(error),
    }
}

fn go_on_after_spawn(launch: Launch, outcome: Result<u32, String>) -> (r: (Stage, Action))
    ensures
        r == after_spawn(launch, outcome),
{
    let id = launch.id.clone();
    match outcome {
        Ok(pid) => (
            Stage::MarkingRunning { launch, pid },
            Action::SetStatus { id, status: ProjectStatus::Running, pid: Some(pid as i64) },
        ),
        Err(error) => match launch.why {
            Why::Deploy { .. } | Why::Redeploy { .. } | Why::Rollback => (
                Stage::MarkingError { launch, error },
                Action::SetStatus { id, status: ProjectStatus::Error, pid: None },
            ),
            _ => refuse(fail(launch.why, error)),
        },
    }
}

fn go_on_after_find_deploy(
    id: String,
    project: Project,
    found: Result<Option<DeployHistory>, String>,
) -> (r: (Stage, Action))
    ensures
        r == after_find_deploy(id, project, found),
{
    match found {
        Ok(Some(entry)) => if text::same(entry.project_id.as_str(), id.as_str()) {
            let path = entry.binary_path.clone();
            (Stage::CheckingSnapshot { id, project, entry }, Action::CheckSnapshot(path))
        } else {
            refuse(Refusal::NoDeploy)
        },
        Ok(None) => refuse(Refusal::NoDeploy),
        Err(e) => refuse(Refusal::Failed(e)),
    }
}

fn roll_back(id: String, project: Project) -> (r: (Stage, Action))
    ensures
        r == rolled_back(id, project),
{
    kill_first(Launch { id, project, why: Why::Rollback })
}

fn make_project(user: String, upload: Upload, start: u16, end: u16, used: Vec<i64>) -> (r: (
    Stage,
    Action,
))
    ensures
        new_project(user, upload, start, end, used@, r.0, r.1),
{
    match form::allocate_port(start, end, &used) {
        Some(port) => {
            let name = upload.name.as_str();
            let project = Project::new(name, name, port, user.as_str());
            let stored = project.clone();
            (Stage::Storing { upload, project }, Action::StoreProject(stored))
        },
        None => refuse(Refusal::NoPort { start, end }),
    }
}

/// Takes a run one step on, given what came of its last action.
pub fn advance(stage: Stage, event: Event) -> (r: (Stage, Action))
    requires
        stage.expects(event),
    ensures
        steps(stage, event, r.0, r.1),
{
    match (stage, event) {
        (Stage::Authenticating { command }, Event::User(user)) => match user {
            Some(user) => begin(user, command),
            None => match command {
                Command::Deploy { .. } => refuse(Refusal::UnauthenticatedDeploy),
                _ => refuse(Refusal::Unauthenticated),
            },
        },
        (Stage::Locking { user, start, end }, Event::Locked(locked)) => if locked {
            (Stage::ReadingForm { user, start, end }, Action::ReadForm)
        } else {
            refuse(Refusal::DeployInProgress)
        },
        (Stage::ReadingForm { user, start, end }, Event::Form(form)) => match form {
            Ok(upload) => {
                let name = upload.name.clone();
                (Stage::FindingByName { user, upload, start, end }, Action::FindByName(name))
            },
            Err(refusal) => refuse(refusal),
        },
        (Stage::FindingByName { user, upload, start, end }, Event::Found(found)) => match found {
            Ok(Some(project)) => if text::same(project.user_id.as_str(), user.as_str()) {
                (Stage::SavingSnapshot { upload, project }, Action::SaveSnapshot)
            } else {
                refuse(Refusal::OwnedByAnother)
            },
            _ => (Stage::ListingPorts { user, upload, start, end }, Action::ListPorts),
        },
        (Stage::SavingSnapshot { upload, project }, Event::Saved(saved)) => match saved {
            Ok(snapshot) => {
                let project_id = project.id.clone();
                (
                    Stage::Pruning { upload, project, snapshot },
                    Action::PruneHistory { project_id, keep: MAX_DEPLOY_HISTORY },
                )
            },
            Err(_) => install(upload, project, false),
        },
        (Stage::Pruning { upload, project, snapshot }, Event::Pruned(pruned)) => match pruned {
            Ok(paths) => (
                Stage::DeletingSnapshots { upload, project, snapshot },
                Action::DeleteSnapshots(paths),
            ),
            Err(_) => record_snapshot(upload, project, snapshot),
        },
        (
            Stage::DeletingSnapshots { upload, project, snapshot },
            Event::Done(_),
        ) => record_snapshot(upload, project, snapshot),
        (Stage::RecordingSnapshot { upload, project }, Event::Done(_)) => install(
            upload,
            project,
            false,
        ),
        (Stage::ListingPorts { user, upload, start, end }, Event::Ports(ports)) => match ports {
            Ok(used) => make_project(user, upload, start, end, used),
            Err(e) => refuse(Refusal::PortsUnknown(e)),
        },
        (Stage::Storing { upload, project }, Event::Done(done)) => match done {
            Ok(_) => install(upload, project, true),
            Err(e) => refuse(Refusal::NotStored(e)),
        },
        (Stage::Extracting { project, upload, fresh }, Event::Extracted(found)) => match found {
            Ok(binary) => {
                let name = upload.name.clone();
                (
                    Stage::KeepingBundle { project, name, fresh, binary },
                    Action::KeepBundle { name: upload.name, bytes: upload.binary },
                )
            },
            Err(e) => refuse(Refusal::NotExtracted(e)),
        },
        (Stage::KeepingBundle { project, name, fresh, binary }, Event::Done(done)) => match done {
            Ok(_) => place(project, name, fresh, binary),
            Err(_) => {
                let dropped = name.clone();
                (
                    Stage::DroppingBundle { project, name, fresh, binary },
                    Action::DropBundle(dropped),
                )
            },
        },
        (Stage::DroppingBundle { project, name, fresh, binary }, Event::Done(_)) => place(
            project,
            name,
            fresh,
            binary,
        ),
        (Stage::Placing { project, name, fresh }, Event::Done(_)) => go_on_in_place(
            project,
            name,
            fresh,
        ),
        (Stage::Writing { project, name, fresh }, Event::Done(done)) => match done {
            Ok(_) => {
                let dropped = name.clone();
                (Stage::Superseding { project, name, fresh }, Action::DropBundle(dropped))
            },
            Err(e) => refuse(Refusal::NotWritten(e)),
        },
        (Stage::Superseding { project, name, fresh }, Event::Done(_)) => go_on_in_place(
            project,
            name,
            fresh,
        ),
        (Stage::MakingBucket { project, name }, Event::Done(done)) => match done {
            Ok(_) => {
                let project_id = project.id.clone();
                let named = name.clone();
                (
                    Stage::StoringBucket { project, name },
                    Action::StoreBucket { project_id, name: named },
                )
            },
            Err(_) => launch_first(project, name),
        },
        (Stage::StoringBucket { project, name }, Event::Done(_)) => launch_first(project, name),
        (Stage::Finding { id, errand }, Event::Found(found)) => match found {
            Ok(Some(project)) => pursue(id, errand, project),
            Ok(None) => refuse(Refusal::NoProject),
            Err(e) => refuse(Refusal::Failed(e)),
        },
        (Stage::Killing { launch }, Event::Done(_)) => go_on_after_kill(launch),
        (Stage::MarkingDeploying { launch }, Event::Done(_)) => spawn(launch),
        (Stage::Spawning { launch }, Event::Spawned(outcome)) => go_on_after_spawn(
            launch,
            outcome,
        ),
        (Stage::MarkingRunning { launch, pid }, Event::Done(_)) => answer(succeed(launch, pid)),
        (Stage::MarkingError { launch, error }, Event::Done(_)) => refuse(
            fail(launch.why, error),
        ),
        (Stage::KillingDeleted { id, project }, Event::Done(_)) => {
            let deleted = id.clone();
            (Stage::Deleting { id, project }, Action::Delete(deleted))
        },
        (Stage::Deleting { id, project }, Event::Done(done)) => match done {
            Ok(_) => {
                let name = project.name.clone();
                (Stage::RemovingAppDir { id, project }, Action::RemoveAppDir(name))
            },
            Err(e) => refuse(Refusal::Failed(e)),
        },
        (Stage::RemovingAppDir { id, project }, Event::Done(_)) => (
            Stage::RemovingStorage { id },
            Action::RemoveStorage(project.id),
        ),
        (Stage::RemovingStorage { id }, Event::Done(_)) => answer(Reply::Deleted(id)),
        (Stage::Stopping { id }, Event::Done(done)) => match done {
            Ok(_) => (
                Stage::MarkingStopped,
                Action::SetStatus { id, status: ProjectStatus::Stopped, pid: None },
            ),
            Err(e) => refuse(Refusal::Failed(e)),
        },
        (Stage::MarkingStopped, Event::Done(_)) => answer(Reply::Stopped),
        (Stage::CheckingDatabase { name }, Event::Exists(exists)) => if exists {
            let cleared = name.clone();
            (Stage::ClearingBackup { name }, Action::RemoveBackup(cleared))
        } else {
            refuse(Refusal::NoDatabase)
        },
        (Stage::ClearingBackup { name }, Event::Done(_)) => {
            let copied = name.clone();
            (Stage::Vacuuming { name }, Action::Vacuum(copied))
        },
        (Stage::Vacuuming { name }, Event::Vacuumed(outcome)) => match outcome {
            Ok(_) => {
                let copied = name.clone();
                (Stage::ReadingBackup { name }, Action::ReadBackup(copied))
            },
            Err(VacuumError::Open(e)) => refuse(Refusal::Failed(e)),
            Err(VacuumError::Copy(e)) => refuse(Refusal::BackupFailed(e)),
            Err(VacuumError::Task(e)) => refuse(Refusal::BackupTaskFailed(e)),
        },
        (Stage::ReadingBackup { name }, Event::Bytes(read)) => match read {
            Ok(bytes) => {
                let discarded = name.clone();
                (Stage::DiscardingBackup { name, bytes }, Action::RemoveBackup(discarded))
            },
            Err(e) => refuse(Refusal::BackupUnreadable(e)),
        },
        (Stage::DiscardingBackup { name, bytes }, Event::Done(_)) => answer(
            Reply::Backup { name, bytes },
        ),
        (Stage::ReadingEnv, Event::Text(content)) => answer(Reply::Env(content)),
        (Stage::MakingDataDir { id, project, content }, Event::Done(done)) => match done {
            Ok(_) => {
                let name = project.name.clone();
                (Stage::SavingEnv { id, project }, Action::SaveEnv { name, content })
            },
            Err(e) => refuse(Refusal::NoDataDir(e)),
        },
        (Stage::SavingEnv { id, project }, Event::Done(done)) => match done {
            Ok(_) => kill_first(Launch { id, project, why: Why::UpdateEnv }),
            Err(e) => refuse(Refusal::EnvNotSaved(e)),
        },
        (
            Stage::FindingDeploy { id, project },
            Event::FoundDeploy(found),
        ) => go_on_after_find_deploy(id, project, found),
        (Stage::CheckingSnapshot { id, project, entry }, Event::Exists(exists)) => if !exists {
            refuse(Refusal::NoSnapshot)
        } else if entry.is_bundle {
            (Stage::ReadingSnapshot { id, project }, Action::ReadSnapshot(entry.binary_path))
        } else {
            let name = project.name.clone();
            (
                Stage::Restoring { id, project },
                Action::RestoreBinary { snapshot: entry.binary_path, name },
            )
        },
        (Stage::ReadingSnapshot { id, project }, Event::Bytes(read)) => match read {
            Ok(bytes) => {
                let name = project.name.clone();
                (Stage::ExtractingSnapshot { id, project, bytes }, Action::ExtractBundle(name))
            },
            Err(e) => refuse(Refusal::SnapshotUnreadable(e)),
        },
        (Stage::ExtractingSnapshot { id, project, bytes }, Event::Extracted(found)) => match found {
            Ok(_) => {
                let name = project.name.clone();
                (Stage::KeepingSnapshot { id, project }, Action::KeepBundle { name, bytes })
            },
            Err(e) => refuse(Refusal::NotExtracted(e)),
        },
        (Stage::KeepingSnapshot { id, project }, Event::Done(done)) => match done {
            Ok(_) => search(id, project),
            Err(_) => {
                let dropped = project.name.clone();
                (Stage::DroppingSnapshot { id, project }, Action::DropBundle(dropped))
            },
        },
        (Stage::DroppingSnapshot { id, project }, Event::Done(_)) => search(id, project),
        (Stage::SearchingWorkspace { id, project }, Event::Located(path)) => {
            let name = project.name.clone();
            (Stage::PlacingSnapshot { id, project }, Action::PlaceBinary { from: path, name })
        },
        (Stage::PlacingSnapshot { id, project }, Event::Done(_)) => roll_back(id, project),
        (Stage::Restoring { id, project }, Event::Done(done)) => match done {
            Ok(_) => {
                let dropped = project.name.clone();
                (Stage::SupersedingRestored { id, project }, Action::DropBundle(dropped))
            },
            Err(e) => refuse(Refusal::NotRestored(e)),
        },
        (Stage::SupersedingRestored { id, project }, Event::Done(_)) => roll_back(id, project),
        (Stage::ListingProjects, Event::AllFound(found)) => match found {
            Ok(projects) => answer(Reply::Projects(projects)),
            Err(e) => refuse(Refusal::Failed(e)),
        },
        (Stage::ListingForCaddy, Event::AllFound(found)) => match found {
            Ok(projects) => answer(Reply::Caddy(projects)),
            Err(e) => refuse(Refusal::Failed(e)),
        },
        (Stage::ListingDeploys, Event::Deploys(found)) => match found {
            Ok(history) => answer(Reply::Deploys(history)),
            Err(e) => refuse(Refusal::Failed(e)),
        },
        (Stage::SettingDomain { domain }, Event::Done(done)) => match done {
            Ok(_) => answer(Reply::DomainSet(domain)),
            Err(e) => refuse(Refusal::Failed(e)),
        },
        (Stage::SettingLimit { id }, Event::Done(done)) => match done {
            Ok(_) => look_up(id, Errand::Limits),
            Err(e) => refuse(Refusal::Failed(e)),
        },
        (stage, _) => (stage, Action::Authenticate),
    }
}

} // verus!
