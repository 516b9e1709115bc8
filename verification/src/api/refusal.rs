//! Why a request to the API is refused.

use vstd::prelude::*;
use vstd::string::*;

use crate::text;

verus! {

/// Why a request to the API is refused. Where something outside failed, its own text is kept.
#[derive(Debug)]
pub enum Refusal {
    /// Nobody was found that the request comes from.
    Unauthenticated,
    /// The same, for a deploy.
    UnauthenticatedDeploy,
    /// Another deploy is under way.
    DeployInProgress,
    /// The upload is too large.
    TooLarge,
    /// The uploaded file could not be read.
    BinaryUnreadable(String),
    /// The name in the form could not be read.
    NameUnreadable(String),
    /// The form holds no file.
    MissingBinary,
    /// The form holds no name, or an empty one.
    MissingName,
    /// The name is not one that a project can have.
    InvalidName,
    /// The project belongs to somebody else.
    OwnedByAnother,
    /// The bundle could not be unpacked.
    NotExtracted(String),
    /// The binary could not be written.
    NotWritten(String),
    /// No port of the range, both ends included, is left.
    NoPort { start: u16, end: u16 },
    /// The ports in use are not known.
    PortsUnknown(String),
    /// A new project could not be stored.
    NotStored(String),
    /// A re-deployed project did not start.
    RedeployFailed(String),
    /// A new project did not start.
    DeployFailed(String),
    /// There is no such project.
    NoProject,
    /// Something outside failed that has no more to say than its own text.
    Failed(String),
    /// A project did not start again.
    RestartFailed(String),
    /// The project has no database yet.
    NoDatabase,
    /// The database could not be copied.
    BackupFailed(String),
    /// The copy could not be waited for.
    BackupTaskFailed(String),
    /// The copy could not be read.
    BackupUnreadable(String),
    /// The directory of the project's data could not be made.
    NoDataDir(String),
    /// The project's variables could not be saved.
    EnvNotSaved(String),
    /// They were, but the project did not start again.
    EnvRestartFailed(String),
    /// There is no such entry in the project's history.
    NoDeploy,
    /// The snapshot is gone.
    NoSnapshot,
    /// The snapshot could not be read.
    SnapshotUnreadable(String),
    /// The snapshot could not be put in place.
    NotRestored(String),
    /// It was, but the project did not start again.
    RollbackFailed(String),
    /// The limit was saved, but the project did not start again.
    LimitRestartFailed(String),
}

impl Refusal {
    /// The HTTP status of the refusal.
    pub open spec fn code(self) -> u16 {
        match self {
            Refusal::Unauthenticated | Refusal::UnauthenticatedDeploy => 401,
            Refusal::DeployInProgress | Refusal::NoPort { .. } | Refusal::PortsUnknown(_) => 503,
            Refusal::TooLarge => 413,
            Refusal::BinaryUnreadable(_) | Refusal::NameUnreadable(_) | Refusal::MissingBinary
            | Refusal::MissingName | Refusal::InvalidName => 400,
            Refusal::OwnedByAnother => 403,
            Refusal::NoProject | Refusal::NoDatabase | Refusal::NoDeploy
            | Refusal::NoSnapshot => 404,
            _ => 500,
        }
    }

    /// The text of the refusal.
    pub open spec fn text(self) -> Seq<char> {
        match self {
            Refusal::Unauthenticated => "Authentication required"@,
            Refusal::UnauthenticatedDeploy =>
                "Authentication required. Provide a valid session cookie or Bearer API key."@,
            Refusal::DeployInProgress =>
                "A deploy is already in progress. Please wait and try again."@,
            Refusal::TooLarge => "Upload exceeds 100 MB limit"@,
            Refusal::BinaryUnreadable(e) => "Failed to read binary: "@ + e@,
            Refusal::NameUnreadable(e) => "Failed to read name: "@ + e@,
            Refusal::MissingBinary => "Missing 'binary' field"@,
            Refusal::MissingName => "Missing or empty 'name' field"@,
            Refusal::InvalidName =>
                "Project name must use only lowercase letters, numbers, and hyphens, and cannot start or end with a hyphen"@,
            Refusal::OwnedByAnother => "A project with this name is owned by another user"@,
            Refusal::NotExtracted(e) => "Failed to extract bundle: "@ + e@,
            Refusal::NotWritten(e) => "Failed to write binary: "@ + e@,
            Refusal::NoPort { start, end } => "No ports available: No available ports in range "@
                + text::decimal(start as nat) + "-"@ + text::decimal(end as nat),
            Refusal::PortsUnknown(e) => "No ports available: "@ + e@,
            Refusal::NotStored(e) => "DB error: "@ + e@,
            Refusal::RedeployFailed(e) => "Failed to restart process: "@ + e@,
            Refusal::DeployFailed(e) => "Failed to start process: "@ + e@,
            Refusal::NoProject => "Project not found"@,
            Refusal::Failed(e) => e@,
            Refusal::RestartFailed(e) => "Restart failed: "@ + e@,
            Refusal::NoDatabase => "No database found for this project"@,
            Refusal::BackupFailed(e) => "Backup failed: "@ + e@,
            Refusal::BackupTaskFailed(e) => "Backup task failed: "@ + e@,
            Refusal::BackupUnreadable(e) => "Failed to read backup: "@ + e@,
            Refusal::NoDataDir(e) => "Failed to create data dir: "@ + e@,
            Refusal::EnvNotSaved(e) => "Failed to save .env: "@ + e@,
            Refusal::EnvRestartFailed(e) => "Saved but restart failed: "@ + e@,
            Refusal::NoDeploy => "Deploy entry not found"@,
            Refusal::NoSnapshot => "Snapshot file not found on disk"@,
            Refusal::SnapshotUnreadable(e) => "Failed to read snapshot: "@ + e@,
            Refusal::NotRestored(e) => "Failed to restore binary: "@ + e@,
            Refusal::RollbackFailed(e) => "Rollback failed to restart: "@ + e@,
            Refusal::LimitRestartFailed(e) => "Limit saved but restart failed: "@ + e@,
        }
    }

    /// The HTTP status of the refusal.
    pub fn status(&self) -> (r: u16)
        ensures
            r == self.code(),
    {
        match self {
            Refusal::Unauthenticated | Refusal::UnauthenticatedDeploy => 401,
            Refusal::DeployInProgress | Refusal::NoPort { .. } | Refusal::PortsUnknown(_) => 503,
            Refusal::TooLarge => 413,
            Refusal::BinaryUnreadable(_) | Refusal::NameUnreadable(_) | Refusal::MissingBinary
            | Refusal::MissingName | Refusal::InvalidName => 400,
            Refusal::OwnedByAnother => 403,
            Refusal::NoProject | Refusal::NoDatabase | Refusal::NoDeploy
            | Refusal::NoSnapshot => 404,
            _ => 500,
        }
    }

    /// The text of the refusal.
    pub fn message(&self) -> (r: String)
        ensures
            r@ == self.text(),
    {
        match self {
            Refusal::Unauthenticated => "Authentication required".to_owned(),
            Refusal::UnauthenticatedDeploy =>
                "Authentication required. Provide a valid session cookie or Bearer API key.".to_owned(),
            Refusal::DeployInProgress =>
                "A deploy is already in progress. Please wait and try again.".to_owned(),
            Refusal::TooLarge => "Upload exceeds 100 MB limit".to_owned(),
            Refusal::BinaryUnreadable(e) => said("Failed to read binary: ", e),
            Refusal::NameUnreadable(e) => said("Failed to read name: ", e),
            Refusal::MissingBinary => "Missing 'binary' field".to_owned(),
            Refusal::MissingName => "Missing or empty 'name' field".to_owned(),
            Refusal::InvalidName =>
                "Project name must use only lowercase letters, numbers, and hyphens, and cannot start or end with a hyphen".to_owned(),
            Refusal::OwnedByAnother => "A project with this name is owned by another user".to_owned(),
            Refusal::NotExtracted(e) => said("Failed to extract bundle: ", e),
            Refusal::NotWritten(e) => said("Failed to write binary: ", e),
            Refusal::NoPort { start, end } =>
                "No ports available: No available ports in range ".to_owned().concat(
                text::decimal_of(*start as u64).as_str(),
            ).concat("-").concat(text::decimal_of(*end as u64).as_str()),
            Refusal::PortsUnknown(e) => said("No ports available: ", e),
            Refusal::NotStored(e) => said("DB error: ", e),
            Refusal::RedeployFailed(e) => said("Failed to restart process: ", e),
            Refusal::DeployFailed(e) => said("Failed to start process: ", e),
            Refusal::NoProject => "Project not found".to_owned(),
            Refusal::Failed(e) => e.clone(),
            Refusal::RestartFailed(e) => said("Restart failed: ", e),
            Refusal::NoDatabase => "No database found for this project".to_owned(),
            Refusal::BackupFailed(e) => said("Backup failed: ", e),
            Refusal::BackupTaskFailed(e) => said("Backup task failed: ", e),
            Refusal::BackupUnreadable(e) => said("Failed to read backup: ", e),
            Refusal::NoDataDir(e) => said("Failed to create data dir: ", e),
            Refusal::EnvNotSaved(e) => said("Failed to save .env: ", e),
            Refusal::EnvRestartFailed(e) => said("Saved but restart failed: ", e),
            Refusal::NoDeploy => "Deploy entry not found".to_owned(),
            Refusal::NoSnapshot => "Snapshot file not found on disk".to_owned(),
            Refusal::SnapshotUnreadable(e) => said("Failed to read snapshot: ", e),
            Refusal::NotRestored(e) => said("Failed to restore binary: ", e),
            Refusal::RollbackFailed(e) => said("Rollback failed to restart: ", e),
            Refusal::LimitRestartFailed(e) => said("Limit saved but restart failed: ", e),
        }
    }
}

/// What failed, with its own text behind it.
fn said(what: &str, error: &String) -> (r: String)
    ensures
        r@ == what@ + error@,
{
    what.to_owned().concat(error.as_str())
}

/// Every refusal has a status that tells the client so.
pub proof fn law_refusals_are_errors(refusal: Refusal)
    ensures
        400 <= refusal.code() < 600,
{
}

} // verus!
