//! What holds of every run of a request.

use vstd::prelude::*;

use crate::api::deploy;
use crate::api::deploy::{Action, Command, Event, Launch, Reply, Stage, Why};
use crate::api::form;
use crate::api::refusal::Refusal;
use crate::db::models::{DeployHistory, Project, ProjectStatus};

verus! {

/// One step of a run.
pub struct Move {
    pub before: Stage,
    pub event: Event,
    pub after: Stage,
    pub action: Action,
}

/// True for the steps of a run of this request, from its start to wherever it has come.
pub open spec fn is_run(command: Command, moves: Seq<Move>) -> bool {
    &&& moves.len() > 0 ==> moves[0].before == deploy::received(command).0
    &&& forall|i: int|
        0 <= i < moves.len() ==> deploy::steps(
            (#[trigger] moves[i]).before,
            moves[i].event,
            moves[i].after,
            moves[i].action,
        )
    &&& forall|i: int, j: int|
        0 <= i && j == i + 1 && j < moves.len() ==> (#[trigger] moves[i]).after == (
        #[trigger] moves[j]).before
}

/// True for an action that answers the request.
pub open spec fn answers(action: Action) -> bool {
    action is Reply || action is Refuse
}

/// Every step brings a run nearer to its end, and the run is answered exactly when it has ended.
pub proof fn law_steps_lead_to_the_end(stage: Stage, event: Event, after: Stage, action: Action)
    requires
        deploy::steps(stage, event, after, action),
    ensures
        after.rank() < stage.rank(),
        answers(action) <==> after is Finished,
{
}

proof fn lemma_rank_falls(command: Command, moves: Seq<Move>, i: int)
    requires
        is_run(command, moves),
        0 <= i < moves.len(),
    ensures
        moves[i].after.rank() + i + 1 <= 17,
    decreases i,
{
    law_steps_lead_to_the_end(moves[i].before, moves[i].event, moves[i].after, moves[i].action);
    if i > 0 {
        lemma_rank_falls(command, moves, i - 1);
        assert(moves[i - 1].after == moves[i].before);
    }
}

/// No run has more than seventeen steps, and nothing is done for a request after it was answered.
pub proof fn law_runs_end(command: Command, moves: Seq<Move>)
    requires
        is_run(command, moves),
    ensures
        moves.len() <= 17,
        forall|i: int|
            0 <= i < moves.len() && answers((#[trigger] moves[i]).action) ==> i == moves.len() - 1,
{
    if moves.len() > 0 {
        lemma_rank_falls(command, moves, moves.len() - 1);
    }
    assert forall|i: int|
        0 <= i < moves.len() && answers((#[trigger] moves[i]).action) implies i == moves.len() - 1 by {
        law_steps_lead_to_the_end(
            moves[i].before,
            moves[i].event,
            moves[i].after,
            moves[i].action,
        );
        if i + 1 < moves.len() {
            assert(moves[i].after == moves[i + 1].before);
            assert(moves[i + 1].before.expects(moves[i + 1].event));
        }
    }
}

/// A request that comes from nobody known is refused as such, and nothing at all is done for it.
pub proof fn law_unauthenticated_is_refused(command: Command, moves: Seq<Move>)
    requires
        is_run(command, moves),
        moves.len() > 0,
    ensures
        deploy::received(command).1 == Action::Authenticate,
        moves[0].event is User,
        moves[0].event == Event::User(None) ==> {
            &&& moves.len() == 1
            &&& moves[0].action matches Action::Refuse(refusal)
            &&& refusal.code() == 401
        },
{
    law_runs_end(command, moves);
    assert(deploy::steps(moves[0].before, moves[0].event, moves[0].after, moves[0].action));
    if moves[0].event == Event::User(None) {
        assert(answers(moves[0].action));
    }
}

// ---------------------------------------------------------------------------------------------
// Deploys
// ---------------------------------------------------------------------------------------------

/// True for the start of a project that was deployed for this user.
pub open spec fn launches_for(launch: Launch, user: Seq<char>) -> bool {
    &&& launch.why is Deploy || launch.why is Redeploy
    &&& launch.project.user_id@ == user
    &&& launch.id == launch.project.id
}

/// True for a stage of a deploy by this user: the project, once it is known, is the user's.
pub open spec fn deploys_for(stage: Stage, user: Seq<char>) -> bool {
    match stage {
        Stage::Locking { user: u, .. } | Stage::ReadingForm { user: u, .. }
        | Stage::FindingByName { user: u, .. } | Stage::ListingPorts { user: u, .. } => u@ == user,
        Stage::SavingSnapshot { project, .. } | Stage::Pruning { project, .. }
        | Stage::DeletingSnapshots { project, .. } | Stage::RecordingSnapshot { project, .. }
        | Stage::Storing { project, .. } | Stage::Extracting { project, .. }
        | Stage::KeepingBundle { project, .. } | Stage::DroppingBundle { project, .. }
        | Stage::Placing { project, .. } | Stage::Superseding { project, .. }
        | Stage::Writing { project, .. } | Stage::MakingBucket { project, .. }
        | Stage::StoringBucket { project, .. } => project.user_id@ == user,
        Stage::Killing { launch } | Stage::MarkingDeploying { launch } | Stage::Spawning { launch }
        | Stage::MarkingRunning { launch, .. } | Stage::MarkingError { launch, .. } => launches_for(
            launch,
            user,
        ),
        Stage::Finished => true,
        _ => false,
    }
}

/// The project that an action of a deploy changes or starts, and the identifier that it goes by.
pub open spec fn touches(action: Action, after: Stage, project: Project) -> bool {
    match action {
        Action::Spawn(p) => p == project,
        Action::StoreProject(p) => p == project,
        Action::Kill(id) => after matches Stage::Killing { launch } && launch.project == project
            && id == project.id,
        Action::SetStatus { id, .. } => id == project.id,
        Action::PruneHistory { project_id, .. } => project_id == project.id,
        Action::RecordSnapshot { project_id, .. } => project_id == project.id,
        Action::MakeBucket { project_id, .. } => project_id == project.id,
        Action::StoreBucket { project_id, .. } => project_id == project.id,
        _ => false,
    }
}

/// True for an action of a deploy that changes or starts a project.
pub open spec fn changes_project(action: Action) -> bool {
    action is Spawn || action is StoreProject || action is Kill || action is SetStatus
        || action is PruneHistory || action is RecordSnapshot || action is MakeBucket
        || action is StoreBucket
}

/// A deploy changes and starts projects of the user who sent it, and no others: it stays with one
/// of the user's own, or with a new one that is made for the user.
pub proof fn law_deploys_stay_with_the_owner(
    stage: Stage,
    event: Event,
    after: Stage,
    action: Action,
    user: Seq<char>,
)
    requires
        deploy::steps(stage, event, after, action),
        deploys_for(stage, user),
    ensures
        deploys_for(after, user),
        changes_project(action) ==> exists|project: Project|
            project.user_id@ == user && touches(action, after, project),
{
    match after {
        Stage::Storing { project, .. } | Stage::Pruning { project, .. }
        | Stage::RecordingSnapshot { project, .. } | Stage::MakingBucket { project, .. }
        | Stage::StoringBucket { project, .. } => {
            assert(touches(action, after, project));
        },
        Stage::Killing { launch } | Stage::MarkingDeploying { launch } | Stage::Spawning { launch }
        | Stage::MarkingRunning { launch, .. } | Stage::MarkingError { launch, .. } => {
            assert(touches(action, after, launch.project));
        },
        _ => {},
    }
}

/// Deploying under the name of somebody else's project is refused at once.
pub proof fn law_foreign_name_is_refused(stage: Stage, event: Event, after: Stage, action: Action)
    requires
        deploy::steps(stage, event, after, action),
        stage is FindingByName,
        event matches Event::Found(Ok(Some(project))) && project.user_id@ != stage->FindingByName_user@,
    ensures
        after is Finished,
        action == Action::Refuse(Refusal::OwnedByAnother),
{
}

/// True where the name that is deployed, once it is known, is one that a project can have.
pub open spec fn names_valid(stage: Stage) -> bool {
    match stage {
        Stage::FindingByName { upload, .. } | Stage::SavingSnapshot { upload, .. }
        | Stage::Pruning { upload, .. } | Stage::DeletingSnapshots { upload, .. }
        | Stage::RecordingSnapshot { upload, .. } | Stage::ListingPorts { upload, .. }
        | Stage::Storing { upload, .. } | Stage::Extracting { upload, .. } => upload.wf(),
        Stage::KeepingBundle { name, .. } | Stage::DroppingBundle { name, .. } | Stage::Placing {
            name,
            ..
        } | Stage::Writing { name, .. } | Stage::Superseding { name, .. } | Stage::MakingBucket { name, .. } | Stage::StoringBucket { name, .. } => {
            form::is_project_name(name@)
        },
        _ => true,
    }
}

/// Nothing is written for a deploy under a name that no project can have, and a new project has its
/// name as its subdomain.
pub proof fn law_deployed_names_are_valid(stage: Stage, event: Event, after: Stage, action: Action)
    requires
        deploy::steps(stage, event, after, action),
        names_valid(stage),
        event matches Event::Form(Ok(upload)) ==> upload.wf(),
    ensures
        names_valid(after),
        action matches Action::WriteBinary { name, .. } ==> form::is_project_name(name@),
        action matches Action::StoreProject(project) ==> form::is_project_name(project.name@)
            && project.subdomain@ == project.name@,
        action matches Action::MakeBucket { name, .. } ==> form::is_project_name(name@),
        after is Extracting ==> (action matches Action::ExtractBundle(name)
            && form::is_project_name(name@)),
{
}

// ---------------------------------------------------------------------------------------------
// Starting projects
// ---------------------------------------------------------------------------------------------

/// A project is stored as running only right after it was started, with the identifier of the
/// process that was started.
pub proof fn law_running_means_started(stage: Stage, event: Event, after: Stage, action: Action)
    requires
        deploy::steps(stage, event, after, action),
    ensures
        match action {
            Action::SetStatus { id, status, pid } => if status == ProjectStatus::Running {
                &&& stage matches Stage::Spawning { launch }
                &&& id == launch.id
                &&& event matches Event::Spawned(Ok(started))
                &&& pid == Some(started as i64)
            } else {
                pid is None
            },
            _ => true,
        },
{
}

/// A project is started only after its process was killed, unless it is a new one. Between the two
/// it is at most marked as being deployed.
pub proof fn law_kill_before_start(stage: Stage, event: Event, after: Stage, action: Action)
    requires
        deploy::steps(stage, event, after, action),
    ensures
        action matches Action::Spawn(project) ==> match stage {
            Stage::Killing { launch } => launch.project == project,
            Stage::MarkingDeploying { launch } => launch.project == project,
            _ => false,
        },
        after matches Stage::MarkingDeploying { launch } ==> match stage {
            Stage::Killing { launch: killed } => killed == launch,
            _ => launch.why is Deploy,
        },
        after matches Stage::Killing { launch } ==> action == Action::Kill(launch.id),
{
}

/// A project that does not start is told of as an error; where it was deployed or rolled back, it
/// is marked as broken first.
pub proof fn law_failed_start_is_told(
    stage: Stage,
    event: Event,
    after: Stage,
    action: Action,
    error: String,
)
    requires
        deploy::steps(stage, event, after, action),
        stage is Spawning,
        event == Event::Spawned(Err(error)),
    ensures
        match stage->Spawning_launch.why {
            Why::Deploy { .. } | Why::Redeploy { .. } | Why::Rollback => {
                &&& action == Action::SetStatus {
                    id: stage->Spawning_launch.id,
                    status: ProjectStatus::Error,
                    pid: None,
                }
                &&& forall|done: Result<(), String>, last: Stage, told: Action| #[trigger]
                    deploy::steps(after, Event::Done(done), last, told) ==> told
                        == Action::Refuse(deploy::failure(stage->Spawning_launch.why, error))
            },
            why => action == Action::Refuse(deploy::failure(why, error)),
        },
        deploy::failure(stage->Spawning_launch.why, error).code() == 500,
{
}

/// A project's files and its storage are removed only after its row was deleted, and its row only
/// after its process was killed.
pub proof fn law_delete_in_order(stage: Stage, event: Event, after: Stage, action: Action)
    requires
        deploy::steps(stage, event, after, action),
    ensures
        action matches Action::Delete(id) ==> stage matches Stage::KillingDeleted { id: killed, .. }
            && killed == id,
        action is RemoveAppDir ==> stage is Deleting && event matches Event::Done(Ok(_)),
        action is RemoveStorage ==> stage is RemovingAppDir,
{
}

/// In every run, the copy that the last backup left is removed right before the database is
/// copied.
pub proof fn law_backup_clears_the_way(command: Command, moves: Seq<Move>, i: int, name: String)
    requires
        is_run(command, moves),
        0 <= i < moves.len(),
        moves[i].action == Action::Vacuum(name),
    ensures
        i > 0,
        moves[i - 1].action == Action::RemoveBackup(name),
{
    assert(deploy::steps(moves[i].before, moves[i].event, moves[i].after, moves[i].action));
    assert(moves[i].before == Stage::ClearingBackup { name });
    if i > 0 {
        let last = moves[i - 1];
        assert(deploy::steps(last.before, last.event, last.after, last.action));
        assert(last.after == moves[i].before);
    }
}

/// A backup of a project that has a database is sent: the last copy is removed, the database is
/// copied, and what is answered is what was read of the copy. Nothing of it is left behind.
pub proof fn law_backup_is_sent(
    id: String,
    user: String,
    project: Project,
    bytes: Vec<u8>,
    moves: Seq<Move>,
)
    requires
        is_run(Command::DownloadBackup { id }, moves),
        moves.len() >= 7,
        moves[0].event == Event::User(Some(user)),
        moves[1].event == Event::Found(Ok(Some(project))),
        moves[2].event == Event::Exists(true),
        moves[4].event matches Event::Vacuumed(Ok(_)),
        moves[5].event == Event::Bytes(Ok(bytes)),
    ensures
        moves.len() == 7,
        moves[1].action == Action::CheckDatabase(project.name),
        moves[2].action == Action::RemoveBackup(project.name),
        moves[3].action == Action::Vacuum(project.name),
        moves[4].action == Action::ReadBackup(project.name),
        moves[5].action == Action::RemoveBackup(project.name),
        moves[6].action == Action::Reply(Reply::Backup { name: project.name, bytes }),
{
    assert(moves[0].after == moves[1].before);
    assert(moves[1].after == moves[2].before);
    assert(moves[2].after == moves[3].before);
    assert(moves[3].after == moves[4].before);
    assert(moves[4].after == moves[5].before);
    assert(moves[5].after == moves[6].before);
    law_runs_end(Command::DownloadBackup { id }, moves);
    assert(answers(moves[6].action));
}

/// Rolling back to the snapshot of a bundle unpacks exactly what was read of the snapshot, and
/// keeps it as the project's current bundle.
pub proof fn law_rollback_unpacks_the_snapshot(
    id: String,
    deploy_id: String,
    user: String,
    project: Project,
    entry: DeployHistory,
    bytes: Vec<u8>,
    moves: Seq<Move>,
)
    requires
        is_run(Command::RollbackDeploy { id, deploy_id }, moves),
        moves.len() >= 6,
        moves[0].event == Event::User(Some(user)),
        moves[1].event == Event::Found(Ok(Some(project))),
        moves[2].event == Event::FoundDeploy(Ok(Some(entry))),
        entry.project_id@ == id@,
        entry.is_bundle,
        moves[3].event == Event::Exists(true),
        moves[4].event == Event::Bytes(Ok(bytes)),
        moves[5].event matches Event::Extracted(Ok(_)),
    ensures
        moves[1].action == Action::FindDeploy(deploy_id),
        moves[3].action == Action::ReadSnapshot(entry.binary_path),
        moves[4].after == (Stage::ExtractingSnapshot { id, project, bytes }),
        moves[4].action == Action::ExtractBundle(project.name),
        moves[5].action == (Action::KeepBundle { name: project.name, bytes }),
{
    assert(moves[0].after == moves[1].before);
    assert(moves[1].after == moves[2].before);
    assert(moves[2].after == moves[3].before);
    assert(moves[3].after == moves[4].before);
    assert(moves[4].after == moves[5].before);
}

/// What is kept as a project's current bundle is exactly what was just unpacked for it, in a deploy
/// and in a rollback; and every bundle that was unpacked is kept. One that could not be kept is not
/// taken for current: nothing is.
pub proof fn law_unpacked_is_kept(stage: Stage, event: Event, after: Stage, action: Action)
    requires
        deploy::steps(stage, event, after, action),
    ensures
        match action {
            Action::KeepBundle { name, bytes } => match stage {
                Stage::Extracting { upload, .. } => name == upload.name && bytes == upload.binary,
                Stage::ExtractingSnapshot { project, bytes: read, .. } => name == project.name
                    && bytes == read,
                _ => false,
            },
            _ => true,
        },
        event matches Event::Extracted(Ok(_)) ==> action is KeepBundle,
        ((stage is KeepingBundle || stage is KeepingSnapshot) && (event matches Event::Done(Err(_))))
            ==> action is DropBundle,
{
}

/// Once a bare binary is in place, by a deploy or by a rollback, no bundle counts as the project's
/// current one: the kept one is removed.
pub proof fn law_binary_supersedes_bundle(stage: Stage, event: Event, after: Stage, action: Action)
    requires
        deploy::steps(stage, event, after, action),
        event matches Event::Done(Ok(_)),
    ensures
        stage matches Stage::Writing { name, .. } ==> action == Action::DropBundle(name),
        stage matches Stage::Restoring { project, .. } ==> action == Action::DropBundle(
            project.name,
        ),
{
}

/// Where a project is deployed again, a snapshot of what is there is saved before anything is
/// unpacked or written.
pub proof fn law_snapshot_before_overwriting(
    stage: Stage,
    event: Event,
    after: Stage,
    action: Action,
)
    requires
        deploy::steps(stage, event, after, action),
    ensures
        match after {
            Stage::Extracting { fresh, .. } | Stage::Writing { fresh, .. } => if fresh {
                stage is Storing
            } else {
                stage is RecordingSnapshot || stage is SavingSnapshot
            },
            _ => true,
        },
        after is RecordingSnapshot ==> stage is Pruning || stage is DeletingSnapshots,
        after is Pruning ==> stage is SavingSnapshot && event matches Event::Saved(Ok(_)),
        after is SavingSnapshot ==> action is SaveSnapshot,
{
}

/// A project is rolled back only to an entry of its own history.
pub proof fn law_rollback_to_own_history(stage: Stage, event: Event, after: Stage, action: Action)
    requires
        deploy::steps(stage, event, after, action),
    ensures
        after matches Stage::CheckingSnapshot { id, entry, .. } ==> entry.project_id@ == id@,
{
}

} // verus!
