//! What a deploy and a rollback do, told by what is seen from outside: the actions of the run,
//! given the events.

use vstd::prelude::*;

use crate::api::deploy;
use crate::api::deploy::{Action, Command, Event, Launch, Reply, Stage, Why};
use crate::api::form;
use crate::api::form::Upload;
use crate::api::refusal::Refusal;
use crate::api::requests;
use crate::api::runs;
use crate::api::runs::Move;
use crate::db::models::{DeployHistory, Project, ProjectStatus};

verus! {

/// True for bytes that start as every gzip stream does.
pub open spec fn starts_like_gzip(bytes: Seq<u8>) -> bool {
    bytes.len() >= 2 && bytes[0] == 0x1f && bytes[1] == 0x8b
}

// ---------------------------------------------------------------------------------------------
// Deploying
// ---------------------------------------------------------------------------------------------

/// A deploy waits for its turn, reads what was sent, and looks the name up. A project of the same
/// user is saved before anything else; a name that somebody else has is refused; for a new name the
/// ports in use are listed.
pub proof fn law_deploy_begins(start: u16, end: u16, user: String, moves: Seq<Move>)
    requires
        runs::is_run(Command::Deploy { start, end }, moves),
        requests::comes_from(moves, user),
    ensures
        moves[0].action == Action::AcquireLock,
        moves.len() > 1 ==> match moves[1].event {
            Event::Locked(locked) => moves[1].action == (if locked {
                Action::ReadForm
            } else {
                Action::Refuse(Refusal::DeployInProgress)
            }),
            _ => false,
        },
        moves.len() > 2 ==> match moves[2].event {
            Event::Form(Ok(upload)) => moves[2].action == Action::FindByName(upload.name),
            Event::Form(Err(refusal)) => moves[2].action == Action::Refuse(refusal),
            _ => false,
        },
        moves.len() > 3 ==> match moves[3].event {
            Event::Found(Ok(Some(project))) => moves[3].action == (if project.user_id@ == user@ {
                Action::SaveSnapshot
            } else {
                Action::Refuse(Refusal::OwnedByAnother)
            }),
            Event::Found(_) => moves[3].action == Action::ListPorts,
            _ => false,
        },
        moves.len() > 4 && moves[3].action == Action::ListPorts ==> match moves[4].event {
            Event::Ports(Ok(_)) => moves[4].action is StoreProject || moves[4].action
                == Action::Refuse(Refusal::NoPort { start, end }),
            Event::Ports(Err(e)) => moves[4].action == Action::Refuse(Refusal::PortsUnknown(e)),
            _ => false,
        },
{
    requests::lemma_steps(Command::Deploy { start, end }, moves);
}

/// A new project has the name that was sent, also as its subdomain, and belongs to the user who
/// sent it. Its port is the lowest of the range that no row has; it is refused only where rows have
/// them all. It has no process, no domain and no limit of its own, and waits to be started.
pub proof fn law_new_project(
    start: u16,
    end: u16,
    user: String,
    upload: Upload,
    used: Vec<i64>,
    moves: Seq<Move>,
)
    requires
        runs::is_run(Command::Deploy { start, end }, moves),
        requests::comes_from(moves, user),
        moves.len() > 4,
        moves[2].event == Event::Form(Ok(upload)),
        moves[4].event == Event::Ports(Ok(used)),
        forall|i: int| 0 <= i < used@.len() ==> 0 <= #[trigger] used@[i] < 0x1_0000,
    ensures
        moves[4].action matches Action::StoreProject(project) ==> {
            &&& project.name@ == upload.name@
            &&& project.subdomain@ == upload.name@
            &&& project.user_id@ == user@
            &&& start <= project.port <= end
            &&& !used@.contains(project.port)
            &&& forall|port: i64| start <= port < project.port ==> #[trigger] used@.contains(port)
            &&& project.status@ == "Stopped"@
            &&& project.pid is None
            &&& project.custom_domain is None
            &&& project.ram_limit_mb is None
            &&& project.created_at == project.updated_at
        },
        moves[4].action is Refuse ==> forall|port: i64|
            start <= port <= end ==> #[trigger] used@.contains(port),
{
    requests::lemma_steps(Command::Deploy { start, end }, moves);
    assert forall|port: u16| #[trigger]
        form::is_free(port, used@) == !used@.contains(port as i64) by {
        if used@.contains(port as i64) {
            let i = used@.index_of(port as i64);
            assert(#[verifier::truncate] (used@[i] as u16) == port);
        }
    }
    match moves[4].action {
        Action::StoreProject(project) => {
            assert(form::is_free(project.port as u16, used@));
            assert(project.status@ == ProjectStatus::Stopped.label());
            assert forall|port: i64| start <= port < project.port implies #[trigger] used@.contains(
                port,
            ) by {
                assert(!form::is_free(port as u16, used@));
            }
        },
        _ => {
            assert forall|port: i64| start <= port <= end implies #[trigger] used@.contains(
                port,
            ) by {
                assert(!form::is_free(port as u16, used@));
            }
        },
    }
}

/// True for the start of a project by a deploy.
spec fn launches(launch: Launch, upload: Upload, project: Project, fresh: bool) -> bool {
    &&& launch.id == project.id
    &&& launch.project == project
    &&& launch.why == (if fresh {
        Why::Deploy { name: upload.name }
    } else {
        Why::Redeploy { name: upload.name }
    })
}

/// True where the run holds this upload and this project after its step `i`.
spec fn holds_at(moves: Seq<Move>, i: int, upload: Upload, project: Project, fresh: bool) -> bool {
    match moves[i].after {
        Stage::SavingSnapshot { upload: u, project: p } => {
            &&& u == upload && p == project && !fresh && i == 3
            &&& moves[i].action is SaveSnapshot
        },
        Stage::Pruning { upload: u, project: p, snapshot } => {
            &&& u == upload && p == project && !fresh && i == 4
            &&& moves[4].event == Event::Saved(Ok(snapshot))
            &&& moves[i].action is PruneHistory
        },
        Stage::DeletingSnapshots { upload: u, project: p, snapshot } => {
            &&& u == upload && p == project && !fresh && i == 5
            &&& moves[4].event == Event::Saved(Ok(snapshot))
            &&& moves[i].action is DeleteSnapshots
        },
        Stage::RecordingSnapshot { upload: u, project: p } => {
            &&& u == upload && p == project && !fresh
            &&& moves[i].action is RecordSnapshot
        },
        Stage::Storing { upload: u, project: p } => {
            &&& u == upload && p == project && fresh && i == 4
            &&& moves[i].action is StoreProject
        },
        Stage::Extracting { upload: u, project: p, fresh: f } => {
            &&& u == upload && p == project && f == fresh
            &&& starts_like_gzip(upload.binary@)
            &&& moves[i].action is ExtractBundle
        },
        Stage::KeepingBundle { project: p, name, fresh: f, binary } => {
            &&& name == upload.name && p == project && f == fresh
            &&& starts_like_gzip(upload.binary@)
            &&& moves[i].event == Event::Extracted(Ok(binary))
            &&& moves[i].action is KeepBundle
        },
        Stage::DroppingBundle { project: p, name, fresh: f, binary } => {
            &&& name == upload.name && p == project && f == fresh
            &&& starts_like_gzip(upload.binary@)
            &&& i > 0 && moves[i - 1].event == Event::Extracted(Ok(binary))
            &&& moves[i].action is DropBundle
        },
        Stage::Placing { project: p, name, fresh: f } => {
            &&& name == upload.name && p == project && f == fresh
            &&& moves[i].action is PlaceBinary
        },
        Stage::Writing { project: p, name, fresh: f } => {
            &&& name == upload.name && p == project && f == fresh
            &&& !starts_like_gzip(upload.binary@)
            &&& moves[i].action is WriteBinary
        },
        Stage::Superseding { project: p, name, fresh: f } => {
            &&& name == upload.name && p == project && f == fresh
            &&& !starts_like_gzip(upload.binary@)
            &&& moves[i].action is DropBundle
        },
        Stage::MakingBucket { project: p, name } => {
            &&& name == upload.name && p == project && fresh
            &&& moves[i].action is MakeBucket
        },
        Stage::StoringBucket { project: p, name } => {
            &&& name == upload.name && p == project && fresh
            &&& moves[i].action is StoreBucket
        },
        Stage::Killing { launch } => {
            &&& launches(launch, upload, project, fresh) && !fresh
            &&& moves[i].action is Kill
        },
        Stage::MarkingDeploying { launch } => {
            &&& launches(launch, upload, project, fresh)
            &&& moves[i].action matches Action::SetStatus { status, .. }
            &&& status == ProjectStatus::Deploying
        },
        Stage::Spawning { launch } => {
            &&& launches(launch, upload, project, fresh)
            &&& moves[i].action is Spawn
        },
        Stage::MarkingRunning { launch, pid } => {
            &&& launches(launch, upload, project, fresh)
            &&& moves[i].event == Event::Spawned(Ok(pid))
            &&& moves[i].action matches Action::SetStatus { status, .. }
            &&& status == ProjectStatus::Running
        },
        Stage::MarkingError { launch, error } => {
            &&& launches(launch, upload, project, fresh)
            &&& moves[i].event == Event::Spawned(Err(error))
            &&& moves[i].action matches Action::SetStatus { status, .. }
            &&& status == ProjectStatus::Error
        },
        Stage::Finished => true,
        _ => false,
    }
}

/// True for the run of a deploy of this upload to this project: one of the user's own that was
/// found under the name, or a new one that is about to be stored.
pub open spec fn is_deploy(
    start: u16,
    end: u16,
    user: String,
    upload: Upload,
    project: Project,
    fresh: bool,
    moves: Seq<Move>,
) -> bool {
    &&& runs::is_run(Command::Deploy { start, end }, moves)
    &&& requests::comes_from(moves, user)
    &&& moves.len() > 3
    &&& moves[2].event == Event::Form(Ok(upload))
    &&& if fresh {
        moves.len() > 4 && moves[4].action == Action::StoreProject(project)
    } else {
        moves[3].event == Event::Found(Ok(Some(project))) && project.user_id@ == user@
    }
}

#[verifier::rlimit(50)]
proof fn lemma_holds(
    start: u16,
    end: u16,
    user: String,
    upload: Upload,
    project: Project,
    fresh: bool,
    moves: Seq<Move>,
    i: int,
)
    requires
        is_deploy(start, end, user, upload, project, fresh, moves),
        (if fresh { 4int } else { 3int }) <= i < moves.len(),
    ensures
        holds_at(moves, i, upload, project, fresh),
    decreases i,
{
    let command = Command::Deploy { start, end };
    requests::lemma_step(command, moves, i);
    if i <= (if fresh { 4int } else { 3int }) {
        requests::lemma_steps(command, moves);
    } else {
        lemma_holds(start, end, user, upload, project, fresh, moves, i - 1);
        requests::lemma_step(command, moves, i - 1);
    }
}

/// How a deploy goes on, once the project is known: each step given what was last done and what
/// came of it.
///
/// What was deployed before is saved, and entered in the history of the same project; the entry
/// says that it is a bundle exactly where the uploaded bytes start with 1f 8b. Then the upload
/// itself is put in place under the name that was sent: a bundle is unpacked, kept, and the very
/// binary that was found in it is placed; anything else is written as it was sent, and a bundle
/// that was kept before goes. Only after that is the old process killed and the project started,
/// and what is answered is the process that was started.
#[verifier::rlimit(50)]
pub proof fn law_deploy_goes_on(
    start: u16,
    end: u16,
    user: String,
    upload: Upload,
    project: Project,
    fresh: bool,
    moves: Seq<Move>,
    i: int,
)
    requires
        is_deploy(start, end, user, upload, project, fresh, moves),
        (if fresh { 4int } else { 3int }) < i < moves.len(),
    ensures
        ({
            let bundle = starts_like_gzip(upload.binary@);
            let action = moves[i].action;
            let installs = action == (if bundle {
                Action::ExtractBundle(upload.name)
            } else {
                Action::WriteBinary { name: upload.name, bytes: upload.binary }
            });
            let in_place = action == (if fresh {
                Action::MakeBucket { project_id: project.id, name: upload.name }
            } else {
                Action::Kill(project.id)
            });
            let deploying = action == (Action::SetStatus {
                id: project.id,
                status: ProjectStatus::Deploying,
                pid: None,
            });
            match (moves[i - 1].action, moves[i].event) {
                // Saving what was deployed before.
                (Action::SaveSnapshot, Event::Saved(Ok(_))) => !fresh && action
                    == (Action::PruneHistory { project_id: project.id, keep: 3 }),
                (Action::SaveSnapshot, Event::Saved(Err(_))) => !fresh && installs,
                (Action::PruneHistory { .. }, Event::Pruned(Ok(paths))) => !fresh && action
                    == Action::DeleteSnapshots(paths),
                (Action::PruneHistory { .. }, Event::Pruned(Err(_))) | (
                    Action::DeleteSnapshots(_),
                    Event::Done(_),
                ) => {
                    &&& !fresh
                    &&& action matches Action::RecordSnapshot { project_id, path, is_bundle }
                    &&& project_id == project.id
                    &&& moves[4].event == Event::Saved(Ok(path))
                    &&& is_bundle == bundle
                },
                (Action::RecordSnapshot { .. }, Event::Done(_)) => !fresh && installs,
                // Storing a new project.
                (Action::StoreProject(_), Event::Done(Ok(_))) => fresh && installs,
                (Action::StoreProject(_), Event::Done(Err(e))) => fresh && action == Action::Refuse(
                    Refusal::NotStored(e),
                ),
                // Putting a bundle in place.
                (Action::ExtractBundle(_), Event::Extracted(Ok(_))) => bundle && action
                    == (Action::KeepBundle { name: upload.name, bytes: upload.binary }),
                (Action::ExtractBundle(_), Event::Extracted(Err(e))) => bundle && action
                    == Action::Refuse(Refusal::NotExtracted(e)),
                (Action::KeepBundle { .. }, Event::Done(Ok(_))) => {
                    &&& bundle
                    &&& moves[i - 1].event matches Event::Extracted(Ok(binary))
                    &&& action == (Action::PlaceBinary { from: Some(binary), name: upload.name })
                },
                (Action::KeepBundle { .. }, Event::Done(Err(_))) => bundle && action
                    == Action::DropBundle(upload.name),
                (Action::DropBundle(_), Event::Done(_)) => if bundle {
                    &&& moves[i - 2].event matches Event::Extracted(Ok(binary))
                    &&& action == (Action::PlaceBinary { from: Some(binary), name: upload.name })
                } else {
                    in_place
                },
                (Action::PlaceBinary { .. }, Event::Done(_)) => in_place,
                // Putting a binary in place.
                (Action::WriteBinary { .. }, Event::Done(Ok(_))) => !bundle && action
                    == Action::DropBundle(upload.name),
                (Action::WriteBinary { .. }, Event::Done(Err(e))) => !bundle && action
                    == Action::Refuse(Refusal::NotWritten(e)),
                // The bucket of a new project.
                (Action::MakeBucket { .. }, Event::Done(Ok(_))) => fresh && action
                    == (Action::StoreBucket { project_id: project.id, name: upload.name }),
                (Action::MakeBucket { .. }, Event::Done(Err(_))) => fresh && deploying,
                (Action::StoreBucket { .. }, Event::Done(_)) => fresh && deploying,
                // Starting the project.
                (Action::Kill(_), Event::Done(_)) => !fresh && deploying,
                (Action::Spawn(_), Event::Spawned(Ok(pid))) => action == (Action::SetStatus {
                    id: project.id,
                    status: ProjectStatus::Running,
                    pid: Some(pid as i64),
                }),
                (Action::Spawn(_), Event::Spawned(Err(_))) => action == (Action::SetStatus {
                    id: project.id,
                    status: ProjectStatus::Error,
                    pid: None,
                }),
                (Action::SetStatus { status, .. }, Event::Done(_)) => match status {
                    ProjectStatus::Deploying => action == Action::Spawn(project),
                    ProjectStatus::Running => {
                        &&& moves[i - 1].event matches Event::Spawned(Ok(started))
                        &&& action matches Action::Reply(
                            Reply::Deployed { project_id, name, port, pid, fresh: new },
                        )
                        &&& project_id == project.id
                        &&& name == upload.name
                        &&& 0 <= project.port < 0x1_0000 ==> port == project.port
                        &&& pid == started
                        &&& new == fresh
                    },
                    ProjectStatus::Error => {
                        &&& moves[i - 1].event matches Event::Spawned(Err(e))
                        &&& action == Action::Refuse(
                            if fresh {
                                Refusal::DeployFailed(e)
                            } else {
                                Refusal::RedeployFailed(e)
                            },
                        )
                    },
                    _ => false,
                },
                _ => false,
            }
        }),
{
    let command = Command::Deploy { start, end };
    lemma_holds(start, end, user, upload, project, fresh, moves, i - 1);
    requests::lemma_step(command, moves, i - 1);
    requests::lemma_step(command, moves, i);
}

/// In every deploy, the entry that is made in the history says that the snapshot is a bundle
/// exactly when the uploaded bytes start with 1f 8b, and names the snapshot that was saved and the
/// project that was found.
pub proof fn law_history_tells_the_kind(
    start: u16,
    end: u16,
    moves: Seq<Move>,
    i: int,
    project_id: String,
    path: String,
    is_bundle: bool,
)
    requires
        runs::is_run(Command::Deploy { start, end }, moves),
        0 <= i < moves.len(),
        moves[i].action == (Action::RecordSnapshot { project_id, path, is_bundle }),
    ensures
        i > 4,
        moves[2].event matches Event::Form(Ok(upload)) && (is_bundle <==> upload.binary@.len() >= 2
            && upload.binary@[0] == 0x1f && upload.binary@[1] == 0x8b),
        moves[3].event matches Event::Found(Ok(Some(project))) && project.id == project_id,
        moves[4].event == Event::Saved(Ok(path)),
{
    let command = Command::Deploy { start, end };
    requests::lemma_steps(command, moves);
    let user = moves[0].event->User_0.unwrap();
    runs::law_runs_end(command, moves);
    assert(moves[0].event is User);
    if i > 0 {
        assert(!runs::answers(moves[0].action));
        law_deploy_begins(start, end, user, moves);
        if i > 3 {
            assert(!runs::answers(moves[1].action));
            assert(!runs::answers(moves[2].action));
            assert(!runs::answers(moves[3].action));
            let upload = moves[2].event->Form_0->Ok_0;
            if moves[3].action == Action::SaveSnapshot {
                let project = moves[3].event->Found_0->Ok_0.unwrap();
                law_deploy_goes_on(start, end, user, upload, project, false, moves, i);
            } else if i > 4 {
                assert(!runs::answers(moves[4].action));
                let project = moves[4].action->StoreProject_0;
                law_deploy_goes_on(start, end, user, upload, project, true, moves, i);
            }
        }
    }
}

// ---------------------------------------------------------------------------------------------
// Rolling back
// ---------------------------------------------------------------------------------------------

/// A rollback looks up the project and then the entry of the history that was asked for. An entry
/// of another project is refused like one that is not there, and so is one whose snapshot is gone.
/// A bundle is read, a binary is restored to the place of that project's binary: it is the entry
/// that says which of the two the snapshot is.
pub proof fn law_rollback_begins(id: String, deploy_id: String, user: String, moves: Seq<Move>)
    requires
        runs::is_run(Command::RollbackDeploy { id, deploy_id }, moves),
        requests::comes_from(moves, user),
    ensures
        moves[0].action == Action::FindById(id),
        moves.len() > 1 ==> match moves[1].event {
            Event::Found(Ok(Some(_))) => moves[1].action == Action::FindDeploy(deploy_id),
            Event::Found(Ok(None)) => moves[1].action == Action::Refuse(Refusal::NoProject),
            Event::Found(Err(e)) => moves[1].action == Action::Refuse(Refusal::Failed(e)),
            _ => false,
        },
        moves.len() > 2 ==> match moves[2].event {
            Event::FoundDeploy(Ok(Some(entry))) => moves[2].action == (if entry.project_id@
                == id@ {
                Action::CheckSnapshot(entry.binary_path)
            } else {
                Action::Refuse(Refusal::NoDeploy)
            }),
            Event::FoundDeploy(Ok(None)) => moves[2].action == Action::Refuse(Refusal::NoDeploy),
            Event::FoundDeploy(Err(e)) => moves[2].action == Action::Refuse(Refusal::Failed(e)),
            _ => false,
        },
        moves.len() > 3 ==> (moves[1].event matches Event::Found(Ok(Some(project)))
            && moves[2].event matches Event::FoundDeploy(Ok(Some(entry)))
            && match moves[3].event {
            Event::Exists(exists) => moves[3].action == (if !exists {
                Action::Refuse(Refusal::NoSnapshot)
            } else if entry.is_bundle {
                Action::ReadSnapshot(entry.binary_path)
            } else {
                Action::RestoreBinary { snapshot: entry.binary_path, name: project.name }
            }),
            _ => false,
        }),
{
    requests::lemma_steps(Command::RollbackDeploy { id, deploy_id }, moves);
}

/// True for the run of a rollback of this project to this entry, once the snapshot was found.
pub open spec fn is_rollback(
    id: String,
    deploy_id: String,
    user: String,
    project: Project,
    entry: DeployHistory,
    moves: Seq<Move>,
) -> bool {
    &&& runs::is_run(Command::RollbackDeploy { id, deploy_id }, moves)
    &&& requests::comes_from(moves, user)
    &&& moves.len() > 3
    &&& moves[1].event == Event::Found(Ok(Some(project)))
    &&& moves[2].event == Event::FoundDeploy(Ok(Some(entry)))
    &&& moves[3].event == Event::Exists(true)
}

/// True for the start of a project by a rollback.
spec fn relaunches(launch: Launch, id: String, project: Project) -> bool {
    launch == (Launch { id, project, why: Why::Rollback })
}

/// True where the run holds this project after its step `i`.
spec fn rolls_at(
    moves: Seq<Move>,
    i: int,
    id: String,
    project: Project,
    entry: DeployHistory,
) -> bool {
    match moves[i].after {
        Stage::ReadingSnapshot { id: k, project: p } => {
            &&& k == id && p == project && entry.is_bundle && i == 3
            &&& moves[i].action is ReadSnapshot
        },
        Stage::ExtractingSnapshot { id: k, project: p, bytes } => {
            &&& k == id && p == project && entry.is_bundle && i == 4
            &&& moves[4].event == Event::Bytes(Ok(bytes))
            &&& moves[i].action is ExtractBundle
        },
        Stage::KeepingSnapshot { id: k, project: p } => {
            &&& k == id && p == project && entry.is_bundle && i == 5
            &&& moves[i].action is KeepBundle
        },
        Stage::DroppingSnapshot { id: k, project: p } => {
            &&& k == id && p == project && entry.is_bundle
            &&& moves[i].action is DropBundle
        },
        Stage::SearchingWorkspace { id: k, project: p } => {
            &&& k == id && p == project && entry.is_bundle
            &&& moves[i].action is SearchWorkspace
        },
        Stage::PlacingSnapshot { id: k, project: p } => {
            &&& k == id && p == project && entry.is_bundle
            &&& moves[i].action is PlaceBinary
        },
        Stage::Restoring { id: k, project: p } => {
            &&& k == id && p == project && !entry.is_bundle && i == 3
            &&& moves[i].action is RestoreBinary
        },
        Stage::SupersedingRestored { id: k, project: p } => {
            &&& k == id && p == project && !entry.is_bundle
            &&& moves[i].action is DropBundle
        },
        Stage::Killing { launch } => {
            &&& relaunches(launch, id, project)
            &&& moves[i].action is Kill
        },
        Stage::MarkingDeploying { launch } => {
            &&& relaunches(launch, id, project)
            &&& moves[i].action matches Action::SetStatus { status, .. }
            &&& status == ProjectStatus::Deploying
        },
        Stage::Spawning { launch } => {
            &&& relaunches(launch, id, project)
            &&& moves[i].action is Spawn
        },
        Stage::MarkingRunning { launch, pid } => {
            &&& relaunches(launch, id, project)
            &&& moves[i].event == Event::Spawned(Ok(pid))
            &&& moves[i].action matches Action::SetStatus { status, .. }
            &&& status == ProjectStatus::Running
        },
        Stage::MarkingError { launch, error } => {
            &&& relaunches(launch, id, project)
            &&& moves[i].event == Event::Spawned(Err(error))
            &&& moves[i].action matches Action::SetStatus { status, .. }
            &&& status == ProjectStatus::Error
        },
        Stage::Finished => true,
        _ => false,
    }
}

#[verifier::rlimit(50)]
proof fn lemma_rolls(
    id: String,
    deploy_id: String,
    user: String,
    project: Project,
    entry: DeployHistory,
    moves: Seq<Move>,
    i: int,
)
    requires
        is_rollback(id, deploy_id, user, project, entry, moves),
        3 <= i < moves.len(),
    ensures
        rolls_at(moves, i, id, project, entry),
    decreases i,
{
    let command = Command::RollbackDeploy { id, deploy_id };
    requests::lemma_step(command, moves, i);
    if i == 3 {
        requests::lemma_steps(command, moves);
    } else {
        lemma_rolls(id, deploy_id, user, project, entry, moves, i - 1);
        requests::lemma_step(command, moves, i - 1);
    }
}

/// How a rollback goes on, once the snapshot was found: each step given what was last done and
/// what came of it.
///
/// A bundle is unpacked for the project that was found, and the bytes that were read are kept. The
/// workspace is searched, and the very file that was located is copied to the place of the
/// project's binary. A binary was restored already; a bundle that was kept before goes. Only after
/// that is the process killed, under the identifier that was asked for, and the project started.
#[verifier::rlimit(50)]
pub proof fn law_rollback_goes_on(
    id: String,
    deploy_id: String,
    user: String,
    project: Project,
    entry: DeployHistory,
    moves: Seq<Move>,
    i: int,
)
    requires
        is_rollback(id, deploy_id, user, project, entry, moves),
        3 < i < moves.len(),
    ensures
        ({
            let action = moves[i].action;
            match (moves[i - 1].action, moves[i].event) {
                // Unpacking a bundle.
                (Action::ReadSnapshot(_), Event::Bytes(Ok(_))) => entry.is_bundle && action
                    == Action::ExtractBundle(project.name),
                (Action::ReadSnapshot(_), Event::Bytes(Err(e))) => entry.is_bundle && action
                    == Action::Refuse(Refusal::SnapshotUnreadable(e)),
                (Action::ExtractBundle(_), Event::Extracted(Ok(_))) => {
                    &&& entry.is_bundle
                    &&& moves[4].event matches Event::Bytes(Ok(bytes))
                    &&& action == (Action::KeepBundle { name: project.name, bytes })
                },
                (Action::ExtractBundle(_), Event::Extracted(Err(e))) => entry.is_bundle && action
                    == Action::Refuse(Refusal::NotExtracted(e)),
                (Action::KeepBundle { .. }, Event::Done(Ok(_))) => entry.is_bundle && action
                    == Action::SearchWorkspace(project.name),
                (Action::KeepBundle { .. }, Event::Done(Err(_))) => entry.is_bundle && action
                    == Action::DropBundle(project.name),
                (Action::DropBundle(_), Event::Done(_)) => action == (if entry.is_bundle {
                    Action::SearchWorkspace(project.name)
                } else {
                    Action::Kill(id)
                }),
                (Action::SearchWorkspace(_), Event::Located(found)) => entry.is_bundle && action
                    == (Action::PlaceBinary { from: found, name: project.name }),
                (Action::PlaceBinary { .. }, Event::Done(_)) => entry.is_bundle && action
                    == Action::Kill(id),
                // Restoring a binary.
                (Action::RestoreBinary { .. }, Event::Done(Ok(_))) => !entry.is_bundle && action
                    == Action::DropBundle(project.name),
                (Action::RestoreBinary { .. }, Event::Done(Err(e))) => !entry.is_bundle && action
                    == Action::Refuse(Refusal::NotRestored(e)),
                // Starting the project.
                (Action::Kill(_), Event::Done(_)) => action == (Action::SetStatus {
                    id,
                    status: ProjectStatus::Deploying,
                    pid: None,
                }),
                (Action::Spawn(_), Event::Spawned(Ok(pid))) => action == (Action::SetStatus {
                    id,
                    status: ProjectStatus::Running,
                    pid: Some(pid as i64),
                }),
                (Action::Spawn(_), Event::Spawned(Err(_))) => action == (Action::SetStatus {
                    id,
                    status: ProjectStatus::Error,
                    pid: None,
                }),
                (Action::SetStatus { status, .. }, Event::Done(_)) => match status {
                    ProjectStatus::Deploying => action == Action::Spawn(project),
                    ProjectStatus::Running => moves[i - 1].event matches Event::Spawned(Ok(pid))
                        && action == Action::Reply(Reply::RolledBack(pid)),
                    ProjectStatus::Error => moves[i - 1].event matches Event::Spawned(Err(e))
                        && action == Action::Refuse(Refusal::RollbackFailed(e)),
                    _ => false,
                },
                _ => false,
            }
        }),
{
    let command = Command::RollbackDeploy { id, deploy_id };
    lemma_rolls(id, deploy_id, user, project, entry, moves, i - 1);
    requests::lemma_step(command, moves, i - 1);
    requests::lemma_step(command, moves, i);
}

/// In every request, what a search of the workspace located is what is copied next, to the place
/// of the binary of the project whose workspace was searched; a process is killed only after that.
pub proof fn law_located_is_placed(command: Command, moves: Seq<Move>, i: int, found: Option<String>)
    requires
        runs::is_run(command, moves),
        0 <= i < moves.len(),
        moves[i].event == Event::Located(found),
    ensures
        i > 0,
        moves[i - 1].action matches Action::SearchWorkspace(name) && moves[i].action
            == (Action::PlaceBinary { from: found, name }),
        i + 1 < moves.len() ==> moves[i + 1].action is Kill,
        i + 2 < moves.len() ==> moves[i + 2].action is SetStatus,
        i + 3 < moves.len() ==> moves[i + 3].action is Spawn,
{
    requests::lemma_step(command, moves, i);
    if i > 0 {
        requests::lemma_step(command, moves, i - 1);
    }
    if i + 1 < moves.len() {
        requests::lemma_step(command, moves, i + 1);
    }
    if i + 2 < moves.len() {
        requests::lemma_step(command, moves, i + 2);
    }
    if i + 3 < moves.len() {
        requests::lemma_step(command, moves, i + 3);
    }
}

// ---------------------------------------------------------------------------------------------
// Stopping
// ---------------------------------------------------------------------------------------------

/// In every request, a project is stored as stopped only right after its process was killed
/// without an error, under the same identifier.
pub proof fn law_stopped_means_killed(
    command: Command,
    moves: Seq<Move>,
    i: int,
    id: String,
    pid: Option<i64>,
)
    requires
        runs::is_run(command, moves),
        0 <= i < moves.len(),
        moves[i].action == (Action::SetStatus { id, status: ProjectStatus::Stopped, pid }),
    ensures
        i > 0,
        moves[i - 1].action == Action::Kill(id),
        moves[i].event matches Event::Done(Ok(_)),
        pid is None,
{
    requests::lemma_step(command, moves, i);
    if i > 0 {
        requests::lemma_step(command, moves, i - 1);
    }
}

/// A request is answered with the word that a project was stopped only where that was asked for,
/// and only after the process of that very project was killed without an error.
#[verifier::rlimit(50)]
pub proof fn law_told_stopped_means_killed(command: Command, moves: Seq<Move>, i: int)
    requires
        runs::is_run(command, moves),
        0 <= i < moves.len(),
        moves[i].action == Action::Reply(Reply::Stopped),
    ensures
        command matches Command::StopProject { id } && i == 2 && moves[0].action == Action::Kill(id)
            && moves[1].event matches Event::Done(Ok(_)),
{
    requests::lemma_step(command, moves, i);
    if i > 0 {
        requests::lemma_step(command, moves, i - 1);
    }
    if i > 1 {
        requests::lemma_step(command, moves, i - 2);
    }
    if i > 2 {
        requests::lemma_step(command, moves, i - 3);
    }
}

/// What is unpacked is what was sent: while a deploy unpacks a bundle, the bundle at hand is the
/// uploaded bytes, and while what was deployed before is saved, the upload at hand is the one that
/// was sent.
pub proof fn law_deploy_unpacks_the_upload(
    start: u16,
    end: u16,
    user: String,
    upload: Upload,
    project: Project,
    fresh: bool,
    moves: Seq<Move>,
    i: int,
    bundle: Option<&Vec<u8>>,
    sent: Option<&Upload>,
)
    requires
        is_deploy(start, end, user, upload, project, fresh, moves),
        (if fresh { 4int } else { 3int }) <= i < moves.len(),
        call_ensures(Stage::bundle, (&moves[i].after,), bundle),
        call_ensures(Stage::upload, (&moves[i].after,), sent),
    ensures
        moves[i].action is ExtractBundle ==> bundle == Some(&upload.binary),
        moves[i].action is SaveSnapshot ==> sent == Some(&upload),
{
    lemma_holds(start, end, user, upload, project, fresh, moves, i);
    requests::lemma_step(Command::Deploy { start, end }, moves, i);
}

/// What a rollback unpacks is what was read of the snapshot.
pub proof fn law_rollback_unpacks_what_was_read(
    id: String,
    deploy_id: String,
    user: String,
    project: Project,
    entry: DeployHistory,
    moves: Seq<Move>,
    i: int,
    bundle: Option<&Vec<u8>>,
)
    requires
        is_rollback(id, deploy_id, user, project, entry, moves),
        3 <= i < moves.len(),
        moves[i].action is ExtractBundle,
        call_ensures(Stage::bundle, (&moves[i].after,), bundle),
    ensures
        moves[4].event matches Event::Bytes(Ok(bytes)) && bundle == Some(&bytes),
{
    lemma_rolls(id, deploy_id, user, project, entry, moves, i);
    requests::lemma_step(Command::RollbackDeploy { id, deploy_id }, moves, i);
}

} // verus!
