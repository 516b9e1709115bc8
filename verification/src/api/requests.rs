//! What each request does, told by what is seen from outside: the actions of its run, given the
//! events.

use vstd::prelude::*;

use crate::api::deploy;
use crate::api::deploy::{Action, Command, Event, Reply, Stage, VacuumError};
use crate::api::refusal::Refusal;
use crate::api::runs;
use crate::api::runs::Move;
use crate::db::models::ProjectStatus;
use crate::text;

verus! {

/// One step of a run, and how it hangs together with the one before.
pub proof fn lemma_step(command: Command, moves: Seq<Move>, i: int)
    requires
        runs::is_run(command, moves),
        0 <= i < moves.len(),
    ensures
        deploy::steps(moves[i].before, moves[i].event, moves[i].after, moves[i].action),
        i == 0 ==> moves[i].before == deploy::received(command).0,
        i > 0 ==> moves[i - 1].after == moves[i].before,
{
    assert(deploy::steps(moves[i].before, moves[i].event, moves[i].after, moves[i].action));
    if i > 0 {
        assert(moves[i - 1].after == moves[i].before);
    }
}

/// The steps of a run, and how its first eight hang together.
pub proof fn lemma_steps(command: Command, moves: Seq<Move>)
    requires
        runs::is_run(command, moves),
    ensures
        forall|i: int|
            0 <= i < moves.len() ==> deploy::steps(
                (#[trigger] moves[i]).before,
                moves[i].event,
                moves[i].after,
                moves[i].action,
            ),
        moves.len() > 0 ==> moves[0].before == deploy::received(command).0,
        moves.len() > 1 ==> moves[0].after == moves[1].before,
        moves.len() > 2 ==> moves[1].after == moves[2].before,
        moves.len() > 3 ==> moves[2].after == moves[3].before,
        moves.len() > 4 ==> moves[3].after == moves[4].before,
        moves.len() > 5 ==> moves[4].after == moves[5].before,
        moves.len() > 6 ==> moves[5].after == moves[6].before,
        moves.len() > 7 ==> moves[6].after == moves[7].before,
{
    assert forall|i: int| 0 <= i < moves.len() implies deploy::steps(
        (#[trigger] moves[i]).before,
        moves[i].event,
        moves[i].after,
        moves[i].action,
    ) by {
        lemma_step(command, moves, i);
    }
    if moves.len() > 1 {
        lemma_step(command, moves, 1);
    }
    if moves.len() > 2 {
        lemma_step(command, moves, 2);
    }
    if moves.len() > 3 {
        lemma_step(command, moves, 3);
    }
    if moves.len() > 4 {
        lemma_step(command, moves, 4);
    }
    if moves.len() > 5 {
        lemma_step(command, moves, 5);
    }
    if moves.len() > 6 {
        lemma_step(command, moves, 6);
    }
    if moves.len() > 7 {
        lemma_step(command, moves, 7);
    }
}

/// True for the first step of a request that comes from this user.
pub open spec fn comes_from(moves: Seq<Move>, user: String) -> bool {
    moves.len() > 0 && moves[0].event == Event::User(Some(user))
}

// ---------------------------------------------------------------------------------------------
// Starting, stopping and deleting
// ---------------------------------------------------------------------------------------------

/// A request to stop a project kills the project's process. Only once that went without an error is
/// the project stored as stopped, without a process, and only then is the request answered with
/// success. Where the kill failed, that is told.
pub proof fn law_stop(id: String, user: String, moves: Seq<Move>)
    requires
        runs::is_run(Command::StopProject { id }, moves),
        comes_from(moves, user),
    ensures
        moves[0].action == Action::Kill(id),
        moves.len() > 1 ==> match moves[1].event {
            Event::Done(Ok(_)) => moves[1].action == (Action::SetStatus {
                id,
                status: ProjectStatus::Stopped,
                pid: None,
            }),
            Event::Done(Err(e)) => moves[1].action == Action::Refuse(Refusal::Failed(e)),
            _ => false,
        },
        moves.len() > 2 ==> (moves[1].event matches Event::Done(Ok(_))) && moves[2].action
            == Action::Reply(Reply::Stopped),
        moves.len() <= 3,
{
    lemma_steps(Command::StopProject { id }, moves);
}

/// A request to restart a project kills its process and starts the very project that was found. It
/// is stored as running with the process that was started, and that is answered.
pub proof fn law_restart(id: String, user: String, moves: Seq<Move>)
    requires
        runs::is_run(Command::RestartProject { id }, moves),
        comes_from(moves, user),
    ensures
        moves[0].action == Action::FindById(id),
        moves.len() > 1 ==> match moves[1].event {
            Event::Found(Ok(Some(project))) => moves[1].action == Action::Kill(id),
            Event::Found(Ok(None)) => moves[1].action == Action::Refuse(Refusal::NoProject),
            Event::Found(Err(e)) => moves[1].action == Action::Refuse(Refusal::Failed(e)),
            _ => false,
        },
        moves.len() > 2 ==> (moves[1].event matches Event::Found(Ok(Some(project)))
            && moves[2].action == Action::Spawn(project)),
        moves.len() > 3 ==> match moves[3].event {
            Event::Spawned(Ok(pid)) => moves[3].action == (Action::SetStatus {
                id,
                status: ProjectStatus::Running,
                pid: Some(pid as i64),
            }),
            Event::Spawned(Err(e)) => moves[3].action == Action::Refuse(Refusal::RestartFailed(e)),
            _ => false,
        },
        moves.len() > 4 ==> (moves[3].event matches Event::Spawned(Ok(pid))
            && moves[4].action == Action::Reply(Reply::Restarted(pid))),
        moves.len() <= 5,
{
    lemma_steps(Command::RestartProject { id }, moves);
}

/// A request to delete a project kills its process, deletes its row, and only then removes the
/// directory of that project and its storage. What is answered is what was deleted.
pub proof fn law_delete(id: String, user: String, moves: Seq<Move>)
    requires
        runs::is_run(Command::DeleteProject { id }, moves),
        comes_from(moves, user),
    ensures
        moves[0].action == Action::FindById(id),
        moves.len() > 1 ==> match moves[1].event {
            Event::Found(Ok(Some(project))) => moves[1].action == Action::Kill(id),
            Event::Found(Ok(None)) => moves[1].action == Action::Refuse(Refusal::NoProject),
            Event::Found(Err(e)) => moves[1].action == Action::Refuse(Refusal::Failed(e)),
            _ => false,
        },
        moves.len() > 2 ==> moves[2].action == Action::Delete(id),
        moves.len() > 3 ==> match moves[3].event {
            Event::Done(Ok(_)) => (moves[1].event matches Event::Found(Ok(Some(project)))
                && moves[3].action == Action::RemoveAppDir(project.name)),
            Event::Done(Err(e)) => moves[3].action == Action::Refuse(Refusal::Failed(e)),
            _ => false,
        },
        moves.len() > 4 ==> (moves[1].event matches Event::Found(Ok(Some(project)))
            && moves[4].action == Action::RemoveStorage(project.id)),
        moves.len() > 5 ==> moves[5].action == Action::Reply(Reply::Deleted(id)),
        moves.len() <= 6,
{
    lemma_steps(Command::DeleteProject { id }, moves);
}

// ---------------------------------------------------------------------------------------------
// Settings
// ---------------------------------------------------------------------------------------------

/// New variables of a project are written, as they were sent, to the file of the project that was
/// found; then the project is restarted. Nothing is restarted where they could not be saved.
pub proof fn law_update_env(id: String, content: String, user: String, moves: Seq<Move>)
    requires
        runs::is_run(Command::UpdateEnv { id, content }, moves),
        comes_from(moves, user),
    ensures
        moves[0].action == Action::FindById(id),
        moves.len() > 1 ==> match moves[1].event {
            Event::Found(Ok(Some(project))) => moves[1].action == Action::MakeDataDir(project.name),
            Event::Found(Ok(None)) => moves[1].action == Action::Refuse(Refusal::NoProject),
            Event::Found(Err(e)) => moves[1].action == Action::Refuse(Refusal::Failed(e)),
            _ => false,
        },
        moves.len() > 2 ==> match moves[2].event {
            Event::Done(Ok(_)) => (moves[1].event matches Event::Found(Ok(Some(project)))
                && moves[2].action == (Action::SaveEnv { name: project.name, content })),
            Event::Done(Err(e)) => moves[2].action == Action::Refuse(Refusal::NoDataDir(e)),
            _ => false,
        },
        moves.len() > 3 ==> match moves[3].event {
            Event::Done(Ok(_)) => moves[3].action == Action::Kill(id),
            Event::Done(Err(e)) => moves[3].action == Action::Refuse(Refusal::EnvNotSaved(e)),
            _ => false,
        },
        moves.len() > 4 ==> (moves[1].event matches Event::Found(Ok(Some(project)))
            && moves[4].action == Action::Spawn(project)),
        moves.len() > 5 ==> match moves[5].event {
            Event::Spawned(Ok(pid)) => moves[5].action == (Action::SetStatus {
                id,
                status: ProjectStatus::Running,
                pid: Some(pid as i64),
            }),
            Event::Spawned(Err(e)) => moves[5].action == Action::Refuse(Refusal::EnvRestartFailed(e)),
            _ => false,
        },
        moves.len() > 6 ==> (moves[5].event matches Event::Spawned(Ok(_))
            && moves[6].action == Action::Reply(Reply::EnvUpdated)),
        moves.len() <= 7,
{
    lemma_steps(Command::UpdateEnv { id, content }, moves);
}

/// A new memory limit is stored as it was sent before the project is looked up, so that it is the
/// project with the new limit that is started again.
pub proof fn law_set_limits(id: String, ram_limit_mb: Option<i64>, user: String, moves: Seq<Move>)
    requires
        runs::is_run(Command::SetLimits { id, ram_limit_mb }, moves),
        comes_from(moves, user),
    ensures
        moves[0].action == (Action::SetRamLimit { id, ram_limit_mb }),
        moves.len() > 1 ==> match moves[1].event {
            Event::Done(Ok(_)) => moves[1].action == Action::FindById(id),
            Event::Done(Err(e)) => moves[1].action == Action::Refuse(Refusal::Failed(e)),
            _ => false,
        },
        moves.len() > 2 ==> match moves[2].event {
            Event::Found(Ok(Some(project))) => moves[2].action == Action::Kill(id),
            Event::Found(Ok(None)) => moves[2].action == Action::Refuse(Refusal::NoProject),
            Event::Found(Err(e)) => moves[2].action == Action::Refuse(Refusal::Failed(e)),
            _ => false,
        },
        moves.len() > 3 ==> (moves[2].event matches Event::Found(Ok(Some(project)))
            && moves[3].action == Action::Spawn(project)),
        moves.len() > 4 ==> match moves[4].event {
            Event::Spawned(Ok(pid)) => moves[4].action == (Action::SetStatus {
                id,
                status: ProjectStatus::Running,
                pid: Some(pid as i64),
            }),
            Event::Spawned(Err(e)) => moves[4].action == Action::Refuse(Refusal::LimitRestartFailed(e)),
            _ => false,
        },
        moves.len() > 5 ==> (moves[4].event matches Event::Spawned(Ok(_))
            && moves[5].action == Action::Reply(Reply::LimitSet)),
        moves.len() <= 6,
{
    lemma_steps(Command::SetLimits { id, ram_limit_mb }, moves);
}

/// A custom domain is stored as it was sent, and a blank one takes the domain away. What is answered
/// is what was stored.
pub proof fn law_set_custom_domain(id: String, domain: Option<String>, user: String, moves: Seq<Move>)
    requires
        runs::is_run(Command::SetCustomDomain { id, domain }, moves),
        comes_from(moves, user),
    ensures
        ({
            let stored = match domain {
                Some(d) => if forall|i: int|
                    0 <= i < d@.len() ==> text::is_white_space(#[trigger] d@[i]) {
                    None
                } else {
                    Some(d)
                },
                None => None,
            };
            &&& moves[0].action == (Action::SetDomain { id, domain: stored })
            &&& moves.len() > 1 ==> match moves[1].event {
                Event::Done(Ok(_)) => moves[1].action == Action::Reply(Reply::DomainSet(stored)),
                Event::Done(Err(e)) => moves[1].action == Action::Refuse(Refusal::Failed(e)),
                _ => false,
            }
        }),
        moves.len() <= 2,
{
    lemma_steps(Command::SetCustomDomain { id, domain }, moves);
    if let Some(d) = domain {
        text::lemma_blank_is_trimmed_away(d@);
    }
}

// ---------------------------------------------------------------------------------------------
// Reading
// ---------------------------------------------------------------------------------------------

/// What is answered of a project's variables is the file of the project that was found.
pub proof fn law_get_env(id: String, user: String, moves: Seq<Move>)
    requires
        runs::is_run(Command::GetEnv { id }, moves),
        comes_from(moves, user),
    ensures
        moves[0].action == Action::FindById(id),
        moves.len() > 1 ==> match moves[1].event {
            Event::Found(Ok(Some(project))) => moves[1].action == Action::ReadEnv(project.name),
            Event::Found(Ok(None)) => moves[1].action == Action::Refuse(Refusal::NoProject),
            Event::Found(Err(e)) => moves[1].action == Action::Refuse(Refusal::Failed(e)),
            _ => false,
        },
        moves.len() > 2 ==> (moves[2].event matches Event::Text(content) && moves[2].action
            == Action::Reply(Reply::Env(content))),
        moves.len() <= 3,
{
    lemma_steps(Command::GetEnv { id }, moves);
}

/// All projects that were found are listed.
pub proof fn law_list_projects(user: String, moves: Seq<Move>)
    requires
        runs::is_run(Command::ListProjects, moves),
        comes_from(moves, user),
    ensures
        moves[0].action == Action::FindAll,
        moves.len() > 1 ==> match moves[1].event {
            Event::AllFound(Ok(found)) => moves[1].action == Action::Reply(Reply::Projects(found)),
            Event::AllFound(Err(e)) => moves[1].action == Action::Refuse(Refusal::Failed(e)),
            _ => false,
        },
        moves.len() <= 2,
{
    lemma_steps(Command::ListProjects, moves);
}

/// The web server is configured for all projects that were found.
pub proof fn law_caddy_config(user: String, moves: Seq<Move>)
    requires
        runs::is_run(Command::CaddyConfig, moves),
        comes_from(moves, user),
    ensures
        moves[0].action == Action::FindAll,
        moves.len() > 1 ==> match moves[1].event {
            Event::AllFound(Ok(found)) => moves[1].action == Action::Reply(Reply::Caddy(found)),
            Event::AllFound(Err(e)) => moves[1].action == Action::Refuse(Refusal::Failed(e)),
            _ => false,
        },
        moves.len() <= 2,
{
    lemma_steps(Command::CaddyConfig, moves);
}

/// The whole history of the project that was asked for is listed.
pub proof fn law_list_deploys(id: String, user: String, moves: Seq<Move>)
    requires
        runs::is_run(Command::ListDeploys { id }, moves),
        comes_from(moves, user),
    ensures
        moves[0].action == Action::FindDeploys(id),
        moves.len() > 1 ==> match moves[1].event {
            Event::Deploys(Ok(found)) => moves[1].action == Action::Reply(Reply::Deploys(found)),
            Event::Deploys(Err(e)) => moves[1].action == Action::Refuse(Refusal::Failed(e)),
            _ => false,
        },
        moves.len() <= 2,
{
    lemma_steps(Command::ListDeploys { id }, moves);
}

/// What is answered is what the process of the project that was asked for uses.
pub proof fn law_get_metrics(id: String, user: String, moves: Seq<Move>)
    requires
        runs::is_run(Command::GetMetrics { id }, moves),
        comes_from(moves, user),
    ensures
        moves[0].action == Action::Reply(Reply::Metrics(id)),
        moves.len() == 1,
{
    lemma_steps(Command::GetMetrics { id }, moves);
}

/// A backup is of the database of the project that was found: where there is one, the last copy is
/// removed, the database is copied, the copy is read and removed, and what was read is answered.
/// Whatever fails on the way is told.
pub proof fn law_download_backup(id: String, user: String, moves: Seq<Move>)
    requires
        runs::is_run(Command::DownloadBackup { id }, moves),
        comes_from(moves, user),
    ensures
        moves[0].action == Action::FindById(id),
        moves.len() > 1 ==> match moves[1].event {
            Event::Found(Ok(Some(project))) => moves[1].action == Action::CheckDatabase(project.name),
            Event::Found(Ok(None)) => moves[1].action == Action::Refuse(Refusal::NoProject),
            Event::Found(Err(e)) => moves[1].action == Action::Refuse(Refusal::Failed(e)),
            _ => false,
        },
        moves.len() > 2 ==> (moves[1].event matches Event::Found(Ok(Some(project)))
            && match moves[2].event {
                Event::Exists(exists) => moves[2].action == (if exists {
                    Action::RemoveBackup(project.name)
                } else {
                    Action::Refuse(Refusal::NoDatabase)
                }),
                _ => false,
            }),
        moves.len() > 3 ==> (moves[1].event matches Event::Found(Ok(Some(project)))
            && moves[3].action == Action::Vacuum(project.name)),
        moves.len() > 4 ==> (moves[1].event matches Event::Found(Ok(Some(project)))
            && match moves[4].event {
                Event::Vacuumed(Ok(_)) => moves[4].action == Action::ReadBackup(project.name),
                Event::Vacuumed(Err(VacuumError::Open(e))) => moves[4].action == Action::Refuse(
                    Refusal::Failed(e),
                ),
                Event::Vacuumed(Err(VacuumError::Copy(e))) => moves[4].action == Action::Refuse(
                    Refusal::BackupFailed(e),
                ),
                Event::Vacuumed(Err(VacuumError::Task(e))) => moves[4].action == Action::Refuse(
                    Refusal::BackupTaskFailed(e),
                ),
                _ => false,
            }),
        moves.len() > 5 ==> (moves[1].event matches Event::Found(Ok(Some(project)))
            && match moves[5].event {
                Event::Bytes(Ok(_)) => moves[5].action == Action::RemoveBackup(project.name),
                Event::Bytes(Err(e)) => moves[5].action == Action::Refuse(
                    Refusal::BackupUnreadable(e),
                ),
                _ => false,
            }),
        moves.len() > 6 ==> (moves[1].event matches Event::Found(Ok(Some(project)))
            && moves[5].event matches Event::Bytes(Ok(bytes)) && moves[6].action == Action::Reply(
            Reply::Backup { name: project.name, bytes },
        )),
        moves.len() <= 7,
{
    lemma_steps(Command::DownloadBackup { id }, moves);
}

// ---------------------------------------------------------------------------------------------
// Actions and events
// ---------------------------------------------------------------------------------------------

/// True for an event that tells what came of the action.
pub open spec fn tells_of(event: Event, action: Action) -> bool {
    match action {
        Action::Authenticate => event is User,
        Action::AcquireLock => event is Locked,
        Action::ReadForm => event is Form,
        Action::FindByName(_) | Action::FindById(_) => event is Found,
        Action::FindAll => event is AllFound,
        Action::SaveSnapshot => event is Saved,
        Action::PruneHistory { .. } => event is Pruned,
        Action::ExtractBundle(_) => event is Extracted,
        Action::ListPorts => event is Ports,
        Action::Spawn(_) => event is Spawned,
        Action::CheckDatabase(_) | Action::CheckSnapshot(_) => event is Exists,
        Action::Vacuum(_) => event is Vacuumed,
        Action::ReadBackup(_) | Action::ReadSnapshot(_) => event is Bytes,
        Action::ReadEnv(_) => event is Text,
        Action::FindDeploys(_) => event is Deploys,
        Action::FindDeploy(_) => event is FoundDeploy,
        Action::SearchWorkspace(_) => event is Located,
        Action::Reply(_) | Action::Refuse(_) => false,
        _ => event is Done,
    }
}

/// A run goes on with whatever came of its last action, and with nothing else: every outcome of the
/// action is expected, and after the answer nothing is.
#[verifier::rlimit(50)]
pub proof fn law_every_outcome_is_expected(
    command: Command,
    moves: Seq<Move>,
    i: int,
    event: Event,
    expected: bool,
)
    requires
        runs::is_run(command, moves),
        0 <= i < moves.len(),
        call_ensures(Stage::is_expected, (&moves[i].after, &event), expected),
    ensures
        expected <==> tells_of(event, moves[i].action),
        moves[i].after.expects(event) <==> tells_of(event, moves[i].action),
        deploy::received(command).0.expects(event) <==> event is User,
{
    lemma_step(command, moves, i);
}

/// A request that comes from nobody known is refused, a deploy with a word on how to be known.
pub proof fn law_unknown_sender(command: Command, moves: Seq<Move>)
    requires
        runs::is_run(command, moves),
        moves.len() > 0,
        moves[0].event == Event::User(None),
    ensures
        moves.len() == 1,
        moves[0].action == Action::Refuse(
            if command is Deploy {
                Refusal::UnauthenticatedDeploy
            } else {
                Refusal::Unauthenticated
            },
        ),
{
    lemma_steps(command, moves);
    runs::law_unauthenticated_is_refused(command, moves);
}

} // verus!
