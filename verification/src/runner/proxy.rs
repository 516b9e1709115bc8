//! The reverse proxy: which project a request is for, and how the request gets there.

use vstd::prelude::*;
use vstd::string::*;

use crate::api::form;
use crate::db::models;
use crate::db::models::{Project, ProjectStatus};
use crate::text;

verus! {

// ---------------------------------------------------------------------------------------------
// Hosts
// ---------------------------------------------------------------------------------------------

/// What comes before the domain in a host: the name in `name.domain`, with or without a port
/// behind it.
pub open spec fn subdomain_of(host: Seq<char>, domain: Seq<char>) -> Option<Seq<char>> {
    let h = text::part_before(host, ':');
    let suffix = "."@ + domain;
    if suffix.is_suffix_of(h) && h.len() > suffix.len() {
        Some(h.take(h.len() - suffix.len()))
    } else {
        None
    }
}

/// The subdomain of a host.
///
/// `myapp.mypaas.com` with the domain `mypaas.com` has the subdomain `myapp`, and so has
/// `myapp.localhost` with the domain `localhost`.
pub fn extract_subdomain<'a>(host: &'a str, domain: &str) -> (r: Option<&'a str>)
    ensures
        match r {
            Some(s) => subdomain_of(host@, domain@) == Some(s@),
            None => subdomain_of(host@, domain@) is None,
        },
{
    let h = text::before(host, ':');
    let suffix = ".".to_owned().concat(domain);
    if text::ends_with(h, suffix.as_str()) {
        let n = h.unicode_len();
        let m = suffix.as_str().unicode_len();
        if n == m {
            None
        } else {
            assert(h@.subrange(0, n - m) =~= h@.take(n - m));
            Some(h.substring_char(0, n - m))
        }
    } else {
        None
    }
}

/// The host that a request names; the empty one where it names none.
pub open spec fn named_host(host: Option<&str>) -> Seq<char> {
    match host {
        Some(h) => h@,
        None => ""@,
    }
}

/// True for a request that is for a project, by its `Host` header.
pub fn has_app_subdomain(host: Option<&str>, domain: &str) -> (r: bool)
    ensures
        r == (subdomain_of(named_host(host), domain@) is Some),
{
    let h = match host {
        Some(h) => h,
        None => "",
    };
    extract_subdomain(h, domain).is_some()
}

/// A host made of a name and the domain, with or without a port, has the name as its subdomain.
pub proof fn law_subdomain_of_name(name: Seq<char>, domain: Seq<char>, port: Seq<char>)
    requires
        name.len() > 0,
        !name.contains(':'),
        !domain.contains(':'),
    ensures
        subdomain_of(name + "."@ + domain, domain) == Some(name),
        subdomain_of(name + "."@ + domain + ":"@ + port, domain) == Some(name),
{
    reveal_strlit(".");
    reveal_strlit(":");
    let h = name + "."@ + domain;
    let suffix = "."@ + domain;
    assert forall|i: int| 0 <= i < h.len() implies h[i] != ':' by {
        if i < name.len() {
            assert(name.contains(h[i]));
        } else if i > name.len() {
            assert(domain.contains(h[i]));
        }
    }
    let long = h + ":"@ + port;
    text::lemma_position_of(h, ':');
    text::lemma_position_unique(long, ':', h.len() as int);
    assert(text::part_before(h, ':') =~= h);
    assert(text::part_before(long, ':') =~= h);
    assert(h.subrange(h.len() - suffix.len(), h.len() as int) =~= suffix);
    assert(h.take(h.len() - suffix.len()) =~= name);
}

/// A project is reached under its name: the host made of a name that a project can have and the
/// domain has that name, which is the new project's subdomain, as its subdomain.
pub proof fn law_projects_are_reachable(name: Seq<char>, domain: Seq<char>, port: Seq<char>)
    requires
        form::is_project_name(name),
        !domain.contains(':'),
    ensures
        subdomain_of(name + "."@ + domain, domain) == Some(name),
        subdomain_of(name + "."@ + domain + ":"@ + port, domain) == Some(name),
{
    assert forall|i: int| 0 <= i < name.len() implies name[i] != ':' by {
        assert(form::is_name_char(name[i]));
    }
    law_subdomain_of_name(name, domain, port);
}

/// The domain itself has no subdomain, with or without a port.
pub proof fn law_domain_is_no_subdomain(domain: Seq<char>, port: Seq<char>)
    requires
        !domain.contains(':'),
    ensures
        subdomain_of(domain, domain) is None,
        subdomain_of(domain + ":"@ + port, domain) is None,
{
    reveal_strlit(".");
    reveal_strlit(":");
    assert forall|i: int| 0 <= i < domain.len() implies domain[i] != ':' by {
        assert(domain.contains(domain[i]));
    }
    let long = domain + ":"@ + port;
    text::lemma_position_of(domain, ':');
    text::lemma_position_unique(long, ':', domain.len() as int);
    assert(text::part_before(domain, ':') =~= domain);
    assert(text::part_before(long, ':') =~= domain);
}

// ---------------------------------------------------------------------------------------------
// The way of a request
// ---------------------------------------------------------------------------------------------

/// Milliseconds that a process is given to get ready.
pub const STARTUP_MILLIS: u64 = 500;

/// Why a request was not passed on, or not answered by its project.
#[derive(Debug)]
pub enum ProxyRefusal {
    NoSubdomain,
    UnknownApp(String),
    Database(String),
    NotStarted { name: String, error: String },
    NotBuilt(String),
    NotRead(String),
    NotResponding { name: String, error: String },
}

impl ProxyRefusal {
    /// The HTTP status of the refusal.
    pub open spec fn code(self) -> u16 {
        match self {
            ProxyRefusal::NoSubdomain => 404,
            ProxyRefusal::UnknownApp(_) => 404,
            ProxyRefusal::Database(_) => 500,
            ProxyRefusal::NotStarted { .. } => 503,
            ProxyRefusal::NotBuilt(_) => 500,
            ProxyRefusal::NotRead(_) => 502,
            ProxyRefusal::NotResponding { .. } => 502,
        }
    }

    /// The text of the refusal.
    pub open spec fn text(self) -> Seq<char> {
        match self {
            ProxyRefusal::NoSubdomain => "No subdomain found"@,
            ProxyRefusal::UnknownApp(name) => "App '"@ + name@ + "' not found"@,
            ProxyRefusal::Database(error) => "DB error: "@ + error@,
            ProxyRefusal::NotStarted { name, error } => "Failed to start app '"@ + name@ + "': "@
                + error@,
            ProxyRefusal::NotBuilt(error) => "Request build error: "@ + error@,
            ProxyRefusal::NotRead(error) => "Failed to read response: "@ + error@,
            ProxyRefusal::NotResponding { name, error } => "App '"@ + name@
                + "' is not responding: "@ + error@,
        }
    }

    /// The HTTP status of the refusal.
    pub fn status(&self) -> (r: u16)
        ensures
            r == self.code(),
    {
        match self {
            ProxyRefusal::NoSubdomain => 404,
            ProxyRefusal::UnknownApp(_) => 404,
            ProxyRefusal::Database(_) => 500,
            ProxyRefusal::NotStarted { .. } => 503,
            ProxyRefusal::NotBuilt(_) => 500,
            ProxyRefusal::NotRead(_) => 502,
            ProxyRefusal::NotResponding { .. } => 502,
        }
    }

    /// The text of the refusal.
    pub fn message(&self) -> (r: String)
        ensures
            r@ == self.text(),
    {
        match self {
            ProxyRefusal::NoSubdomain => "No subdomain found".to_owned(),
            ProxyRefusal::UnknownApp(name) => "App '".to_owned().concat(name.as_str()).concat(
                "' not found",
            ),
            ProxyRefusal::Database(error) => "DB error: ".to_owned().concat(error.as_str()),
            ProxyRefusal::NotStarted { name, error } => "Failed to start app '".to_owned().concat(
                name.as_str(),
            ).concat("': ").concat(error.as_str()),
            ProxyRefusal::NotBuilt(error) => "Request build error: ".to_owned().concat(
                error.as_str(),
            ),
            ProxyRefusal::NotRead(error) => "Failed to read response: ".to_owned().concat(
                error.as_str(),
            ),
            ProxyRefusal::NotResponding { name, error } => "App '".to_owned().concat(
                name.as_str(),
            ).concat("' is not responding: ").concat(error.as_str()),
        }
    }
}

/// What to do next for a request.
#[derive(Debug)]
pub enum ProxyAction {
    /// Look for the project with this custom domain.
    FindByCustomDomain(String),
    /// Look for the project with this subdomain.
    FindBySubdomain(String),
    /// See whether the process of the project with this identifier is running.
    CheckRunning(String),
    /// Start this project.
    Spawn(Project),
    /// Wait for so many milliseconds.
    Wait(u64),
    /// Note that the project with this identifier is active.
    RecordActivity(String),
    /// Send the request to this project's port.
    Forward(Project),
    /// Answer as the project did.
    Relay,
    /// Answer with a refusal.
    Refuse(ProxyRefusal),
}

/// What came of sending a request to a project.
#[derive(Debug)]
pub enum Forwarded {
    /// The project's answer is there.
    Answered,
    /// The request could not be put together.
    NotBuilt(String),
    /// The project did not answer.
    NotResponding(String),
    /// The answer could not be read.
    NotRead(String),
}

/// What came of an action.
#[derive(Debug)]
pub enum ProxyEvent {
    Found(Result<Option<Project>, String>),
    Running(bool),
    Spawned(Result<u32, String>),
    Done,
    Forwarded(Forwarded),
}

/// How far a request has come.
#[derive(Debug)]
pub enum ProxyStage {
    /// The custom domain of the host is being looked up.
    ByCustomDomain { host: String, domain: String },
    /// A subdomain is being looked up.
    BySubdomain { subdomain: String },
    /// It is being seen whether the project is running.
    Checking { project: Project },
    /// The project is being started.
    Starting { project: Project },
    /// The project is getting ready.
    Waiting { project: Project },
    /// The activity is being noted.
    Recording { project: Project },
    /// The project has the request.
    Forwarding { project: Project },
    /// The request was answered.
    Answered,
}

impl ProxyStage {
    /// True for an event that can follow the action of this stage.
    pub open spec fn expects(self, event: ProxyEvent) -> bool {
        match self {
            ProxyStage::ByCustomDomain { .. } => event is Found,
            ProxyStage::BySubdomain { .. } => event is Found,
            ProxyStage::Checking { .. } => event is Running,
            ProxyStage::Starting { .. } => event is Spawned,
            ProxyStage::Waiting { .. } => event is Done,
            ProxyStage::Recording { .. } => event is Done,
            ProxyStage::Forwarding { .. } => event is Forwarded,
            ProxyStage::Answered => false,
        }
    }

    /// Steps that are left at most.
    pub open spec fn rank(self) -> nat {
        match self {
            ProxyStage::ByCustomDomain { .. } => 7,
            ProxyStage::BySubdomain { .. } => 6,
            ProxyStage::Checking { .. } => 5,
            ProxyStage::Starting { .. } => 4,
            ProxyStage::Waiting { .. } => 3,
            ProxyStage::Recording { .. } => 2,
            ProxyStage::Forwarding { .. } => 1,
            ProxyStage::Answered => 0,
        }
    }

    /// True for an event that can follow the action of this stage.
    pub fn is_expected(&self, event: &ProxyEvent) -> (r: bool)
        ensures
            r == self.expects(*event),
    {
        match (self, event) {
            (ProxyStage::ByCustomDomain { .. }, ProxyEvent::Found(_)) => true,
            (ProxyStage::BySubdomain { .. }, ProxyEvent::Found(_)) => true,
            (ProxyStage::Checking { .. }, ProxyEvent::Running(_)) => true,
            (ProxyStage::Starting { .. }, ProxyEvent::Spawned(_)) => true,
            (ProxyStage::Waiting { .. }, ProxyEvent::Done) => true,
            (ProxyStage::Recording { .. }, ProxyEvent::Done) => true,
            (ProxyStage::Forwarding { .. }, ProxyEvent::Forwarded(_)) => true,
            _ => false,
        }
    }
}

/// True for a project that a request starts where it is not running.
pub open spec fn wakes(project: Project) -> bool {
    project.spec_status() == ProjectStatus::Running || project.spec_status()
        == ProjectStatus::Suspended
}

/// True where the request is refused in this way, and nothing more is done.
pub open spec fn refused(after: ProxyStage, action: ProxyAction, refusal: ProxyRefusal) -> bool {
    after is Answered && action == ProxyAction::Refuse(refusal)
}

/// True where it is next seen whether the project is running.
pub open spec fn checks(after: ProxyStage, action: ProxyAction, project: Project) -> bool {
    &&& after == ProxyStage::Checking { project }
    &&& action == ProxyAction::CheckRunning(project.id)
}

/// True where the activity of the project is next noted.
pub open spec fn records(after: ProxyStage, action: ProxyAction, project: Project) -> bool {
    &&& after == ProxyStage::Recording { project }
    &&& action == ProxyAction::RecordActivity(project.id)
}

/// The step that a request makes: a custom domain goes before a subdomain; a project that should
/// run and does not is started, and given time to get ready; the activity is noted; and the
/// request goes to the project.
pub open spec fn steps(
    before: ProxyStage,
    event: ProxyEvent,
    after: ProxyStage,
    action: ProxyAction,
) -> bool {
    match (before, event) {
        (ProxyStage::ByCustomDomain { host, domain }, ProxyEvent::Found(found)) => match found {
            Ok(Some(project)) => checks(after, action, project),
            Ok(None) => match subdomain_of(host@, domain@) {
                Some(name) => {
                    &&& after matches ProxyStage::BySubdomain { subdomain }
                    &&& subdomain@ == name
                    &&& action == ProxyAction::FindBySubdomain(subdomain)
                },
                None => refused(after, action, ProxyRefusal::NoSubdomain),
            },
            Err(error) => refused(after, action, ProxyRefusal::Database(error)),
        },
        (ProxyStage::BySubdomain { subdomain }, ProxyEvent::Found(found)) => match found {
            Ok(Some(project)) => checks(after, action, project),
            Ok(None) => refused(after, action, ProxyRefusal::UnknownApp(subdomain)),
            Err(error) => refused(after, action, ProxyRefusal::Database(error)),
        },
        (ProxyStage::Checking { project }, ProxyEvent::Running(running)) => if !running && wakes(
            project,
        ) {
            &&& after == ProxyStage::Starting { project }
            &&& action == ProxyAction::Spawn(project)
        } else {
            records(after, action, project)
        },
        (ProxyStage::Starting { project }, ProxyEvent::Spawned(spawned)) => match spawned {
            Ok(_) => {
                &&& after == ProxyStage::Waiting { project }
                &&& action == ProxyAction::Wait(STARTUP_MILLIS)
            },
            Err(error) => refused(
                after,
                action,
                ProxyRefusal::NotStarted { name: project.name, error },
            ),
        },
        (ProxyStage::Waiting { project }, ProxyEvent::Done) => records(after, action, project),
        (ProxyStage::Recording { project }, ProxyEvent::Done) => {
            &&& after == ProxyStage::Forwarding { project }
            &&& action == ProxyAction::Forward(project)
        },
        (ProxyStage::Forwarding { project }, ProxyEvent::Forwarded(outcome)) => match outcome {
            Forwarded::Answered => after is Answered && action == ProxyAction::Relay,
            Forwarded::NotBuilt(error) => refused(after, action, ProxyRefusal::NotBuilt(error)),
            Forwarded::NotRead(error) => refused(after, action, ProxyRefusal::NotRead(error)),
            Forwarded::NotResponding(error) => refused(
                after,
                action,
                ProxyRefusal::NotResponding { name: project.name, error },
            ),
        },
        _ => false,
    }
}

/// Takes up a request for the given host: the project with that custom domain is looked for first.
pub fn proxy_handler(host: Option<&str>, domain: &str) -> (r: (ProxyStage, ProxyAction))
    ensures
        r.0 matches ProxyStage::ByCustomDomain { host: h, domain: d } && h@ == named_host(host)
            && d@ == domain@,
        r.1 matches ProxyAction::FindByCustomDomain(clean) && clean@ == text::part_before(
            named_host(host),
            ':',
        ),
{
    let h = match host {
        Some(h) => h,
        None => "",
    };
    let clean = text::before(h, ':').to_owned();
    (
        ProxyStage::ByCustomDomain { host: h.to_owned(), domain: domain.to_owned() },
        ProxyAction::FindByCustomDomain(clean),
    )
}

fn check(project: Project) -> (r: (ProxyStage, ProxyAction))
    ensures
        checks(r.0, r.1, project),
{
    let id = project.id.clone();
    (ProxyStage::Checking { project }, ProxyAction::CheckRunning(id))
}

fn record(project: Project) -> (r: (ProxyStage, ProxyAction))
    ensures
        records(r.0, r.1, project),
{
    let id = project.id.clone();
    (ProxyStage::Recording { project }, ProxyAction::RecordActivity(id))
}

fn refuse(refusal: ProxyRefusal) -> (r: (ProxyStage, ProxyAction))
    ensures
        refused(r.0, r.1, refusal),
{
    (ProxyStage::Answered, ProxyAction::Refuse(refusal))
}

/// Takes a request one step on, given what came of the last action.
pub fn advance(stage: ProxyStage, event: ProxyEvent) -> (r: (ProxyStage, ProxyAction))
    requires
        stage.expects(event),
    ensures
        steps(stage, event, r.0, r.1),
{
    match (stage, event) {
        (ProxyStage::ByCustomDomain { host, domain }, ProxyEvent::Found(found)) => match found {
            Ok(Some(project)) => check(project),
            Ok(None) => match extract_subdomain(host.as_str(), domain.as_str()) {
                Some(name) => {
                    let subdomain = name.to_owned();
                    let sought = subdomain.clone();
                    (ProxyStage::BySubdomain { subdomain }, ProxyAction::FindBySubdomain(sought))
                },
                None => refuse(ProxyRefusal::NoSubdomain),
            },
            Err(error) => refuse(ProxyRefusal::Database(error)),
        },
        (ProxyStage::BySubdomain { subdomain }, ProxyEvent::Found(found)) => match found {
            Ok(Some(project)) => check(project),
            Ok(None) => refuse(ProxyRefusal::UnknownApp(subdomain)),
            Err(error) => refuse(ProxyRefusal::Database(error)),
        },
        (ProxyStage::Checking { project }, ProxyEvent::Running(running)) => {
            let status = project.status();
            if !running && (status == ProjectStatus::Running || status
                == ProjectStatus::Suspended) {
                let started = project.clone();
                (ProxyStage::Starting { project }, ProxyAction::Spawn(started))
            } else {
                record(project)
            }
        },
        (ProxyStage::Starting { project }, ProxyEvent::Spawned(spawned)) => match spawned {
            Ok(_) => (ProxyStage::Waiting { project }, ProxyAction::Wait(STARTUP_MILLIS)),
            Err(error) => refuse(ProxyRefusal::NotStarted { name: project.name, error }),
        },
        (ProxyStage::Waiting { project }, ProxyEvent::Done) => record(project),
        (ProxyStage::Recording { project }, ProxyEvent::Done) => {
            let target = project.clone();
            (ProxyStage::Forwarding { project }, ProxyAction::Forward(target))
        },
        (ProxyStage::Forwarding { project }, ProxyEvent::Forwarded(outcome)) => match outcome {
            Forwarded::Answered => (ProxyStage::Answered, ProxyAction::Relay),
            Forwarded::NotBuilt(error) => refuse(ProxyRefusal::NotBuilt(error)),
            Forwarded::NotRead(error) => refuse(ProxyRefusal::NotRead(error)),
            Forwarded::NotResponding(error) => refuse(
                ProxyRefusal::NotResponding { name: project.name, error },
            ),
        },
        (_, _) => (ProxyStage::Answered, ProxyAction::Relay),
    }
}

/// The address that a request is sent on to.
pub fn target_url(port: i64, uri: &str) -> (r: String)
    ensures
        r@ == "http://127.0.0.1:"@ + text::decimal_int(port as int) + uri@,
{
    "http://127.0.0.1:".to_owned().concat(text::decimal_of_signed(port).as_str()).concat(uri)
}

// ---------------------------------------------------------------------------------------------
// Laws
// ---------------------------------------------------------------------------------------------

/// True for an action that answers the request.
pub open spec fn answers(action: ProxyAction) -> bool {
    action is Relay || action is Refuse
}

/// Every request is answered, after a bounded number of steps, and exactly when nothing more is
/// done for it.
pub proof fn law_requests_end(
    before: ProxyStage,
    event: ProxyEvent,
    after: ProxyStage,
    action: ProxyAction,
)
    requires
        steps(before, event, after, action),
    ensures
        after.rank() < before.rank(),
        answers(action) <==> after is Answered,
{
}

/// The project of a stage at which it is known.
pub open spec fn project_at(stage: ProxyStage) -> Option<Project> {
    match stage {
        ProxyStage::Checking { project } => Some(project),
        ProxyStage::Starting { project } => Some(project),
        ProxyStage::Waiting { project } => Some(project),
        ProxyStage::Recording { project } => Some(project),
        ProxyStage::Forwarding { project } => Some(project),
        _ => None,
    }
}

/// A request stays with the project that was found for it: what is checked, started, noted and
/// sent to is that project.
pub proof fn law_project_stays(
    before: ProxyStage,
    event: ProxyEvent,
    after: ProxyStage,
    action: ProxyAction,
    project: Project,
)
    requires
        steps(before, event, after, action),
        project_at(before) == Some(project),
    ensures
        after is Answered || project_at(after) == Some(project),
        action matches ProxyAction::Spawn(p) ==> p == project,
        action matches ProxyAction::Forward(p) ==> p == project,
        action matches ProxyAction::RecordActivity(id) ==> id == project.id,
{
}

/// A project is started only where it is not running and should run: one that was stopped, that is
/// being deployed or that is broken is never woken by a request. One that should run always is.
pub proof fn law_wakes_the_suspended(
    before: ProxyStage,
    event: ProxyEvent,
    after: ProxyStage,
    action: ProxyAction,
)
    requires
        steps(before, event, after, action),
    ensures
        action matches ProxyAction::Spawn(p) ==> wakes(p) && event == ProxyEvent::Running(false),
        (before matches ProxyStage::Checking { project } && wakes(project) && event
            == ProxyEvent::Running(false)) ==> action is Spawn,
{
}

/// A request reaches a project only after its activity was noted, so that a project in use does
/// not count as idle.
pub proof fn law_activity_before_forward(
    before: ProxyStage,
    event: ProxyEvent,
    after: ProxyStage,
    action: ProxyAction,
)
    requires
        steps(before, event, after, action),
        action is Forward,
    ensures
        before is Recording,
{
}

/// One step of a request on its way.
pub struct ProxyMove {
    pub before: ProxyStage,
    pub event: ProxyEvent,
    pub after: ProxyStage,
    pub action: ProxyAction,
}

/// True for the steps of a request for this host, from its start to wherever it has come.
pub open spec fn is_way(host: Seq<char>, domain: Seq<char>, moves: Seq<ProxyMove>) -> bool {
    &&& moves.len() > 0 ==> (moves[0].before matches ProxyStage::ByCustomDomain { host: h, domain: d }
        && h@ == host && d@ == domain)
    &&& forall|i: int|
        0 <= i < moves.len() ==> steps(
            (#[trigger] moves[i]).before,
            moves[i].event,
            moves[i].after,
            moves[i].action,
        )
    &&& forall|i: int, j: int|
        0 <= i && j == i + 1 && j < moves.len() ==> (#[trigger] moves[i]).after == (
        #[trigger] moves[j]).before
}

/// A host without its port that ends in a dot and the domain, with something before it, names the
/// subdomain before it, and no other host names one.
pub proof fn law_subdomains_stand_before_the_domain(host: Seq<char>, domain: Seq<char>, name: Seq<char>)
    ensures
        subdomain_of(host, domain) == Some(name) <==> name.len() > 0 && text::part_before(host, ':')
            == name + "."@ + domain,
{
    reveal_strlit(".");
    let h = text::part_before(host, ':');
    let suffix = "."@ + domain;
    if subdomain_of(host, domain) == Some(name) {
        let n = h.len() - suffix.len();
        assert(h.subrange(n, h.len() as int) == suffix);
        assert(h =~= h.take(n) + h.subrange(n, h.len() as int));
        assert(name + suffix =~= name + "."@ + domain);
    }
    if name.len() > 0 && h == name + "."@ + domain {
        assert(h.subrange(h.len() - suffix.len(), h.len() as int) =~= suffix);
        assert(h.take(h.len() - suffix.len()) =~= name);
    }
}

/// How the project of a request is found: the row with the host as its custom domain is taken;
/// where there is none, the one with the subdomain that stands before the domain in the host. A
/// host without a subdomain, a subdomain that no project has, and a database that cannot be read
/// are refused as such.
pub proof fn law_look_up(host: Seq<char>, domain: Seq<char>, moves: Seq<ProxyMove>)
    requires
        is_way(host, domain, moves),
    ensures
        moves.len() > 0 ==> match moves[0].event {
            ProxyEvent::Found(Ok(Some(project))) => moves[0].action == ProxyAction::CheckRunning(
                project.id,
            ),
            ProxyEvent::Found(Ok(None)) => match moves[0].action {
                ProxyAction::FindBySubdomain(name) => name@.len() > 0 && text::part_before(host, ':')
                    == name@ + "."@ + domain,
                action => {
                    &&& action == ProxyAction::Refuse(ProxyRefusal::NoSubdomain)
                    &&& forall|name: Seq<char>|
                        name.len() > 0 ==> text::part_before(host, ':') != #[trigger] (name + "."@)
                            + domain
                },
            },
            ProxyEvent::Found(Err(e)) => moves[0].action == ProxyAction::Refuse(
                ProxyRefusal::Database(e),
            ),
            _ => false,
        },
        moves.len() > 1 && moves[0].event == ProxyEvent::Found(Ok(None)) ==> (
        moves[0].action matches ProxyAction::FindBySubdomain(name) && match moves[1].event {
            ProxyEvent::Found(Ok(Some(project))) => moves[1].action == ProxyAction::CheckRunning(
                project.id,
            ),
            ProxyEvent::Found(Ok(None)) => moves[1].action == ProxyAction::Refuse(
                ProxyRefusal::UnknownApp(name),
            ),
            ProxyEvent::Found(Err(e)) => moves[1].action == ProxyAction::Refuse(
                ProxyRefusal::Database(e),
            ),
            _ => false,
        }),
{
    if moves.len() > 0 {
        assert(steps(moves[0].before, moves[0].event, moves[0].after, moves[0].action));
        assert forall|name: Seq<char>|
            name.len() > 0 && text::part_before(host, ':') == #[trigger] (name + "."@)
                + domain implies subdomain_of(host, domain) == Some(name) by {
            law_subdomains_stand_before_the_domain(host, domain, name);
        }
        match moves[0].action {
            ProxyAction::FindBySubdomain(name) => {
                law_subdomains_stand_before_the_domain(host, domain, name@);
            },
            _ => {},
        }
    }
    if moves.len() > 1 {
        assert(moves[0].after == moves[1].before);
        assert(steps(moves[1].before, moves[1].event, moves[1].after, moves[1].action));
    }
}

/// True where the request is with this project after its step `i`, and has last done what the
/// stage says.
spec fn stays_at(moves: Seq<ProxyMove>, i: int, project: Project) -> bool {
    match moves[i].after {
        ProxyStage::Checking { project: p } => p == project && moves[i].action is CheckRunning,
        ProxyStage::Starting { project: p } => p == project && moves[i].action is Spawn,
        ProxyStage::Waiting { project: p } => p == project && moves[i].action is Wait,
        ProxyStage::Recording { project: p } => p == project && moves[i].action is RecordActivity,
        ProxyStage::Forwarding { project: p } => p == project && moves[i].action is Forward,
        ProxyStage::Answered => true,
        _ => false,
    }
}

proof fn lemma_stays(
    host: Seq<char>,
    domain: Seq<char>,
    moves: Seq<ProxyMove>,
    k: int,
    i: int,
    project: Project,
)
    requires
        is_way(host, domain, moves),
        0 <= k <= i < moves.len(),
        moves[k].event == ProxyEvent::Found(Ok(Some(project))),
    ensures
        stays_at(moves, i, project),
    decreases i,
{
    assert(steps(moves[i].before, moves[i].event, moves[i].after, moves[i].action));
    if i > k {
        lemma_stays(host, domain, moves, k, i - 1, project);
        assert(moves[i - 1].after == moves[i].before);
    }
}

/// How a request goes on once its project was found, by custom domain or by subdomain: each step
/// given what was last done and what came of it. The project that is checked, started, noted and
/// sent to is the row that was found, with all that it holds.
///
/// A project that does not run though it is stored as running or as suspended is started, and
/// given half a second; any other is taken as it is. The activity is noted before the request is
/// sent on, and the project's answer, or what went wrong, is the answer.
pub proof fn law_request_goes_on(
    host: Seq<char>,
    domain: Seq<char>,
    moves: Seq<ProxyMove>,
    k: int,
    i: int,
    project: Project,
)
    requires
        is_way(host, domain, moves),
        0 <= k < i < moves.len(),
        moves[k].event == ProxyEvent::Found(Ok(Some(project))),
    ensures
        moves[k].action == ProxyAction::CheckRunning(project.id),
        match (moves[i - 1].action, moves[i].event) {
            (ProxyAction::CheckRunning(_), ProxyEvent::Running(running)) => moves[i].action == (
            if !running && (project.status@ == "Running"@ || project.status@ == "Suspended"@) {
                ProxyAction::Spawn(project)
            } else {
                ProxyAction::RecordActivity(project.id)
            }),
            (ProxyAction::Spawn(_), ProxyEvent::Spawned(Ok(_))) => moves[i].action
                == ProxyAction::Wait(500),
            (ProxyAction::Spawn(_), ProxyEvent::Spawned(Err(error))) => moves[i].action
                == ProxyAction::Refuse(ProxyRefusal::NotStarted { name: project.name, error }),
            (ProxyAction::Wait(_), ProxyEvent::Done) => moves[i].action
                == ProxyAction::RecordActivity(project.id),
            (ProxyAction::RecordActivity(_), ProxyEvent::Done) => moves[i].action
                == ProxyAction::Forward(project),
            (ProxyAction::Forward(_), ProxyEvent::Forwarded(outcome)) => moves[i].action == (
            match outcome {
                Forwarded::Answered => ProxyAction::Relay,
                Forwarded::NotBuilt(error) => ProxyAction::Refuse(ProxyRefusal::NotBuilt(error)),
                Forwarded::NotRead(error) => ProxyAction::Refuse(ProxyRefusal::NotRead(error)),
                Forwarded::NotResponding(error) => ProxyAction::Refuse(
                    ProxyRefusal::NotResponding { name: project.name, error },
                ),
            }),
            _ => false,
        },
{
    lemma_stays(host, domain, moves, k, k, project);
    lemma_stays(host, domain, moves, k, i - 1, project);
    assert(steps(moves[k].before, moves[k].event, moves[k].after, moves[k].action));
    assert(steps(moves[i].before, moves[i].event, moves[i].after, moves[i].action));
    assert(steps(
        moves[i - 1].before,
        moves[i - 1].event,
        moves[i - 1].after,
        moves[i - 1].action,
    ));
    assert(moves[i - 1].after == moves[i].before);
    models::law_status_labels(project.status@);
}

/// Nothing is started or sent to but a project that was found for this very request.
pub proof fn law_only_the_found_project(
    host: Seq<char>,
    domain: Seq<char>,
    moves: Seq<ProxyMove>,
    i: int,
    project: Project,
)
    requires
        is_way(host, domain, moves),
        0 <= i < moves.len(),
        moves[i].action == ProxyAction::Spawn(project) || moves[i].action == ProxyAction::Forward(
            project,
        ),
    ensures
        exists|k: int|
            0 <= k < i && (#[trigger] moves[k]).event == ProxyEvent::Found(Ok(Some(project))),
{
    assert(steps(moves[i].before, moves[i].event, moves[i].after, moves[i].action));
    if i > 0 {
        assert(moves[i - 1].after == moves[i].before);
        let k = lemma_project_was_found(host, domain, moves, i - 1, project);
        assert(moves[k].event == ProxyEvent::Found(Ok(Some(project))));
    }
}

proof fn lemma_project_was_found(
    host: Seq<char>,
    domain: Seq<char>,
    moves: Seq<ProxyMove>,
    i: int,
    project: Project,
) -> (k: int)
    requires
        is_way(host, domain, moves),
        0 <= i < moves.len(),
        project_at(moves[i].after) == Some(project),
    ensures
        0 <= k <= i,
        moves[k].event == ProxyEvent::Found(Ok(Some(project))),
    decreases i,
{
    assert(steps(moves[i].before, moves[i].event, moves[i].after, moves[i].action));
    if moves[i].event is Found {
        i
    } else {
        if i > 0 {
            assert(moves[i - 1].after == moves[i].before);
        }
        lemma_project_was_found(host, domain, moves, i - 1, project)
    }
}

/// A request starts with the look-up of its host, without a port, as a custom domain. It is then
/// taken on by the steps that its way is made of.
pub proof fn law_way_starts(
    host: &str,
    domain: &str,
    r: (ProxyStage, ProxyAction),
    nameless: (ProxyStage, ProxyAction),
    stage: ProxyStage,
    event: ProxyEvent,
    step: (ProxyStage, ProxyAction),
)
    requires
        call_ensures(proxy_handler, (Some(host), domain), r),
        call_ensures(proxy_handler, (None, domain), nameless),
        call_ensures(advance, (stage, event), step),
    ensures
        r.0 matches ProxyStage::ByCustomDomain { host: h, domain: d } && h@ == host@ && d@ == domain@,
        r.1 matches ProxyAction::FindByCustomDomain(sought) && sought@ == text::part_before(
            host@,
            ':',
        ),
        nameless.0 matches ProxyStage::ByCustomDomain { host: h, domain: d } && h@.len() == 0 && d@
            == domain@,
        nameless.1 matches ProxyAction::FindByCustomDomain(sought) && sought@.len() == 0,
        steps(stage, event, step.0, step.1),
{
    reveal_strlit("");
}

/// A request is sent to the very port of its project on this host, with its own path.
pub proof fn law_target(port: i64, uri: &str, r: String)
    requires
        call_ensures(target_url, (port, uri), r),
    ensures
        r@ == "http://127.0.0.1:"@ + text::decimal_int(port as int) + uri@,
        uri@.is_suffix_of(r@),
{
    assert(r@.subrange(r@.len() - uri@.len(), r@.len() as int) =~= uri@);
}

/// A request is for a project exactly where its host names a subdomain.
pub proof fn law_app_hosts(host: &str, domain: &str, name: Seq<char>, r: bool, none: bool)
    requires
        call_ensures(has_app_subdomain, (Some(host), domain), r),
        call_ensures(has_app_subdomain, (None, domain), none),
        !name.contains(':'),
        !domain@.contains(':'),
    ensures
        name.len() > 0 && host@ == name + "."@ + domain@ ==> r,
        host@ == domain@ ==> !r,
        !none,
{
    if name.len() > 0 && host@ == name + "."@ + domain@ {
        law_subdomain_of_name(name, domain@, Seq::empty());
    }
    law_domain_is_no_subdomain(domain@, Seq::empty());
    reveal_strlit("");
    reveal_strlit(".");
    text::lemma_position_of(""@, ':');
    assert(text::part_before(""@, ':').len() == 0);
}

/// A refusal that has a cause tells it, and one about a project names the project.
pub proof fn law_refusals_tell_the_cause(name: String, error: String, none: String)
    requires
        none@.len() == 0,
    ensures
        ProxyRefusal::Database(error).text() == ProxyRefusal::Database(none).text() + error@,
        ProxyRefusal::NotBuilt(error).text() == ProxyRefusal::NotBuilt(none).text() + error@,
        ProxyRefusal::NotRead(error).text() == ProxyRefusal::NotRead(none).text() + error@,
        ProxyRefusal::UnknownApp(name).text() == "App '"@ + name@ + "' not found"@,
        (ProxyRefusal::NotStarted { name, error }).text() == "Failed to start app '"@ + name@
            + "': "@ + error@,
        (ProxyRefusal::NotResponding { name, error }).text() == "App '"@ + name@
            + "' is not responding: "@ + error@,
{
}

/// What is not there is told so; a project that does not answer is told from one that could not be
/// started; and only what went wrong here counts as an error of this server's.
pub proof fn law_status_tells_what_failed(refusal: ProxyRefusal)
    ensures
        refusal.code() == 404 <==> refusal is NoSubdomain || refusal is UnknownApp,
        refusal.code() == 503 <==> refusal is NotStarted,
        refusal.code() == 502 <==> refusal is NotRead || refusal is NotResponding,
        refusal.code() == 500 <==> refusal is Database || refusal is NotBuilt,
{
}

/// A request goes on with whatever came of its last action, and with nothing else.
pub proof fn law_every_outcome_is_expected(
    before: ProxyStage,
    event: ProxyEvent,
    after: ProxyStage,
    action: ProxyAction,
    following: ProxyEvent,
    expected: bool,
)
    requires
        steps(before, event, after, action),
        call_ensures(ProxyStage::is_expected, (&after, &following), expected),
    ensures
        expected <==> match action {
            ProxyAction::FindByCustomDomain(_) | ProxyAction::FindBySubdomain(_) => following is Found,
            ProxyAction::CheckRunning(_) => following is Running,
            ProxyAction::Spawn(_) => following is Spawned,
            ProxyAction::Wait(_) | ProxyAction::RecordActivity(_) => following is Done,
            ProxyAction::Forward(_) => following is Forwarded,
            ProxyAction::Relay | ProxyAction::Refuse(_) => false,
        },
        before is ByCustomDomain ==> event is Found,
{
}

} // verus!
