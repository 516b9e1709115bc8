use mypaas::db::models::{Project, ProjectStatus};
use mypaas::runner::proxy::{
    advance, extract_subdomain, has_app_subdomain, proxy_handler, target_url, Forwarded,
    ProxyAction, ProxyEvent, ProxyStage,
};

fn app(status: ProjectStatus) -> Project {
    let mut p = Project::new("blog", "blog", 8100, "u");
    p.status = status.to_string();
    p
}

fn begin(host: &str) -> ProxyStage {
    proxy_handler(Some(host), "localhost").0
}

fn found(p: &Project) -> ProxyEvent {
    ProxyEvent::Found(Ok(Some(p.clone())))
}

fn refusal(action: ProxyAction) -> (u16, String) {
    match action {
        ProxyAction::Refuse(r) => (r.status(), r.message()),
        other => panic!("not refused: {:?}", other),
    }
}

#[test]
fn subdomain_before_the_domain() {
    assert_eq!(extract_subdomain("myapp.mypaas.com", "mypaas.com"), Some("myapp"));
    assert_eq!(extract_subdomain("myapp.localhost", "localhost"), Some("myapp"));
    assert_eq!(extract_subdomain("myapp.localhost:8080", "localhost"), Some("myapp"));
    assert_eq!(extract_subdomain("a.b.localhost", "localhost"), Some("a.b"));
    assert_eq!(extract_subdomain("localhost", "localhost"), None);
    assert_eq!(extract_subdomain("localhost:3000", "localhost"), None);
    assert_eq!(extract_subdomain(".localhost", "localhost"), None);
    assert_eq!(extract_subdomain("mylocalhost", "localhost"), None);
    assert_eq!(extract_subdomain("", "localhost"), None);
}

#[test]
fn requests_for_apps_by_their_host() {
    assert!(has_app_subdomain(Some("blog.localhost:3000"), "localhost"));
    assert!(!has_app_subdomain(Some("localhost:3000"), "localhost"));
    assert!(!has_app_subdomain(None, "localhost"));
}

#[test]
fn custom_domains_go_first() {
    let (stage, action) = proxy_handler(Some("blog.localhost:3000"), "localhost");
    assert!(matches!(action, ProxyAction::FindByCustomDomain(h) if h == "blog.localhost"));
    let (stage, action) = advance(stage, ProxyEvent::Found(Ok(None)));
    assert!(matches!(action, ProxyAction::FindBySubdomain(s) if s == "blog"));
    assert!(stage.is_expected(&ProxyEvent::Found(Ok(None))));
    assert!(!stage.is_expected(&ProxyEvent::Done));
}

#[test]
fn running_apps_get_the_request() {
    let p = app(ProjectStatus::Running);
    let (stage, action) = advance(begin("blog.com"), found(&p));
    assert!(matches!(action, ProxyAction::CheckRunning(id) if id == p.id));
    let (stage, action) = advance(stage, ProxyEvent::Running(true));
    assert!(matches!(action, ProxyAction::RecordActivity(id) if id == p.id));
    let (stage, action) = advance(stage, ProxyEvent::Done);
    assert!(matches!(action, ProxyAction::Forward(q) if q.id == p.id));
    let (stage, action) = advance(stage, ProxyEvent::Forwarded(Forwarded::Answered));
    assert!(matches!(action, ProxyAction::Relay));
    assert!(matches!(stage, ProxyStage::Answered));
    assert!(!stage.is_expected(&ProxyEvent::Done));
}

#[test]
fn suspended_apps_are_woken() {
    let p = app(ProjectStatus::Suspended);
    let (stage, _) = advance(begin("blog.localhost"), ProxyEvent::Found(Ok(None)));
    let (stage, _) = advance(stage, found(&p));
    let (stage, action) = advance(stage, ProxyEvent::Running(false));
    assert!(matches!(action, ProxyAction::Spawn(q) if q.id == p.id));
    let (stage, action) = advance(stage, ProxyEvent::Spawned(Ok(5)));
    assert!(matches!(action, ProxyAction::Wait(500)));
    let (_, action) = advance(stage, ProxyEvent::Done);
    assert!(matches!(action, ProxyAction::RecordActivity(id) if id == p.id));
}

#[test]
fn stopped_apps_are_not_woken() {
    for status in [ProjectStatus::Stopped, ProjectStatus::Deploying, ProjectStatus::Error] {
        let (stage, _) = advance(begin("blog.com"), found(&app(status)));
        let (_, action) = advance(stage, ProxyEvent::Running(false));
        assert!(matches!(action, ProxyAction::RecordActivity(_)));
    }
}

#[test]
fn requests_for_nothing_are_refused() {
    let (_, action) = advance(begin("example.com"), ProxyEvent::Found(Ok(None)));
    assert_eq!(refusal(action), (404, "No subdomain found".to_string()));
    let (stage, _) = advance(begin("blog.localhost"), ProxyEvent::Found(Ok(None)));
    let (_, action) = advance(stage, ProxyEvent::Found(Ok(None)));
    assert_eq!(refusal(action), (404, "App 'blog' not found".to_string()));
    let (_, action) = advance(begin("x"), ProxyEvent::Found(Err("locked".to_string())));
    assert_eq!(refusal(action), (500, "DB error: locked".to_string()));
}

#[test]
fn failures_on_the_way_are_told() {
    let p = app(ProjectStatus::Running);
    let (stage, _) = advance(begin("blog.com"), found(&p));
    let (stage, _) = advance(stage, ProxyEvent::Running(false));
    let (_, action) = advance(stage, ProxyEvent::Spawned(Err("no binary".to_string())));
    assert_eq!(refusal(action), (503, "Failed to start app 'blog': no binary".to_string()));
    let outcomes = vec![
        (Forwarded::NotBuilt("u".to_string()), 500, "Request build error: u"),
        (Forwarded::NotRead("eof".to_string()), 502, "Failed to read response: eof"),
        (
            Forwarded::NotResponding("refused".to_string()),
            502,
            "App 'blog' is not responding: refused",
        ),
    ];
    for (outcome, status, text) in outcomes {
        let stage = ProxyStage::Forwarding { project: p.clone() };
        let (_, action) = advance(stage, ProxyEvent::Forwarded(outcome));
        assert_eq!(refusal(action), (status, text.to_string()));
    }
}

#[test]
fn requests_go_to_the_local_port() {
    assert_eq!(target_url(8100, "/a?b=c"), "http://127.0.0.1:8100/a?b=c");
}
