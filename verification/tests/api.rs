use mypaas::api::access::{
    after_key, after_session, authenticate, ensure_admin_user, AccessStep, AdminStep,
};
use mypaas::api::backup::{backup_name, backup_path, content_disposition, vacuum_statement};
use mypaas::api::caddy::caddyfile;
use mypaas::api::deploy::{
    advance, caddy_config, delete_project, deploy, download_backup, env_text, get_env,
    get_metrics, list_deploys, list_projects, restart_project, rollback_deploy, set_custom_domain,
    set_limits, stop_project, update_env, Action, CustomDomainPayload, DeployResponse, Event,
    Reply, ResourceLimitsPayload, Stage, UpdateEnvPayload, VacuumError,
};
use mypaas::api::form::{
    allocate_port, normalize_name, valid_name, with_hyphens, DeployForm, FormField, Upload,
    MAX_BINARY_SIZE,
};
use mypaas::api::refusal::Refusal;
use mypaas::clock::Timestamp;
use mypaas::db::models::{DeployHistory, Project, ProjectStatus};

fn blog(user: &str) -> Project {
    Project::new("blog", "blog", 8100, user)
}

fn snapshot(project_id: &str, is_bundle: bool) -> DeployHistory {
    DeployHistory {
        id: "d1".to_string(),
        project_id: project_id.to_string(),
        binary_path: "/s/deploy-1.bin".to_string(),
        is_bundle,
        deployed_at: Timestamp { secs: 0, nanos: 0 },
    }
}

fn id() -> String {
    "p1".to_string()
}

fn user() -> Event {
    Event::User(Some("ana".to_string()))
}

fn done() -> Event {
    Event::Done(Ok(()))
}

fn failed() -> Event {
    Event::Done(Err("disk".to_string()))
}

fn found(p: &Project) -> Event {
    Event::Found(Ok(Some(p.clone())))
}

fn upload(bytes: &[u8]) -> Event {
    Event::Form(Ok(Upload { binary: bytes.to_vec(), name: "blog".to_string() }))
}

fn run(first: (Stage, Action), events: Vec<Event>) -> (Stage, Action) {
    let (mut stage, mut action) = first;
    for event in events {
        assert!(stage.is_expected(&event), "{:?} on {:?}", event, stage);
        let next = advance(stage, event);
        stage = next.0;
        action = next.1;
    }
    (stage, action)
}

fn refused(first: (Stage, Action), events: Vec<Event>) -> (u16, String) {
    match run(first, events) {
        (Stage::Finished, Action::Refuse(r)) => (r.status(), r.message()),
        other => panic!("not refused: {:?}", other),
    }
}

#[test]
fn names_are_normalized() {
    assert_eq!(normalize_name("  My App \n"), "my-app");
    assert_eq!(normalize_name("ÁRBOL"), "árbol");
    assert_eq!(normalize_name("mi-app"), "mi-app");
    assert_eq!(with_hyphens("a b  c"), "a-b--c");
}

#[test]
fn valid_project_names() {
    assert!(valid_name("mi-app"));
    assert!(valid_name("a"));
    assert!(valid_name("0"));
    assert!(!valid_name("-a"));
    assert!(!valid_name("a-"));
    assert!(!valid_name("A"));
    assert!(!valid_name("a.b"));
    assert!(!valid_name("../x"));
    assert!(!valid_name("ñ"));
    assert!(valid_name(""));
}

#[test]
fn forms_with_all_fields() {
    let mut form = DeployForm::new();
    assert!(form.take(FormField::Other).is_none());
    assert!(form.take(FormField::Name(Ok(" Mi App ".to_string()))).is_none());
    assert!(form.take(FormField::Binary(Ok(vec![0x1f, 0x8b, 8]))).is_none());
    let up = form.finish().unwrap();
    assert_eq!(up.name, "mi-app");
    assert!(up.is_bundle());
}

#[test]
fn forms_with_faults() {
    let mut form = DeployForm::new();
    let r = form.take(FormField::Binary(Err("eof".to_string()))).unwrap();
    assert_eq!((r.status(), r.message()), (400, "Failed to read binary: eof".to_string()));
    let r = form.take(FormField::Name(Err("eof".to_string()))).unwrap();
    assert_eq!((r.status(), r.message()), (400, "Failed to read name: eof".to_string()));
    let r = form.take(FormField::Binary(Ok(vec![0; MAX_BINARY_SIZE + 1]))).unwrap();
    assert_eq!((r.status(), r.message()), (413, "Upload exceeds 100 MB limit".to_string()));
    assert!(form.take(FormField::Binary(Ok(vec![0; MAX_BINARY_SIZE]))).is_none());
    let r = form.finish().unwrap_err();
    assert_eq!((r.status(), r.message()), (400, "Missing or empty 'name' field".to_string()));
    let r = DeployForm::new().finish().unwrap_err();
    assert_eq!((r.status(), r.message()), (400, "Missing 'binary' field".to_string()));
    let empty = DeployForm { binary: Some(vec![1]), name: Some(String::new()) };
    assert!(matches!(empty.finish(), Err(Refusal::MissingName)));
    let bad = DeployForm { binary: Some(vec![1]), name: Some("a_b".to_string()) };
    let r = bad.finish().unwrap_err();
    assert_eq!(r.status(), 400);
    assert_eq!(
        r.message(),
        "Project name must use only lowercase letters, numbers, and hyphens, \
         and cannot start or end with a hyphen"
    );
}

#[test]
fn first_free_port() {
    assert_eq!(allocate_port(8100, 8102, &vec![]), Some(8100));
    assert_eq!(allocate_port(8100, 8102, &vec![8101, 8100]), Some(8102));
    assert_eq!(allocate_port(8100, 8101, &vec![8101, 8100]), None);
    assert_eq!(allocate_port(8100, 8101, &vec![8100 + 65_536]), Some(8101));
    assert_eq!(allocate_port(2, 1, &vec![]), None);
    assert_eq!(allocate_port(65_535, 65_535, &vec![]), Some(65_535));
}

#[test]
fn keys_go_before_sessions() {
    assert!(matches!(authenticate(None, None), AccessStep::Unknown));
    let step = authenticate(Some("Bearer k1"), Some("s1"));
    assert!(matches!(step, AccessStep::FindKey(k) if k == "k1"));
    let step = authenticate(Some("Basic k1"), Some("s1"));
    assert!(matches!(step, AccessStep::FindSession(s) if s == "s1"));
    let step = after_key(Ok(Some("u".to_string())), Some("s1"));
    assert!(matches!(step, AccessStep::Known(u) if u == "u"));
    let step = after_key(Ok(None), Some("s1"));
    assert!(matches!(step, AccessStep::FindSession(s) if s == "s1"));
    assert!(matches!(after_key(Err("locked".to_string()), None), AccessStep::Unknown));
    assert!(matches!(after_session(Ok(None)), AccessStep::Unknown));
    let step = after_session(Ok(Some("u".to_string())));
    assert!(matches!(step, AccessStep::Known(u) if u == "u"));
}

#[test]
fn there_is_always_an_administrator() {
    let step = ensure_admin_user(Some("u1".to_string()));
    assert!(matches!(step, AdminStep::Exists(u) if u == "u1"));
    match ensure_admin_user(None) {
        AdminStep::Create(u) => {
            assert_eq!(u.username, "admin");
            assert!(u.verify_password("admin123"));
            assert_eq!(u.id.len(), 36);
            assert_eq!(u.api_key.map(|k| k.len()), Some(40));
            assert!(u.created_at.secs > 1_600_000_000);
        }
        other => panic!("{:?}", other),
    }
}

#[test]
fn backups_are_quoted() {
    assert_eq!(backup_name("blog"), "blog-backup.db");
    assert_eq!(backup_path("/tmp", "blog"), "/tmp/blog-backup.db");
    assert_eq!(content_disposition("blog"), "attachment; filename=\"blog-backup.db\"");
    assert_eq!(vacuum_statement("/tmp/it's.db"), "VACUUM INTO '/tmp/it''s.db'");
}

#[test]
fn caddy_serves_custom_domains() {
    let mut a = blog("u");
    a.custom_domain = Some("blog.com".to_string());
    let text = caddyfile("paas.io", 3000, &vec![blog("u"), a]);
    assert_eq!(
        text,
        "# RustPaaS — generated Caddyfile\n\
         # Place this at /etc/caddy/Caddyfile and run: systemctl reload caddy\n\n\
         # Wildcard cert covers all app subdomains\n\
         *.paas.io {\n\treverse_proxy localhost:3000\n}\n\n\
         # Main dashboard\n\
         paas.io {\n\treverse_proxy localhost:3000\n}\n\
         \n# Custom domain for project 'blog'\nblog.com {\n\treverse_proxy localhost:3000\n}\n"
    );
}

#[test]
fn nobody_is_refused() {
    let payload = || UpdateEnvPayload { env_content: String::new() };
    let all = vec![
        list_projects(),
        delete_project(id()),
        restart_project(id()),
        stop_project(id()),
        download_backup(id()),
        get_env(id()),
        update_env(id(), payload()),
        list_deploys(id()),
        rollback_deploy(id(), "d".to_string()),
        get_metrics(id()),
        set_custom_domain(id(), CustomDomainPayload { domain: None }),
        set_limits(id(), ResourceLimitsPayload { ram_limit_mb: None }),
        caddy_config(),
    ];
    for first in all {
        assert!(matches!(first.1, Action::Authenticate));
        assert_eq!(
            refused(first, vec![Event::User(None)]),
            (401, "Authentication required".to_string())
        );
    }
    assert_eq!(
        refused(deploy(8100, 8999), vec![Event::User(None)]),
        (
            401,
            "Authentication required. Provide a valid session cookie or Bearer API key."
                .to_string()
        )
    );
}

#[test]
fn new_projects_are_deployed() {
    let events = vec![user(), Event::Locked(true), upload(b"\x7fELF"), Event::Found(Ok(None))];
    let (stage, action) = run(deploy(8100, 8101), events);
    assert!(matches!(action, Action::ListPorts));
    let (stage, action) = run((stage, action), vec![Event::Ports(Ok(vec![8100]))]);
    let made = match action {
        Action::StoreProject(p) => p,
        other => panic!("{:?}", other),
    };
    assert_eq!((made.name.as_str(), made.port, made.user_id.as_str()), ("blog", 8101, "ana"));
    let (stage, action) = advance(stage, done());
    assert!(matches!(action, Action::WriteBinary { name, bytes }
        if name == "blog" && bytes == b"\x7fELF"));
    let (stage, action) = advance(stage, done());
    assert!(matches!(action, Action::DropBundle(name) if name == "blog"));
    let (stage, action) = advance(stage, failed());
    assert!(matches!(action, Action::MakeBucket { project_id, .. } if project_id == made.id));
    let (stage, action) = advance(stage, done());
    assert!(matches!(action, Action::StoreBucket { project_id, .. } if project_id == made.id));
    let (stage, action) = advance(stage, done());
    assert!(matches!(action, Action::SetStatus { id, status: ProjectStatus::Deploying, pid: None }
        if id == made.id));
    let (stage, action) = advance(stage, done());
    assert!(matches!(action, Action::Spawn(p) if p.id == made.id));
    let (stage, action) = advance(stage, Event::Spawned(Ok(42)));
    assert!(matches!(action,
        Action::SetStatus { id, status: ProjectStatus::Running, pid: Some(42) } if id == made.id));
    let (stage, action) = advance(stage, done());
    assert!(matches!(stage, Stage::Finished));
    match action {
        Action::Reply(reply) => {
            assert_eq!(reply.status(), 201);
            assert!(matches!(reply,
                Reply::Deployed { port: 8101, pid: 42, fresh: true, .. }));
        }
        other => panic!("{:?}", other),
    }
}

#[test]
fn deploys_of_a_project_again() {
    let p = blog("ana");
    let events =
        vec![user(), Event::Locked(true), upload(&[0x1f, 0x8b]), found(&p)];
    let (stage, action) = run(deploy(8100, 8101), events);
    assert!(matches!(action, Action::SaveSnapshot));
    assert_eq!(stage.upload().map(|u| u.binary.len()), Some(2));
    let (stage, action) = advance(stage, Event::Saved(Ok("/s/new".to_string())));
    assert!(matches!(action, Action::PruneHistory { project_id, keep: 3 } if project_id == p.id));
    let (stage, action) = advance(stage, Event::Pruned(Ok(vec!["/s/old".to_string()])));
    assert!(matches!(action, Action::DeleteSnapshots(v) if v == ["/s/old"]));
    let (stage, action) = advance(stage, done());
    assert!(matches!(action, Action::RecordSnapshot { path, is_bundle: true, .. }
        if path == "/s/new"));
    let (stage, action) = advance(stage, failed());
    assert!(matches!(action, Action::ExtractBundle(name) if name == "blog"));
    assert_eq!(stage.bundle(), Some(&vec![0x1f, 0x8b]));
    let (stage, action) = advance(stage, Event::Extracted(Ok("/w/blog".to_string())));
    assert!(matches!(action, Action::KeepBundle { name, bytes }
        if name == "blog" && bytes == [0x1f, 0x8b]));
    let (stage, action) = advance(stage, done());
    assert!(matches!(action, Action::PlaceBinary { from: Some(f), .. } if f == "/w/blog"));
    let (stage, action) = advance(stage, failed());
    assert!(matches!(action, Action::Kill(id) if id == p.id));
    let (stage, action) = advance(stage, failed());
    assert!(matches!(action, Action::SetStatus { status: ProjectStatus::Deploying, .. }));
    let (stage, _) = advance(stage, done());
    let (stage, _) = advance(stage, Event::Spawned(Ok(7)));
    let (_, action) = advance(stage, done());
    match action {
        Action::Reply(reply) => {
            assert_eq!(reply.status(), 200);
            assert!(matches!(reply, Reply::Deployed { fresh: false, pid: 7, port: 8100, .. }));
        }
        other => panic!("{:?}", other),
    }
}

#[test]
fn deploys_go_on_without_a_snapshot() {
    let p = blog("ana");
    let events = vec![
        user(),
        Event::Locked(true),
        upload(b"x"),
        found(&p),
        Event::Saved(Err("full".to_string())),
    ];
    let (_, action) = run(deploy(1, 2), events);
    assert!(matches!(action, Action::WriteBinary { .. }));
    let events = vec![
        user(),
        Event::Locked(true),
        upload(b"x"),
        found(&p),
        Event::Saved(Ok("/s/a".to_string())),
        Event::Pruned(Err("locked".to_string())),
    ];
    let (_, action) = run(deploy(1, 2), events);
    assert!(matches!(action, Action::RecordSnapshot { .. }));
}

#[test]
fn deploys_that_are_refused() {
    let start = |more: Vec<Event>| {
        let mut events = vec![user()];
        events.extend(more);
        refused(deploy(8100, 8101), events)
    };
    let text = |s: &str| s.to_string();
    assert_eq!(
        start(vec![Event::Locked(false)]),
        (503, text("A deploy is already in progress. Please wait and try again."))
    );
    assert_eq!(
        start(vec![Event::Locked(true), Event::Form(Err(Refusal::MissingBinary))]),
        (400, text("Missing 'binary' field"))
    );
    assert_eq!(
        start(vec![Event::Locked(true), upload(b"x"), found(&blog("eva"))]),
        (403, text("A project with this name is owned by another user"))
    );
    let new = || vec![Event::Locked(true), upload(b"x"), Event::Found(Err(text("locked")))];
    let and = |mut v: Vec<Event>, more: Vec<Event>| {
        v.extend(more);
        v
    };
    assert_eq!(
        start(and(new(), vec![Event::Ports(Ok(vec![8100, 8101]))])),
        (503, text("No ports available: No available ports in range 8100-8101"))
    );
    assert_eq!(
        start(and(new(), vec![Event::Ports(Err(text("locked")))])),
        (503, text("No ports available: locked"))
    );
    assert_eq!(
        start(and(new(), vec![Event::Ports(Ok(vec![])), failed()])),
        (500, text("DB error: disk"))
    );
    assert_eq!(
        start(and(new(), vec![Event::Ports(Ok(vec![])), done(), failed()])),
        (500, text("Failed to write binary: disk"))
    );
    let bundle =
        || vec![Event::Locked(true), upload(&[0x1f, 0x8b]), Event::Found(Ok(None))];
    assert_eq!(
        start(and(
            bundle(),
            vec![Event::Ports(Ok(vec![])), done(), Event::Extracted(Err(text("bad")))]
        )),
        (500, text("Failed to extract bundle: bad"))
    );
    assert_eq!(
        start(and(
            new(),
            vec![
                Event::Ports(Ok(vec![])),
                done(),
                done(),
                done(),
                failed(),
                done(),
                Event::Spawned(Err(text("boom"))),
                done()
            ]
        )),
        (500, text("Failed to start process: boom"))
    );
}

#[test]
fn failed_redeploys_mark_the_project() {
    let p = blog("ana");
    let events = vec![
        user(),
        Event::Locked(true),
        upload(b"x"),
        found(&p),
        Event::Saved(Err("full".to_string())),
        done(),
        done(),
        done(),
        done(),
        Event::Spawned(Err("boom".to_string())),
    ];
    let (stage, action) = run(deploy(1, 2), events);
    assert!(matches!(action, Action::SetStatus { id, status: ProjectStatus::Error, pid: None }
        if id == p.id));
    let (_, action) = advance(stage, done());
    assert!(matches!(action, Action::Refuse(r)
        if r.message() == "Failed to restart process: boom" && r.status() == 500));
}

#[test]
fn lists_of_projects_and_deploys() {
    let (_, action) = run(list_projects(), vec![user(), Event::AllFound(Ok(vec![blog("u")]))]);
    assert!(matches!(action, Action::Reply(Reply::Projects(v)) if v.len() == 1));
    let e = refused(list_projects(), vec![user(), Event::AllFound(Err("locked".to_string()))]);
    assert_eq!(e, (500, "locked".to_string()));
    let (_, action) = run(caddy_config(), vec![user(), Event::AllFound(Ok(vec![]))]);
    assert!(matches!(action, Action::Reply(Reply::Caddy(v)) if v.is_empty()));
    let (stage, action) = run(list_deploys(id()), vec![user()]);
    assert!(matches!(action, Action::FindDeploys(p) if p == "p1"));
    let (_, action) = advance(stage, Event::Deploys(Ok(vec![snapshot("p1", false)])));
    assert!(matches!(action, Action::Reply(Reply::Deploys(v)) if v.len() == 1));
    let (_, action) = run(get_metrics(id()), vec![user()]);
    assert!(matches!(action, Action::Reply(Reply::Metrics(p)) if p == "p1"));
}

#[test]
fn projects_that_are_not_found() {
    let all = vec![
        delete_project(id()),
        restart_project(id()),
        download_backup(id()),
        get_env(id()),
        update_env(id(), UpdateEnvPayload { env_content: String::new() }),
        rollback_deploy(id(), "d".to_string()),
    ];
    for first in all {
        assert_eq!(
            refused(first, vec![user(), Event::Found(Ok(None))]),
            (404, "Project not found".to_string())
        );
    }
    assert_eq!(
        refused(restart_project(id()), vec![user(), Event::Found(Err("locked".to_string()))]),
        (500, "locked".to_string())
    );
}

#[test]
fn projects_are_deleted_in_order() {
    let p = blog("u");
    let (stage, action) = run(delete_project(id()), vec![user(), found(&p)]);
    assert!(matches!(action, Action::Kill(k) if k == "p1"));
    let (stage, action) = advance(stage, failed());
    assert!(matches!(action, Action::Delete(k) if k == "p1"));
    let (stage, action) = advance(stage, done());
    assert!(matches!(action, Action::RemoveAppDir(n) if n == "blog"));
    let (stage, action) = advance(stage, failed());
    assert!(matches!(action, Action::RemoveStorage(k) if k == p.id));
    let (_, action) = advance(stage, failed());
    assert!(matches!(action, Action::Reply(Reply::Deleted(k)) if k == "p1"));
    let e = refused(delete_project(id()), vec![user(), found(&p), done(), failed()]);
    assert_eq!(e, (500, "disk".to_string()));
}

#[test]
fn projects_are_restarted_and_stopped() {
    let p = blog("u");
    let (stage, action) = run(restart_project(id()), vec![user(), found(&p), failed()]);
    assert!(matches!(action, Action::Spawn(q) if q.id == p.id));
    let (stage, action) = advance(stage, Event::Spawned(Ok(9)));
    assert!(matches!(action,
        Action::SetStatus { id, status: ProjectStatus::Running, pid: Some(9) } if id == "p1"));
    let (_, action) = advance(stage, done());
    assert!(matches!(action, Action::Reply(Reply::Restarted(9))));
    let boom = || Event::Spawned(Err("boom".to_string()));
    let e = refused(restart_project(id()), vec![user(), found(&p), done(), boom()]);
    assert_eq!(e, (500, "Restart failed: boom".to_string()));
    let (stage, action) = run(stop_project(id()), vec![user(), done()]);
    assert!(matches!(action, Action::SetStatus { status: ProjectStatus::Stopped, pid: None, .. }));
    let (_, action) = advance(stage, done());
    assert!(matches!(action, Action::Reply(Reply::Stopped)));
    assert_eq!(refused(stop_project(id()), vec![user(), failed()]), (500, "disk".to_string()));
}

#[test]
fn backups_are_copied_and_sent() {
    let p = blog("u");
    let to_copy = || vec![user(), found(&p), Event::Exists(true), done()];
    let (_, action) = run(download_backup(id()), vec![user(), found(&p), Event::Exists(true)]);
    assert!(matches!(action, Action::RemoveBackup(n) if n == "blog"));
    let (stage, action) = run(download_backup(id()), to_copy());
    assert!(matches!(action, Action::Vacuum(n) if n == "blog"));
    let (stage, action) = advance(stage, Event::Vacuumed(Ok(())));
    assert!(matches!(action, Action::ReadBackup(n) if n == "blog"));
    let (stage, action) = advance(stage, Event::Bytes(Ok(vec![1, 2])));
    assert!(matches!(action, Action::RemoveBackup(n) if n == "blog"));
    let (_, action) = advance(stage, done());
    assert!(matches!(action, Action::Reply(Reply::Backup { name, bytes })
        if name == "blog" && bytes == [1, 2]));
    let e = refused(download_backup(id()), vec![user(), found(&p), Event::Exists(false)]);
    assert_eq!(e, (404, "No database found for this project".to_string()));
    let broken = vec![
        (VacuumError::Open("x".to_string()), "x"),
        (VacuumError::Copy("x".to_string()), "Backup failed: x"),
        (VacuumError::Task("x".to_string()), "Backup task failed: x"),
    ];
    for (error, text) in broken {
        let mut events = to_copy();
        events.push(Event::Vacuumed(Err(error)));
        assert_eq!(refused(download_backup(id()), events), (500, text.to_string()));
    }
    let mut events = to_copy();
    events.push(Event::Vacuumed(Ok(())));
    events.push(Event::Bytes(Err("gone".to_string())));
    assert_eq!(
        refused(download_backup(id()), events),
        (500, "Failed to read backup: gone".to_string())
    );
}

#[test]
fn variables_are_read_and_saved() {
    let p = blog("u");
    let (_, action) = run(get_env(id()), vec![user(), found(&p), Event::Text(None)]);
    match action {
        Action::Reply(Reply::Env(content)) => assert_eq!(env_text(content), ""),
        other => panic!("{:?}", other),
    }
    assert_eq!(env_text(Some("A=1".to_string())), "A=1");
    let save = || update_env(id(), UpdateEnvPayload { env_content: "A=1".to_string() });
    let (stage, action) = run(save(), vec![user(), found(&p), done()]);
    assert!(matches!(action, Action::SaveEnv { name, content } if name == "blog" && content == "A=1"));
    let (stage, action) = advance(stage, done());
    assert!(matches!(&action, Action::Kill(k) if k == "p1"));
    let (_, action) = run((stage, action), vec![done(), Event::Spawned(Ok(1)), done()]);
    assert!(matches!(action, Action::Reply(Reply::EnvUpdated)));
    assert_eq!(
        refused(save(), vec![user(), found(&p), failed()]),
        (500, "Failed to create data dir: disk".to_string())
    );
    assert_eq!(
        refused(save(), vec![user(), found(&p), done(), failed()]),
        (500, "Failed to save .env: disk".to_string())
    );
    let boom = Event::Spawned(Err("boom".to_string()));
    assert_eq!(
        refused(save(), vec![user(), found(&p), done(), done(), done(), boom]),
        (500, "Saved but restart failed: boom".to_string())
    );
}

#[test]
fn rollbacks_restore_a_snapshot() {
    let p = blog("u");
    let back = || rollback_deploy(id(), "d1".to_string());
    let (stage, action) = run(back(), vec![user(), found(&p)]);
    assert!(matches!(action, Action::FindDeploy(d) if d == "d1"));
    let entry = Event::FoundDeploy(Ok(Some(snapshot("p1", false))));
    let (stage, action) = advance(stage, entry);
    assert!(matches!(action, Action::CheckSnapshot(f) if f == "/s/deploy-1.bin"));
    let (stage, action) = advance(stage, Event::Exists(true));
    assert!(matches!(action, Action::RestoreBinary { snapshot, name }
        if snapshot == "/s/deploy-1.bin" && name == "blog"));
    let (stage, action) = advance(stage, done());
    assert!(matches!(action, Action::DropBundle(name) if name == "blog"));
    let (stage, action) = advance(stage, done());
    assert!(matches!(&action, Action::Kill(k) if k == "p1"));
    let (_, action) =
        run((stage, action), vec![done(), done(), Event::Spawned(Ok(3)), done()]);
    assert!(matches!(action, Action::Reply(Reply::RolledBack(3))));
    let bundle = Event::FoundDeploy(Ok(Some(snapshot("p1", true))));
    let (stage, action) = run(back(), vec![user(), found(&p), bundle, Event::Exists(true)]);
    assert!(matches!(action, Action::ReadSnapshot(_)));
    let (stage, action) = advance(stage, Event::Bytes(Ok(vec![0x1f, 0x8b])));
    assert!(matches!(action, Action::ExtractBundle(name) if name == "blog"));
    assert_eq!(stage.bundle(), Some(&vec![0x1f, 0x8b]));
    let (stage, action) = advance(stage, Event::Extracted(Ok("/w/blog".to_string())));
    assert!(matches!(action, Action::KeepBundle { name, bytes }
        if name == "blog" && bytes == [0x1f, 0x8b]));
    let (stage, action) = advance(stage, failed());
    assert!(matches!(action, Action::DropBundle(name) if name == "blog"));
    let (stage, action) = advance(stage, done());
    assert!(matches!(action, Action::SearchWorkspace(n) if n == "blog"));
    let (stage, action) = advance(stage, Event::Located(None));
    assert!(matches!(action, Action::PlaceBinary { from: None, .. }));
    let (_, action) = advance(stage, failed());
    assert!(matches!(action, Action::Kill(k) if k == "p1"));
}

#[test]
fn rollbacks_that_are_refused() {
    let p = blog("u");
    let back = |more: Vec<Event>| {
        let mut events = vec![user(), found(&p)];
        events.extend(more);
        refused(rollback_deploy(id(), "d1".to_string()), events)
    };
    let text = |s: &str| s.to_string();
    let entry = |b: bool| Event::FoundDeploy(Ok(Some(snapshot("p1", b))));
    assert_eq!(
        back(vec![Event::FoundDeploy(Ok(Some(snapshot("other", false))))]),
        (404, text("Deploy entry not found"))
    );
    assert_eq!(back(vec![Event::FoundDeploy(Ok(None))]), (404, text("Deploy entry not found")));
    assert_eq!(back(vec![Event::FoundDeploy(Err(text("locked")))]), (500, text("locked")));
    assert_eq!(
        back(vec![entry(false), Event::Exists(false)]),
        (404, text("Snapshot file not found on disk"))
    );
    assert_eq!(
        back(vec![entry(true), Event::Exists(true), Event::Bytes(Err(text("io")))]),
        (500, text("Failed to read snapshot: io"))
    );
    assert_eq!(
        back(vec![entry(false), Event::Exists(true), failed()]),
        (500, text("Failed to restore binary: disk"))
    );
    assert_eq!(
        back(vec![
            entry(false),
            Event::Exists(true),
            done(),
            done(),
            done(),
            done(),
            Event::Spawned(Err(text("boom"))),
            done()
        ]),
        (500, text("Rollback failed to restart: boom"))
    );
}

#[test]
fn domains_and_limits_are_set() {
    let domain = |d: Option<&str>| {
        set_custom_domain(id(), CustomDomainPayload { domain: d.map(|s| s.to_string()) })
    };
    let (stage, action) = run(domain(Some(" blog.com")), vec![user()]);
    assert!(matches!(action, Action::SetDomain { domain: Some(d), .. } if d == " blog.com"));
    let (_, action) = advance(stage, done());
    assert!(matches!(action, Action::Reply(Reply::DomainSet(Some(d))) if d == " blog.com"));
    let (_, action) = run(domain(Some("  ")), vec![user()]);
    assert!(matches!(action, Action::SetDomain { domain: None, .. }));
    let (_, action) = run(domain(None), vec![user()]);
    assert!(matches!(action, Action::SetDomain { domain: None, .. }));
    assert_eq!(refused(domain(None), vec![user(), failed()]), (500, "disk".to_string()));
    let limit = || set_limits(id(), ResourceLimitsPayload { ram_limit_mb: Some(64) });
    let (stage, action) = run(limit(), vec![user()]);
    assert!(matches!(action, Action::SetRamLimit { ram_limit_mb: Some(64), .. }));
    let (stage, action) = advance(stage, done());
    assert!(matches!(&action, Action::FindById(k) if k == "p1"));
    let p = blog("u");
    let (_, action) =
        run((stage, action), vec![found(&p), done(), Event::Spawned(Ok(1)), done()]);
    assert!(matches!(action, Action::Reply(Reply::LimitSet)));
    let boom = Event::Spawned(Err("boom".to_string()));
    assert_eq!(
        refused(limit(), vec![user(), done(), found(&p), done(), boom]),
        (500, "Limit saved but restart failed: boom".to_string())
    );
    assert_eq!(refused(limit(), vec![user(), failed()]), (500, "disk".to_string()));
}

#[test]
fn answers_to_deploys() {
    let fresh = DeployResponse::of("p".to_string(), "blog".to_string(), 8100, 4, true);
    assert_eq!(fresh.message, "Deployed successfully");
    assert_eq!((fresh.port, fresh.pid), (8100, 4));
    let again = DeployResponse::of("p".to_string(), "blog".to_string(), 8100, 4, false);
    assert_eq!(again.message, "Re-deployed successfully");
}

#[test]
fn ports_of_projects_differ() {
    let mut rows: Vec<i64> = vec![];
    for _ in 0..5 {
        let port = allocate_port(8100, 8104, &rows).unwrap();
        assert!(!rows.contains(&(port as i64)));
        rows.push(port as i64);
    }
    assert_eq!(allocate_port(8100, 8104, &rows), None);
}

#[test]
fn runs_have_few_steps() {
    let p = blog("ana");
    let events = vec![
        user(),
        Event::Locked(true),
        upload(&[0x1f, 0x8b]),
        found(&p),
        Event::Saved(Ok("/s/new".to_string())),
        Event::Pruned(Ok(vec![])),
        done(),
        done(),
        Event::Extracted(Ok("/w/blog".to_string())),
        failed(),
        done(),
        done(),
        done(),
        done(),
        Event::Spawned(Ok(1)),
        done(),
    ];
    assert!(events.len() <= 17);
    let (stage, action) = run(deploy(8100, 8101), events);
    assert!(matches!(stage, Stage::Finished));
    assert!(matches!(action, Action::Reply(_)));
    assert!(!stage.is_expected(&done()));
}

#[test]
fn a_second_backup_is_copied_too() {
    let p = blog("u");
    let copy = backup_path("/tmp", "blog");
    let mut files = std::collections::BTreeMap::new();
    for contents in ["first", "second"] {
        files.insert("app.db".to_string(), contents);
        let (mut stage, mut action) = download_backup(id());
        let sent = loop {
            let event = match action {
                Action::Authenticate => user(),
                Action::FindById(_) => found(&p),
                Action::CheckDatabase(_) => Event::Exists(true),
                Action::RemoveBackup(_) => {
                    files.remove(&copy);
                    done()
                }
                Action::Vacuum(_) => {
                    assert!(!files.contains_key(&copy));
                    files.insert(copy.clone(), files["app.db"]);
                    Event::Vacuumed(Ok(()))
                }
                Action::ReadBackup(_) => Event::Bytes(Ok(files[&copy].as_bytes().to_vec())),
                Action::Reply(Reply::Backup { bytes, .. }) => break bytes,
                other => panic!("{:?}", other),
            };
            let next = advance(stage, event);
            stage = next.0;
            action = next.1;
        };
        assert_eq!(sent, contents.as_bytes());
        assert!(!files.contains_key(&copy));
    }
}
