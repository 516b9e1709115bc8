use mypaas::clock::Timestamp;
use mypaas::db::models::{
    accepted, api_key_from, bucket_name, Bucket, DeployHistory, Project, ProjectStatus, Session,
    User,
};

fn at(secs: i64) -> Timestamp {
    Timestamp { secs, nanos: 5 }
}

fn entry(id: &str, secs: i64) -> DeployHistory {
    DeployHistory {
        id: id.to_string(),
        project_id: "p".to_string(),
        binary_path: format!("/deploys/{}", id),
        is_bundle: false,
        deployed_at: at(secs),
    }
}

#[test]
fn status_there_and_back() {
    let all = [
        (ProjectStatus::Running, "Running"),
        (ProjectStatus::Stopped, "Stopped"),
        (ProjectStatus::Deploying, "Deploying"),
        (ProjectStatus::Suspended, "Suspended"),
        (ProjectStatus::Error, "Error"),
    ];
    for (status, label) in all {
        assert_eq!(status.to_string(), label);
        let mut p = Project::new("a", "a", 1, "u");
        p.status = label.to_string();
        assert_eq!(p.status(), status);
        assert_eq!(p.is_running(), label == "Running");
    }
    let mut p = Project::new("a", "a", 1, "u");
    p.status = "running".to_string();
    assert_eq!(p.status(), ProjectStatus::Error);
}

#[test]
fn new_projects_are_stopped() {
    let p = Project::new("blog", "blog", 8100, "u1");
    assert_eq!(p.name, "blog");
    assert_eq!(p.subdomain, "blog");
    assert_eq!(p.port, 8100);
    assert_eq!(p.user_id, "u1");
    assert_eq!(p.status(), ProjectStatus::Stopped);
    assert!(!p.is_running());
    assert!(p.pid.is_none() && p.custom_domain.is_none() && p.ram_limit_mb.is_none());
    assert_eq!(p.id.len(), 36);
    assert_eq!(p.created_at, p.updated_at);
    assert_ne!(p.id, Project::new("blog", "blog", 8100, "u1").id);
    let q = p.clone();
    assert_eq!((q.id, q.name, q.port), (p.id, p.name, p.port));
}

#[test]
fn users_log_in_with_their_password() {
    let u = User::new("ana", "secreto");
    assert_eq!(u.username, "ana");
    assert_ne!(u.password_hash, "secreto");
    assert!(u.verify_password("secreto"));
    assert!(!u.verify_password("otro"));
    let key = u.api_key.unwrap();
    assert!(key.starts_with("paas_sk_"));
    assert_eq!(key.len(), 8 + 32);
}

#[test]
fn users_without_a_hash_never_log_in() {
    let u = User::from_parts("id".to_string(), "ana", None, "a-b", at(0));
    assert_eq!(u.password_hash, "");
    assert!(!u.verify_password(""));
    assert!(!u.verify_password("x"));
    assert_eq!(u.api_key, Some("paas_sk_ab".to_string()));
    let tail = "a".repeat(53);
    for hash in [
        "plain".to_string(),
        format!("$9z$12${}", tail),
        format!("$2b$3${}", tail),
        format!("$2b$32${}", tail),
        format!("$2b$x${}", tail),
        format!("$2b$12${}a", tail),
        "$2b$12$".to_string(),
        "$$$".to_string(),
    ] {
        let w = User::from_parts("id".to_string(), "eva", Some(hash), "k", at(0));
        assert!(!w.verify_password("x"));
        assert!(!w.verify_password(""));
    }
    assert!(!accepted(None));
    assert!(!accepted(Some(false)));
    assert!(accepted(Some(true)));
}

#[test]
fn api_keys_have_no_hyphens() {
    assert_eq!(
        api_key_from("67e55044-10b1-426f-9247-bb680e5fe0c8"),
        "paas_sk_67e5504410b1426f9247bb680e5fe0c8"
    );
}

#[test]
fn sessions_last_a_week() {
    let s = Session::starting("s".to_string(), "u", at(1_000));
    assert_eq!(s.expires_at, Timestamp { secs: 1_000 + 7 * 86_400, nanos: 5 });
    assert!(s.is_valid_at(&at(1_000)));
    assert!(s.is_valid_at(&Timestamp { secs: 1_000 + 7 * 86_400, nanos: 4 }));
    assert!(!s.is_valid_at(&at(1_000 + 7 * 86_400)));
    assert!(!s.is_valid_at(&at(1_001 + 7 * 86_400)));
}

#[test]
fn new_sessions_are_valid_now() {
    let s = Session::new("u");
    assert_eq!(s.user_id, "u");
    assert_eq!(s.id.len(), 36);
    let p = Project::new("a", "a", 1, "u");
    assert!(s.is_valid_at(&p.created_at));
    assert!(p.created_at.secs > 1_600_000_000);
}

#[test]
fn pruning_keeps_the_newest() {
    let history = vec![entry("d", 4), entry("c", 3), entry("b", 2), entry("a", 1)];
    let (stay, go) = DeployHistory::prune(history, 3);
    let ids: Vec<&str> = stay.iter().map(|e| e.id.as_str()).collect();
    assert_eq!(ids, vec!["d", "c", "b"]);
    assert_eq!(DeployHistory::binary_paths(&go), vec!["/deploys/a"]);
    let (stay, go) = DeployHistory::prune(vec![entry("a", 1)], 3);
    assert_eq!((stay.len(), go.len()), (1, 0));
    let (stay, go) = DeployHistory::prune(vec![entry("a", 1)], 0);
    assert_eq!((stay.len(), go.len()), (0, 1));
    let (stay, go) = DeployHistory::prune(vec![entry("a", 1)], -1);
    assert_eq!((stay.len(), go.len()), (0, 1));
}

#[test]
fn buckets_are_named_after_projects() {
    assert_eq!(bucket_name("blog"), "bucket-blog");
    assert_ne!(bucket_name("a"), bucket_name("b"));
    let b = Bucket::new("bucket-blog", "p");
    assert_eq!((b.name.as_str(), b.project_id.as_str()), ("bucket-blog", "p"));
    assert_eq!(b.id.len(), 36);
}

#[test]
fn histories_stay_short() {
    let mut history: Vec<DeployHistory> = vec![];
    for i in 0..10 {
        let (mut stay, _) = DeployHistory::prune(history, 3);
        stay.insert(0, entry(&format!("e{}", i), i));
        history = stay;
        assert!(history.len() <= 4);
    }
    assert_eq!(history[0].id, "e9");
}
