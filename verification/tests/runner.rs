use mypaas::config::{Config, EnvVars};
use mypaas::db::models::Project;
use mypaas::runner::bundle::{
    current_file, extract_bundle, find_at_root, find_binary, is_gzip, save_deploy_snapshot, write_binary,
    SnapshotSource,
};
use mypaas::runner::launch::{
    can_start, parse_dotenv, process_env, s3_port, s3_port_exists, s3_secret, secret_from,
    spawn_process, SecretFile, Surroundings,
};
use mypaas::runner::logs::{
    log_files, read_log_tail, read_log_tail_multi, rotate_log_if_needed, tail_of, tail_start,
    FileOp,
};
use mypaas::runner::process::{Moment, Poll, ProcessManager, Sample};
use mypaas::runner::ProcessMetrics;
use mypaas::tree::{find_exe, Entry, FileEntry};

type Manager = ProcessManager<&'static str, &'static str, f32>;

const SECOND: u64 = 1_000_000_000;

fn moment(secs: u64) -> Moment {
    Moment { nanos: secs * SECOND }
}

fn settings() -> Config {
    let vars = EnvVars {
        app_name: None,
        data_dir: Some("/d".to_string()),
        host: None,
        port: None,
        s3_port: None,
        domain: None,
        app_port_start: None,
        app_port_end: None,
        suspend_timeout_mins: None,
    };
    Config::from_env(vars, "/unused".to_string()).unwrap()
}

fn plain(name: &str, mode: u32) -> Entry {
    Entry::File(FileEntry { name: name.to_string(), size: 1, mode, regular: true })
}

fn dir(name: &str, entries: Vec<Entry>) -> Entry {
    Entry::Dir(name.to_string(), entries)
}

#[test]
fn uptime_in_two_units() {
    let mut m: ProcessMetrics<f32> = ProcessMetrics::new(0.0);
    assert_eq!(m.uptime_display(), "0s");
    m.uptime_secs = 59;
    assert_eq!(m.uptime_display(), "59s");
    m.uptime_secs = 61;
    assert_eq!(m.uptime_display(), "1m 1s");
    m.uptime_secs = 3_599;
    assert_eq!(m.uptime_display(), "59m 59s");
    m.uptime_secs = 7_380;
    assert_eq!(m.uptime_display(), "2h 3m");
}

#[test]
fn history_holds_the_last_readings() {
    let mut m: ProcessMetrics<f32> = ProcessMetrics::new(0.0);
    for i in 0..35u64 {
        m.record(1.5, i, i, 100 + i);
    }
    assert_eq!(m.history.len(), 30);
    assert_eq!(m.history.front().unwrap().ram_mb, 5);
    assert_eq!(m.history.back().unwrap().ts, 134);
    assert_eq!((m.ram_mb, m.uptime_secs), (34, 34));
    assert_eq!(m.cpu_percent, 1.5);
}

#[test]
fn started_projects_are_tracked() {
    let mut m: Manager = ProcessManager::new();
    assert!(m.active_projects().is_empty());
    assert!(!m.is_running("a", Poll::Alive));
    assert_eq!(m.idle_seconds("a", moment(9)), None);
    m.register("a", 7, "child", "s3", moment(1));
    assert_eq!(m.get_pid("a"), Some(7));
    assert_eq!(m.active_projects(), vec!["a"]);
    assert!(m.is_running("a", Poll::Alive));
    assert_eq!(m.idle_seconds("a", moment(1)), Some(0));
    assert_eq!(m.idle_seconds("a", Moment { nanos: 3 * SECOND - 1 }), Some(1));
    assert_eq!(m.process_mut("a"), Some(&mut "child"));
    assert_eq!(m.process_mut("b"), None);
}

#[test]
fn exited_projects_are_forgotten() {
    let mut m: Manager = ProcessManager::new();
    m.register("a", 7, "child", "s3", moment(1));
    m.register("b", 8, "other", "s3", moment(1));
    assert!(!m.is_running("a", Poll::Failed));
    assert_eq!(m.get_pid("a"), Some(7));
    assert!(!m.is_running("a", Poll::Exited));
    assert_eq!(m.get_pid("a"), None);
    assert!(!m.is_running("a", Poll::Alive));
    assert_eq!(m.idle_seconds("a", moment(4)), Some(3));
    assert_eq!(m.get_pid("b"), Some(8));
}

#[test]
fn killed_projects_are_forgotten() {
    let mut m: Manager = ProcessManager::new();
    assert_eq!(m.begin_kill("a"), None);
    m.register("a", 7, "child", "s3", moment(1));
    m.register("b", 8, "other", "s3", moment(1));
    assert_eq!(m.begin_kill("a"), Some("child"));
    assert_eq!(m.get_pid("a"), Some(7));
    m.finish_kill("a");
    assert_eq!(m.get_pid("a"), None);
    assert_eq!(m.active_projects(), vec!["b"]);
    assert_eq!(m.tracked_pids(), vec![("b".to_string(), 8)]);
    assert_eq!(m.idle_seconds("a", moment(2)), Some(1));
}

#[test]
fn idle_projects_after_the_timeout() {
    let mut m: Manager = ProcessManager::new();
    m.register("a", 7, "child", "s3", moment(0));
    m.register("b", 8, "other", "s3", moment(0));
    m.record_activity("b", moment(300));
    m.record_activity("c", moment(0));
    assert!(m.idle_projects(10, moment(599)).is_empty());
    assert_eq!(m.idle_projects(10, moment(600)), vec!["a"]);
    assert_eq!(m.idle_projects(10, moment(900)).len(), 2);
}

#[test]
fn readings_go_to_their_projects() {
    let mut m: Manager = ProcessManager::new();
    m.register("a", 7, "child", "s3", moment(1));
    m.register("b", 8, "other", "s3", moment(1));
    assert!(m.metrics_of("a").is_none());
    let samples = vec![
        ("a".to_string(), Some(Sample { cpu: 12.5f32, memory: 3 * 1_048_576 + 9 })),
        ("b".to_string(), None),
        ("gone".to_string(), None),
    ];
    m.refresh_metrics(&samples, 0.0, moment(5), 77);
    let a = m.metrics_of("a").unwrap();
    assert_eq!((a.cpu_percent, a.ram_mb, a.uptime_secs), (12.5, 3, 4));
    assert_eq!(a.history.len(), 1);
    assert_eq!(a.history[0].ts, 77);
    let b = m.metrics_of("b").unwrap();
    assert_eq!((b.cpu_percent, b.ram_mb, b.uptime_secs), (0.0, 0, 4));
    assert_eq!(m.metrics_of("gone").unwrap().uptime_secs, 0);
    m.refresh_one("a", None, 0.0, moment(6), 78);
    let a = m.metrics_of("a").unwrap();
    assert_eq!((a.ram_mb, a.history.len()), (0, 2));
    assert_eq!(m.metrics_of("b").unwrap().history.len(), 1);
}

#[test]
fn logs_rotate_at_five_megabytes() {
    assert!(rotate_log_if_needed("/l", 5 * 1024 * 1024 - 1).is_empty());
    let ops = rotate_log_if_needed("/l", 5 * 1024 * 1024);
    assert_eq!(ops.len(), 3);
    assert!(matches!(&ops[0], FileOp::Remove(p) if p == "/l.2"));
    assert!(matches!(&ops[1], FileOp::Rename { from, to } if from == "/l.1" && to == "/l.2"));
    assert!(matches!(&ops[2], FileOp::Rename { from, to } if from == "/l" && to == "/l.1"));
    assert_eq!(log_files("/l"), vec!["/l.2", "/l.1", "/l"]);
}

#[test]
fn rotation_on_a_map_of_files() {
    let mut files = std::collections::BTreeMap::new();
    for (path, text) in [("/l", "now"), ("/l.1", "before"), ("/l.2", "long ago"), ("/x", "x")] {
        files.insert(path.to_string(), text);
    }
    for op in rotate_log_if_needed("/l", 6_000_000) {
        match op {
            FileOp::Remove(path) => {
                files.remove(&path);
            }
            FileOp::Rename { from, to } => {
                if let Some(text) = files.remove(&from) {
                    files.insert(to, text);
                }
            }
        }
    }
    assert_eq!(files.get("/l"), None);
    assert_eq!(files.get("/l.1"), Some(&"now"));
    assert_eq!(files.get("/l.2"), Some(&"before"));
    assert_eq!(files.get("/x"), Some(&"x"));
}

#[test]
fn tails_are_read_from_the_last_bytes() {
    assert_eq!(tail_start(10), 0);
    assert_eq!(tail_start(65_536), 0);
    assert_eq!(tail_start(65_537), 1);
}

#[test]
fn last_lines_across_files() {
    let files = vec![Some(b"a\nb\n".to_vec()), None, Some(b"c\r\nd".to_vec())];
    assert_eq!(read_log_tail_multi(&files, 3), vec!["b", "c", "d"]);
    assert_eq!(read_log_tail_multi(&files, 10), vec!["a", "b", "c", "d"]);
    assert!(read_log_tail_multi(&files, 0).is_empty());
    let one = vec![None, None, Some(b"c\nd".to_vec())];
    assert_eq!(read_log_tail_multi(&one, 1), read_log_tail(Some(b"c\nd".to_vec()), 1));
    assert_eq!(tail_of(&vec!["x\ny".to_string()], 1), vec!["y"]);
}

#[test]
fn broken_utf8_is_replaced() {
    assert_eq!(read_log_tail(Some(vec![b'o', 0xff, b'k']), 5), vec!["o\u{fffd}k"]);
    assert!(read_log_tail(None, 5).is_empty());
}

#[test]
fn gzip_by_its_first_bytes() {
    assert!(is_gzip(&[0x1f, 0x8b]));
    assert!(is_gzip(&[0x1f, 0x8b, 8, 0]));
    assert!(!is_gzip(&[0x1f]));
    assert!(!is_gzip(&[0x7f, b'E', b'L', b'F']));
    assert!(!is_gzip(&[]));
}

#[test]
fn binary_of_a_bundle() {
    let named = vec![
        plain("run.sh", 0o755),
        dir("target", vec![dir("release", vec![plain("blog", 0o644)])]),
        plain("blog", 0o755),
    ];
    assert_eq!(extract_bundle("/w", &named, "blog"), "/w/target/release/blog");
    assert_eq!(find_exe("/w", &named, "none"), None);
    let executable = vec![
        plain("README", 0o644),
        dir("bin", vec![plain("deep", 0o755)]),
        plain("run.sh", 0o100),
    ];
    assert_eq!(extract_bundle("/w", &executable, "blog"), "/w/run.sh");
    assert_eq!(extract_bundle("/w", &vec![plain("README", 0o644)], "blog"), "/w/blog");
}

#[test]
fn entry_at_the_root_of_a_workspace() {
    let entries = vec![dir("sub", vec![plain("blog", 0o755)]), plain("other", 0o755)];
    assert_eq!(find_at_root("/w", &entries, "blog"), None);
    assert_eq!(find_at_root("/w", &entries, "other"), Some("/w/other".to_string()));
    assert_eq!(find_at_root("/w", &entries, "sub"), Some("/w/sub".to_string()));
}

#[test]
fn binary_to_run() {
    let entries = vec![dir("x", vec![]), plain("notes", 0o644), plain("blog", 0o755)];
    assert_eq!(find_binary("/b", Some(&entries)).unwrap(), "/b/blog");
    let weak = vec![plain("notes", 0o644), plain("more", 0o600)];
    assert_eq!(find_binary("/b", Some(&weak)).unwrap(), "/b/notes");
    let e = find_binary("/b", Some(&vec![dir("x", vec![])])).unwrap_err();
    assert_eq!(e.message(), "No binary found in: /b");
    let e = find_binary("/b", None).unwrap_err();
    assert_eq!(e.message(), "Binary directory does not exist: /b");
    assert_eq!(write_binary("/b", "blog", false), "/b/blog");
    assert_eq!(write_binary("/b", "blog", true), "/b/blog.exe");
}

#[test]
fn snapshots_of_what_is_replaced() {
    assert_eq!(
        save_deploy_snapshot("/s", true, true, 17),
        ("/s/deploy-17.tar.gz".to_string(), SnapshotSource::CurrentBundle)
    );
    assert_eq!(save_deploy_snapshot("/s", true, false, 17).1, SnapshotSource::Upload);
    assert_eq!(
        save_deploy_snapshot("/s", false, true, 17),
        ("/s/deploy-17.bin".to_string(), SnapshotSource::CurrentBinary)
    );
    assert_eq!(save_deploy_snapshot("/s", false, false, 18).1, SnapshotSource::Upload);
    assert_ne!(
        save_deploy_snapshot("/s", false, true, 17).0,
        save_deploy_snapshot("/s", false, true, 18).0
    );
}

#[test]
fn s3_ports_lie_above() {
    assert!(s3_port_exists(8100));
    assert_eq!(s3_port(8100), 18_100);
    assert!(s3_port_exists(55_535));
    assert_eq!(s3_port(55_535), 65_535);
    assert!(!s3_port_exists(55_536));
    assert_eq!(s3_port(65_536 + 5), 10_005);
}

#[test]
fn secrets_are_kept_or_made() {
    let held = SecretFile::Holds("old".to_string());
    assert_eq!(s3_secret(held), ("old".to_string(), false));
    let (fresh, store) = s3_secret(SecretFile::Missing);
    assert_eq!((fresh.len(), store), (36, true));
    let (fresh, store) = s3_secret(SecretFile::Unreadable);
    assert_eq!((fresh.len(), store), (36, false));
    assert_eq!(
        secret_from(SecretFile::Missing, "new".to_string()),
        ("new".to_string(), true)
    );
}

#[test]
fn dotenv_lines() {
    let text = "# comment\n\n A = 1 \nB=x=y\nPORT=99\n PORT = 98\nnothing\n=empty\nA=2\n";
    let pairs = parse_dotenv(text);
    let expected: Vec<(String, String)> = [("A", "1"), ("B", "x=y"), ("", "empty"), ("A", "2")]
        .iter()
        .map(|(k, v)| (k.to_string(), v.to_string()))
        .collect();
    assert_eq!(pairs, expected);
}

#[test]
fn environment_of_a_process() {
    let c = settings();
    let p = Project::new("blog", "blog", 8100, "u");
    let dotenv = "AWS_REGION=eu\nPORT=1\nEXTRA=yes".to_string();
    let env = process_env(&c, &p, "shh", Some(&dotenv));
    let map: std::collections::HashMap<String, String> = env.into_iter().collect();
    let get = |k: &str| map.get(k).map(|v| v.as_str());
    assert_eq!(get("DATABASE_URL"), Some("sqlite:///d/apps/blog/data/app.db"));
    assert_eq!(get("S3_ENDPOINT"), Some("http://127.0.0.1:18100"));
    assert_eq!(get("S3_BUCKET"), Some("bucket-blog"));
    assert_eq!(get("AWS_ACCESS_KEY_ID"), Some(p.id.as_str()));
    assert_eq!(get("AWS_SECRET_ACCESS_KEY"), Some("shh"));
    assert_eq!(get("AWS_REGION"), Some("eu"));
    assert_eq!(get("PORT"), Some("8100"));
    assert_eq!(get("APP_NAME"), Some("blog"));
    assert_eq!(get("EXTRA"), Some("yes"));
    assert_eq!(process_env(&c, &p, "shh", None).len(), 8);
}

#[test]
fn plan_of_a_start() {
    let c = settings();
    let mut p = Project::new("blog", "blog", 8100, "u");
    p.ram_limit_mb = Some(64);
    assert!(can_start(&p));
    let found = Surroundings {
        bin_entries: Some(vec![plain("blog", 0o755)]),
        log_size: 6_000_000,
        dotenv: None,
        has_workspace: true,
    };
    let plan = spawn_process(&c, &p, &found, "shh").unwrap();
    assert_eq!(plan.binary, "/d/apps/blog/bin/blog");
    assert_eq!(plan.current_dir, Some("/d/apps/blog/workspace".to_string()));
    assert_eq!(plan.env.len(), 8);
    assert_eq!(plan.ram_limit, Some(67_108_864));
    assert_eq!(plan.log_path, "/d/apps/blog/app.log");
    assert_eq!(plan.log_ops.len(), 3);
    assert_eq!(plan.s3_port, 18_100);
    assert_eq!(plan.s3_access_key, p.id);
}

#[test]
fn starts_without_a_binary_fail() {
    let c = settings();
    let p = Project::new("blog", "blog", 8100, "u");
    let found =
        Surroundings { bin_entries: None, log_size: 0, dotenv: None, has_workspace: false };
    let e = spawn_process(&c, &p, &found, "shh").unwrap_err();
    assert_eq!(e.message(), "Binary directory does not exist: /d/apps/blog/bin");
}

#[test]
fn projects_that_cannot_start() {
    let mut p = Project::new("blog", "blog", 8100, "u");
    p.ram_limit_mb = Some(-1);
    assert!(!can_start(&p));
    p.ram_limit_mb = Some(17_592_186_044_415);
    assert!(can_start(&p));
    p.ram_limit_mb = Some(17_592_186_044_416);
    assert!(!can_start(&p));
    p.ram_limit_mb = None;
    p.port = 60_000;
    assert!(!can_start(&p));
}

#[test]
fn rollback_gives_the_old_binary_back() {
    let c = settings();
    let binary = c.project_bin_dir("blog") + "/blog";
    let mut files = std::collections::BTreeMap::new();
    files.insert(binary.clone(), "old");
    let (snapshot, source) = save_deploy_snapshot(&c.project_deploys_dir("blog"), false, true, 9);
    assert_eq!(source, SnapshotSource::CurrentBinary);
    assert_ne!(snapshot, binary);
    files.insert(snapshot.clone(), files[&binary]);
    files.insert(binary.clone(), "new");
    files.insert(binary.clone(), files[&snapshot]);
    assert_eq!(files[&binary], "old");
}

#[test]
fn rollback_gives_the_first_bundle_back() {
    let c = settings();
    let kept = current_file(&c, "blog", true);
    assert_eq!(kept, "/d/apps/blog/bundle.tar.gz");
    assert_eq!(kept, c.project_bundle_path("blog"));
    assert_eq!(current_file(&c, "blog", false), "/d/apps/blog/bin/blog");
    let mut files = std::collections::BTreeMap::new();
    let mut last = String::new();
    for (ts, bundle) in [(1u64, "G1"), (2, "G2")] {
        let has_current = files.contains_key(&kept);
        let (path, source) =
            save_deploy_snapshot(&c.project_deploys_dir("blog"), true, has_current, ts);
        let contents = match source {
            SnapshotSource::Upload => bundle,
            SnapshotSource::CurrentBundle => files[&kept],
            SnapshotSource::CurrentBinary => panic!("no binary was uploaded"),
        };
        files.insert(path.clone(), contents);
        files.insert(kept.clone(), bundle);
        last = path;
    }
    assert_eq!(files[&kept], "G2");
    assert_eq!(files[&last], "G1");
}

#[test]
fn superseded_bundles_are_not_saved() {
    let c = settings();
    let kept = current_file(&c, "blog", true);
    let binary = current_file(&c, "blog", false);
    let mut files = std::collections::BTreeMap::new();
    files.insert(kept.clone(), "G1");
    files.insert(binary.clone(), "B");
    files.remove(&kept);
    let has_current = files.contains_key(&kept);
    let (_, source) = save_deploy_snapshot(&c.project_deploys_dir("blog"), true, has_current, 3);
    assert_eq!(source, SnapshotSource::Upload);
    assert_eq!(files[&binary], "B");
}

#[test]
fn rollbacks_find_binaries_at_the_root_only() {
    let deep = vec![dir("bin", vec![plain("blog", 0o755)]), plain("run", 0o755)];
    assert_eq!(extract_bundle("/w", &deep, "blog"), "/w/bin/blog");
    assert_eq!(find_at_root("/w", &deep, "blog"), None);
}

#[test]
fn metrics_of_unread_processes_are_zero() {
    let mut m: Manager = ProcessManager::new();
    let none = m.metrics_or_new("a", 0.0);
    assert_eq!((none.cpu_percent, none.ram_mb, none.uptime_secs), (0.0, 0, 0));
    assert!(none.history.is_empty());
    m.refresh_one("a", Some(Sample { cpu: 2.5, memory: 4 * 1_048_576 }), 0.0, moment(1), 9);
    let some = m.metrics_or_new("a", 0.0);
    assert_eq!((some.cpu_percent, some.ram_mb), (2.5, 4));
    assert_eq!((some.history.len(), some.history[0].ts), (1, 9));
}
