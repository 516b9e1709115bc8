use mypaas::config::{dirs_next_data_dir, Config, ConfigError, EnvVars};
use mypaas::db::init_pool;
use mypaas::s3::{
    create_bucket, create_project_bucket, delete_bucket, list_bucket_objects, project_storage_dir,
    start_project_s3, start_server,
};
use mypaas::tree::{Entry, FileEntry};

fn no_vars() -> EnvVars {
    EnvVars {
        app_name: None,
        data_dir: None,
        host: None,
        port: None,
        s3_port: None,
        domain: None,
        app_port_start: None,
        app_port_end: None,
        suspend_timeout_mins: None,
    }
}

fn default_config() -> Config {
    Config::from_env(no_vars(), dirs_next_data_dir(false, None)).unwrap()
}

fn file(name: &str, size: u64) -> Entry {
    Entry::File(FileEntry { name: name.to_string(), size, mode: 0o644, regular: true })
}

#[test]
fn defaults_without_variables() {
    let c = default_config();
    assert_eq!(c.app_name, "RustPaaS");
    assert_eq!(c.data_dir, "/var/lib/mypaas");
    assert_eq!(c.host, "0.0.0.0");
    assert_eq!(c.port, 3000);
    assert_eq!(c.s3_port, 9000);
    assert_eq!(c.domain, "localhost");
    assert_eq!((c.app_port_start, c.app_port_end), (8100, 8999));
    assert_eq!(c.suspend_timeout_mins, 10);
    assert_eq!(c.listen_address(), "0.0.0.0:3000");
}

#[test]
fn variables_override_defaults() {
    let vars = EnvVars {
        app_name: Some("Mine".to_string()),
        data_dir: Some("/data".to_string()),
        port: Some("8080".to_string()),
        suspend_timeout_mins: Some("0".to_string()),
        ..no_vars()
    };
    let c = Config::from_env(vars, "/unused".to_string()).unwrap();
    assert_eq!(c.app_name, "Mine");
    assert_eq!(c.data_dir, "/data");
    assert_eq!(c.port, 8080);
    assert_eq!(c.suspend_timeout_mins, 0);
}

#[test]
fn bad_numbers_are_told_of() {
    let bad = || Some("many".to_string());
    let dir = || "/d".to_string();
    let port = EnvVars { port: bad(), s3_port: bad(), ..no_vars() };
    let e = Config::from_env(port, dir()).unwrap_err();
    assert_eq!(e, ConfigError::Port);
    assert_eq!(e.message(), "MYPAAS_PORT must be a valid port number");
    let s3 = EnvVars { s3_port: Some("70000".to_string()), ..no_vars() };
    let e = Config::from_env(s3, dir()).unwrap_err();
    assert_eq!(e.message(), "MYPAAS_S3_PORT must be a valid port number");
    let start = EnvVars { app_port_start: bad(), ..no_vars() };
    let e = Config::from_env(start, dir()).unwrap_err();
    assert_eq!(e.message(), "MYPAAS_APP_PORT_START must be a valid port number");
    let end = EnvVars { app_port_end: bad(), ..no_vars() };
    let e = Config::from_env(end, dir()).unwrap_err();
    assert_eq!(e.message(), "MYPAAS_APP_PORT_END must be a valid port number");
    let timeout = EnvVars { suspend_timeout_mins: Some("-1".to_string()), ..no_vars() };
    let e = Config::from_env(timeout, dir()).unwrap_err();
    assert_eq!(e.message(), "MYPAAS_SUSPEND_TIMEOUT_MINS must be a number");
}

#[test]
fn data_directory_on_windows() {
    assert_eq!(
        dirs_next_data_dir(true, Some("C:\\Users\\me\\AppData".to_string())),
        "C:\\Users\\me\\AppData\\mypaas"
    );
    assert_eq!(dirs_next_data_dir(true, Some("D:\\".to_string())), "D:\\mypaas");
    assert_eq!(dirs_next_data_dir(true, Some("D:".to_string())), "D:mypaas");
    assert_eq!(dirs_next_data_dir(true, None), "./mypaas-data");
    assert_eq!(dirs_next_data_dir(false, Some("x".to_string())), "/var/lib/mypaas");
}

#[test]
fn where_things_are_kept() {
    let c = default_config();
    assert_eq!(c.db_path(), "/var/lib/mypaas/paas.db");
    assert_eq!(c.db_url(), "sqlite:///var/lib/mypaas/paas.db");
    assert_eq!(init_pool(&c), "sqlite:///var/lib/mypaas/paas.db?mode=rwc");
    assert_eq!(c.apps_dir(), "/var/lib/mypaas/apps");
    assert_eq!(c.storage_dir(), "/var/lib/mypaas/storage/buckets");
    assert_eq!(c.project_bin_dir("blog"), "/var/lib/mypaas/apps/blog/bin");
    assert_eq!(c.project_data_dir("blog"), "/var/lib/mypaas/apps/blog/data");
    assert_eq!(c.project_log_path("blog"), "/var/lib/mypaas/apps/blog/app.log");
    assert_eq!(c.project_workspace_dir("blog"), "/var/lib/mypaas/apps/blog/workspace");
    assert_eq!(c.project_deploys_dir("blog"), "/var/lib/mypaas/apps/blog/deploys");
    assert_eq!(
        c.ensure_dirs(),
        vec!["/var/lib/mypaas", "/var/lib/mypaas/apps", "/var/lib/mypaas/storage/buckets"]
    );
}

#[test]
fn projects_have_directories_of_their_own() {
    let c = default_config();
    let a = c.project_dir("blog");
    let b = c.project_dir("blog2");
    assert_ne!(a, b);
    assert!(c.project_bin_dir("blog").starts_with(&(a.clone() + "/")));
    assert!(!c.project_bin_dir("blog2").starts_with(&(a + "/")));
}

#[test]
fn where_buckets_are() {
    let c = default_config();
    assert_eq!(create_bucket(&c, "bucket-blog"), "/var/lib/mypaas/storage/buckets/bucket-blog");
    assert_eq!(project_storage_dir(&c, "id1"), "/var/lib/mypaas/storage/buckets/id1");
    assert_eq!(
        create_project_bucket(&c, "id1", "bucket-blog"),
        "/var/lib/mypaas/storage/buckets/id1/bucket-blog"
    );
    assert_eq!(
        delete_bucket(&c, "b", true),
        Some("/var/lib/mypaas/storage/buckets/b".to_string())
    );
    assert_eq!(delete_bucket(&c, "b", false), None);
    let own = start_server(&c);
    assert_eq!(own.root, "/var/lib/mypaas/storage/buckets");
    assert_eq!(own.address, "0.0.0.0:9000");
    let projects = start_project_s3(&c, "id1", 18_100);
    assert_eq!(projects.root, "/var/lib/mypaas/storage/buckets/id1");
    assert_eq!(projects.address, "0.0.0.0:18100");
}

#[test]
fn objects_of_a_bucket_with_directories() {
    let tree = vec![
        file("top.txt", 1),
        Entry::Dir("uploads".to_string(), vec![file("foto.png", 20), file("a\\b", 3)]),
        Entry::Dir("empty".to_string(), vec![]),
    ];
    let objects = list_bucket_objects(Some(&tree));
    let found: Vec<(String, u64)> = objects.into_iter().map(|o| (o.key, o.size)).collect();
    assert_eq!(
        found,
        vec![
            ("top.txt".to_string(), 1),
            ("uploads/foto.png".to_string(), 20),
            ("uploads/a/b".to_string(), 3)
        ]
    );
    assert!(list_bucket_objects(None).is_empty());
}
