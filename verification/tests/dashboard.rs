use mypaas::clock::Timestamp;
use mypaas::dashboard::auth::{
    after_store, judge_login, judge_login_at, login_post, logout_post, AuthRejection, AuthUser, LoginError,
    LoginPayload, LoginStep, OptionalAuthUser, SESSION_COOKIE_NAME,
};
use mypaas::dashboard::handlers::{
    error_page, error_status, index, landing, logs_error, project_detail, project_logs,
    project_or_error, set_lang, shown_bucket, LangQuery, PageError,
};
use mypaas::dashboard::i18n::{en, es, Lang};
use mypaas::db::models::{Bucket, Project, Session, User};

fn ana() -> User {
    User::from_parts("u1".to_string(), "ana", None, "k", Timestamp { secs: 0, nanos: 0 })
}

fn payload(password: &str) -> LoginPayload {
    LoginPayload { username: "ana".to_string(), password: password.to_string() }
}

#[test]
fn pages_that_ask_for_a_user() {
    assert_eq!(SESSION_COOKIE_NAME, "rustpaas_session");
    assert_eq!(AuthUser::from_lookup(Some(Ok(Some(ana())))).unwrap().0.id, "u1");
    let db = AuthUser::from_lookup(Some(Err("locked".to_string())));
    assert!(matches!(db, Err(AuthRejection::Database)));
    assert!(matches!(AuthUser::from_lookup(Some(Ok(None))), Err(AuthRejection::NotLoggedIn)));
    assert!(matches!(AuthUser::from_lookup(None), Err(AuthRejection::NotLoggedIn)));
    assert!(OptionalAuthUser::from_lookup(Some(Ok(Some(ana())))).0.is_some());
    assert!(OptionalAuthUser::from_lookup(Some(Err("locked".to_string()))).0.is_none());
    assert!(OptionalAuthUser::from_lookup(None).0.is_none());
}

#[test]
fn logging_in_with_a_password() {
    let u = User::new("ana", "secreto");
    match login_post(&payload("secreto"), Some(&u)) {
        LoginStep::Store(session) => {
            assert_eq!(session.user_id, u.id);
            let now = User::new("x", "y").created_at;
            assert!(session.is_valid_at(&now));
            let week = 7 * 86_400;
            assert!((session.expires_at.secs - week - now.secs).abs() < 60);
            let id = session.id.clone();
            assert_eq!(after_store(session, Ok(())).unwrap().id, id);
        }
        other => panic!("{:?}", other),
    }
    let wrong = login_post(&payload("otro"), Some(&u));
    assert!(matches!(wrong, LoginStep::Fail(LoginError::WrongPassword)));
    let nobody = login_post(&payload("secreto"), None);
    assert!(matches!(nobody, LoginStep::Fail(LoginError::NoSuchUser)));
    assert!(matches!(judge_login(&ana(), true), LoginStep::Store(s) if s.user_id == "u1"));
    let start = Timestamp { secs: 1_000, nanos: 5 };
    match judge_login_at(&ana(), true, "s1".to_string(), start) {
        LoginStep::Store(s) => {
            assert_eq!((s.id.as_str(), s.user_id.as_str()), ("s1", "u1"));
            assert_eq!(s.expires_at, Timestamp { secs: 1_000 + 7 * 86_400, nanos: 5 });
        }
        other => panic!("{:?}", other),
    }
    assert!(matches!(judge_login(&ana(), false), LoginStep::Fail(LoginError::WrongPassword)));
}

#[test]
fn login_errors_are_told() {
    assert_eq!(LoginError::WrongPassword.message(), "Contraseña incorrecta");
    assert_eq!(LoginError::NoSuchUser.message(), "Usuario no encontrado");
    let e = after_store(Session::new("u"), Err("locked".to_string())).unwrap_err();
    assert_eq!(e, LoginError::Internal);
    assert_eq!(e.message(), "Internal error");
}

#[test]
fn logging_out_deletes_the_session() {
    assert_eq!(logout_post(Some("s1")), Some("s1".to_string()));
    assert_eq!(logout_post(None), None);
}

#[test]
fn language_of_the_client() {
    assert_eq!(Lang::from_header(Some("EN-us,en;q=0.9")).0.nav_login, "Sign In");
    assert_eq!(Lang::from_header(Some("fr,en")).0.nav_login, "Iniciar Sesión");
    assert_eq!(Lang::from_header(None).0.nav_docs, "Documentación");
    assert_eq!(Lang::for_lowered("en").0.nav_docs, en().nav_docs);
    assert_eq!(Lang::for_lowered("EN").0.nav_docs, es().nav_docs);
    assert_eq!(en().idx_title, "Projects");
    assert_eq!(es().land_feat2_title, "🪣 Motor S3 Nativo");
}

#[test]
fn status_of_error_pages() {
    assert_eq!(error_status(404), 404);
    assert_eq!(error_status(999), 999);
    assert_eq!(error_status(100), 100);
    assert_eq!(error_status(99), 500);
    assert_eq!(error_status(1000), 500);
    let e = PageError::NoProject("x".to_string());
    let (status, page) = error_page(e.code(), e.message(), None, "PaaS".to_string(), en(), "1");
    assert_eq!((status, page.code), (404, 404));
    assert_eq!(page.message, "Project 'x' not found");
    let (status, page) = error_page(7, "odd".to_string(), None, "PaaS".to_string(), en(), "1");
    assert_eq!((status, page.code), (500, 7));
}

#[test]
fn landing_sends_users_on() {
    assert_eq!(landing(Some(&ana())), Some("/dashboard"));
    assert_eq!(landing(None), None);
}

#[test]
fn index_lists_projects() {
    let p = Project::new("blog", "blog", 8100, "u");
    let page = index(Ok(vec![p]), ana(), "PaaS".to_string(), es(), "1").unwrap();
    assert_eq!(page.projects.len(), 1);
    assert_eq!(page.user.unwrap().id, "u1");
    let (status, page) =
        index(Err("locked".to_string()), ana(), "PaaS".to_string(), es(), "1").unwrap_err();
    assert_eq!(status, 500);
    assert_eq!(page.message, "Failed to load projects: locked");
}

#[test]
fn projects_or_errors() {
    let p = Project::new("blog", "blog", 8100, "u");
    assert_eq!(project_or_error(Ok(Some(p)), "x").unwrap().name, "blog");
    let e = project_or_error(Ok(None), "x").unwrap_err();
    assert_eq!((e.code(), e.message()), (404, "Project 'x' not found".to_string()));
    assert_eq!(logs_error(e), (404, "Project not found".to_string()));
    let e = project_or_error(Err("locked".to_string()), "x").unwrap_err();
    assert_eq!((e.code(), e.message()), (500, "DB error: locked".to_string()));
    assert_eq!(logs_error(e), (500, "locked".to_string()));
}

#[test]
fn page_of_a_project() {
    let buckets = vec![Bucket::new("one", "p"), Bucket::new("two", "p")];
    assert_eq!(shown_bucket(&buckets).unwrap().name, "one");
    assert!(shown_bucket(&vec![]).is_none());
    let p = Project::new("blog", "blog", 8100, "u");
    let id = p.id.clone();
    let page = project_detail(
        p,
        buckets,
        vec![],
        "shh".to_string(),
        vec!["line".to_string()],
        ana(),
        "PaaS".to_string(),
        es(),
        "1",
    );
    assert_eq!(page.s3_port, 18_100);
    assert_eq!(page.s3_access_key, id);
    assert_eq!(page.s3_secret_key, "shh");
    assert_eq!(page.log_lines, vec!["line"]);
}

#[test]
fn logs_as_one_text() {
    let lines = vec!["a".to_string(), "b".to_string()];
    assert_eq!(project_logs(&lines), "a\nb");
}

#[test]
fn choosing_a_language() {
    let q = LangQuery { lang: "en".to_string(), next: Some("/docs".to_string()) };
    assert_eq!(set_lang(q), ("en".to_string(), "/docs".to_string()));
    let q = LangQuery { lang: "es".to_string(), next: None };
    assert_eq!(set_lang(q), ("es".to_string(), "/".to_string()));
}
