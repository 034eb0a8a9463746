use ygege::auth::{login, session_file_path, LoginAction, LoginEvent, LoginFlow, LoginRequest, LoginStage};
use ygege::flaresolverr::{FlareSolverrCookie, FlareSolverrSolution};

fn request(use_sessions: bool) -> LoginRequest {
    LoginRequest {
        username: "alice".to_string(),
        password: "p&ss word".to_string(),
        use_sessions,
        domain: "www.yggtorrent.top".to_string(),
        login_page: "/auth/login".to_string(),
        login_process_page: "/auth/process_login".to_string(),
    }
}

fn posted() -> FlareSolverrSolution {
    FlareSolverrSolution {
        url: "https://www.yggtorrent.top/".to_string(),
        status: 200,
        cookies: vec![
            FlareSolverrCookie { name: "ygg_".into(), value: "v1".into(), domain: ".yggtorrent.top".into(), path: "/".into() },
            FlareSolverrCookie { name: "cf_clearance".into(), value: "v2".into(), domain: ".yggtorrent.top".into(), path: "/".into() },
        ],
        user_agent: "Mozilla/5.0 (X11)".to_string(),
        response: "ok".to_string(),
    }
}

#[test]
fn plain_login_is_refused() {
    assert_eq!(
        login("u", "p", false).unwrap_err(),
        "Use login_with_flaresolverr and provide FLARESOLVERR_URL in config"
    );
}

#[test]
fn login_runs_through_all_steps() {
    let (f, a) = LoginFlow::start(request(true), Some("http://fs:8191".to_string()), false);
    assert!(matches!(a, LoginAction::CheckLeakedIp));
    let (f, a) = f.step(LoginEvent::LeakChecked(Ok(())));
    assert!(matches!(a, LoginAction::BuildClient { ref url } if url == "http://fs:8191"));
    let (f, a) = f.step(LoginEvent::ClientBuilt(Ok(())));
    assert!(matches!(a, LoginAction::CreateSession));
    let (f, a) = f.step(LoginEvent::SessionCreated(Ok("sess-1".to_string())));
    match &a {
        LoginAction::LoadLoginPage { url, session } => {
            assert_eq!(url, "https://www.yggtorrent.top/auth/login");
            assert_eq!(session, "sess-1");
        }
        other => panic!("{:?}", other),
    }
    let (f, a) = f.step(LoginEvent::LoginPageLoaded(Ok(())));
    match &a {
        LoginAction::PostCredentials { url, form, session } => {
            assert_eq!(url, "https://www.yggtorrent.top/auth/process_login");
            assert_eq!(form, "id=alice&pass=p%26ss%20word");
            assert_eq!(session, "sess-1");
        }
        other => panic!("{:?}", other),
    }
    let (f, a) = f.step(LoginEvent::Posted(Ok(posted())));
    match &a {
        LoginAction::Conclude { user_agent, cookie_file } => {
            assert_eq!(user_agent, "Mozilla/5.0 (X11)");
            let file = cookie_file.as_ref().unwrap();
            assert_eq!(file.path, "sessions/alice.cookies");
            assert_eq!(file.contents, "ygg_=v1; cf_clearance=v2");
        }
        other => panic!("{:?}", other),
    }
    let (f, a) = f.step(LoginEvent::Concluded(Ok(())));
    assert!(matches!(f.stage, LoginStage::Done));
    assert!(matches!(a, LoginAction::Finish(Ok(()))));
}

#[test]
fn login_failures() {
    let (f, _) = LoginFlow::start(request(false), None, false);
    let (f, a) = f.step(LoginEvent::LeakChecked(Ok(())));
    assert!(matches!(f.stage, LoginStage::Done));
    assert!(matches!(a, LoginAction::Finish(Err(ref m))
        if m == "FLARESOLVERR_URL is not set; FlareSolverr is required after removing wreq"));

    let (f, _) = LoginFlow::start(request(false), None, true);
    let (f, a) = f.step(LoginEvent::LeakChecked(Ok(())));
    assert!(matches!(a, LoginAction::CreateSession));
    let (_, a) = f.step(LoginEvent::SessionCreated(Err("busy".into())));
    assert!(matches!(a, LoginAction::Finish(Err(ref m)) if m == "Failed to create FlareSolverr session: busy"));

    let (f, _) = LoginFlow::start(request(false), Some("u".into()), true);
    let (f, _) = f.step(LoginEvent::LeakChecked(Ok(())));
    let (_, a) = f.step(LoginEvent::ClientBuilt(Err("bad url".into())));
    assert!(matches!(a, LoginAction::Finish(Err(ref m)) if m == "Failed to create FlareSolverr client: bad url"));

    let (f, _) = LoginFlow::start(request(false), None, true);
    let (_, a) = f.step(LoginEvent::LeakChecked(Err("no ip".into())));
    assert!(matches!(a, LoginAction::Finish(Err(ref m)) if m == "no ip"));

    let (f, _) = LoginFlow::start(request(false), None, true);
    let (f, _) = f.step(LoginEvent::LeakChecked(Ok(())));
    let (f, _) = f.step(LoginEvent::SessionCreated(Ok("s".into())));
    let (_, a) = f.step(LoginEvent::LoginPageLoaded(Err("timeout".into())));
    assert!(matches!(a, LoginAction::Finish(Err(ref m)) if m == "FlareSolverr GET login page failed: timeout"));

    let (f, _) = LoginFlow::start(request(false), None, true);
    let (f, _) = f.step(LoginEvent::LeakChecked(Ok(())));
    let (f, _) = f.step(LoginEvent::SessionCreated(Ok("s".into())));
    let (f, _) = f.step(LoginEvent::LoginPageLoaded(Ok(())));
    let (_, a) = f.step(LoginEvent::Posted(Err("500".into())));
    assert!(matches!(a, LoginAction::Finish(Err(ref m)) if m == "FlareSolverr POST login failed: 500"));
}

#[test]
fn login_without_sessions_keeps_no_file() {
    let (f, _) = LoginFlow::start(request(false), None, true);
    let (f, _) = f.step(LoginEvent::LeakChecked(Ok(())));
    let (f, _) = f.step(LoginEvent::SessionCreated(Ok("s".into())));
    let (f, _) = f.step(LoginEvent::LoginPageLoaded(Ok(())));
    let (_, a) = f.step(LoginEvent::Posted(Ok(posted())));
    assert!(matches!(a, LoginAction::Conclude { cookie_file: None, .. }));
    assert_eq!(session_file_path("bob"), "sessions/bob.cookies");
}
