use ygege::flaresolverr::registration_result;
use ygege::flaresolverr::DirectRequest;
use ygege::flaresolverr::{
    check_solver_status, cookie_string, direct_fetch_decision, extract_solution, page_command,
    post_command, require_solver, session_from_response, DirectDecision, DirectOutcome,
    FlareSolverrClient, FlareSolverrCookie, FlareSolverrResponse, FlareSolverrSolution,
    SessionAction, SessionEvent, SessionFlow, SessionStore, SolverCommand, YggFetch,
    YggFetchAction, YggFetchEvent, YggFetchStage, SOLVE_TIMEOUT_MS,
};

fn cookie(name: &str, value: &str, domain: &str) -> FlareSolverrCookie {
    FlareSolverrCookie {
        name: name.to_string(),
        value: value.to_string(),
        domain: domain.to_string(),
        path: "/".to_string(),
    }
}

fn solution(response: &str) -> FlareSolverrSolution {
    FlareSolverrSolution {
        url: "https://www.yggtorrent.top/".to_string(),
        status: 200,
        cookies: vec![cookie("cf_clearance", "abc", ".yggtorrent.top")],
        user_agent: "Mozilla/5.0".to_string(),
        response: response.to_string(),
    }
}

fn reply(status: &str, solution: Option<FlareSolverrSolution>, message: Option<&str>) -> FlareSolverrResponse {
    FlareSolverrResponse {
        status: status.to_string(),
        solution,
        message: message.map(|m| m.to_string()),
        session: None,
    }
}

#[test]
fn extract_solution_cases() {
    let ok = extract_solution(reply("ok", Some(solution("<html>")), None)).unwrap();
    assert_eq!(ok.response, "<html>");
    assert_eq!(
        extract_solution(reply("error", None, Some("Timeout"))).unwrap_err(),
        "FlareSolverr error: Timeout"
    );
    assert_eq!(
        extract_solution(reply("error", Some(solution("x")), None)).unwrap_err(),
        "FlareSolverr error: Unknown error"
    );
    assert_eq!(
        extract_solution(reply("ok", None, None)).unwrap_err(),
        "FlareSolverr returned no solution"
    );
}

#[test]
fn solver_status_and_session() {
    assert_eq!(check_solver_status(200, "200 OK", false), Ok(()));
    assert_eq!(check_solver_status(299, "299", true), Ok(()));
    assert_eq!(
        check_solver_status(500, "500 Internal Server Error", false),
        Err("FlareSolverr returned HTTP 500 Internal Server Error".to_string())
    );
    assert_eq!(
        check_solver_status(404, "404 Not Found", true),
        Err("FlareSolverr POST returned HTTP 404 Not Found".to_string())
    );
    let mut r = reply("ok", None, None);
    assert_eq!(
        session_from_response(r).unwrap_err(),
        "FlareSolverr did not return a session ID"
    );
    r = reply("ok", None, None);
    r.session = Some("abc-123".to_string());
    assert_eq!(session_from_response(r), Ok("abc-123".to_string()));
    assert_eq!(
        require_solver(false).unwrap_err(),
        "FlareSolverr not configured (set FLARESOLVERR_URL)"
    );
    assert_eq!(require_solver(true), Ok(()));
}

#[test]
fn client_url_and_commands() {
    let c = FlareSolverrClient::new("http://flaresolverr:8191//");
    assert_eq!(c.base_url(), "http://flaresolverr:8191");
    assert_eq!(c.endpoint(), "http://flaresolverr:8191/v1");
    assert_eq!(SolverCommand::CreateSession.name(), "sessions.create");
    match page_command("https://t/x", "s1") {
        SolverCommand::Get { url, max_timeout, session } => {
            assert_eq!((url, max_timeout, session), ("https://t/x", SOLVE_TIMEOUT_MS, Some("s1")));
        }
        other => panic!("unexpected {:?}", other),
    }
    let post = post_command("https://t/p", "a=1", "s2");
    assert_eq!(post.name(), "request.post");
    match post {
        SolverCommand::Post { post_data, session, cookies, max_timeout, .. } => {
            assert_eq!(post_data, "a=1");
            assert_eq!(session, Some("s2"));
            assert!(cookies.is_none());
            assert_eq!(max_timeout, 60000);
        }
        other => panic!("unexpected {:?}", other),
    }
}

#[test]
fn session_store_reads_back() {
    let mut s = SessionStore::new();
    assert_eq!(s.get_session_id(), None);
    assert_eq!(s.get_user_agent(), None);
    s.set_session_id("one".to_string());
    s.set_user_agent("UA".to_string());
    s.set_session_id("two".to_string());
    assert_eq!(s.get_session_id().as_deref(), Some("two"));
    assert_eq!(s.get_user_agent().as_deref(), Some("UA"));
}

#[test]
fn session_flow_reuses_or_creates() {
    let (f, a) = SessionFlow::start();
    assert!(matches!(a, SessionAction::LookUpSession));
    let (f, a) = f.step(SessionEvent::Looked(Some("existing".to_string())));
    assert!(matches!(a, SessionAction::RunWithin { ref session } if session == "existing"));
    let (f, a) = f.step(SessionEvent::Solved(Ok(solution("page"))));
    assert!(matches!(f, SessionFlow::Finished));
    assert!(matches!(a, SessionAction::Finish(Ok(ref s)) if s.response == "page"));

    let (f, _) = SessionFlow::start();
    let (f, a) = f.step(SessionEvent::Looked(None));
    assert!(matches!(a, SessionAction::CreateSession));
    let (f2, a) = f.step(SessionEvent::Created(Err("refused".to_string())));
    assert!(matches!(f2, SessionFlow::Finished));
    assert!(matches!(a, SessionAction::Finish(Err(ref e)) if e == "refused"));
}

#[test]
fn direct_decisions() {
    let resp = |code: u16, text: &str| DirectOutcome::Responded { code, status_text: text.to_string() };
    assert!(matches!(direct_fetch_decision(&resp(200, "200 OK"), "u", false), DirectDecision::ReadBody));
    for code in [302u16, 307, 403, 503] {
        assert!(matches!(direct_fetch_decision(&resp(code, "x"), "u", true), DirectDecision::UseSolver));
    }
    match direct_fetch_decision(&resp(403, "403 Forbidden"), "u", false) {
        DirectDecision::Fail(m) => assert_eq!(m, "CF blocked (HTTP 403 Forbidden) and FlareSolverr not configured"),
        other => panic!("{:?}", other),
    }
    match direct_fetch_decision(&resp(404, "404 Not Found"), "https://t/a", true) {
        DirectDecision::Fail(m) => assert_eq!(m, "HTTP error 404 Not Found for https://t/a"),
        other => panic!("{:?}", other),
    }
    let failed = DirectOutcome::Failed { error: "timed out".to_string() };
    assert!(matches!(direct_fetch_decision(&failed, "u", true), DirectDecision::UseSolver));
    match direct_fetch_decision(&failed, "u", false) {
        DirectDecision::Fail(m) => assert_eq!(m, "Request failed and FlareSolverr not configured: timed out"),
        other => panic!("{:?}", other),
    }
}

#[test]
fn ygg_fetch_direct_success_and_fallback() {
    let (f, a) = YggFetch::start("https://t/page".to_string(), None, true);
    assert!(matches!(a, YggFetchAction::SendDirect));
    let (f, a) = f.step(YggFetchEvent::Direct(DirectOutcome::Responded { code: 200, status_text: "200 OK".into() }));
    assert!(matches!(a, YggFetchAction::ReadBody));
    let (_, a) = f.step(YggFetchEvent::Body(Err("eof".into())));
    assert!(matches!(a, YggFetchAction::Finish(Err(ref m)) if m == "Failed to read response body: eof"));

    let (f, _) = YggFetch::start("https://t/page".to_string(), Some("a=1".into()), true);
    let (f, a) = f.step(YggFetchEvent::Direct(DirectOutcome::Responded { code: 503, status_text: "503".into() }));
    assert!(matches!(a, YggFetchAction::Solver(SessionAction::LookUpSession)));
    let (f, a) = f.step(YggFetchEvent::Solver(SessionEvent::Looked(None)));
    assert!(matches!(a, YggFetchAction::Solver(SessionAction::CreateSession)));
    let (f, a) = f.step(YggFetchEvent::Solver(SessionEvent::Created(Ok("s9".into()))));
    assert!(matches!(a, YggFetchAction::Solver(SessionAction::RunWithin { ref session }) if session == "s9"));
    let (f, a) = f.step(YggFetchEvent::Solver(SessionEvent::Solved(Ok(solution("solved page")))));
    assert!(matches!(f.stage, YggFetchStage::Done));
    assert!(matches!(a, YggFetchAction::Finish(Ok(ref t)) if t == "solved page"));
}

#[test]
fn cookie_string_joins_pairs() {
    let cs = vec![cookie("a", "1", "x"), cookie("b", "2", "y")];
    assert_eq!(cookie_string(&cs), "a=1; b=2");
    assert_eq!(cookie_string(&vec![]), "");
}

#[test]
fn fallback_command_and_direct_request() {
    let (post, _) = YggFetch::start("https://t/p".to_string(), Some("a=1".into()), true);
    match post.solver_command("s1") {
        SolverCommand::Post { url, post_data, max_timeout, session, cookies } => {
            assert_eq!((url, post_data, max_timeout, session), ("https://t/p", "a=1", 60000, Some("s1")));
            assert!(cookies.is_none());
        }
        other => panic!("{:?}", other),
    }
    match post.direct_request() {
        DirectRequest::Post { url, body, content_type } => {
            assert_eq!((url, body, content_type), ("https://t/p", "a=1", "application/x-www-form-urlencoded; charset=UTF-8"));
        }
        other => panic!("{:?}", other),
    }
    let (get, _) = YggFetch::start("https://t/g".to_string(), None, true);
    assert!(matches!(get.solver_command("s2"), SolverCommand::Get { url: "https://t/g", max_timeout: 60000, session: Some("s2") }));
    assert!(matches!(get.direct_request(), DirectRequest::Get { url: "https://t/g" }));
}

#[test]
fn created_session_becomes_shared() {
    let mut store = SessionStore::new();
    let mut r = reply("ok", None, None);
    assert!(store.adopt_created(r).is_err());
    assert_eq!(store.get_session_id(), None);
    r = reply("ok", None, None);
    r.session = Some("fresh".into());
    assert_eq!(store.adopt_created(r), Ok("fresh".to_string()));
    let (f, _) = SessionFlow::start();
    let (_, a) = f.step(SessionEvent::Looked(store.get_session_id()));
    assert!(matches!(a, SessionAction::RunWithin { ref session } if session == "fresh"));
    assert_eq!(registration_result(true), Ok(()));
    assert_eq!(registration_result(false), Err("FlareSolverr already initialized".to_string()));
}
