use ygege::rest::auth::{auth_reply, check_credentials, credentials_from_query};
use ygege::rest::client_extractor::MaybeCustomClient;
use ygege::rest::remain::remain_reply;
use ygege::rest::user::{RenewalConfig, UserInfoAction, UserInfoEvent, UserInfoFlow, UserInfoStage};
use ygege::rest::{HttpReply, ReplyBody};

fn text(r: &HttpReply) -> &str {
    match &r.body {
        ReplyBody::Text(t) => t.as_str(),
        other => panic!("{:?}", other),
    }
}

#[test]
fn credentials_from_query_string() {
    let c = credentials_from_query("user=al%20ice&pass=s3cr%26t").ok().unwrap();
    assert_eq!(c.user, "al ice");
    assert_eq!(c.pass, "s3cr&t");
    let e = credentials_from_query("pass=x").err().unwrap();
    assert_eq!((e.status, text(&e)), (400, "Missing 'user' parameter"));
    let e = credentials_from_query("?user=bob").err().unwrap();
    assert_eq!((e.status, text(&e)), (400, "Missing 'pass' parameter"));
    assert!(e.headers.is_empty() && e.content_type.is_none());
    let c = credentials_from_query("user=a&user=b&pass").ok().unwrap();
    assert_eq!((c.user.as_str(), c.pass.as_str()), ("a", ""));
    assert!(check_credentials(Some("u".into()), Some("p".into())).is_ok());
}

#[test]
fn auth_replies() {
    let r = auth_reply(Err("denied".into()), None);
    assert_eq!((r.status, text(&r)), (401, "Login failed: denied"));
    let r = auth_reply(Ok(()), None);
    assert_eq!((r.status, text(&r)), (200, "Login successful"));
    let r = auth_reply(Ok(()), Some("a=1; b=2".into()));
    assert_eq!((r.status, text(&r)), (200, "a=1; b=2"));
    assert_eq!(r.headers, vec![("X-Session-Cookies".to_string(), "a=1; b=2".to_string())]);
}

#[test]
fn client_from_cookie_param() {
    let c = MaybeCustomClient::from_cookie_param(Some("k=v".into()));
    assert!(c.is_custom);
    assert_eq!(c.cookies_header.as_deref(), Some("k=v"));
    let c = MaybeCustomClient::from_cookie_param(None);
    assert!(!c.is_custom && c.cookies_header.is_none());
}

#[test]
fn remaining_downloads_replies() {
    let r = remain_reply(Ok(12), MaybeCustomClient::from_cookie_param(Some("k=v".into())));
    assert_eq!((r.status, text(&r)), (200, "12"));
    assert_eq!(r.headers, vec![("X-Session-Cookies".to_string(), "k=v".to_string())]);
    let r = remain_reply(Err("boom".into()), MaybeCustomClient::from_cookie_param(None));
    assert_eq!((r.status, text(&r)), (200, "-1"));
    assert!(r.headers.is_empty());
    let r = remain_reply(Err("Error: Session expired".into()), MaybeCustomClient::from_cookie_param(Some("k".into())));
    assert_eq!((r.status, text(&r)), (401, "Session expired"));
    assert!(r.headers.is_empty());
    let r = remain_reply(Ok(4294967295), MaybeCustomClient::from_cookie_param(None));
    assert_eq!(text(&r), "-1");
}

fn renewal() -> RenewalConfig {
    RenewalConfig { username: "me".into(), password: "pw".into(), solver_url: Some("http://fs:8191".into()) }
}

#[test]
fn user_info_renews_once() {
    let (f, a) = UserInfoFlow::start(MaybeCustomClient::from_cookie_param(None), renewal());
    assert!(matches!(a, UserInfoAction::FetchAccount));
    let (f, a) = f.step(UserInfoEvent::Account(Err("Session expired".into())));
    match &a {
        UserInfoAction::RenewSession { username, password, use_sessions, solver_url } => {
            assert_eq!((username.as_str(), password.as_str(), *use_sessions), ("me", "pw", true));
            assert_eq!(solver_url.as_deref(), Some("http://fs:8191"));
        }
        other => panic!("{:?}", other),
    }
    let (f, a) = f.step(UserInfoEvent::Renewed(Ok(())));
    assert!(matches!(a, UserInfoAction::FetchAccount));
    let (f, a) = f.step(UserInfoEvent::Account(Err("Session expired".into())));
    assert!(matches!(f.stage, UserInfoStage::Done));
    assert!(matches!(a, UserInfoAction::Fail(ref m) if m == "Session expired"));

    let (f, _) = UserInfoFlow::start(MaybeCustomClient::from_cookie_param(Some("c=1".into())), renewal());
    let (_, a) = f.step(UserInfoEvent::Account(Err("Session expired".into())));
    assert!(matches!(a, UserInfoAction::Fail(_)));

    let (f, _) = UserInfoFlow::start(MaybeCustomClient::from_cookie_param(Some("c=1".into())), renewal());
    let (_, a) = f.step(UserInfoEvent::Account(Ok("{\"id\":1}".into())));
    match a {
        UserInfoAction::Reply(r) => {
            assert_eq!(r.status, 200);
            assert!(matches!(r.body, ReplyBody::Json(ref j) if j == "{\"id\":1}"));
            assert_eq!(r.headers, vec![("X-Session-Cookies".to_string(), "c=1".to_string())]);
        }
        other => panic!("{:?}", other),
    }
}
