use ygege::rest::torrent::try_extract_token_from_json;
use ygege::rest::torrent::readable_reply;
use ygege::flaresolverr::{FlareSolverrCookie, FlareSolverrSolution};
use ygege::rest::client_extractor::MaybeCustomClient;
use ygege::rest::torrent::{
    build_cookie_header, download_url, extract_token_from_json, host_of, require_configured,
    solution_bytes, token_form, token_from_solution, token_url, torrent_answer, torrent_id,
    wait_seconds, TorrentAction, TorrentEvent, TorrentFlow, TorrentStage,
};
use ygege::rest::ReplyBody;

fn cookie(name: &str, domain: &str) -> FlareSolverrCookie {
    FlareSolverrCookie { name: name.into(), value: "v".into(), domain: domain.into(), path: "/".into() }
}

fn solution(response: &str) -> FlareSolverrSolution {
    FlareSolverrSolution {
        url: "https://www.yggtorrent.top/engine/start_download_timer".into(),
        status: 200,
        cookies: vec![cookie("a", ".yggtorrent.top"), cookie("b", "other.org"), cookie("c", "www.yggtorrent.top")],
        user_agent: "UA".into(),
        response: response.into(),
    }
}

#[test]
fn ids_urls_and_waits() {
    assert_eq!(torrent_id("1234"), Ok(1234));
    assert_eq!(torrent_id("99999999999999999999999").unwrap_err(), "number too large to fit in target type");
    assert_eq!(token_url("ygg.example"), "https://ygg.example/engine/start_download_timer");
    assert_eq!(token_form(42), "torrent_id=42");
    assert_eq!(download_url("ygg.example", 42, "tok"), "https://ygg.example/engine/download_torrent?id=42&token=tok");
    assert_eq!(wait_seconds(Some(true)), 5);
    assert_eq!(wait_seconds(Some(false)), 35);
    assert_eq!(wait_seconds(None), 35);
    assert_eq!(require_configured(false).unwrap_err(), "FlareSolverr not configured");
}

#[test]
fn token_extraction() {
    assert_eq!(extract_token_from_json("{\"token\":\"abc\"}"), Ok("abc".to_string()));
    assert_eq!(
        extract_token_from_json("<html><body><pre>{\"token\": \"xyz\", \"n\": 1}</pre></body></html>"),
        Ok("xyz".to_string())
    );
    assert_eq!(
        extract_token_from_json("{\"other\":1}").unwrap_err(),
        "Token not found in start_download_timer response"
    );
    let err = extract_token_from_json("no json here").unwrap_err();
    assert!(err.starts_with("Failed to parse token JSON: "), "{}", err);
    assert!(err.ends_with(" (raw: \"no json here\")"), "{}", err);
    let expected = serde_json::from_str::<serde_json::Value>("no json here").unwrap_err().to_string();
    assert_eq!(err, format!("Failed to parse token JSON: {} (raw: {:?})", expected, "no json here"));
}

#[test]
fn cookie_header_keeps_tracker_cookies() {
    let cookies = vec![cookie("a", ".yggtorrent.top"), cookie("b", "other.org"), cookie("c", "www.yggtorrent.top")];
    assert_eq!(build_cookie_header(&cookies, "www.yggtorrent.top"), "a=v; c=v");
    assert_eq!(build_cookie_header(&cookies, "nowhere"), "");
    assert_eq!(host_of("https://www.yggtorrent.top/engine/x"), "www.yggtorrent.top");
    assert_eq!(host_of("www.yggtorrent.top"), "www.yggtorrent.top");
    let g = token_from_solution("https://www.yggtorrent.top/engine/start_download_timer", solution("{\"token\":\"t1\"}")).ok().unwrap();
    assert_eq!((g.token.as_str(), g.cookie_header.as_str(), g.user_agent.as_str()), ("t1", "a=v; c=v", "UA"));
    assert_eq!(solution_bytes(&solution("d8:")), b"d8:".to_vec());
}

#[test]
fn answers_to_downloads() {
    let client = MaybeCustomClient::from_cookie_param(Some("k=v".into()));
    let r = torrent_answer(7, b"d4:infoe".to_vec(), client).ok().unwrap();
    assert_eq!(r.status, 200);
    assert_eq!(r.content_type.as_deref(), Some("application/x-bittorrent"));
    assert_eq!(r.headers[0], ("Content-Disposition".to_string(), "attachment; filename=\"7.torrent\"".to_string()));
    assert_eq!(r.headers[1], ("X-Session-Cookies".to_string(), "k=v".to_string()));
    assert!(matches!(r.body, ReplyBody::Binary(ref b) if b == b"d4:infoe"));
    assert_eq!(
        torrent_answer(7, vec![], MaybeCustomClient::from_cookie_param(None)).err().unwrap(),
        "Downloaded torrent file is empty"
    );
    assert_eq!(
        torrent_answer(7, b"<html>".to_vec(), MaybeCustomClient::from_cookie_param(None)).err().unwrap(),
        "Downloaded content is not a valid torrent file"
    );
}

#[test]
fn torrent_flow_runs() {
    let (f, a) = TorrentFlow::start(42, "www.yggtorrent.top".into(), Some(true), MaybeCustomClient::from_cookie_param(None));
    match &a {
        TorrentAction::RequestToken { url, form } => {
            assert_eq!(url, "https://www.yggtorrent.top/engine/start_download_timer");
            assert_eq!(form, "torrent_id=42");
        }
        other => panic!("{:?}", other),
    }
    let (f, a) = f.step(TorrentEvent::TokenReply(Ok(solution("<pre>{\"token\":\"T\"}</pre>"))));
    assert!(matches!(a, TorrentAction::Wait { seconds: 5 }));
    let (f, a) = f.step(TorrentEvent::Waited);
    assert!(matches!(a, TorrentAction::Download { ref url } if url == "https://www.yggtorrent.top/engine/download_torrent?id=42&token=T"));
    let (f, a) = f.step(TorrentEvent::File(Ok(b"d3:fooe".to_vec())));
    assert!(matches!(f.stage, TorrentStage::Done));
    assert!(matches!(a, TorrentAction::Reply(_)));

    let (f, _) = TorrentFlow::start(1, "d".into(), None, MaybeCustomClient::from_cookie_param(None));
    let (_, a) = f.step(TorrentEvent::TokenReply(Err("HTTP 500".into())));
    assert!(matches!(a, TorrentAction::Fail(ref m) if m == "HTTP 500"));
}

#[test]
fn own_domain_header_matches_login_cookie_string() {
    let cookies = vec![cookie("a", ".yggtorrent.top"), cookie("c", "yggtorrent.top")];
    assert_eq!(
        build_cookie_header(&cookies, "www.yggtorrent.top"),
        ygege::flaresolverr::cookie_string(&cookies)
    );
}

#[test]
fn preview_boundary_matters_only_on_parse_errors() {
    let parsed = format!("{{\"token\":\"t\"}}{}", "é".repeat(100));
    assert!(!parsed.is_char_boundary(200));
    assert!(readable_reply(&parsed));
    assert_eq!(extract_token_from_json(&parsed), Ok("t".to_string()));
    let broken = format!("x{}", "é".repeat(150));
    assert!(!broken.is_char_boundary(200));
    assert!(!readable_reply(&broken));
    assert!(!readable_reply("a}b{c"));
    assert!(readable_reply("}{"));
}

#[test]
fn checked_token_steps() {
    let broken = format!("x{}", "é".repeat(150));
    assert_eq!(try_extract_token_from_json(&broken), None);
    assert_eq!(try_extract_token_from_json("a}b{c"), None);
    assert_eq!(try_extract_token_from_json("{\"token\":\"q\"}"), Some(Ok("q".to_string())));
    let (f, _) = TorrentFlow::start(3, "d".into(), None, MaybeCustomClient::from_cookie_param(None));
    assert!(f.try_step(TorrentEvent::TokenReply(Ok(solution(&broken)))).is_none());
    let (f, _) = TorrentFlow::start(3, "d".into(), None, MaybeCustomClient::from_cookie_param(None));
    let (_, a) = f.try_step(TorrentEvent::TokenReply(Ok(solution("{\"token\":\"q\"}")))).unwrap();
    assert!(matches!(a, TorrentAction::Wait { seconds: 35 }));
}
