//! The `/torrent/{id}` endpoint: asks the tracker for a download token, waits, downloads
//! the signed torrent file and hands it back.

use vstd::prelude::*;
use vstd::string::*;
use vstd::utf8::{decode_utf8, encode_utf8, is_char_boundary};
use crate::flaresolverr::{cookie_pair, join_cookie_pairs, FlareSolverrCookie, FlareSolverrSolution};
use crate::rest::client_extractor::MaybeCustomClient;
use crate::rest::{cookie_headers, HttpReply, ReplyBody};
use crate::text::{
    chars_of, concat2, concat3, contains_seq, contains_str, decimal, first_index_in,
    int_error_message, last_index_in, last_index_of, parse_usize, parse_usize_spec, span_until,
    string_from_range, trim_start_char, trim_start_char_spec, trim_start_str,
    trim_start_str_spec, u64_to_decimal,
};

verus! {

/// The torrent id of a request path, read as `usize::from_str` reads it.
pub fn torrent_id(path_id: &str) -> (r: Result<usize, String>)
    ensures
        match parse_usize_spec(path_id@) {
            Ok(v) => r == Ok::<usize, String>(v as usize),
            Err(k) => (r matches Err(m) && m@ == int_error_message(k)),
        },
{
    match parse_usize(path_id) {
        Ok(v) => Ok(v),
        Err(k) => Err(k.message()),
    }
}

/// The URL that starts the download timer of the tracker at `domain`.
pub fn token_url(domain: &str) -> (u: String)
    ensures
        u@ == "https://"@ + domain@ + "/engine/start_download_timer"@,
{
    concat3("https://", domain, "/engine/start_download_timer")
}

/// The form that asks for the download token of torrent `id`.
pub fn token_form(id: usize) -> (f: String)
    ensures
        f@ == "torrent_id="@ + decimal(id as nat),
{
    let digits = u64_to_decimal(id as u64);
    concat2("torrent_id=", digits.as_str())
}

/// How long to wait, in seconds, between the token and the download: five with the turbo
/// option, thirty-five otherwise.
pub fn wait_seconds(turbo_enabled: Option<bool>) -> (s: u64)
    ensures
        s == (if turbo_enabled == Some(true) {
            5u64
        } else {
            35u64
        }),
{
    match turbo_enabled {
        Some(true) => 5,
        _ => 35,
    }
}

/// The URL of the signed torrent file of torrent `id`.
pub fn download_url(domain: &str, id: usize, token: &str) -> (u: String)
    ensures
        u@ == "https://"@ + domain@ + "/engine/download_torrent?id="@ + decimal(id as nat) + "&token="@
            + token@,
{
    let mut u = concat3("https://", domain, "/engine/download_torrent?id=");
    let digits = u64_to_decimal(id as u64);
    u.append(digits.as_str());
    u.append("&token=");
    u.append(token);
    u
}

/// The message when a download returned nothing.
pub open spec fn empty_torrent_message() -> Seq<char> {
    "Downloaded torrent file is empty"@
}

/// The message when a download is not a bencoded dictionary.
pub open spec fn not_torrent_message() -> Seq<char> {
    "Downloaded content is not a valid torrent file"@
}

/// The `Content-Disposition` of torrent `id`'s file.
pub open spec fn attachment_disposition(id: usize) -> Seq<char> {
    "attachment; filename=\""@ + decimal(id as nat) + ".torrent\""@
}

/// The answer that hands back torrent `id`'s file `bytes`, with `cookies` if any.
pub open spec fn is_torrent_reply(reply: HttpReply, id: usize, bytes: Vec<u8>, cookies: Option<String>) -> bool {
    &&& reply.status == 200
    &&& reply.content_type matches Some(t) && t@ == "application/x-bittorrent"@
    &&& reply.headers@.len() >= 1
    &&& reply.headers@[0].0@ == "Content-Disposition"@
    &&& reply.headers@[0].1@ == attachment_disposition(id)
    &&& reply.body == ReplyBody::Binary(bytes)
    &&& match cookies {
        Some(c) => reply.headers@.len() == 2 && reply.headers@[1].0@ == "X-Session-Cookies"@
            && reply.headers@[1].1@ == c@,
        None => reply.headers@.len() == 1,
    }
}

/// The answer to a download: the bytes must be a torrent file, that is a bencoded
/// dictionary, which starts with `d`; they are handed back as an attachment named after
/// the id, with the caller's cookies.
pub fn torrent_answer(id: usize, bytes: Vec<u8>, client: MaybeCustomClient) -> (r: Result<HttpReply, String>)
    ensures
        bytes@.len() == 0 ==> (r matches Err(m) && m@ == empty_torrent_message()),
        bytes@.len() > 0 && bytes@[0] != 100u8 ==> (r matches Err(m) && m@ == not_torrent_message()),
        bytes@.len() > 0 && bytes@[0] == 100u8 ==> (r matches Ok(reply) && is_torrent_reply(
            reply,
            id,
            bytes,
            client.cookies_header,
        )),
{
    if bytes.len() == 0 {
        return Err(String::from_str("Downloaded torrent file is empty"));
    }
    if bytes[0] != 100u8 {
        return Err(String::from_str("Downloaded content is not a valid torrent file"));
    }
    let digits = u64_to_decimal(id as u64);
    let disposition = concat3("attachment; filename=\"", digits.as_str(), ".torrent\"");
    let mut headers: Vec<(String, String)> = Vec::new();
    headers.push((String::from_str("Content-Disposition"), disposition));
    let extra = cookie_headers(client.cookies_header);
    let mut extra = extra;
    headers.append(&mut extra);
    Ok(
        HttpReply {
            status: 200,
            content_type: Some(String::from_str("application/x-bittorrent")),
            headers,
            body: ReplyBody::Binary(bytes),
        },
    )
}

/// The message of the token and download steps when FlareSolverr is not configured.
pub fn require_configured(available: bool) -> (r: Result<(), String>)
    ensures
        available ==> r is Ok,
        !available ==> (r matches Err(m) && m@ == "FlareSolverr not configured"@),
{
    if available {
        Ok(())
    } else {
        Err(String::from_str("FlareSolverr not configured"))
    }
}

/// The bytes of the page that FlareSolverr loaded: the UTF-8 form of its text.
pub fn solution_bytes(solution: &FlareSolverrSolution) -> (b: Vec<u8>)
    ensures
        b@ == encode_utf8(solution.response@),
{
    solution.response.as_str().as_bytes_vec()
}

/// The host part of a URL that starts with `https://`, as
/// `url.trim_start_matches("https://").splitn(2, '/').next()` gives it.
pub open spec fn url_host(url: Seq<char>) -> Seq<char> {
    let rest = trim_start_str_spec(url, "https://"@);
    rest.take(span_until(rest, '/') as int)
}

/// The host part of a URL.
pub fn host_of(url: &str) -> (h: String)
    ensures
        h@ == url_host(url@),
{
    let rest = trim_start_str(url, "https://");
    let cs = chars_of(rest.as_str());
    let k = first_index_in(&cs, '/');
    assert(cs@.subrange(0, k as int) =~= cs@.take(k as int));
    string_from_range(&cs, 0, k)
}

/// A cookie belongs to `domain` when its domain, without leading dots, occurs in `domain`.
pub open spec fn cookie_for(c: FlareSolverrCookie, domain: Seq<char>) -> bool {
    contains_seq(domain, trim_start_char_spec(c.domain@, '.'))
}

/// The cookie pairs of `cs` that belong to `domain`, in order, separated by `; `.
pub open spec fn cookie_header_spec(cs: Seq<FlareSolverrCookie>, domain: Seq<char>) -> Seq<char>
    decreases cs.len(),
{
    if cs.len() == 0 {
        Seq::empty()
    } else {
        let before = cookie_header_spec(cs.drop_last(), domain);
        if !cookie_for(cs.last(), domain) {
            before
        } else if !has_cookie_for(cs.drop_last(), domain) {
            cookie_pair(cs.last())
        } else {
            before + "; "@ + cookie_pair(cs.last())
        }
    }
}

/// Some cookie of `cs` belongs to `domain`.
pub open spec fn has_cookie_for(cs: Seq<FlareSolverrCookie>, domain: Seq<char>) -> bool {
    exists|i: int| 0 <= i < cs.len() && cookie_for(#[trigger] cs[i], domain)
}

proof fn lemma_no_cookie_empty_header(cs: Seq<FlareSolverrCookie>, domain: Seq<char>)
    requires
        !has_cookie_for(cs, domain),
    ensures
        cookie_header_spec(cs, domain).len() == 0,
    decreases cs.len(),
{
    if cs.len() > 0 {
        let d = cs.drop_last();
        assert(!cookie_for(cs[cs.len() - 1], domain));
        assert(!has_cookie_for(d, domain)) by {
            if has_cookie_for(d, domain) {
                let j = choose|j: int| 0 <= j < d.len() && cookie_for(#[trigger] d[j], domain);
                assert(cs[j] == d[j]);
            }
        }
        lemma_no_cookie_empty_header(d, domain);
    }
}

/// When every cookie belongs to the domain, the domain's `Cookie` header is the one that
/// carries all the cookies, as the login keeps them.
pub proof fn header_of_own_cookies_keeps_all(cs: Seq<FlareSolverrCookie>, domain: Seq<char>)
    requires
        forall|i: int| 0 <= i < cs.len() ==> cookie_for(#[trigger] cs[i], domain),
    ensures
        cookie_header_spec(cs, domain) == join_cookie_pairs(cs),
    decreases cs.len(),
{
    if cs.len() > 0 {
        let d = cs.drop_last();
        assert forall|i: int| 0 <= i < d.len() implies cookie_for(#[trigger] d[i], domain) by {
            assert(d[i] == cs[i]);
        }
        header_of_own_cookies_keeps_all(d, domain);
        assert(cookie_for(cs[cs.len() - 1], domain));
        if d.len() > 0 {
            assert(cookie_for(d[0], domain));
            assert(has_cookie_for(d, domain));
        } else {
            assert(cs =~= seq![cs[0]]);
        }
    }
}

/// The `Cookie` header that carries the cookies of `cookies` that belong to `domain`.
pub fn build_cookie_header(cookies: &Vec<FlareSolverrCookie>, domain: &str) -> (h: String)
    ensures
        h@ == cookie_header_spec(cookies@, domain@),
{
    let mut h = String::new();
    let mut any = false;
    let n = cookies.len();
    for i in 0..n
        invariant
            n == cookies@.len(),
            h@ == cookie_header_spec(cookies@.take(i as int), domain@),
            any == has_cookie_for(cookies@.take(i as int), domain@),
    {
        let ghost before = cookies@.take(i as int);
        proof {
            if !any {
                lemma_no_cookie_empty_header(before, domain@);
            }
        }
        let c = &cookies[i];
        let bare = trim_start_char(c.domain.as_str(), '.');
        let keep = contains_str(domain, bare.as_str());
        assert(cookies@.take(i + 1).drop_last() =~= before);
        assert(cookies@.take(i + 1).last() == cookies@[i as int]);
        if keep {
            if any {
                h.append("; ");
            }
            h.append(c.name.as_str());
            h.append("=");
            h.append(c.value.as_str());
            assert(has_cookie_for(cookies@.take(i + 1), domain@)) by {
                assert(cookies@.take(i + 1)[i as int] == cookies@[i as int]);
            }
        } else {
            assert(has_cookie_for(cookies@.take(i + 1), domain@) == has_cookie_for(before, domain@)) by {
                if has_cookie_for(cookies@.take(i + 1), domain@) {
                    let j = choose|j: int| 0 <= j < i + 1 && cookie_for(#[trigger] cookies@.take(i + 1)[j], domain@);
                    assert(j < i);
                    assert(before[j] == cookies@.take(i + 1)[j]);
                }
                if has_cookie_for(before, domain@) {
                    let j = choose|j: int| 0 <= j < i && cookie_for(#[trigger] before[j], domain@);
                    assert(cookies@.take(i + 1)[j] == before[j]);
                }
            }
        }
        any = any || keep;
    }
    assert(cookies@.take(n as int) =~= cookies@);
    h
}

/// The outcome, as views, of reading a string member of a JSON document: the member's text
/// if it is a string, `None` if there is no such string member, or the parser's error.
pub open spec fn member_view(r: Result<Option<String>, String>) -> Result<Option<Seq<char>>, Seq<char>> {
    match r {
        Ok(Some(s)) => Ok(Some(s@)),
        Ok(None) => Ok(None),
        Err(e) => Err(e@),
    }
}

/// What `serde_json` gives for the string member `key` of the JSON document `text`: a
/// parse error's message, `None` when the document is not an object with a string under
/// `key`, or that string.
pub uninterp spec fn json_string_member(text: Seq<char>, key: Seq<char>) -> Result<Option<Seq<char>>, Seq<char>>;

/// `serde_json::from_str` into a `Value`, then the string under `key`: the outcome is named
/// by `json_string_member` and depends on `text` and `key` alone. The parse error is
/// kept as its message.
#[verifier::external_body]
fn parse_string_member(text: &str, key: &str) -> (r: Result<Option<String>, String>)
    ensures
        member_view(r) == json_string_member(text@, key@),
{
    match serde_json::from_str::<serde_json::Value>(text) {
        Ok(v) => Ok(v.get(key).and_then(|h| h.as_str()).map(|s| s.to_string())),
        Err(e) => Err(e.to_string()),
    }
}

/// How `{:?}` writes a string: quoted, with escapes.
pub uninterp spec fn debug_quoted(s: Seq<char>) -> Seq<char>;

/// `format!("{:?}", s)` on a string slice; its text is named by `debug_quoted` and depends
/// on `s` alone.
#[verifier::external_body]
fn debug_text(s: &str) -> (r: String)
    ensures
        r@ == debug_quoted(s@),
{
    format!("{:?}", s)
}

/// The part of a token reply that holds the JSON: from the first `{` to the last `}` when
/// the reply has both, otherwise the whole reply.
pub open spec fn json_part(raw: Seq<char>) -> Seq<char> {
    let start = span_until(raw, '{');
    let end = last_index_of(raw, '}');
    if start < raw.len() && end >= 0 {
        raw.subrange(start as int, end + 1)
    } else {
        raw
    }
}

/// The first `{` does not stand after the character that follows the last `}`: the
/// condition under which the JSON part of `raw` can be cut out.
pub open spec fn braces_in_order(raw: Seq<char>) -> bool {
    let start = span_until(raw, '{');
    let end = last_index_of(raw, '}');
    start < raw.len() && end >= 0 ==> start <= end + 1
}

/// How many bytes of a reply an error message shows.
pub open spec fn preview_len(raw: Seq<u8>) -> int {
    if raw.len() < 200 {
        raw.len() as int
    } else {
        200
    }
}

/// The message when the token reply is not JSON.
pub open spec fn token_parse_message(error: Seq<char>, raw: Seq<u8>) -> Seq<char> {
    "Failed to parse token JSON: "@ + error + " (raw: "@ + debug_quoted(
        decode_utf8(raw.subrange(0, preview_len(raw))),
    ) + ")"@
}

/// The message when the token reply has no token.
pub open spec fn token_missing_message() -> Seq<char> {
    "Token not found in start_download_timer response"@
}

/// The token, given what reading the `token` member of the reply `raw` gave.
pub fn token_from_member(member: Result<Option<String>, String>, raw: &str) -> (r: Result<String, String>)
    requires
        member is Err ==> is_char_boundary(raw.spec_bytes(), preview_len(raw.spec_bytes())),
    ensures
        match member {
            Ok(Some(t)) => r == Ok::<String, String>(t),
            Ok(None) => (r matches Err(m) && m@ == token_missing_message()),
            Err(e) => (r matches Err(m) && m@ == token_parse_message(e@, raw.spec_bytes())),
        },
{
    broadcast use vstd::utf8::group_utf8_lib;
    match member {
        Ok(Some(t)) => Ok(t),
        Ok(None) => Err(String::from_str("Token not found in start_download_timer response")),
        Err(e) => {
            let n = raw.as_bytes().len();
            let m: usize = if n < 200 {
                n
            } else {
                200
            };
            let (head, _) = raw.split_at(m);
            assert(head@ == decode_utf8(head.spec_bytes()));
            let quoted = debug_text(head);
            let mut msg = concat3("Failed to parse token JSON: ", e.as_str(), " (raw: ");
            msg.append(quoted.as_str());
            msg.append(")");
            Err(msg)
        },
    }
}

/// The text of `raw` from its first `{` to its last `}`, or all of it when it lacks one.
pub fn json_part_of(raw: &str) -> (json: String)
    requires
        braces_in_order(raw@),
    ensures
        json@ == json_part(raw@),
{
    let cs = chars_of(raw);
    let start = first_index_in(&cs, '{');
    assert(cs@.subrange(0, cs@.len() as int) =~= cs@);
    match last_index_in(&cs, '}') {
        Some(end) => {
            if start < cs.len() {
                string_from_range(&cs, start, end + 1)
            } else {
                string_from_range(&cs, 0, cs.len())
            }
        },
        None => string_from_range(&cs, 0, cs.len()),
    }
}

/// Cutting the preview of `raw` out of an error message cannot panic: it is only cut when
/// the JSON part does not parse, and then the preview must end on a character boundary.
pub open spec fn preview_cuttable(raw: Seq<char>) -> bool {
    json_string_member(json_part(raw), "token"@) is Err ==> is_char_boundary(
        encode_utf8(raw),
        preview_len(encode_utf8(raw)),
    )
}

/// Reads the download token out of the tracker's reply `raw`, which FlareSolverr may have
/// wrapped in HTML: the JSON part is parsed and its `token` member taken.
pub fn extract_token_from_json(raw: &str) -> (r: Result<String, String>)
    requires
        braces_in_order(raw@),
        preview_cuttable(raw@),
    ensures
        match json_string_member(json_part(raw@), "token"@) {
            Ok(Some(t)) => (r matches Ok(s) && s@ == t),
            Ok(None) => (r matches Err(m) && m@ == token_missing_message()),
            Err(e) => (r matches Err(m) && m@ == token_parse_message(e, raw.spec_bytes())),
        },
{
    let json = json_part_of(raw);
    let member = parse_string_member(json.as_str(), "token");
    token_from_member(member, raw)
}

/// Reads the download token out of `raw`, or gives `None` when reading it would panic.
pub fn try_extract_token_from_json(raw: &str) -> (r: Option<Result<String, String>>)
    ensures
        r is None <==> !readable_token_reply(raw@),
        r is None <==> !reply_cut_cannot_panic(raw@),
        r matches Some(res) ==> match json_string_member(json_part(raw@), "token"@) {
            Ok(Some(t)) => (res matches Ok(s) && s@ == t),
            Ok(None) => (res matches Err(m) && m@ == token_missing_message()),
            Err(e) => (res matches Err(m) && m@ == token_parse_message(e, raw.spec_bytes())),
        },
{
    if readable_reply(raw) {
        Some(extract_token_from_json(raw))
    } else {
        None
    }
}

/// What the token step gives: the token, the `Cookie` header of the cookies that belong to
/// the tracker, and FlareSolverr's user agent.
#[derive(Debug)]
pub struct TokenGrant {
    pub token: String,
    pub cookie_header: String,
    pub user_agent: String,
}

/// The reply to a token request can be read without a panic.
pub open spec fn readable_token_reply(response: Seq<char>) -> bool {
    &&& braces_in_order(response)
    &&& preview_cuttable(response)
}

/// Reading a token reply panics in exactly two places: when cutting from the first `{` to
/// the last `}` while the last `}` stands more than one character before the first `{`,
/// and, only when that part does not parse, when cutting the first 200 bytes for the error
/// message across a multi-byte character.
pub open spec fn reply_cut_cannot_panic(r: Seq<char>) -> bool {
    let start = span_until(r, '{');
    let end = last_index_of(r, '}');
    let bytes = encode_utf8(r);
    &&& (start < r.len() && end >= 0) ==> start <= end + 1
    &&& json_string_member(json_part(r), "token"@) is Err ==> is_char_boundary(
        bytes,
        if bytes.len() < 200 {
            bytes.len() as int
        } else {
            200
        },
    )
}

/// A token reply is declared readable exactly when reading it cannot panic: in particular
/// plain JSON, and JSON wrapped in HTML whose first `{` precedes its last `}`, are readable
/// whenever their JSON part parses.
pub proof fn readable_exactly_when_no_panic(r: Seq<char>)
    ensures
        readable_token_reply(r) <==> reply_cut_cannot_panic(r),
        (span_until(r, '{') <= last_index_of(r, '}') && json_string_member(json_part(r), "token"@) is Ok)
            ==> readable_token_reply(r),
{
}

/// Whether a token reply can be read without a panic.
pub fn readable_reply(response: &str) -> (b: bool)
    ensures
        b == readable_token_reply(response@),
        b == reply_cut_cannot_panic(response@),
{
    let cs = chars_of(response);
    let start = first_index_in(&cs, '{');
    let in_order = match last_index_in(&cs, '}') {
        Some(end) => start >= cs.len() || start <= end + 1,
        None => true,
    };
    if !in_order {
        return false;
    }
    let json = json_part_of(response);
    match parse_string_member(json.as_str(), "token") {
        Ok(_) => true,
        Err(_) => {
            let n = response.as_bytes().len();
            let m: usize = if n < 200 {
                n
            } else {
                200
            };
            response.is_char_boundary(m)
        },
    }
}

/// Reads the outcome of posting the token form to `url` through FlareSolverr: the token in
/// the reply, with the cookies of the tracker's domain and the browser's user agent.
pub fn token_from_solution(url: &str, solution: FlareSolverrSolution) -> (r: Result<TokenGrant, String>)
    requires
        readable_token_reply(solution.response@),
    ensures
        match json_string_member(json_part(solution.response@), "token"@) {
            Ok(Some(t)) => (r matches Ok(g) && g.token@ == t && g.cookie_header@ == cookie_header_spec(
                solution.cookies@,
                url_host(url@),
            ) && g.user_agent == solution.user_agent),
            Ok(None) => (r matches Err(m) && m@ == token_missing_message()),
            Err(e) => (r matches Err(m) && m@ == token_parse_message(e, encode_utf8(solution.response@))),
        },
{
    let token = extract_token_from_json(solution.response.as_str())?;
    let domain = host_of(url);
    let cookie_header = build_cookie_header(&solution.cookies, domain.as_str());
    Ok(TokenGrant { token, cookie_header, user_agent: solution.user_agent })
}

/// Where a download stands.
#[derive(Debug)]
pub enum TorrentStage {
    /// The download token is being asked for.
    AwaitToken,
    /// The tracker's timer is running; `grant` holds the token.
    AwaitTimer { grant: TokenGrant },
    /// The torrent file is being downloaded.
    AwaitFile,
    /// The download is over.
    Done,
}

/// A download in progress.
#[derive(Debug)]
pub struct TorrentFlow {
    pub id: usize,
    pub domain: String,
    pub turbo_enabled: Option<bool>,
    pub client: MaybeCustomClient,
    pub stage: TorrentStage,
}

/// What the outside world reports back to a download.
#[derive(Debug)]
pub enum TorrentEvent {
    /// The outcome of posting the token form through FlareSolverr.
    TokenReply(Result<FlareSolverrSolution, String>),
    /// The wait is over.
    Waited,
    /// The outcome of downloading the file through FlareSolverr.
    File(Result<Vec<u8>, String>),
}

/// What a download asks the outside world to do next.
#[derive(Debug)]
pub enum TorrentAction {
    /// Post `form` to `url` through FlareSolverr.
    RequestToken { url: String, form: String },
    /// Wait `seconds`.
    Wait { seconds: u64 },
    /// Load `url` through FlareSolverr and take its bytes.
    Download { url: String },
    /// Answer the request.
    Reply(HttpReply),
    /// End the request with an error.
    Fail(String),
}

/// `event` is the kind of report that `stage` waits for, and a token reply can be read.
pub open spec fn torrent_event_fits(stage: TorrentStage, event: TorrentEvent) -> bool {
    match stage {
        TorrentStage::AwaitToken => match event {
            TorrentEvent::TokenReply(Ok(solution)) => readable_token_reply(solution.response@),
            TorrentEvent::TokenReply(Err(_)) => true,
            _ => false,
        },
        TorrentStage::AwaitTimer { .. } => event is Waited,
        TorrentStage::AwaitFile => event is File,
        TorrentStage::Done => false,
    }
}

/// `event` is the kind of report that `stage` waits for, whether or not it can be read.
pub open spec fn torrent_event_kind_fits(stage: TorrentStage, event: TorrentEvent) -> bool {
    match stage {
        TorrentStage::AwaitToken => event is TokenReply,
        TorrentStage::AwaitTimer { .. } => event is Waited,
        TorrentStage::AwaitFile => event is File,
        TorrentStage::Done => false,
    }
}

/// How many more reports a download can take.
pub open spec fn torrent_steps_left(stage: TorrentStage) -> nat {
    match stage {
        TorrentStage::AwaitToken => 3,
        TorrentStage::AwaitTimer { .. } => 2,
        TorrentStage::AwaitFile => 1,
        TorrentStage::Done => 0,
    }
}

/// The download URL for `token` within `flow`.
pub open spec fn file_url(flow: TorrentFlow, token: Seq<char>) -> Seq<char> {
    "https://"@ + flow.domain@ + "/engine/download_torrent?id="@ + decimal(flow.id as nat) + "&token="@
        + token
}

/// One step of a download.
pub open spec fn torrent_step(flow: TorrentFlow, event: TorrentEvent, next: TorrentFlow, action: TorrentAction) -> bool {
    &&& next.id == flow.id
    &&& next.domain == flow.domain
    &&& next.turbo_enabled == flow.turbo_enabled
    &&& match event {
        TorrentEvent::TokenReply(Err(e)) => next.stage is Done && action == TorrentAction::Fail(e),
        TorrentEvent::TokenReply(Ok(solution)) => match json_string_member(
            json_part(solution.response@),
            "token"@,
        ) {
            Ok(Some(t)) => {
                &&& next.stage matches TorrentStage::AwaitTimer { grant } && grant.token@ == t
                    && grant.cookie_header@ == cookie_header_spec(
                    solution.cookies@,
                    url_host("https://"@ + flow.domain@ + "/engine/start_download_timer"@),
                )
                    && grant.user_agent == solution.user_agent
                &&& action == TorrentAction::Wait {
                    seconds: if flow.turbo_enabled == Some(true) {
                        5
                    } else {
                        35
                    },
                }
                &&& next.client == flow.client
            },
            Ok(None) => next.stage is Done && (action matches TorrentAction::Fail(m) && m@
                == token_missing_message()),
            Err(e) => next.stage is Done && (action matches TorrentAction::Fail(m) && m@
                == token_parse_message(e, encode_utf8(solution.response@))),
        },
        TorrentEvent::Waited => {
            &&& next.stage is AwaitFile
            &&& next.client == flow.client
            &&& flow.stage matches TorrentStage::AwaitTimer { grant }
            &&& action matches TorrentAction::Download { url } && url@ == file_url(flow, grant.token@)
        },
        TorrentEvent::File(Err(e)) => next.stage is Done && action == TorrentAction::Fail(e),
        TorrentEvent::File(Ok(bytes)) => {
            &&& next.stage is Done
            &&& bytes@.len() == 0 ==> (action matches TorrentAction::Fail(m) && m@ == empty_torrent_message())
            &&& bytes@.len() > 0 && bytes@[0] != 100u8 ==> (action matches TorrentAction::Fail(m) && m@
                == not_torrent_message())
            &&& bytes@.len() > 0 && bytes@[0] == 100u8 ==> (action matches TorrentAction::Reply(reply)
                && is_torrent_reply(reply, flow.id, bytes, flow.client.cookies_header))
        },
    }
}

impl TorrentFlow {
    /// A new download of torrent `id` from the tracker at `domain`: it first asks for the
    /// download token.
    pub fn start(id: usize, domain: String, turbo_enabled: Option<bool>, client: MaybeCustomClient) -> (r: (
        TorrentFlow,
        TorrentAction,
    ))
        ensures
            r.0.id == id,
            r.0.domain == domain,
            r.0.turbo_enabled == turbo_enabled,
            r.0.client == client,
            r.0.stage is AwaitToken,
            r.1 matches TorrentAction::RequestToken { url, form } && url@ == "https://"@ + domain@
                + "/engine/start_download_timer"@ && form@ == "torrent_id="@ + decimal(id as nat),
    {
        let url = token_url(domain.as_str());
        let form = token_form(id);
        (
            TorrentFlow { id, domain, turbo_enabled, client, stage: TorrentStage::AwaitToken },
            TorrentAction::RequestToken { url, form },
        )
    }

    /// Takes one report and gives the next thing to do, or `None` when the report is a
    /// token reply that cannot be read without a panic.
    pub fn try_step(self, event: TorrentEvent) -> (r: Option<(TorrentFlow, TorrentAction)>)
        requires
            torrent_event_kind_fits(self.stage, event),
        ensures
            r is None <==> !torrent_event_fits(self.stage, event),
            r is None <==> (event matches TorrentEvent::TokenReply(Ok(solution)) && !reply_cut_cannot_panic(
                solution.response@,
            )),
            r matches Some(p) ==> torrent_step(self, event, p.0, p.1) && torrent_steps_left(p.0.stage)
                < torrent_steps_left(self.stage),
    {
        let readable = match &event {
            TorrentEvent::TokenReply(Ok(solution)) => readable_reply(solution.response.as_str()),
            _ => true,
        };
        if !readable {
            return None;
        }
        Some(self.step(event))
    }

    /// Takes one report and gives the next thing to do.
    pub fn step(self, event: TorrentEvent) -> (r: (TorrentFlow, TorrentAction))
        requires
            torrent_event_fits(self.stage, event),
        ensures
            torrent_step(self, event, r.0, r.1),
            torrent_steps_left(r.0.stage) < torrent_steps_left(self.stage),
    {
        let TorrentFlow { id, domain, turbo_enabled, client, stage } = self;
        match event {
            TorrentEvent::TokenReply(Err(e)) => {
                (TorrentFlow { id, domain, turbo_enabled, client, stage: TorrentStage::Done }, TorrentAction::Fail(e))
            },
            TorrentEvent::TokenReply(Ok(solution)) => {
                let url = token_url(domain.as_str());
                match token_from_solution(url.as_str(), solution) {
                    Ok(grant) => {
                        let seconds = wait_seconds(turbo_enabled);
                        (
                            TorrentFlow { id, domain, turbo_enabled, client, stage: TorrentStage::AwaitTimer { grant } },
                            TorrentAction::Wait { seconds },
                        )
                    },
                    Err(m) => {
                        (TorrentFlow { id, domain, turbo_enabled, client, stage: TorrentStage::Done }, TorrentAction::Fail(m))
                    },
                }
            },
            TorrentEvent::Waited => {
                let url = match &stage {
                    TorrentStage::AwaitTimer { grant } => download_url(domain.as_str(), id, grant.token.as_str()),
                    _ => {
                        proof {
                            assert(false);
                        }
                        String::new()
                    },
                };
                (
                    TorrentFlow { id, domain, turbo_enabled, client, stage: TorrentStage::AwaitFile },
                    TorrentAction::Download { url },
                )
            },
            TorrentEvent::File(Err(e)) => {
                (TorrentFlow { id, domain, turbo_enabled, client, stage: TorrentStage::Done }, TorrentAction::Fail(e))
            },
            TorrentEvent::File(Ok(bytes)) => {
                let is_custom = client.is_custom;
                let answer = torrent_answer(id, bytes, client);
                let action = match answer {
                    Ok(reply) => TorrentAction::Reply(reply),
                    Err(m) => TorrentAction::Fail(m),
                };
                (
                    TorrentFlow {
                        id,
                        domain,
                        turbo_enabled,
                        client: MaybeCustomClient { is_custom, cookies_header: None },
                        stage: TorrentStage::Done,
                    },
                    action,
                )
            },
        }
    }
}

/// The file is downloaded with the token that the tracker handed out for this torrent, and
/// a download is answered with a file only when the bytes start a bencoded dictionary.
pub proof fn download_uses_granted_token(
    f0: TorrentFlow,
    solution: FlareSolverrSolution,
    f1: TorrentFlow,
    a1: TorrentAction,
    f2: TorrentFlow,
    a2: TorrentAction,
)
    requires
        torrent_event_fits(f0.stage, TorrentEvent::TokenReply(Ok(solution))),
        torrent_step(f0, TorrentEvent::TokenReply(Ok(solution)), f1, a1),
        torrent_event_fits(f1.stage, TorrentEvent::Waited),
        torrent_step(f1, TorrentEvent::Waited, f2, a2),
    ensures
        json_string_member(json_part(solution.response@), "token"@) matches Ok(Some(t)) && (a2 matches TorrentAction::Download { url } && url@ == "https://"@ + f0.domain@
            + "/engine/download_torrent?id="@ + decimal(f0.id as nat) + "&token="@ + t),
{
}

/// A download is answered with a file only when the bytes start with `d`, the first byte of
/// a bencoded dictionary.
pub proof fn reply_only_with_torrent_bytes(f: TorrentFlow, event: TorrentEvent, next: TorrentFlow, action: TorrentAction)
    requires
        torrent_event_fits(f.stage, event),
        torrent_step(f, event, next, action),
        action is Reply,
    ensures
        event matches TorrentEvent::File(Ok(bytes)) && bytes@.len() > 0 && bytes@[0] == 100u8,
{
}

} // verus!
