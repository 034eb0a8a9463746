//! The HTTP endpoints: what each one answers, given what it was asked and what the outside
//! work it started gave back.

pub mod auth;
pub mod client_extractor;
pub mod remain;
pub mod torrent;
pub mod user;

use vstd::prelude::*;
use vstd::string::*;

verus! {

/// The body of an HTTP answer.
#[derive(Debug)]
pub enum ReplyBody {
    /// Plain text.
    Text(String),
    /// A JSON document.
    Json(String),
    /// Raw bytes.
    Binary(Vec<u8>),
}

/// An HTTP answer: status code, content type, headers in the order they are set, body.
#[derive(Debug)]
pub struct HttpReply {
    pub status: u16,
    pub content_type: Option<String>,
    pub headers: Vec<(String, String)>,
    pub body: ReplyBody,
}

/// The body is the text `t`.
pub open spec fn is_text(body: ReplyBody, t: Seq<char>) -> bool {
    body matches ReplyBody::Text(x) && x@ == t
}

/// The name of the header that hands session cookies back to the caller.
pub open spec fn session_cookie_header() -> Seq<char> {
    "X-Session-Cookies"@
}

/// The reply holds exactly the session-cookie header carrying `cookies`, when there are
/// cookies, and no header otherwise.
pub open spec fn carries_cookies(reply: HttpReply, cookies: Option<String>) -> bool {
    match cookies {
        Some(c) => reply.headers@.len() == 1 && reply.headers@[0].0@ == session_cookie_header()
            && reply.headers@[0].1@ == c@,
        None => reply.headers@.len() == 0,
    }
}

/// The headers that hand `cookies` back, if any.
pub fn cookie_headers(cookies: Option<String>) -> (h: Vec<(String, String)>)
    ensures
        match cookies {
            Some(c) => h@.len() == 1 && h@[0].0@ == session_cookie_header() && h@[0].1@ == c@,
            None => h@.len() == 0,
        },
{
    let mut h: Vec<(String, String)> = Vec::new();
    match cookies {
        Some(c) => {
            h.push((String::from_str("X-Session-Cookies"), c));
        },
        None => {},
    }
    h
}

/// A plain-text answer with the given status and no header.
pub fn text_reply(status: u16, text: String) -> (r: HttpReply)
    ensures
        r.status == status,
        r.content_type is None,
        r.headers@.len() == 0,
        r.body == ReplyBody::Text(text),
{
    HttpReply { status, content_type: None, headers: Vec::new(), body: ReplyBody::Text(text) }
}

} // verus!
