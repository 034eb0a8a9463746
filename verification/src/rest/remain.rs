//! The answer of the endpoint that tells how many downloads are left.

use vstd::prelude::*;
use vstd::string::*;
use crate::rest::client_extractor::MaybeCustomClient;
use crate::rest::{carries_cookies, cookie_headers, is_text, text_reply, HttpReply, ReplyBody};
use crate::text::{contains_seq, contains_str, i64_to_decimal, signed_decimal};

verus! {

/// The text by which the tracker says that the session is over.
pub open spec fn session_expired_text() -> Seq<char> {
    "Session expired"@
}

/// The count could not be read because the tracker session is over.
pub open spec fn session_expired(downloads: Result<u64, String>) -> bool {
    downloads matches Err(e) && contains_seq(e@, session_expired_text())
}

/// The number the endpoint shows: the count, as a 32-bit integer, or -1 when it could not
/// be read.
pub open spec fn shown_count(downloads: Result<u64, String>) -> int {
    match downloads {
        Ok(n) => (n as i32) as int,
        Err(_) => -1,
    }
}

/// Answers the remaining-downloads request: an expired session is a 401, otherwise a 200
/// whose body is the count (or -1 when it could not be read), with the caller's cookies
/// handed back.
pub fn remain_reply(downloads: Result<u64, String>, client: MaybeCustomClient) -> (r: HttpReply)
    ensures
        session_expired(downloads) ==> (r.status == 401 && r.headers@.len() == 0 && r.content_type is None
            && is_text(r.body, session_expired_text())),
        !session_expired(downloads) ==> (r.status == 200 && r.content_type is None && carries_cookies(
            r,
            client.cookies_header,
        ) && is_text(r.body, signed_decimal(shown_count(downloads)))),
        downloads matches Ok(n) ==> (r.status == 200 && carries_cookies(r, client.cookies_header)
            && is_text(r.body, signed_decimal((n as i32) as int))),
        r.status == 401 ==> (downloads matches Err(e) && contains_seq(e@, "Session expired"@)),
{
    let remain: i32 = match &downloads {
        Ok(n) => *n as i32,
        Err(e) => {
            if contains_str(e.as_str(), "Session expired") {
                return text_reply(401, String::from_str("Session expired"));
            }
            -1
        },
    };
    let body = i64_to_decimal(remain as i64);
    HttpReply {
        status: 200,
        content_type: None,
        headers: cookie_headers(client.cookies_header),
        body: ReplyBody::Text(body),
    }
}

/// A count that was read is never taken for an expired session, and is shown as the
/// 32-bit integer it converts to; only an error that says "Session expired" is.
pub proof fn read_counts_are_shown(n: u64, e: String)
    ensures
        !session_expired(Ok(n)),
        shown_count(Ok(n)) == (n as i32) as int,
        session_expired(Err(e)) <==> contains_seq(e@, "Session expired"@),
        shown_count(Err(e)) == -1,
{
}

} // verus!
