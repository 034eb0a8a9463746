//! The `/auth` endpoint: reads the credentials from the query string, and answers with the
//! outcome of the login.

use vstd::prelude::*;
use vstd::string::*;
use vstd::utf8::is_ascii_chars;
use crate::flaresolverr::opt_view;
use crate::rest::{is_text, text_reply, HttpReply, ReplyBody};
use crate::text::concat2;

verus! {

#[verifier::external_type_specification]
#[verifier::external_body]
pub struct ExQString(qstring::QString);

/// The name–value pairs that a parsed query string holds, in order; a name without a value
/// has the empty value.
pub uninterp spec fn query_pairs(q: qstring::QString) -> Seq<(Seq<char>, Seq<char>)>;

/// The pairs that `qstring` reads out of a query string (it splits at `&` and `=`, skips
/// pairs without a name, and percent-decodes names and values).
pub uninterp spec fn parsed_query(origin: Seq<char>) -> Seq<(Seq<char>, Seq<char>)>;

/// The value of the first pair named `name`.
pub open spec fn first_value(pairs: Seq<(Seq<char>, Seq<char>)>, name: Seq<char>) -> Option<Seq<char>>
    decreases pairs.len(),
{
    if pairs.len() == 0 {
        None
    } else if pairs[0].0 == name {
        Some(pairs[0].1)
    } else {
        first_value(pairs.drop_first(), name)
    }
}

/// `QString::from`: parses a query string. Its parser slices one byte off the front of what
/// remains at each step, which panics on a character of more than one byte there; an ASCII
/// query string, which every URI holds, never does. Of the pairs, only that they are a
/// function of the query string is stated.
#[verifier::external_body]
fn parse_query(origin: &str) -> (q: qstring::QString)
    requires
        is_ascii_chars(origin@),
    ensures
        query_pairs(q) == parsed_query(origin@),
{
    qstring::QString::from(origin)
}

/// `QString::get`: the value of the first pair named `name`, the empty string for a pair
/// without a value.
#[verifier::external_body]
fn query_value(q: &qstring::QString, name: &str) -> (r: Option<String>)
    ensures
        opt_view(r) == first_value(query_pairs(*q), name@),
{
    q.get(name).map(|v| v.to_string())
}

/// A user name and password.
#[derive(Debug)]
pub struct Credentials {
    pub user: String,
    pub pass: String,
}

/// The credentials, given the `user` and `pass` parameters: a missing one is answered with
/// a 400.
pub fn check_credentials(user: Option<String>, pass: Option<String>) -> (r: Result<Credentials, HttpReply>)
    ensures
        user is None ==> (r matches Err(reply) && reply.status == 400 && reply.headers@.len() == 0
            && reply.content_type is None && is_text(reply.body, "Missing 'user' parameter"@)),
        user is Some && pass is None ==> (r matches Err(reply) && reply.status == 400
            && reply.headers@.len() == 0 && reply.content_type is None && is_text(
            reply.body,
            "Missing 'pass' parameter"@,
        )),
        user is Some && pass is Some ==> (r matches Ok(c) && c.user == user->0 && c.pass == pass->0),
{
    let user = match user {
        Some(u) => u,
        None => {
            return Err(text_reply(400, String::from_str("Missing 'user' parameter")));
        },
    };
    let pass = match pass {
        Some(p) => p,
        None => {
            return Err(text_reply(400, String::from_str("Missing 'pass' parameter")));
        },
    };
    Ok(Credentials { user, pass })
}

/// Reads the `user` and `pass` parameters of the query string `query`.
pub fn credentials_from_query(query: &str) -> (r: Result<Credentials, HttpReply>)
    requires
        is_ascii_chars(query@),
    ensures
        ({
            let pairs = parsed_query(query@);
            let user = first_value(pairs, "user"@);
            let pass = first_value(pairs, "pass"@);
            &&& user is None ==> (r matches Err(reply) && reply.status == 400 && reply.headers@.len()
                == 0 && reply.content_type is None && is_text(reply.body, "Missing 'user' parameter"@))
            &&& user is Some && pass is None ==> (r matches Err(reply) && reply.status == 400
                && reply.headers@.len() == 0 && reply.content_type is None && is_text(
                reply.body,
                "Missing 'pass' parameter"@,
            ))
            &&& user is Some && pass is Some ==> (r matches Ok(c) && c.user@ == user->0 && c.pass@
                == pass->0)
        }),
{
    let q = parse_query(query);
    let user = query_value(&q, "user");
    let pass = query_value(&q, "pass");
    check_credentials(user, pass)
}

/// The answer once the login is over: a failed login is a 401 that tells why; a successful
/// one is a 200 that hands back the saved session cookies when the caller has any, and says
/// so otherwise.
pub fn auth_reply(login: Result<(), String>, saved_cookies: Option<String>) -> (r: HttpReply)
    ensures
        r.content_type is None,
        login matches Err(e) ==> (r.status == 401 && r.headers@.len() == 0 && is_text(
            r.body,
            "Login failed: "@ + e@,
        )),
        login is Ok ==> match saved_cookies {
            Some(c) => r.status == 200 && r.headers@.len() == 1 && r.headers@[0].0@
                == "X-Session-Cookies"@ && r.headers@[0].1@ == c@ && is_text(r.body, c@),
            None => r.status == 200 && r.headers@.len() == 0 && is_text(r.body, "Login successful"@),
        },
{
    match login {
        Err(e) => text_reply(401, concat2("Login failed: ", e.as_str())),
        Ok(()) => match saved_cookies {
            Some(c) => {
                let mut headers: Vec<(String, String)> = Vec::new();
                headers.push((String::from_str("X-Session-Cookies"), c.clone()));
                HttpReply { status: 200, content_type: None, headers, body: ReplyBody::Text(c) }
            },
            None => text_reply(200, String::from_str("Login successful")),
        },
    }
}

} // verus!
