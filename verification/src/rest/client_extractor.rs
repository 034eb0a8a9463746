//! Whether a request brought its own tracker cookies.

use vstd::prelude::*;

verus! {

/// What a request says about the tracker session to use: a caller that passes its own
/// cookies (the `cookie` query parameter) gets them handed back with the answer.
#[derive(Debug)]
pub struct MaybeCustomClient {
    pub is_custom: bool,
    pub cookies_header: Option<String>,
}

impl MaybeCustomClient {
    /// The client for a request whose `cookie` query parameter is `cookie`.
    pub fn from_cookie_param(cookie: Option<String>) -> (c: MaybeCustomClient)
        ensures
            c.is_custom == cookie is Some,
            c.cookies_header == cookie,
    {
        match cookie {
            Some(cookie_string) => MaybeCustomClient { is_custom: true, cookies_header: Some(cookie_string) },
            None => MaybeCustomClient { is_custom: false, cookies_header: None },
        }
    }
}

} // verus!
