//! The `/user` endpoint: fetches the account, renewing an expired session once.

use vstd::prelude::*;
use crate::flaresolverr::{clone_opt, opt_view};
use crate::rest::client_extractor::MaybeCustomClient;
use crate::rest::remain::session_expired_text;
use crate::rest::{carries_cookies, cookie_headers, HttpReply, ReplyBody};
use crate::text::{contains_seq, contains_str};

verus! {

/// Where a `/user` request stands.
#[derive(Debug)]
pub enum UserInfoStage {
    /// The account is being fetched for the first time.
    AwaitFirstFetch,
    /// The session is being renewed by logging in again.
    AwaitRenewal,
    /// The account is being fetched again after the renewal.
    AwaitSecondFetch,
    /// The request is over.
    Done,
}

/// The configured login that renews an expired session: user name, password and, if one
/// is configured, the FlareSolverr URL.
#[derive(Debug)]
pub struct RenewalConfig {
    pub username: String,
    pub password: String,
    pub solver_url: Option<String>,
}

/// A `/user` request in progress.
#[derive(Debug)]
pub struct UserInfoFlow {
    pub client: MaybeCustomClient,
    pub config: RenewalConfig,
    pub stage: UserInfoStage,
}

/// What the outside world reports back to a `/user` request.
#[derive(Debug)]
pub enum UserInfoEvent {
    /// The account, as a JSON document, or why it could not be had.
    Account(Result<String, String>),
    /// The outcome of logging in again.
    Renewed(Result<(), String>),
}

/// What a `/user` request asks the outside world to do next.
#[derive(Debug)]
pub enum UserInfoAction {
    /// Fetch the account.
    FetchAccount,
    /// Log in again as `username` with `password`, through the FlareSolverr at
    /// `solver_url` (or the configured one), keeping the session cookies in a file when
    /// `use_sessions` is set.
    RenewSession { username: String, password: String, use_sessions: bool, solver_url: Option<String> },
    /// Answer the request.
    Reply(HttpReply),
    /// End the request with an error.
    Fail(String),
}

/// `event` is the kind of report that `stage` waits for.
pub open spec fn user_event_fits(stage: UserInfoStage, event: UserInfoEvent) -> bool {
    match stage {
        UserInfoStage::AwaitFirstFetch => event is Account,
        UserInfoStage::AwaitRenewal => event is Renewed,
        UserInfoStage::AwaitSecondFetch => event is Account,
        UserInfoStage::Done => false,
    }
}

/// How many more reports a `/user` request can take.
pub open spec fn user_steps_left(stage: UserInfoStage) -> nat {
    match stage {
        UserInfoStage::AwaitFirstFetch => 3,
        UserInfoStage::AwaitRenewal => 2,
        UserInfoStage::AwaitSecondFetch => 1,
        UserInfoStage::Done => 0,
    }
}

/// The answer that carries the account `json`, with the caller's cookies handed back.
pub open spec fn account_reply(action: UserInfoAction, json: String, cookies: Option<String>) -> bool {
    action matches UserInfoAction::Reply(r) && r.status == 200 && r.content_type is None
        && carries_cookies(r, cookies) && r.body == ReplyBody::Json(json)
}

/// The action logs in again with the configured credentials and FlareSolverr URL, keeping
/// the session cookies.
pub open spec fn renews_with(action: UserInfoAction, config: RenewalConfig) -> bool {
    action matches UserInfoAction::RenewSession { username, password, use_sessions, solver_url }
        && username@ == config.username@ && password@ == config.password@ && use_sessions
        && opt_view(solver_url) == opt_view(config.solver_url)
}

/// One step of a `/user` request.
pub open spec fn user_step(flow: UserInfoFlow, event: UserInfoEvent, next: UserInfoFlow, action: UserInfoAction) -> bool {
    &&& next.client.is_custom == flow.client.is_custom
    &&& next.config == flow.config
    &&& match (flow.stage, event) {
        (UserInfoStage::AwaitFirstFetch, UserInfoEvent::Account(Err(e))) => if contains_seq(
            e@,
            session_expired_text(),
        ) && !flow.client.is_custom {
            next.stage is AwaitRenewal && renews_with(action, flow.config) && next.client == flow.client
        } else {
            next.stage is Done && action == UserInfoAction::Fail(e)
        },
        (UserInfoStage::AwaitRenewal, UserInfoEvent::Renewed(Err(e))) => next.stage is Done && action
            == UserInfoAction::Fail(e),
        (UserInfoStage::AwaitRenewal, UserInfoEvent::Renewed(Ok(()))) => next.stage is AwaitSecondFetch
            && action is FetchAccount && next.client == flow.client,
        (_, UserInfoEvent::Account(Err(e))) => next.stage is Done && action == UserInfoAction::Fail(e),
        (_, UserInfoEvent::Account(Ok(json))) => next.stage is Done && account_reply(
            action,
            json,
            flow.client.cookies_header,
        ),
        _ => false,
    }
}

impl UserInfoFlow {
    /// A new `/user` request: it first fetches the account.
    pub fn start(client: MaybeCustomClient, config: RenewalConfig) -> (r: (UserInfoFlow, UserInfoAction))
        ensures
            r.0.client == client,
            r.0.config == config,
            r.0.stage is AwaitFirstFetch,
            r.1 is FetchAccount,
    {
        (UserInfoFlow { client, config, stage: UserInfoStage::AwaitFirstFetch }, UserInfoAction::FetchAccount)
    }

    /// Takes one report and gives the next thing to do: an expired session of a caller
    /// without its own cookies is renewed once, and the account is fetched again.
    pub fn step(self, event: UserInfoEvent) -> (r: (UserInfoFlow, UserInfoAction))
        requires
            user_event_fits(self.stage, event),
        ensures
            user_step(self, event, r.0, r.1),
            user_steps_left(r.0.stage) < user_steps_left(self.stage),
    {
        let first = match self.stage {
            UserInfoStage::AwaitFirstFetch => true,
            _ => false,
        };
        match event {
            UserInfoEvent::Account(Ok(json)) => {
                let is_custom = self.client.is_custom;
                let reply = HttpReply {
                    status: 200,
                    content_type: None,
                    headers: cookie_headers(self.client.cookies_header),
                    body: ReplyBody::Json(json),
                };
                (
                    UserInfoFlow {
                        client: MaybeCustomClient { is_custom, cookies_header: None },
                        config: self.config,
                        stage: UserInfoStage::Done,
                    },
                    UserInfoAction::Reply(reply),
                )
            },
            UserInfoEvent::Account(Err(e)) => {
                if first && contains_str(e.as_str(), "Session expired") && !self.client.is_custom {
                    let action = UserInfoAction::RenewSession {
                        username: self.config.username.clone(),
                        password: self.config.password.clone(),
                        use_sessions: true,
                        solver_url: clone_opt(&self.config.solver_url),
                    };
                    (
                        UserInfoFlow { client: self.client, config: self.config, stage: UserInfoStage::AwaitRenewal },
                        action,
                    )
                } else {
                    (UserInfoFlow { client: self.client, config: self.config, stage: UserInfoStage::Done }, UserInfoAction::Fail(e))
                }
            },
            UserInfoEvent::Renewed(Err(e)) => {
                (UserInfoFlow { client: self.client, config: self.config, stage: UserInfoStage::Done }, UserInfoAction::Fail(e))
            },
            UserInfoEvent::Renewed(Ok(())) => {
                (
                    UserInfoFlow { client: self.client, config: self.config, stage: UserInfoStage::AwaitSecondFetch },
                    UserInfoAction::FetchAccount,
                )
            },
        }
    }
}

/// A `/user` request logs in again at most once, and never for a caller that brought its
/// own cookies.
pub proof fn renewal_at_most_once(f: UserInfoFlow, event: UserInfoEvent, next: UserInfoFlow, action: UserInfoAction)
    requires
        user_event_fits(f.stage, event),
        user_step(f, event, next, action),
    ensures
        action is RenewSession ==> f.stage is AwaitFirstFetch && !f.client.is_custom && renews_with(
            action,
            f.config,
        ),
        next.stage is AwaitRenewal ==> f.stage is AwaitFirstFetch,
        f.stage is AwaitSecondFetch ==> next.stage is Done,
{
}

} // verus!
