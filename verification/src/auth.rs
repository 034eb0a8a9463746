//! Logging in to the tracker through FlareSolverr, as a sequence of decisions that the
//! caller drives: each report of outside work gives the next thing to do.

use vstd::prelude::*;
use vstd::string::*;
use vstd::utf8::encode_utf8;
use crate::encoding::{login_form, login_form_spec};
use crate::flaresolverr::{cookie_string, join_cookie_pairs, FlareSolverrSolution};
use crate::text::{concat2, concat3};

verus! {

/// The message of the login entry point that needs no FlareSolverr.
pub open spec fn login_needs_solver_message() -> Seq<char> {
    "Use login_with_flaresolverr and provide FLARESOLVERR_URL in config"@
}

/// Logging in without FlareSolverr is no longer possible: this always fails.
pub fn login(username: &str, password: &str, use_sessions: bool) -> (r: Result<(), String>)
    ensures
        r matches Err(m) && m@ == login_needs_solver_message(),
{
    Err(String::from_str("Use login_with_flaresolverr and provide FLARESOLVERR_URL in config"))
}

/// Who logs in, where, and whether the session cookies are kept in a file.
#[derive(Debug)]
pub struct LoginRequest {
    pub username: String,
    pub password: String,
    pub use_sessions: bool,
    /// The tracker's current domain.
    pub domain: String,
    /// The path of the login page.
    pub login_page: String,
    /// The path that the login form is posted to.
    pub login_process_page: String,
}

/// A file that keeps the session cookies of a login.
#[derive(Debug)]
pub struct CookieFile {
    pub path: String,
    pub contents: String,
}

/// Where a login stands.
#[derive(Debug)]
pub enum LoginStage {
    /// The leaked IP address is being fetched.
    AwaitLeakCheck,
    /// A FlareSolverr client for the given URL is being built.
    AwaitClient,
    /// A FlareSolverr session is being created.
    AwaitSession,
    /// The login page is being loaded within `session`.
    AwaitLoginPage { session: String },
    /// The login form is being posted.
    AwaitPost,
    /// The user agent is being stored and the cookie file, if any, written.
    AwaitConclusion,
    /// The login is over.
    Done,
}

/// A login in progress.
#[derive(Debug)]
pub struct LoginFlow {
    pub request: LoginRequest,
    /// The FlareSolverr URL given for this login, if any.
    pub solver_url: Option<String>,
    /// Whether a FlareSolverr service is configured for the whole program.
    pub solver_configured: bool,
    pub stage: LoginStage,
}

/// What the outside world reports back to a login.
#[derive(Debug)]
pub enum LoginEvent {
    LeakChecked(Result<(), String>),
    ClientBuilt(Result<(), String>),
    SessionCreated(Result<String, String>),
    LoginPageLoaded(Result<(), String>),
    Posted(Result<FlareSolverrSolution, String>),
    Concluded(Result<(), String>),
}

/// What a login asks the outside world to do next.
#[derive(Debug)]
pub enum LoginAction {
    /// Fetch the leaked IP address.
    CheckLeakedIp,
    /// Build a FlareSolverr client for `url`, used for the rest of this login.
    BuildClient { url: String },
    /// Create a FlareSolverr session.
    CreateSession,
    /// Load `url` through FlareSolverr within `session`.
    LoadLoginPage { url: String, session: String },
    /// Post `form` to `url` through FlareSolverr within `session`.
    PostCredentials { url: String, form: String, session: String },
    /// Store `user_agent` as FlareSolverr's, then write `cookie_file` if there is one.
    Conclude { user_agent: String, cookie_file: Option<CookieFile> },
    /// The login is over, with this outcome.
    Finish(Result<(), String>),
}

/// `event` is the kind of report that `stage` waits for.
pub open spec fn login_event_fits(stage: LoginStage, event: LoginEvent) -> bool {
    match stage {
        LoginStage::AwaitLeakCheck => event is LeakChecked,
        LoginStage::AwaitClient => event is ClientBuilt,
        LoginStage::AwaitSession => event is SessionCreated,
        LoginStage::AwaitLoginPage { .. } => event is LoginPageLoaded,
        LoginStage::AwaitPost => event is Posted,
        LoginStage::AwaitConclusion => event is Concluded,
        LoginStage::Done => false,
    }
}

/// How many more reports a login can take before it is over.
pub open spec fn login_steps_left(stage: LoginStage) -> nat {
    match stage {
        LoginStage::AwaitLeakCheck => 6,
        LoginStage::AwaitClient => 5,
        LoginStage::AwaitSession => 4,
        LoginStage::AwaitLoginPage { .. } => 3,
        LoginStage::AwaitPost => 2,
        LoginStage::AwaitConclusion => 1,
        LoginStage::Done => 0,
    }
}

/// The message when no FlareSolverr can be used.
pub open spec fn solver_missing_message() -> Seq<char> {
    "FLARESOLVERR_URL is not set; FlareSolverr is required after removing wreq"@
}

/// The URL of a page of the tracker: `https://`, the domain, the path.
pub open spec fn tracker_url(domain: Seq<char>, path: Seq<char>) -> Seq<char> {
    "https://"@ + domain + path
}

/// The path of the file that keeps a user's session cookies.
pub open spec fn cookie_file_path(username: Seq<char>) -> Seq<char> {
    "sessions/"@ + username + ".cookies"@
}

/// The path of the file that keeps `username`'s session cookies.
pub fn session_file_path(username: &str) -> (p: String)
    ensures
        p@ == cookie_file_path(username@),
{
    concat3("sessions/", username, ".cookies")
}

/// The login is over, with an error whose message is `message`.
pub open spec fn fails_with(next: LoginFlow, action: LoginAction, message: Seq<char>) -> bool {
    &&& next.stage is Done
    &&& action matches LoginAction::Finish(Err(m)) && m@ == message
}

/// One step of a login: what `flow` becomes, and asks for, on `event`.
pub open spec fn login_step(flow: LoginFlow, event: LoginEvent, next: LoginFlow, action: LoginAction) -> bool {
    &&& next.request == flow.request
    &&& next.solver_url == flow.solver_url
    &&& next.solver_configured == flow.solver_configured
    &&& match event {
        LoginEvent::LeakChecked(Err(e)) => fails_with(next, action, e@),
        LoginEvent::LeakChecked(Ok(())) => match flow.solver_url {
            Some(u) => next.stage is AwaitClient && (action matches LoginAction::BuildClient { url }
                && url@ == u@),
            None => if flow.solver_configured {
                next.stage is AwaitSession && action is CreateSession
            } else {
                fails_with(next, action, solver_missing_message())
            },
        },
        LoginEvent::ClientBuilt(Err(e)) => fails_with(
            next,
            action,
            "Failed to create FlareSolverr client: "@ + e@,
        ),
        LoginEvent::ClientBuilt(Ok(())) => next.stage is AwaitSession && action is CreateSession,
        LoginEvent::SessionCreated(Err(e)) => fails_with(
            next,
            action,
            "Failed to create FlareSolverr session: "@ + e@,
        ),
        LoginEvent::SessionCreated(Ok(id)) => {
            &&& next.stage matches LoginStage::AwaitLoginPage { session } && session@ == id@
            &&& action matches LoginAction::LoadLoginPage { url, session } && session@ == id@
                && url@ == tracker_url(flow.request.domain@, flow.request.login_page@)
        },
        LoginEvent::LoginPageLoaded(Err(e)) => fails_with(
            next,
            action,
            "FlareSolverr GET login page failed: "@ + e@,
        ),
        LoginEvent::LoginPageLoaded(Ok(())) => {
            &&& next.stage is AwaitPost
            &&& flow.stage matches LoginStage::AwaitLoginPage { session: s }
            &&& action matches LoginAction::PostCredentials { url, form, session } && session@
                == s@ && url@ == tracker_url(flow.request.domain@, flow.request.login_process_page@)
                && form@ == login_form_spec(
                encode_utf8(flow.request.username@),
                encode_utf8(flow.request.password@),
            )
        },
        LoginEvent::Posted(Err(e)) => fails_with(next, action, "FlareSolverr POST login failed: "@ + e@),
        LoginEvent::Posted(Ok(solution)) => {
            &&& next.stage is AwaitConclusion
            &&& action matches LoginAction::Conclude { user_agent, cookie_file }
            &&& user_agent@ == solution.user_agent@
            &&& if flow.request.use_sessions {
                cookie_file matches Some(f) && f.path@ == cookie_file_path(flow.request.username@)
                    && f.contents@ == join_cookie_pairs(solution.cookies@)
            } else {
                cookie_file is None
            }
        },
        LoginEvent::Concluded(r) => next.stage is Done && action == LoginAction::Finish(r),
    }
}

impl LoginFlow {
    /// A new login: it first fetches the leaked IP address.
    pub fn start(request: LoginRequest, solver_url: Option<String>, solver_configured: bool) -> (r: (
        LoginFlow,
        LoginAction,
    ))
        ensures
            r.0.request == request,
            r.0.solver_url == solver_url,
            r.0.solver_configured == solver_configured,
            r.0.stage is AwaitLeakCheck,
            r.1 is CheckLeakedIp,
    {
        (LoginFlow { request, solver_url, solver_configured, stage: LoginStage::AwaitLeakCheck }, LoginAction::CheckLeakedIp)
    }

    fn finish_with(self, message: String) -> (r: (LoginFlow, LoginAction))
        ensures
            r.0.request == self.request,
            r.0.solver_url == self.solver_url,
            r.0.solver_configured == self.solver_configured,
            fails_with(r.0, r.1, message@),
    {
        (LoginFlow { stage: LoginStage::Done, ..self }, LoginAction::Finish(Err(message)))
    }

    fn moved(self, stage: LoginStage) -> (r: LoginFlow)
        ensures
            r.request == self.request,
            r.solver_url == self.solver_url,
            r.solver_configured == self.solver_configured,
            r.stage == stage,
    {
        LoginFlow { stage, ..self }
    }

    /// Takes one report and gives the next thing to do.
    pub fn step(self, event: LoginEvent) -> (r: (LoginFlow, LoginAction))
        requires
            login_event_fits(self.stage, event),
        ensures
            login_step(self, event, r.0, r.1),
            login_steps_left(r.0.stage) < login_steps_left(self.stage),
    {
        match event {
            LoginEvent::LeakChecked(Err(e)) => self.finish_with(e),
            LoginEvent::LeakChecked(Ok(())) => {
                match &self.solver_url {
                    Some(u) => {
                        let url = u.clone();
                        (self.moved(LoginStage::AwaitClient), LoginAction::BuildClient { url })
                    },
                    None => {
                        if self.solver_configured {
                            (self.moved(LoginStage::AwaitSession), LoginAction::CreateSession)
                        } else {
                            self.finish_with(
                                String::from_str(
                                    "FLARESOLVERR_URL is not set; FlareSolverr is required after removing wreq",
                                ),
                            )
                        }
                    },
                }
            },
            LoginEvent::ClientBuilt(Err(e)) => {
                let m = concat2("Failed to create FlareSolverr client: ", e.as_str());
                self.finish_with(m)
            },
            LoginEvent::ClientBuilt(Ok(())) => {
                (self.moved(LoginStage::AwaitSession), LoginAction::CreateSession)
            },
            LoginEvent::SessionCreated(Err(e)) => {
                let m = concat2("Failed to create FlareSolverr session: ", e.as_str());
                self.finish_with(m)
            },
            LoginEvent::SessionCreated(Ok(id)) => {
                let url = concat3("https://", self.request.domain.as_str(), self.request.login_page.as_str());
                let session = id.clone();
                (self.moved(LoginStage::AwaitLoginPage { session: id }), LoginAction::LoadLoginPage { url, session })
            },
            LoginEvent::LoginPageLoaded(Err(e)) => {
                let m = concat2("FlareSolverr GET login page failed: ", e.as_str());
                self.finish_with(m)
            },
            LoginEvent::LoginPageLoaded(Ok(())) => {
                let session = match &self.stage {
                    LoginStage::AwaitLoginPage { session } => session.clone(),
                    _ => {
                        proof {
                            assert(false);
                        }
                        String::new()
                    },
                };
                let url = concat3(
                    "https://",
                    self.request.domain.as_str(),
                    self.request.login_process_page.as_str(),
                );
                let form = login_form(self.request.username.as_str(), self.request.password.as_str());
                (self.moved(LoginStage::AwaitPost), LoginAction::PostCredentials { url, form, session })
            },
            LoginEvent::Posted(Err(e)) => {
                let m = concat2("FlareSolverr POST login failed: ", e.as_str());
                self.finish_with(m)
            },
            LoginEvent::Posted(Ok(solution)) => {
                let cookie_file = if self.request.use_sessions {
                    let path = session_file_path(self.request.username.as_str());
                    let contents = cookie_string(&solution.cookies);
                    Some(CookieFile { path, contents })
                } else {
                    None
                };
                (
                    self.moved(LoginStage::AwaitConclusion),
                    LoginAction::Conclude { user_agent: solution.user_agent, cookie_file },
                )
            },
            LoginEvent::Concluded(r) => {
                (self.moved(LoginStage::Done), LoginAction::Finish(r))
            },
        }
    }
}

/// The login form goes out within the session that FlareSolverr created for this login,
/// right after the login page was loaded within that same session, and it carries the
/// percent-encoded credentials.
pub proof fn credentials_posted_within_created_session(
    f0: LoginFlow,
    id: String,
    f1: LoginFlow,
    a1: LoginAction,
    f2: LoginFlow,
    a2: LoginAction,
)
    requires
        login_event_fits(f0.stage, LoginEvent::SessionCreated(Ok(id))),
        login_step(f0, LoginEvent::SessionCreated(Ok(id)), f1, a1),
        login_event_fits(f1.stage, LoginEvent::LoginPageLoaded(Ok(()))),
        login_step(f1, LoginEvent::LoginPageLoaded(Ok(())), f2, a2),
    ensures
        a1 matches LoginAction::LoadLoginPage { session, .. } && session@ == id@,
        a2 matches LoginAction::PostCredentials { session, form, .. } && session@ == id@ && form@
            == login_form_spec(encode_utf8(f0.request.username@), encode_utf8(f0.request.password@)),
{
}

/// Every failure of a step ends the login at once, and a login is over after at most six
/// reports.
pub proof fn failures_end_the_login(f: LoginFlow, event: LoginEvent, next: LoginFlow, action: LoginAction)
    requires
        login_event_fits(f.stage, event),
        login_step(f, event, next, action),
    ensures
        action matches LoginAction::Finish(_) ==> next.stage is Done,
        (match event {
            LoginEvent::LeakChecked(Err(_)) => true,
            LoginEvent::ClientBuilt(Err(_)) => true,
            LoginEvent::SessionCreated(Err(_)) => true,
            LoginEvent::LoginPageLoaded(Err(_)) => true,
            LoginEvent::Posted(Err(_)) => true,
            LoginEvent::Concluded(Err(_)) => true,
            _ => false,
        }) ==> (next.stage is Done && action matches LoginAction::Finish(Err(_))),
        login_steps_left(f.stage) <= 6,
{
}

} // verus!
