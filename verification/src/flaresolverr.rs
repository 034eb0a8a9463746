//! The FlareSolverr side: its request and reply shapes, how a reply is read, and the
//! session state that all requests share.

use vstd::prelude::*;
use vstd::string::*;
use crate::text::{concat2, concat3, same_text, trim_end_char, trim_end_char_spec};

verus! {

/// A cookie handed to FlareSolverr with a POST request.
#[derive(Debug)]
pub struct FlareSolverrCookieInput<'a> {
    pub name: &'a str,
    pub value: &'a str,
    pub domain: &'a str,
}

/// A cookie that FlareSolverr's browser holds after solving a page.
#[derive(Debug, Clone)]
pub struct FlareSolverrCookie {
    pub name: String,
    pub value: String,
    pub domain: String,
    pub path: String,
}

/// What FlareSolverr's browser saw: final URL, HTTP status, cookies, user agent and page.
#[derive(Debug, Clone)]
pub struct FlareSolverrSolution {
    pub url: String,
    pub status: u16,
    pub cookies: Vec<FlareSolverrCookie>,
    pub user_agent: String,
    pub response: String,
}

/// A reply of FlareSolverr's `/v1` endpoint.
#[derive(Debug)]
pub struct FlareSolverrResponse {
    pub status: String,
    pub solution: Option<FlareSolverrSolution>,
    pub message: Option<String>,
    pub session: Option<String>,
}

/// The message of a failed FlareSolverr reply.
pub open spec fn solver_error_message(message: Option<String>) -> Seq<char> {
    "FlareSolverr error: "@ + match message {
        Some(m) => m@,
        None => "Unknown error"@,
    }
}

/// Reads a FlareSolverr reply: a status other than `ok` is an error carrying the reply's
/// message, and an `ok` reply without a solution is an error too.
pub fn extract_solution(fs_response: FlareSolverrResponse) -> (r: Result<FlareSolverrSolution, String>)
    ensures
        fs_response.status@ != "ok"@ ==> (r matches Err(m) && m@ == solver_error_message(fs_response.message)),
        fs_response.status@ == "ok"@ ==> match fs_response.solution {
            Some(s) => r == Ok::<FlareSolverrSolution, String>(s),
            None => (r matches Err(m) && m@ == "FlareSolverr returned no solution"@),
        },
{
    if !same_text(fs_response.status.as_str(), "ok") {
        let msg = match fs_response.message {
            Some(m) => m,
            None => String::from_str("Unknown error"),
        };
        return Err(concat2("FlareSolverr error: ", msg.as_str()));
    }
    match fs_response.solution {
        Some(s) => Ok(s),
        None => Err(String::from_str("FlareSolverr returned no solution")),
    }
}

/// Where a FlareSolverr service listens: its base URL, kept without trailing slashes.
pub struct FlareSolverrClient {
    url: String,
}

impl View for FlareSolverrClient {
    type V = Seq<char>;

    closed spec fn view(&self) -> Seq<char> {
        self.url@
    }
}

impl FlareSolverrClient {
    /// A client for the service at `url`; trailing slashes of `url` are dropped.
    pub fn new(url: &str) -> (c: FlareSolverrClient)
        ensures
            c@ == trim_end_char_spec(url@, '/'),
    {
        FlareSolverrClient { url: trim_end_char(url, '/') }
    }

    /// The base URL.
    pub fn base_url(&self) -> (u: &str)
        ensures
            u@ == self@,
    {
        self.url.as_str()
    }

    /// The URL that every command is posted to: the base URL followed by `/v1`.
    pub fn endpoint(&self) -> (e: String)
        ensures
            e@ == self@ + "/v1"@,
    {
        concat2(self.url.as_str(), "/v1")
    }
}

/// Whether an HTTP status code is a success (200 to 299), as `StatusCode::is_success` says.
pub open spec fn is_success_status(code: u16) -> bool {
    200 <= code <= 299
}

/// Checks the HTTP status of FlareSolverr's reply to a command. `status_text` is how the
/// status is displayed (code and reason); the POST command has its own wording.
pub fn check_solver_status(code: u16, status_text: &str, post: bool) -> (r: Result<(), String>)
    ensures
        is_success_status(code) ==> r is Ok,
        !is_success_status(code) ==> (r matches Err(m) && m@ == (if post {
            "FlareSolverr POST returned HTTP "@
        } else {
            "FlareSolverr returned HTTP "@
        }) + status_text@),
{
    if 200 <= code && code <= 299 {
        Ok(())
    } else if post {
        Err(concat2("FlareSolverr POST returned HTTP ", status_text))
    } else {
        Err(concat2("FlareSolverr returned HTTP ", status_text))
    }
}

/// Reads the session id out of FlareSolverr's reply to `sessions.create`.
pub fn session_from_response(fs_response: FlareSolverrResponse) -> (r: Result<String, String>)
    ensures
        match fs_response.session {
            Some(id) => r == Ok::<String, String>(id),
            None => (r matches Err(m) && m@ == "FlareSolverr did not return a session ID"@),
        },
{
    match fs_response.session {
        Some(id) => Ok(id),
        None => Err(String::from_str("FlareSolverr did not return a session ID")),
    }
}

/// The time, in milliseconds, that FlareSolverr may spend on one page.
pub const SOLVE_TIMEOUT_MS: u64 = 60000;

/// A command for FlareSolverr's `/v1` endpoint.
#[derive(Debug)]
pub enum SolverCommand<'a> {
    /// Open a persistent browser session.
    CreateSession,
    /// Load `url` in the browser, within `session` when there is one.
    Get { url: &'a str, max_timeout: u64, session: Option<&'a str> },
    /// Submit `post_data` to `url`, within `session` when there is one.
    Post {
        url: &'a str,
        post_data: &'a str,
        max_timeout: u64,
        session: Option<&'a str>,
        cookies: Option<Vec<FlareSolverrCookieInput<'a>>>,
    },
}

/// The `cmd` field that FlareSolverr expects for each command.
pub open spec fn command_name(c: SolverCommand) -> Seq<char> {
    match c {
        SolverCommand::CreateSession => "sessions.create"@,
        SolverCommand::Get { .. } => "request.get"@,
        SolverCommand::Post { .. } => "request.post"@,
    }
}

impl<'a> SolverCommand<'a> {
    /// The `cmd` field of this command.
    pub fn name(&self) -> (n: &'static str)
        ensures
            n@ == command_name(*self),
            *self is CreateSession ==> n@ == "sessions.create"@,
            *self is Get ==> n@ == "request.get"@,
            *self is Post ==> n@ == "request.post"@,
    {
        match self {
            SolverCommand::CreateSession => "sessions.create",
            SolverCommand::Get { .. } => "request.get",
            SolverCommand::Post { .. } => "request.post",
        }
    }
}

/// The abstract contents of a session store: the session id and the user agent, if set.
pub ghost struct SessionStoreView {
    pub session_id: Option<Seq<char>>,
    pub user_agent: Option<Seq<char>>,
}

/// The store after recording the session `id`.
pub open spec fn with_session(v: SessionStoreView, id: Seq<char>) -> SessionStoreView {
    SessionStoreView { session_id: Some(id), ..v }
}

/// The store after recording the user agent `ua`.
pub open spec fn with_user_agent(v: SessionStoreView, ua: Seq<char>) -> SessionStoreView {
    SessionStoreView { user_agent: Some(ua), ..v }
}

/// What is read back from a session store is what was last written to it, and writing the
/// session or the user agent leaves the other one as it was.
pub proof fn store_reads_back_last_write(v: SessionStoreView, id: Seq<char>, ua: Seq<char>)
    ensures
        with_session(v, id).session_id == Some(id),
        with_session(v, id).user_agent == v.user_agent,
        with_user_agent(v, ua).user_agent == Some(ua),
        with_user_agent(v, ua).session_id == v.session_id,
        with_user_agent(with_session(v, id), ua).session_id == Some(id),
        with_session(with_user_agent(v, ua), id).user_agent == Some(ua),
{
}

/// The FlareSolverr state that every request shares: the persistent session that keeps
/// the browser's cookies, and the user agent that the browser presents.
pub struct SessionStore {
    session_id: Option<String>,
    user_agent: Option<String>,
}

/// The view of an optional string.
pub open spec fn opt_view(o: Option<String>) -> Option<Seq<char>> {
    match o {
        Some(s) => Some(s@),
        None => None,
    }
}

pub(crate) fn clone_opt(o: &Option<String>) -> (r: Option<String>)
    ensures
        opt_view(r) == opt_view(*o),
{
    match o {
        Some(s) => Some(s.clone()),
        None => None,
    }
}

impl View for SessionStore {
    type V = SessionStoreView;

    closed spec fn view(&self) -> SessionStoreView {
        SessionStoreView { session_id: opt_view(self.session_id), user_agent: opt_view(self.user_agent) }
    }
}

impl SessionStore {
    /// A store with neither a session nor a user agent.
    pub fn new() -> (s: SessionStore)
        ensures
            s@.session_id is None,
            s@.user_agent is None,
    {
        SessionStore { session_id: None, user_agent: None }
    }

    /// The current session id, if any.
    pub fn get_session_id(&self) -> (r: Option<String>)
        ensures
            opt_view(r) == self@.session_id,
    {
        clone_opt(&self.session_id)
    }

    /// Records the session that later requests reuse.
    pub fn set_session_id(&mut self, id: String)
        ensures
            final(self)@ == with_session(old(self)@, id@),
    {
        self.session_id = Some(id);
    }

    /// Records the user agent that FlareSolverr's browser presents.
    pub fn set_user_agent(&mut self, ua: String)
        ensures
            final(self)@ == with_user_agent(old(self)@, ua@),
    {
        self.user_agent = Some(ua);
    }

    /// The current user agent, if any.
    pub fn get_user_agent(&self) -> (r: Option<String>)
        ensures
            opt_view(r) == self@.user_agent,
    {
        clone_opt(&self.user_agent)
    }
}

impl SessionStore {
    /// Reads FlareSolverr's reply to `sessions.create` and records the new session as the
    /// shared one, which later requests reuse; a reply without a session changes nothing.
    pub fn adopt_created(&mut self, fs_response: FlareSolverrResponse) -> (r: Result<String, String>)
        ensures
            match fs_response.session {
                Some(id) => r == Ok::<String, String>(id) && final(self)@ == with_session(old(self)@, id@),
                None => (r matches Err(m) && m@ == "FlareSolverr did not return a session ID"@)
                    && final(self)@ == old(self)@,
            },
    {
        let created = session_from_response(fs_response);
        match created {
            Ok(id) => {
                self.set_session_id(id.clone());
                Ok(id)
            },
            Err(m) => Err(m),
        }
    }
}

/// A session that was created and recorded is the one that the next request through
/// FlareSolverr looks up and runs its command in.
pub proof fn created_session_is_reused(
    v: SessionStoreView,
    id: Seq<char>,
    looked: Option<String>,
    next: SessionFlow,
    action: SessionAction,
)
    requires
        opt_view(looked) == with_session(v, id).session_id,
        session_step(SessionFlow::AwaitLookup, SessionEvent::Looked(looked), next, action),
    ensures
        runs_within(next, action, id),
{
}

/// Whether registering the program-wide FlareSolverr client succeeded: it can be set only
/// once.
pub fn registration_result(was_unset: bool) -> (r: Result<(), String>)
    ensures
        was_unset ==> r is Ok,
        !was_unset ==> (r matches Err(m) && m@ == "FlareSolverr already initialized"@),
{
    if was_unset {
        Ok(())
    } else {
        Err(String::from_str("FlareSolverr already initialized"))
    }
}

/// The message when FlareSolverr is needed but no service was configured.
pub open spec fn not_configured_message() -> Seq<char> {
    "FlareSolverr not configured (set FLARESOLVERR_URL)"@
}

/// Fails when no FlareSolverr service is configured.
pub fn require_solver(available: bool) -> (r: Result<(), String>)
    ensures
        available ==> r is Ok,
        !available ==> (r matches Err(m) && m@ == not_configured_message()),
{
    if available {
        Ok(())
    } else {
        Err(String::from_str("FlareSolverr not configured (set FLARESOLVERR_URL)"))
    }
}

/// Where a request through FlareSolverr's shared session stands.
#[derive(Debug)]
pub enum SessionFlow {
    /// The shared session id is being looked up.
    AwaitLookup,
    /// No session existed; a new one is being created.
    AwaitCreate,
    /// The command is running within `session`.
    AwaitSolution { session: String },
    /// The request has finished.
    Finished,
}

/// What the outside world reports back to a session flow.
#[derive(Debug)]
pub enum SessionEvent {
    /// The shared session id, if one exists.
    Looked(Option<String>),
    /// The outcome of creating a session.
    Created(Result<String, String>),
    /// The outcome of the command.
    Solved(Result<FlareSolverrSolution, String>),
}

/// What a session flow asks the outside world to do next.
#[derive(Debug)]
pub enum SessionAction {
    /// Look up the shared session id.
    LookUpSession,
    /// Create a session (and record it as the shared one).
    CreateSession,
    /// Run the command within `session`.
    RunWithin { session: String },
    /// The request is over, with this outcome.
    Finish(Result<FlareSolverrSolution, String>),
}

/// `event` is the kind of report that `state` waits for.
pub open spec fn session_event_fits(state: SessionFlow, event: SessionEvent) -> bool {
    match state {
        SessionFlow::AwaitLookup => event is Looked,
        SessionFlow::AwaitCreate => event is Created,
        SessionFlow::AwaitSolution { .. } => event is Solved,
        SessionFlow::Finished => false,
    }
}

/// How many more reports a session flow can take before it finishes.
pub open spec fn session_steps_left(state: SessionFlow) -> nat {
    match state {
        SessionFlow::AwaitLookup => 3,
        SessionFlow::AwaitCreate => 2,
        SessionFlow::AwaitSolution { .. } => 1,
        SessionFlow::Finished => 0,
    }
}

/// The flow waits for the command to run within `id`, and has asked for that.
pub open spec fn runs_within(state: SessionFlow, action: SessionAction, id: Seq<char>) -> bool {
    &&& state matches SessionFlow::AwaitSolution { session } && session@ == id
    &&& action matches SessionAction::RunWithin { session } && session@ == id
}

impl SessionFlow {
    /// A new flow: it first looks up the shared session.
    pub fn start() -> (r: (SessionFlow, SessionAction))
        ensures
            r.0 is AwaitLookup,
            r.1 is LookUpSession,
    {
        (SessionFlow::AwaitLookup, SessionAction::LookUpSession)
    }

    /// Takes one report: an existing session is reused, a missing one is created, a failed
    /// creation ends the request, and the command's outcome ends it.
    pub fn step(self, event: SessionEvent) -> (r: (SessionFlow, SessionAction))
        requires
            session_event_fits(self, event),
        ensures
            session_step(self, event, r.0, r.1),
            session_steps_left(r.0) < session_steps_left(self),
    {
        match event {
            SessionEvent::Looked(Some(id)) => {
                let again = id.clone();
                (SessionFlow::AwaitSolution { session: id }, SessionAction::RunWithin { session: again })
            },
            SessionEvent::Looked(None) => (SessionFlow::AwaitCreate, SessionAction::CreateSession),
            SessionEvent::Created(Ok(id)) => {
                let again = id.clone();
                (SessionFlow::AwaitSolution { session: id }, SessionAction::RunWithin { session: again })
            },
            SessionEvent::Created(Err(e)) => (SessionFlow::Finished, SessionAction::Finish(Err(e))),
            SessionEvent::Solved(out) => (SessionFlow::Finished, SessionAction::Finish(out)),
        }
    }
}

/// One step of a session flow: what `state` becomes, and asks for, on `event`.
pub open spec fn session_step(state: SessionFlow, event: SessionEvent, next: SessionFlow, action: SessionAction) -> bool {
    match event {
        SessionEvent::Looked(Some(id)) => runs_within(next, action, id@),
        SessionEvent::Looked(None) => next is AwaitCreate && action is CreateSession,
        SessionEvent::Created(Ok(id)) => runs_within(next, action, id@),
        SessionEvent::Created(Err(e)) => next is Finished && action == SessionAction::Finish(Err(e)),
        SessionEvent::Solved(out) => next is Finished && action == SessionAction::Finish(out),
    }
}

/// How a direct request to the tracker went.
#[derive(Debug)]
pub enum DirectOutcome {
    /// The tracker answered with HTTP status `code`, displayed as `status_text`.
    Responded { code: u16, status_text: String },
    /// The request failed before any answer; `error` says why.
    Failed { error: String },
}

/// What to do after a direct request to the tracker.
#[derive(Debug)]
pub enum DirectDecision {
    /// The answer is good: read its body.
    ReadBody,
    /// Cloudflare stood in the way or the request failed: go through FlareSolverr.
    UseSolver,
    /// Give up with this message.
    Fail(String),
}

/// The status codes by which Cloudflare blocks a plain client.
pub open spec fn is_cloudflare_block(code: u16) -> bool {
    code == 307 || code == 302 || code == 403 || code == 503
}

/// Decides what follows a direct request to `url`: a success is read, a Cloudflare block
/// or a failed request goes through FlareSolverr when one is available, and anything else
/// is an error.
pub fn direct_fetch_decision(outcome: &DirectOutcome, url: &str, solver_available: bool) -> (d:
    DirectDecision)
    ensures
        match outcome {
            DirectOutcome::Responded { code, status_text } => if is_success_status(*code) {
                d is ReadBody
            } else if is_cloudflare_block(*code) {
                if solver_available {
                    d is UseSolver
                } else {
                    d matches DirectDecision::Fail(m) && m@ == "CF blocked (HTTP "@ + status_text@
                        + ") and FlareSolverr not configured"@
                }
            } else {
                d matches DirectDecision::Fail(m) && m@ == "HTTP error "@ + status_text@ + " for "@
                    + url@
            },
            DirectOutcome::Failed { error } => if solver_available {
                d is UseSolver
            } else {
                d matches DirectDecision::Fail(m) && m@
                    == "Request failed and FlareSolverr not configured: "@ + error@
            },
        },
        d is UseSolver ==> solver_available && match outcome {
            DirectOutcome::Responded { code, .. } => *code == 302 || *code == 307 || *code == 403
                || *code == 503,
            DirectOutcome::Failed { .. } => true,
        },
        d is ReadBody ==> (outcome matches DirectOutcome::Responded { code, .. } && 200 <= *code <= 299),
{
    match outcome {
        DirectOutcome::Responded { code, status_text } => {
            let code = *code;
            if 200 <= code && code <= 299 {
                DirectDecision::ReadBody
            } else if code == 307 || code == 302 || code == 403 || code == 503 {
                if solver_available {
                    DirectDecision::UseSolver
                } else {
                    DirectDecision::Fail(
                        concat3(
                            "CF blocked (HTTP ",
                            status_text.as_str(),
                            ") and FlareSolverr not configured",
                        ),
                    )
                }
            } else {
                let head = concat3("HTTP error ", status_text.as_str(), " for ");
                DirectDecision::Fail(concat2(head.as_str(), url))
            }
        },
        DirectOutcome::Failed { error } => {
            if solver_available {
                DirectDecision::UseSolver
            } else {
                DirectDecision::Fail(
                    concat2("Request failed and FlareSolverr not configured: ", error.as_str()),
                )
            }
        },
    }
}

/// The message when the body of a good answer could not be read.
pub fn body_read_error(error: &str) -> (m: String)
    ensures
        m@ == "Failed to read response body: "@ + error@,
{
    concat2("Failed to read response body: ", error)
}

/// The content type of a form POST to the tracker.
pub const FORM_CONTENT_TYPE: &'static str = "application/x-www-form-urlencoded; charset=UTF-8";

/// The command that fetches `url` through FlareSolverr within `session`.
pub fn page_command<'a>(url: &'a str, session: &'a str) -> (c: SolverCommand<'a>)
    ensures
        c matches SolverCommand::Get { url: u, max_timeout, session: Some(s) } && u@ == url@
            && max_timeout == SOLVE_TIMEOUT_MS && s@ == session@,
{
    SolverCommand::Get { url, max_timeout: SOLVE_TIMEOUT_MS, session: Some(session) }
}

/// The command that posts `post_data` to `url` through FlareSolverr within `session`,
/// with no extra cookies.
pub fn post_command<'a>(url: &'a str, post_data: &'a str, session: &'a str) -> (c: SolverCommand<'a>)
    ensures
        c matches SolverCommand::Post {
            url: u,
            post_data: p,
            max_timeout,
            session: Some(s),
            cookies: None,
        } && u@ == url@ && p@ == post_data@ && max_timeout == SOLVE_TIMEOUT_MS && s@ == session@,
{
    SolverCommand::Post {
        url,
        post_data,
        max_timeout: SOLVE_TIMEOUT_MS,
        session: Some(session),
        cookies: None,
    }
}

/// A cookie as it stands in a `Cookie` header: its name, `=`, its value.
pub open spec fn cookie_pair(c: FlareSolverrCookie) -> Seq<char> {
    c.name@ + "="@ + c.value@
}

/// The cookies' pairs, in order, separated by `; `.
pub open spec fn join_cookie_pairs(cs: Seq<FlareSolverrCookie>) -> Seq<char>
    decreases cs.len(),
{
    if cs.len() == 0 {
        Seq::empty()
    } else if cs.len() == 1 {
        cookie_pair(cs[0])
    } else {
        join_cookie_pairs(cs.drop_last()) + "; "@ + cookie_pair(cs.last())
    }
}

/// Appends `name=value` of `c` to `out`.
fn push_cookie_pair(out: &mut String, c: &FlareSolverrCookie)
    ensures
        final(out)@ == old(out)@ + cookie_pair(*c),
{
    out.append(c.name.as_str());
    out.append("=");
    out.append(c.value.as_str());
}

/// The `Cookie` header value that carries all of `cookies`.
pub fn cookie_string(cookies: &Vec<FlareSolverrCookie>) -> (r: String)
    ensures
        r@ == join_cookie_pairs(cookies@),
{
    let mut r = String::new();
    let n = cookies.len();
    for i in 0..n
        invariant
            n == cookies@.len(),
            r@ == join_cookie_pairs(cookies@.take(i as int)),
    {
        if i > 0 {
            r.append("; ");
        }
        push_cookie_pair(&mut r, &cookies[i]);
        assert(cookies@.take(i + 1).drop_last() =~= cookies@.take(i as int));
        assert(i == 0 ==> cookies@.take(i + 1) =~= seq![cookies@[i as int]]);
    }
    assert(cookies@.take(n as int) =~= cookies@);
    r
}

/// Where a fetch of a tracker page stands.
#[derive(Debug)]
pub enum YggFetchStage {
    /// The direct request is on its way.
    AwaitDirect,
    /// The body of a good answer is being read.
    AwaitBody,
    /// The page is being fetched through FlareSolverr.
    Solving(SessionFlow),
    /// The fetch is over.
    Done,
}

/// A fetch of a tracker page: a GET, or a form POST when `post_data` is given; it goes
/// direct first and falls back to FlareSolverr.
#[derive(Debug)]
pub struct YggFetch {
    pub url: String,
    pub post_data: Option<String>,
    pub solver_available: bool,
    pub stage: YggFetchStage,
}

/// What the outside world reports back to a fetch.
#[derive(Debug)]
pub enum YggFetchEvent {
    Direct(DirectOutcome),
    Body(Result<String, String>),
    Solver(SessionEvent),
}

/// What a fetch asks the outside world to do next.
#[derive(Debug)]
pub enum YggFetchAction {
    /// Send the request to the tracker directly (with the form body and its content type
    /// for a POST).
    SendDirect,
    /// Read the body of the answer.
    ReadBody,
    /// A step of the FlareSolverr fallback; its command is the page's GET or the form's POST.
    Solver(SessionAction),
    /// The fetch is over: the page's text, or why there is none.
    Finish(Result<String, String>),
}

/// `event` is the kind of report that `stage` waits for.
pub open spec fn ygg_event_fits(stage: YggFetchStage, event: YggFetchEvent) -> bool {
    match stage {
        YggFetchStage::AwaitDirect => event is Direct,
        YggFetchStage::AwaitBody => event is Body,
        YggFetchStage::Solving(inner) => (event matches YggFetchEvent::Solver(e) && session_event_fits(inner, e)),
        YggFetchStage::Done => false,
    }
}

/// How many more reports a fetch can take.
pub open spec fn ygg_steps_left(stage: YggFetchStage) -> nat {
    match stage {
        YggFetchStage::AwaitDirect => 5,
        YggFetchStage::AwaitBody => 1,
        YggFetchStage::Solving(inner) => session_steps_left(inner),
        YggFetchStage::Done => 0,
    }
}

/// The view of the text a fetch ends with.
pub open spec fn page_of(out: Result<FlareSolverrSolution, String>) -> Result<Seq<char>, Seq<char>> {
    match out {
        Ok(s) => Ok(s.response@),
        Err(e) => Err(e@),
    }
}

/// The view of a fetch's outcome.
pub open spec fn text_result(r: Result<String, String>) -> Result<Seq<char>, Seq<char>> {
    match r {
        Ok(s) => Ok(s@),
        Err(e) => Err(e@),
    }
}

/// The fetch hands a step of the session flow `inner` on `event` to the outside world, or
/// finishes with the solved page's text.
pub open spec fn solver_step(inner: SessionFlow, event: SessionEvent, next: YggFetchStage, action: YggFetchAction) -> bool {
    exists|n: SessionFlow, a: SessionAction|
        #![trigger session_step(inner, event, n, a)]
        session_step(inner, event, n, a) && match a {
            SessionAction::Finish(out) => next is Done && (action matches YggFetchAction::Finish(r)
                && text_result(r) == page_of(out)),
            _ => next == YggFetchStage::Solving(n) && action == YggFetchAction::Solver(a),
        }
}

/// One step of a fetch.
pub open spec fn ygg_step(f: YggFetch, event: YggFetchEvent, next: YggFetch, action: YggFetchAction) -> bool {
    &&& next.url == f.url
    &&& next.post_data == f.post_data
    &&& next.solver_available == f.solver_available
    &&& match event {
        YggFetchEvent::Direct(DirectOutcome::Responded { code, status_text }) => if is_success_status(
            code,
        ) {
            next.stage is AwaitBody && action is ReadBody
        } else if is_cloudflare_block(code) && f.solver_available {
            next.stage == YggFetchStage::Solving(SessionFlow::AwaitLookup) && action
                == YggFetchAction::Solver(SessionAction::LookUpSession)
        } else if is_cloudflare_block(code) {
            next.stage is Done && (action matches YggFetchAction::Finish(Err(m)) && m@ == "CF blocked (HTTP "@
                + status_text@ + ") and FlareSolverr not configured"@)
        } else {
            next.stage is Done && (action matches YggFetchAction::Finish(Err(m)) && m@ == "HTTP error "@
                + status_text@ + " for "@ + f.url@)
        },
        YggFetchEvent::Direct(DirectOutcome::Failed { error }) => if f.solver_available {
            next.stage == YggFetchStage::Solving(SessionFlow::AwaitLookup) && action
                == YggFetchAction::Solver(SessionAction::LookUpSession)
        } else {
            next.stage is Done && (action matches YggFetchAction::Finish(Err(m)) && m@
                == "Request failed and FlareSolverr not configured: "@ + error@)
        },
        YggFetchEvent::Body(Ok(text)) => next.stage is Done && action == YggFetchAction::Finish(Ok(text)),
        YggFetchEvent::Body(Err(e)) => next.stage is Done && (action matches YggFetchAction::Finish(Err(m))
            && m@ == "Failed to read response body: "@ + e@),
        YggFetchEvent::Solver(e) => (f.stage matches YggFetchStage::Solving(inner) && solver_step(
            inner,
            e,
            next.stage,
            action,
        )),
    }
}

impl YggFetch {
    /// A new fetch of `url` (a form POST of `post_data` when given): it first goes direct.
    pub fn start(url: String, post_data: Option<String>, solver_available: bool) -> (r: (YggFetch, YggFetchAction))
        ensures
            r.0.url == url,
            r.0.post_data == post_data,
            r.0.solver_available == solver_available,
            r.0.stage is AwaitDirect,
            r.1 is SendDirect,
    {
        (YggFetch { url, post_data, solver_available, stage: YggFetchStage::AwaitDirect }, YggFetchAction::SendDirect)
    }

    fn with_stage(url: String, post_data: Option<String>, solver_available: bool, stage: YggFetchStage) -> (r: YggFetch)
        ensures
            r == (YggFetch { url, post_data, solver_available, stage }),
    {
        YggFetch { url, post_data, solver_available, stage }
    }

    /// Takes one report and gives the next thing to do.
    pub fn step(self, event: YggFetchEvent) -> (r: (YggFetch, YggFetchAction))
        requires
            ygg_event_fits(self.stage, event),
        ensures
            ygg_step(self, event, r.0, r.1),
            ygg_steps_left(r.0.stage) < ygg_steps_left(self.stage),
    {
        let YggFetch { url, post_data, solver_available, stage } = self;
        match event {
            YggFetchEvent::Direct(outcome) => {
                let decision = direct_fetch_decision(&outcome, url.as_str(), solver_available);
                match decision {
                    DirectDecision::ReadBody => (
                        Self::with_stage(url, post_data, solver_available, YggFetchStage::AwaitBody),
                        YggFetchAction::ReadBody,
                    ),
                    DirectDecision::UseSolver => (
                        Self::with_stage(
                            url,
                            post_data,
                            solver_available,
                            YggFetchStage::Solving(SessionFlow::AwaitLookup),
                        ),
                        YggFetchAction::Solver(SessionAction::LookUpSession),
                    ),
                    DirectDecision::Fail(m) => (
                        Self::with_stage(url, post_data, solver_available, YggFetchStage::Done),
                        YggFetchAction::Finish(Err(m)),
                    ),
                }
            },
            YggFetchEvent::Body(Ok(text)) => (
                Self::with_stage(url, post_data, solver_available, YggFetchStage::Done),
                YggFetchAction::Finish(Ok(text)),
            ),
            YggFetchEvent::Body(Err(e)) => (
                Self::with_stage(url, post_data, solver_available, YggFetchStage::Done),
                YggFetchAction::Finish(Err(body_read_error(e.as_str()))),
            ),
            YggFetchEvent::Solver(e) => {
                let inner = match stage {
                    YggFetchStage::Solving(inner) => inner,
                    _ => {
                        proof {
                            assert(false);
                        }
                        SessionFlow::Finished
                    },
                };
                let (n, a) = inner.step(e);
                match a {
                    SessionAction::Finish(out) => {
                        let text = match out {
                            Ok(solution) => Ok(solution.response),
                            Err(m) => Err(m),
                        };
                        (
                            Self::with_stage(url, post_data, solver_available, YggFetchStage::Done),
                            YggFetchAction::Finish(text),
                        )
                    },
                    other => (
                        Self::with_stage(url, post_data, solver_available, YggFetchStage::Solving(n)),
                        YggFetchAction::Solver(other),
                    ),
                }
            },
        }
    }
}

/// A FlareSolverr command runs only within the session that the lookup found or that was
/// just created for it.
pub proof fn commands_run_within_known_session(
    state: SessionFlow,
    event: SessionEvent,
    next: SessionFlow,
    action: SessionAction,
)
    requires
        session_event_fits(state, event),
        session_step(state, event, next, action),
        action is RunWithin,
    ensures
        (event matches SessionEvent::Looked(Some(id)) && id@ == action->session@)
            || (event matches SessionEvent::Created(Ok(id)) && id@ == action->session@),
{
}

/// The request that a fetch sends directly to the tracker.
#[derive(Debug)]
pub enum DirectRequest<'a> {
    /// A GET of `url`.
    Get { url: &'a str },
    /// A POST of the form `body` to `url`, with its content type.
    Post { url: &'a str, body: &'a str, content_type: &'static str },
}

impl YggFetch {
    /// The direct request: a GET of the URL, or a POST of the form data with the form's
    /// content type.
    pub fn direct_request(&self) -> (r: DirectRequest<'_>)
        ensures
            match self.post_data {
                None => (r matches DirectRequest::Get { url } && url@ == self.url@),
                Some(p) => (r matches DirectRequest::Post { url, body, content_type } && url@
                    == self.url@ && body@ == p@ && content_type@
                    == "application/x-www-form-urlencoded; charset=UTF-8"@),
            },
    {
        match &self.post_data {
            None => DirectRequest::Get { url: self.url.as_str() },
            Some(p) => DirectRequest::Post {
                url: self.url.as_str(),
                body: p.as_str(),
                content_type: "application/x-www-form-urlencoded; charset=UTF-8",
            },
        }
    }

    /// The FlareSolverr command of the fallback within `session`: `request.get` of the URL,
    /// or `request.post` of the form data with no extra cookies, each with the usual
    /// timeout.
    pub fn solver_command<'a>(&'a self, session: &'a str) -> (c: SolverCommand<'a>)
        ensures
            match self.post_data {
                None => (c matches SolverCommand::Get { url, max_timeout, session: Some(s) } && url@
                    == self.url@ && max_timeout == SOLVE_TIMEOUT_MS && s@ == session@),
                Some(p) => (c matches SolverCommand::Post {
                    url,
                    post_data,
                    max_timeout,
                    session: Some(s),
                    cookies: None,
                } && url@ == self.url@ && post_data@ == p@ && max_timeout == SOLVE_TIMEOUT_MS && s@
                    == session@),
            },
    {
        match &self.post_data {
            None => page_command(self.url.as_str(), session),
            Some(p) => post_command(self.url.as_str(), p.as_str(), session),
        }
    }
}

/// A fetch turns to FlareSolverr only when one is configured, and only after the tracker
/// blocked the direct request or the request failed; a good direct answer is read.
pub proof fn fallback_only_when_blocked(f: YggFetch, event: YggFetchEvent, next: YggFetch, action: YggFetchAction)
    requires
        ygg_event_fits(f.stage, event),
        ygg_step(f, event, next, action),
        event is Direct,
    ensures
        next.stage is Solving ==> f.solver_available,
        next.stage is Solving ==> match event {
            YggFetchEvent::Direct(DirectOutcome::Responded { code, .. }) => is_cloudflare_block(code),
            _ => true,
        },
        (event matches YggFetchEvent::Direct(DirectOutcome::Responded { code, .. }) && is_success_status(code))
            ==> action is ReadBody,
{
}

/// Through FlareSolverr, a fetch ends with the text of the page that FlareSolverr loaded,
/// or with FlareSolverr's error, unchanged.
pub proof fn solver_fetch_ends_with_page(f: YggFetch, event: YggFetchEvent, next: YggFetch, action: YggFetchAction)
    requires
        ygg_event_fits(f.stage, event),
        ygg_step(f, event, next, action),
        event matches YggFetchEvent::Solver(SessionEvent::Solved(_)),
    ensures
        next.stage is Done,
        action matches YggFetchAction::Finish(r) && match event {
            YggFetchEvent::Solver(SessionEvent::Solved(out)) => text_result(r) == page_of(out),
            _ => false,
        },
{
}

/// When a fetch falls back to FlareSolverr, its command runs within the session that the
/// lookup found or that was just created, and the fetch still holds the URL and form data
/// from which `solver_command` builds that command.
pub proof fn fallback_runs_within_known_session(
    f: YggFetch,
    event: YggFetchEvent,
    next: YggFetch,
    action: YggFetchAction,
)
    requires
        ygg_event_fits(f.stage, event),
        ygg_step(f, event, next, action),
        action matches YggFetchAction::Solver(SessionAction::RunWithin { .. }),
    ensures
        next.url == f.url && next.post_data == f.post_data,
        ({
            let s = action->Solver_0->session@;
            ||| event matches YggFetchEvent::Solver(SessionEvent::Looked(Some(id))) && id@ == s
            ||| event matches YggFetchEvent::Solver(SessionEvent::Created(Ok(id))) && id@ == s
        }),
{
    let inner = f.stage->Solving_0;
    let e = event->Solver_0;
    let (n, a) = choose|n: SessionFlow, a: SessionAction|
        #![trigger session_step(inner, e, n, a)]
        session_step(inner, e, n, a) && match a {
            SessionAction::Finish(out) => next.stage is Done && (action matches YggFetchAction::Finish(r)
                && text_result(r) == page_of(out)),
            _ => next.stage == YggFetchStage::Solving(n) && action == YggFetchAction::Solver(a),
        };
    assert(action == YggFetchAction::Solver(a));
}

/// The `cmd` of each FlareSolverr command: `sessions.create` opens a session,
/// `request.get` loads a page and `request.post` submits a form.
pub proof fn command_names_are_fixed(c: SolverCommand)
    ensures
        c is CreateSession ==> command_name(c) == "sessions.create"@,
        c is Get ==> command_name(c) == "request.get"@,
        c is Post ==> command_name(c) == "request.post"@,
{
}

/// A fetch goes to FlareSolverr only after the direct request failed outright or was
/// answered with 302, 307, 403 or 503; any other status that is not a success ends the
/// fetch with `HTTP error <status> for <url>`, and a success is read directly.
pub proof fn fallback_only_on_block_statuses(f: YggFetch, event: YggFetchEvent, next: YggFetch, action: YggFetchAction)
    requires
        ygg_event_fits(f.stage, event),
        ygg_step(f, event, next, action),
    ensures
        (event is Direct && next.stage is Solving) ==> f.solver_available,
        match event {
            YggFetchEvent::Direct(DirectOutcome::Responded { code, status_text }) => {
                &&& next.stage is Solving ==> (code == 302 || code == 307 || code == 403 || code == 503)
                &&& 200 <= code <= 299 ==> action is ReadBody
                &&& (!(200 <= code <= 299) && code != 302 && code != 307 && code != 403 && code != 503)
                    ==> (next.stage is Done && (action matches YggFetchAction::Finish(Err(m)) && m@
                    == "HTTP error "@ + status_text@ + " for "@ + f.url@))
            },
            _ => true,
        },
{
}

} // verus!
