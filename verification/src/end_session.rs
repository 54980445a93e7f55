//! RP-initiated logout: ending a user's session at the request of a client.
//!
//! The flow is a state machine. It decides; whoever drives it reads the
//! cookie, verifies the hint and talks to the repository, and hands back what
//! it found. [`handle`] drives it against an in-memory [`Directory`].

use vstd::prelude::*;
use crate::directory::Client;
use crate::directory::ClientView;
use crate::directory::Directory;
use crate::directory::DirectoryView;
use crate::directory::Session;
use crate::directory::SessionView;
use crate::location::append_state;
use crate::location::with_state;

verus! {

/// The parameters of a logout request, decoded from a query string or from a
/// form body.
#[derive(Clone, Debug, Default, PartialEq, Eq)]
pub struct LogoutRequest {
    /// An ID token that the provider issued earlier, naming the session to end.
    pub id_token_hint: Option<String>,
    /// Who is logging out, as the client knows them.
    pub logout_hint: Option<String>,
    pub client_id: Option<String>,
    /// Where to send the user after the logout.
    pub post_logout_redirect_uri: Option<String>,
    /// An opaque value that is handed back to the client with the redirect.
    pub state: Option<String>,
    pub ui_locales: Option<String>,
}

/// The mathematical content of a [`LogoutRequest`].
pub struct LogoutParameters {
    pub id_token_hint: Option<Seq<char>>,
    pub logout_hint: Option<Seq<char>>,
    pub client_id: Option<Seq<char>>,
    pub post_logout_redirect_uri: Option<Seq<char>>,
    pub state: Option<Seq<char>>,
    pub ui_locales: Option<Seq<char>>,
}

impl View for LogoutRequest {
    type V = LogoutParameters;

    open spec fn view(&self) -> LogoutParameters {
        LogoutParameters {
            id_token_hint: self.id_token_hint.deep_view(),
            logout_hint: self.logout_hint.deep_view(),
            client_id: self.client_id.deep_view(),
            post_logout_redirect_uri: self.post_logout_redirect_uri.deep_view(),
            state: self.state.deep_view(),
            ui_locales: self.ui_locales.deep_view(),
        }
    }
}

/// What a verified `id_token_hint` asserts: the user it was issued for,
/// the session it was issued in, where the token names one, and when it
/// expires. A logout does not ask whether the token has expired.
#[derive(Clone, Copy, Debug, PartialEq, Eq)]
pub struct HintClaims {
    pub user: u64,
    pub session: Option<u64>,
    pub expires_at: u64,
}

/// The session that a logout is about to end.
#[derive(Clone, Copy, Debug, PartialEq, Eq)]
pub struct SessionRef {
    pub id: u64,
    pub user: u64,
}

/// Why a logout request was turned down.
#[derive(Clone, Copy, Debug, PartialEq, Eq, Structural)]
pub enum LogoutError {
    /// The `id_token_hint` is not a token that this provider signed.
    InvalidHint,
    /// The hint and the session do not belong to the same user.
    UserMismatch,
    /// Only one of `client_id` and `post_logout_redirect_uri` was given.
    MalformedRequest,
    /// No client is registered under `client_id`.
    UnknownClient,
    /// The client did not register `post_logout_redirect_uri`.
    RedirectNotRegistered,
    /// The repository failed, or answered something that was not asked.
    Repository,
}

/// The kinds of failure, by what the caller gets to see.
#[derive(Clone, Copy, Debug, PartialEq, Eq, Structural)]
pub enum ErrorClass {
    /// The request is malformed or contradicts itself: the client's fault.
    RequestValidation,
    /// Hint and cookie disagree on who is logging out: worth recording.
    AuthenticationMismatch,
    /// The provider's own failure.
    Repository,
}

impl LogoutError {
    pub open spec fn class_of(self) -> ErrorClass {
        match self {
            LogoutError::UserMismatch => ErrorClass::AuthenticationMismatch,
            LogoutError::Repository => ErrorClass::Repository,
            _ => ErrorClass::RequestValidation,
        }
    }

    /// The kind of failure that this error is.
    pub fn class(&self) -> (r: ErrorClass)
        ensures
            r == self.class_of(),
    {
        match self {
            LogoutError::UserMismatch => ErrorClass::AuthenticationMismatch,
            LogoutError::Repository => ErrorClass::Repository,
            _ => ErrorClass::RequestValidation,
        }
    }
}

/// What the browser is answered after a logout.
#[derive(Clone, Debug, PartialEq, Eq)]
pub enum LogoutResponse {
    /// A page that confirms the logout.
    Confirmation,
    /// A redirect to this location.
    Redirect(String),
}

/// The mathematical content of a [`LogoutResponse`].
pub enum ResponseView {
    Confirmation,
    Redirect(Seq<char>),
}

impl View for LogoutResponse {
    type V = ResponseView;

    open spec fn view(&self) -> ResponseView {
        match self {
            LogoutResponse::Confirmation => ResponseView::Confirmation,
            LogoutResponse::Redirect(location) => ResponseView::Redirect(location@),
        }
    }
}

/// How a logout ended: what is answered, and which session was terminated.
/// The session cookie is cleared exactly when a session was terminated.
#[derive(Debug, PartialEq, Eq)]
pub struct LogoutOutcome {
    pub response: Result<LogoutResponse, LogoutError>,
    pub terminated: Option<u64>,
}

/// The mathematical content of a [`LogoutOutcome`].
pub struct OutcomeView {
    pub response: Result<ResponseView, LogoutError>,
    pub terminated: Option<u64>,
}

impl View for LogoutOutcome {
    type V = OutcomeView;

    open spec fn view(&self) -> OutcomeView {
        OutcomeView {
            response: match self.response {
                Ok(response) => Ok(response@),
                Err(error) => Err(error),
            },
            terminated: self.terminated,
        }
    }
}

impl OutcomeView {
    /// The status that the answer goes out with: a confirmation is a
    /// success, a redirect is a redirect, and every request that is turned
    /// down is a bad request, whatever was wrong with it. Only a failure of
    /// the repository is the provider's own.
    pub open spec fn status(self) -> u16 {
        match self.response {
            Ok(ResponseView::Confirmation) => 200,
            Ok(ResponseView::Redirect(_)) => 303,
            Err(LogoutError::Repository) => 500,
            Err(_) => 400,
        }
    }
}

impl LogoutOutcome {
    /// The HTTP status that the answer goes out with.
    pub fn status(&self) -> (code: u16)
        ensures
            code == self@.status(),
    {
        match &self.response {
            Ok(LogoutResponse::Confirmation) => 200,
            Ok(LogoutResponse::Redirect(_)) => 303,
            Err(LogoutError::Repository) => 500,
            Err(_) => 400,
        }
    }

    /// Tells whether the answer replaces the session cookie by an empty,
    /// expired one.
    pub fn clears_cookie(&self) -> (r: bool)
        ensures
            r == self@.terminated.is_some(),
    {
        self.terminated.is_some()
    }
}

/// What the flow asks its driver to do next.
#[derive(Clone, Debug, PartialEq, Eq)]
pub enum Action {
    /// Decrypt the session cookie, if the browser sent one.
    ReadCookie,
    /// Look up a session in the repository.
    LoadSession { id: u64 },
    /// Check that this provider signed the token. Whether the token has
    /// expired is not to be checked.
    VerifyHint { token: String },
    /// Look up a client in the repository.
    LoadClient { client_id: String },
    /// Mark the session terminated, in one write.
    TerminateSession { id: u64 },
}

/// The mathematical content of an [`Action`].
pub enum ActionView {
    ReadCookie,
    LoadSession { id: u64 },
    VerifyHint { token: Seq<char> },
    LoadClient { client_id: Seq<char> },
    TerminateSession { id: u64 },
}

impl View for Action {
    type V = ActionView;

    open spec fn view(&self) -> ActionView {
        match self {
            Action::ReadCookie => ActionView::ReadCookie,
            Action::LoadSession { id } => ActionView::LoadSession { id: *id },
            Action::VerifyHint { token } => ActionView::VerifyHint { token: token@ },
            Action::LoadClient { client_id } => ActionView::LoadClient { client_id: client_id@ },
            Action::TerminateSession { id } => ActionView::TerminateSession { id: *id },
        }
    }
}

/// What the driver found when it did what the flow asked.
pub enum Event<'a> {
    /// The session that the cookie refers to. `None` where there is no
    /// cookie, or where it cannot be decrypted.
    Cookie(Option<u64>),
    /// The session that was looked up, if there is one.
    Session(Option<&'a Session>),
    /// What the hint asserts. `None` where this provider did not sign it.
    Hint(Option<HintClaims>),
    /// The client that was looked up, if there is one.
    Client(Option<&'a Client>),
    /// The session is terminated.
    Terminated,
    /// The repository failed.
    RepositoryFailed,
}

/// The mathematical content of an [`Event`].
pub enum EventView {
    Cookie(Option<u64>),
    Session(Option<SessionView>),
    Hint(Option<HintClaims>),
    Client(Option<ClientView>),
    Terminated,
    RepositoryFailed,
}

impl<'a> View for Event<'a> {
    type V = EventView;

    open spec fn view(&self) -> EventView {
        match self {
            Event::Cookie(session) => EventView::Cookie(*session),
            Event::Session(found) => EventView::Session(found.deep_view()),
            Event::Hint(claims) => EventView::Hint(*claims),
            Event::Client(found) => EventView::Client(found.deep_view()),
            Event::Terminated => EventView::Terminated,
            Event::RepositoryFailed => EventView::RepositoryFailed,
        }
    }
}

/// What a flow is waiting for.
#[derive(Clone, Copy, Debug, PartialEq, Eq)]
pub enum Awaiting {
    /// The session that the cookie refers to.
    Cookie,
    /// The session `id`, which the cookie refers to.
    CookieSession { id: u64 },
    /// What the hint asserts.
    Hint,
    /// The session `id`, which the hint names, and which must belong to `user`.
    HintSession { id: u64, user: u64 },
    /// The client that the request names.
    Client,
    /// The end of session `id`.
    Termination { id: u64 },
}

/// A logout under way: the request, what has been found out, and what is
/// being waited for.
pub struct LogoutFlow {
    request: LogoutRequest,
    awaiting: Awaiting,
    session: Option<SessionRef>,
}

/// The mathematical content of a [`LogoutFlow`].
pub struct FlowView {
    pub request: LogoutParameters,
    pub awaiting: Awaiting,
    /// The active session that was resolved so far.
    pub session: Option<SessionRef>,
}

impl View for LogoutFlow {
    type V = FlowView;

    closed spec fn view(&self) -> FlowView {
        FlowView { request: self.request@, awaiting: self.awaiting, session: self.session }
    }
}

/// Where a logout stands.
pub enum Progress {
    /// The flow waits for the driver to do what the action says.
    Waiting(LogoutFlow, Action),
    /// The logout is over.
    Done(LogoutOutcome),
}

/// The mathematical content of a [`Progress`].
pub enum ProgressView {
    Waiting(FlowView, ActionView),
    Done(OutcomeView),
}

impl View for Progress {
    type V = ProgressView;

    open spec fn view(&self) -> ProgressView {
        match self {
            Progress::Waiting(flow, action) => ProgressView::Waiting(flow@, action@),
            Progress::Done(outcome) => ProgressView::Done(outcome@),
        }
    }
}

/// The request is turned down, and nothing is terminated.
pub open spec fn rejected(error: LogoutError) -> ProgressView {
    ProgressView::Done(OutcomeView { response: Err(error), terminated: None })
}

/// What is answered to a request that passed every check: a redirect to the
/// place that it asked for, with its `state` appended unchanged, or a
/// confirmation where it named no client.
pub open spec fn response_to(request: LogoutParameters) -> ResponseView {
    match (request.client_id, request.post_logout_redirect_uri) {
        (Some(_), Some(uri)) => ResponseView::Redirect(with_state(uri, request.state)),
        _ => ResponseView::Confirmation,
    }
}

/// The logout succeeded, having terminated `terminated`.
pub open spec fn completed(request: LogoutParameters, terminated: Option<u64>) -> ProgressView {
    ProgressView::Done(OutcomeView { response: Ok(response_to(request)), terminated })
}

/// Every check has passed: terminate the session, if one was resolved.
pub open spec fn enter_termination(
    request: LogoutParameters,
    session: Option<SessionRef>,
) -> ProgressView {
    match session {
        Some(resolved) => ProgressView::Waiting(
            FlowView { request, awaiting: Awaiting::Termination { id: resolved.id }, session },
            ActionView::TerminateSession { id: resolved.id },
        ),
        None => completed(request, None),
    }
}

/// The hint has passed: check the client and where it wants to go. A request
/// names both or neither.
pub open spec fn enter_client(
    request: LogoutParameters,
    session: Option<SessionRef>,
) -> ProgressView {
    match (request.client_id, request.post_logout_redirect_uri) {
        (None, None) => enter_termination(request, session),
        (Some(client_id), Some(_)) => ProgressView::Waiting(
            FlowView { request, awaiting: Awaiting::Client, session },
            ActionView::LoadClient { client_id },
        ),
        _ => rejected(LogoutError::MalformedRequest),
    }
}

/// The cookie has been dealt with: check the hint, if there is one.
pub open spec fn enter_hint(request: LogoutParameters, session: Option<SessionRef>) -> ProgressView {
    match request.id_token_hint {
        Some(token) => ProgressView::Waiting(
            FlowView { request, awaiting: Awaiting::Hint, session },
            ActionView::VerifyHint { token },
        ),
        None => enter_client(request, session),
    }
}

/// The session that a lookup resolved: the one found, if it is still active.
pub open spec fn active_ref(found: Option<SessionView>) -> Option<SessionRef> {
    match found {
        Some(session) if session.is_active() => Some(
            SessionRef { id: session.id, user: session.user },
        ),
        _ => None,
    }
}

/// Whether a lookup of session `id` was answered with another session.
pub open spec fn wrong_session(found: Option<SessionView>, id: u64) -> bool {
    found matches Some(session) && session.id != id
}

/// How a logout begins: by reading the cookie.
pub open spec fn begin_spec(request: LogoutParameters) -> ProgressView {
    ProgressView::Waiting(
        FlowView { request, awaiting: Awaiting::Cookie, session: None },
        ActionView::ReadCookie,
    )
}

/// How a flow goes on when its driver hands it `event`. An event that does
/// not answer what the flow waits for ends the logout as a failure of the
/// repository.
pub open spec fn resume_spec(flow: FlowView, event: EventView) -> ProgressView {
    match (flow.awaiting, event) {
        (Awaiting::Cookie, EventView::Cookie(None)) => enter_hint(flow.request, None),
        (Awaiting::Cookie, EventView::Cookie(Some(id))) => ProgressView::Waiting(
            FlowView { awaiting: Awaiting::CookieSession { id }, ..flow },
            ActionView::LoadSession { id },
        ),
        (Awaiting::CookieSession { id }, EventView::Session(found)) => if wrong_session(found, id) {
            rejected(LogoutError::Repository)
        } else {
            enter_hint(flow.request, active_ref(found))
        },
        (Awaiting::Hint, EventView::Hint(None)) => rejected(LogoutError::InvalidHint),
        (Awaiting::Hint, EventView::Hint(Some(claims))) => match flow.session {
            Some(resolved) => if resolved.user == claims.user {
                enter_client(flow.request, flow.session)
            } else {
                rejected(LogoutError::UserMismatch)
            },
            None => match claims.session {
                Some(id) => ProgressView::Waiting(
                    FlowView { awaiting: Awaiting::HintSession { id, user: claims.user }, ..flow },
                    ActionView::LoadSession { id },
                ),
                None => enter_client(flow.request, None),
            },
        },
        (Awaiting::HintSession { id, user }, EventView::Session(found)) => if wrong_session(
            found,
            id,
        ) {
            rejected(LogoutError::Repository)
        } else {
            match active_ref(found) {
                Some(resolved) => if resolved.user == user {
                    enter_client(flow.request, Some(resolved))
                } else {
                    rejected(LogoutError::UserMismatch)
                },
                None => enter_client(flow.request, None),
            }
        },
        (Awaiting::Client, EventView::Client(None)) => rejected(LogoutError::UnknownClient),
        (Awaiting::Client, EventView::Client(Some(client))) => if flow.request.client_id != Some(
            client.client_id,
        ) {
            rejected(LogoutError::Repository)
        } else if flow.request.post_logout_redirect_uri matches Some(uri)
            && client.accepts_post_logout_redirect(uri) {
            enter_termination(flow.request, flow.session)
        } else {
            rejected(LogoutError::RedirectNotRegistered)
        },
        (Awaiting::Termination { id }, EventView::Terminated) => completed(flow.request, Some(id)),
        _ => rejected(LogoutError::Repository),
    }
}

fn reject(error: LogoutError) -> (progress: Progress)
    ensures
        progress@ == rejected(error),
{
    Progress::Done(LogoutOutcome { response: Err(error), terminated: None })
}

fn complete(request: LogoutRequest, terminated: Option<u64>) -> (progress: Progress)
    ensures
        progress@ == completed(request@, terminated),
{
    let response = match (&request.client_id, &request.post_logout_redirect_uri) {
        (Some(_), Some(uri)) => LogoutResponse::Redirect(append_state(uri.as_str(), &request.state)),
        _ => LogoutResponse::Confirmation,
    };
    Progress::Done(LogoutOutcome { response: Ok(response), terminated })
}

fn terminate(request: LogoutRequest, session: Option<SessionRef>) -> (progress: Progress)
    ensures
        progress@ == enter_termination(request@, session),
{
    match session {
        Some(resolved) => Progress::Waiting(
            LogoutFlow { request, awaiting: Awaiting::Termination { id: resolved.id }, session },
            Action::TerminateSession { id: resolved.id },
        ),
        None => complete(request, None),
    }
}

fn check_client(request: LogoutRequest, session: Option<SessionRef>) -> (progress: Progress)
    ensures
        progress@ == enter_client(request@, session),
{
    if request.client_id.is_some() != request.post_logout_redirect_uri.is_some() {
        return reject(LogoutError::MalformedRequest);
    }
    let wanted = match &request.client_id {
        Some(client_id) => Some(client_id.clone()),
        None => None,
    };
    match wanted {
        Some(client_id) => Progress::Waiting(
            LogoutFlow { request, awaiting: Awaiting::Client, session },
            Action::LoadClient { client_id },
        ),
        None => terminate(request, session),
    }
}

fn check_hint(request: LogoutRequest, session: Option<SessionRef>) -> (progress: Progress)
    ensures
        progress@ == enter_hint(request@, session),
{
    let hint = match &request.id_token_hint {
        Some(token) => Some(token.clone()),
        None => None,
    };
    match hint {
        Some(token) => Progress::Waiting(
            LogoutFlow { request, awaiting: Awaiting::Hint, session },
            Action::VerifyHint { token },
        ),
        None => check_client(request, session),
    }
}

fn resolve(found: Option<&Session>) -> (r: Option<SessionRef>)
    ensures
        r == active_ref(found.deep_view()),
{
    match found {
        Some(session) => if session.is_active() {
            Some(SessionRef { id: session.id, user: session.user })
        } else {
            None
        },
        None => None,
    }
}

fn is_wrong_session(found: Option<&Session>, id: u64) -> (r: bool)
    ensures
        r == wrong_session(found.deep_view(), id),
{
    match found {
        Some(session) => session.id != id,
        None => false,
    }
}

impl LogoutFlow {
    /// Begins the logout that `request` asks for.
    pub fn begin(request: LogoutRequest) -> (progress: Progress)
        ensures
            progress@ == begin_spec(request@),
    {
        Progress::Waiting(
            LogoutFlow { request, awaiting: Awaiting::Cookie, session: None },
            Action::ReadCookie,
        )
    }

    /// Goes on with what the driver found.
    pub fn resume(self, event: Event<'_>) -> (progress: Progress)
        ensures
            progress@ == resume_spec(self@, event@),
    {
        let LogoutFlow { request, awaiting, session } = self;
        match awaiting {
            Awaiting::Cookie => match event {
                Event::Cookie(None) => check_hint(request, None),
                Event::Cookie(Some(id)) => Progress::Waiting(
                    LogoutFlow { request, awaiting: Awaiting::CookieSession { id }, session },
                    Action::LoadSession { id },
                ),
                _ => reject(LogoutError::Repository),
            },
            Awaiting::CookieSession { id } => match event {
                Event::Session(found) => if is_wrong_session(found, id) {
                    reject(LogoutError::Repository)
                } else {
                    check_hint(request, resolve(found))
                },
                _ => reject(LogoutError::Repository),
            },
            Awaiting::Hint => match event {
                Event::Hint(None) => reject(LogoutError::InvalidHint),
                Event::Hint(Some(claims)) => match session {
                    Some(resolved) => if resolved.user == claims.user {
                        check_client(request, session)
                    } else {
                        reject(LogoutError::UserMismatch)
                    },
                    None => match claims.session {
                        Some(id) => Progress::Waiting(
                            LogoutFlow {
                                request,
                                awaiting: Awaiting::HintSession { id, user: claims.user },
                                session,
                            },
                            Action::LoadSession { id },
                        ),
                        None => check_client(request, None),
                    },
                },
                _ => reject(LogoutError::Repository),
            },
            Awaiting::HintSession { id, user } => match event {
                Event::Session(found) => if is_wrong_session(found, id) {
                    reject(LogoutError::Repository)
                } else {
                    match resolve(found) {
                        Some(resolved) => if resolved.user == user {
                            check_client(request, Some(resolved))
                        } else {
                            reject(LogoutError::UserMismatch)
                        },
                        None => check_client(request, None),
                    }
                },
                _ => reject(LogoutError::Repository),
            },
            Awaiting::Client => match event {
                Event::Client(None) => reject(LogoutError::UnknownClient),
                Event::Client(Some(client)) => {
                    let named = match &request.client_id {
                        Some(client_id) => *client_id == client.client_id,
                        None => false,
                    };
                    let registered = match &request.post_logout_redirect_uri {
                        Some(uri) => client.accepts_post_logout_redirect(uri),
                        None => false,
                    };
                    if !named {
                        reject(LogoutError::Repository)
                    } else if registered {
                        terminate(request, session)
                    } else {
                        reject(LogoutError::RedirectNotRegistered)
                    }
                },
                _ => reject(LogoutError::Repository),
            },
            Awaiting::Termination { id } => match event {
                Event::Terminated => complete(request, Some(id)),
                _ => reject(LogoutError::Repository),
            },
        }
    }
}

/// What a logout finds around it: the session that the cookie decrypts to,
/// what the request's hint asserts if this provider signed it, and the
/// sessions and clients in the repository.
pub struct Environment {
    pub cookie: Option<u64>,
    pub hint: Option<HintClaims>,
    pub directory: DirectoryView,
}

impl Environment {
    /// The active session that the cookie refers to.
    pub open spec fn cookie_session(self) -> Option<SessionRef> {
        match self.cookie {
            Some(id) => active_ref(self.directory.sessions.get(id)),
            None => None,
        }
    }

    /// The active session that the hint names.
    pub open spec fn hint_session(self) -> Option<SessionRef> {
        match self.hint {
            Some(HintClaims { session: Some(id), .. }) => active_ref(
                self.directory.sessions.get(id),
            ),
            _ => None,
        }
    }

    /// What a driver finds in this environment when it does what `action`
    /// says.
    pub open spec fn answer(self, action: ActionView) -> EventView {
        match action {
            ActionView::ReadCookie => EventView::Cookie(self.cookie),
            ActionView::LoadSession { id } => EventView::Session(self.directory.sessions.get(id)),
            ActionView::VerifyHint { token } => EventView::Hint(self.hint),
            ActionView::LoadClient { client_id } => EventView::Client(
                self.directory.clients.get(client_id),
            ),
            ActionView::TerminateSession { id } => EventView::Terminated,
        }
    }
}

/// The session that a logout is about: the active session of the cookie;
/// without one, the active session that the request's hint names.
pub open spec fn resolved_session(request: LogoutParameters, env: Environment) -> Option<
    SessionRef,
> {
    if env.cookie_session() is Some {
        env.cookie_session()
    } else if request.id_token_hint is Some {
        env.hint_session()
    } else {
        None
    }
}

/// Why the hint of a request is turned down, if it is: the provider did not
/// sign it, or it was issued for another user than the one whose session is
/// to end.
pub open spec fn hint_rejection(request: LogoutParameters, env: Environment) -> Option<
    LogoutError,
> {
    if request.id_token_hint is None {
        None
    } else {
        match env.hint {
            None => Some(LogoutError::InvalidHint),
            Some(claims) => match resolved_session(request, env) {
                Some(session) if session.user != claims.user => Some(LogoutError::UserMismatch),
                _ => None,
            },
        }
    }
}

/// Why the client parameters of a request are turned down, if they are: one
/// is missing, the client is unknown, or it did not register the place that
/// the request wants to go to.
pub open spec fn client_rejection(request: LogoutParameters, env: Environment) -> Option<
    LogoutError,
> {
    match (request.client_id, request.post_logout_redirect_uri) {
        (None, None) => None,
        (Some(client_id), Some(uri)) => match env.directory.clients.get(client_id) {
            None => Some(LogoutError::UnknownClient),
            Some(client) => if client.accepts_post_logout_redirect(uri) {
                None
            } else {
                Some(LogoutError::RedirectNotRegistered)
            },
        },
        _ => Some(LogoutError::MalformedRequest),
    }
}

/// Why a request is turned down, if it is. The hint is judged first.
pub open spec fn rejection(request: LogoutParameters, env: Environment) -> Option<LogoutError> {
    if hint_rejection(request, env) is Some {
        hint_rejection(request, env)
    } else {
        client_rejection(request, env)
    }
}

/// How the logout that `request` asks for ends in `env`, as long as the
/// repository does not fail.
pub open spec fn logout_outcome(request: LogoutParameters, env: Environment) -> OutcomeView {
    match rejection(request, env) {
        Some(error) => OutcomeView { response: Err(error), terminated: None },
        None => OutcomeView {
            response: Ok(response_to(request)),
            terminated: match resolved_session(request, env) {
                Some(session) => Some(session.id),
                None => None,
            },
        },
    }
}

/// The repository after the logout that `request` asks for, done at `now`.
pub open spec fn directory_after(
    request: LogoutParameters,
    env: Environment,
    now: u64,
) -> DirectoryView {
    match logout_outcome(request, env).terminated {
        Some(id) => env.directory.finish(id, now),
        None => env.directory,
    }
}

impl Awaiting {
    /// How many answers a flow that waits for this can still need, at most.
    pub open spec fn steps_left(self) -> nat {
        match self {
            Awaiting::Cookie => 6,
            Awaiting::CookieSession { .. } => 5,
            Awaiting::Hint => 4,
            Awaiting::HintSession { .. } => 3,
            Awaiting::Client => 2,
            Awaiting::Termination { .. } => 1,
        }
    }
}

impl ProgressView {
    /// How many answers the logout can still need, at most.
    pub open spec fn steps_left(self) -> nat {
        match self {
            ProgressView::Waiting(flow, _) => flow.awaiting.steps_left(),
            ProgressView::Done(_) => 0,
        }
    }

    /// The action is the one that the flow waits for.
    pub open spec fn coherent(self) -> bool {
        match self {
            ProgressView::Waiting(flow, action) => match flow.awaiting {
                Awaiting::Cookie => action == ActionView::ReadCookie,
                Awaiting::CookieSession { id } => action == (ActionView::LoadSession { id }),
                Awaiting::Hint => flow.request.id_token_hint matches Some(token) && action == (
                ActionView::VerifyHint { token }),
                Awaiting::HintSession { id, .. } => action == (ActionView::LoadSession { id }),
                Awaiting::Client => flow.request.client_id matches Some(client_id) && action == (
                ActionView::LoadClient { client_id }),
                Awaiting::Termination { id } => action == (ActionView::TerminateSession { id }),
            },
            ProgressView::Done(_) => true,
        }
    }
}

/// How the logout at `progress` ends when every action is answered from
/// `env`, if `fuel` answers are enough.
pub open spec fn run(progress: ProgressView, env: Environment, fuel: nat) -> OutcomeView
    decreases fuel,
{
    match progress {
        ProgressView::Done(outcome) => outcome,
        ProgressView::Waiting(flow, action) => if fuel == 0 {
            OutcomeView { response: Err(LogoutError::Repository), terminated: None }
        } else {
            run(resume_spec(flow, env.answer(action)), env, (fuel - 1) as nat)
        },
    }
}

/// A logout begins with six answers to wait for at most, by asking for the
/// cookie.
pub proof fn lemma_flow_begins(request: LogoutParameters)
    ensures
        begin_spec(request).steps_left() == 6,
        begin_spec(request).coherent(),
{
}

/// Every answer leaves a flow with fewer answers to wait for. What a flow
/// asks is always what it then waits for, and only the end of a session
/// makes a logout end with a session terminated.
pub proof fn lemma_flow_advances(flow: FlowView, event: EventView)
    ensures
        resume_spec(flow, event).steps_left() < flow.awaiting.steps_left(),
        resume_spec(flow, event).coherent(),
        resume_spec(flow, event) matches ProgressView::Done(outcome) ==> {
            ||| outcome.terminated is None
            ||| flow.awaiting matches Awaiting::Termination { id } && event == EventView::Terminated
                && outcome.terminated == Some(id) && outcome.response is Ok
        },
{
}

proof fn lemma_run_from_termination(
    request: LogoutParameters,
    session: Option<SessionRef>,
    env: Environment,
    fuel: nat,
)
    requires
        fuel >= 1,
    ensures
        run(enter_termination(request, session), env, fuel) == (OutcomeView {
            response: Ok(response_to(request)),
            terminated: match session {
                Some(resolved) => Some(resolved.id),
                None => None,
            },
        }),
{
    reveal_with_fuel(run, 3);
}

proof fn lemma_run_from_client(
    request: LogoutParameters,
    session: Option<SessionRef>,
    env: Environment,
    fuel: nat,
)
    requires
        fuel >= 2,
        env.directory.wf(),
    ensures
        run(enter_client(request, session), env, fuel) == match client_rejection(request, env) {
            Some(error) => OutcomeView { response: Err(error), terminated: None },
            None => OutcomeView {
                response: Ok(response_to(request)),
                terminated: match session {
                    Some(resolved) => Some(resolved.id),
                    None => None,
                },
            },
        },
{
    reveal_with_fuel(run, 2);
    lemma_run_from_termination(request, session, env, fuel);
    lemma_run_from_termination(request, session, env, (fuel - 1) as nat);
    if let Some(client_id) = request.client_id {
        assert(env.directory.clients.contains_key(client_id) ==> env.directory.clients[client_id].client_id
            == client_id);
    }
}

proof fn lemma_run_from_hint(request: LogoutParameters, env: Environment, fuel: nat)
    requires
        fuel >= 4,
        env.directory.wf(),
    ensures
        run(enter_hint(request, env.cookie_session()), env, fuel) == logout_outcome(request, env),
{
    reveal_with_fuel(run, 3);
    let session = env.cookie_session();
    lemma_run_from_client(request, session, env, fuel);
    lemma_run_from_client(request, session, env, (fuel - 1) as nat);
    lemma_run_from_client(request, None, env, (fuel - 1) as nat);
    lemma_run_from_client(request, None, env, (fuel - 2) as nat);
    lemma_run_from_client(request, env.hint_session(), env, (fuel - 2) as nat);
    if let Some(HintClaims { session: Some(id), .. }) = env.hint {
        assert(env.directory.sessions.contains_key(id) ==> env.directory.sessions[id].id == id);
    }
}

/// The flow decides what the rules say: begun with a request and answered
/// from `env`, it ends as `logout_outcome` says, within six answers.
pub proof fn lemma_flow_decides(request: LogoutParameters, env: Environment)
    requires
        env.directory.wf(),
    ensures
        run(begin_spec(request), env, 6) == logout_outcome(request, env),
{
    reveal_with_fuel(run, 3);
    lemma_run_from_hint(request, env, 5);
    lemma_run_from_hint(request, env, 4);
    if let Some(id) = env.cookie {
        assert(env.directory.sessions.contains_key(id) ==> env.directory.sessions[id].id == id);
    }
}

/// A request that is turned down terminates nothing: no session is named as
/// terminated, and the repository stays as it was. Whatever it was turned
/// down for, it is answered with the same status.
pub proof fn lemma_rejection_terminates_nothing(
    request: LogoutParameters,
    env: Environment,
    now: u64,
)
    ensures
        logout_outcome(request, env).response is Err ==> {
            &&& logout_outcome(request, env).terminated is None
            &&& directory_after(request, env, now) == env.directory
            &&& logout_outcome(request, env).status() == 400
        },
{
}

/// A request is handled alike whether it came with a `GET` or with a
/// `POST`: what `get` ensures of its outcome and of the repository is what
/// `post` ensures of them.
pub proof fn lemma_get_post_agree(
    request: LogoutParameters,
    env: Environment,
    now: u64,
    via_get: (OutcomeView, DirectoryView),
    via_post: (OutcomeView, DirectoryView),
)
    requires
        via_get.0 == logout_outcome(request, env),
        via_get.1 == directory_after(request, env, now),
        via_post.0 == logout_outcome(request, env),
        via_post.1 == directory_after(request, env, now),
    ensures
        via_get == via_post,
{
}

/// A hint is as good after it has expired as before: when it expires
/// changes nothing about how a logout ends.
pub proof fn lemma_expired_hint_is_taken(
    request: LogoutParameters,
    env: Environment,
    claims: HintClaims,
    expires_at: u64,
)
    requires
        env.hint == Some(claims),
    ensures
        logout_outcome(
            request,
            Environment { hint: Some(HintClaims { expires_at, ..claims }), ..env },
        ) == logout_outcome(request, env),
{
}

/// A request without a hint and without client parameters, from a browser
/// without a session, is confirmed: no error, no redirect, and the
/// repository stays as it was.
pub proof fn lemma_bare_request_is_confirmed(request: LogoutParameters, env: Environment, now: u64)
    requires
        request.id_token_hint is None,
        request.client_id is None,
        request.post_logout_redirect_uri is None,
        env.cookie is None,
    ensures
        logout_outcome(request, env) == (OutcomeView {
            response: Ok(ResponseView::Confirmation),
            terminated: None,
        }),
        directory_after(request, env, now) == env.directory,
{
}

/// A logout redirects only to a place that the client named in the request
/// registered, character for character, and hands the request's `state`
/// back unchanged.
pub proof fn lemma_redirect_is_registered(request: LogoutParameters, env: Environment)
    ensures
        logout_outcome(request, env).response matches Ok(ResponseView::Redirect(location)) ==> {
            &&& request.client_id matches Some(client_id)
            &&& request.post_logout_redirect_uri matches Some(uri)
            &&& env.directory.clients.get(client_id) matches Some(client)
            &&& client.post_logout_redirect_uris.contains(uri)
            &&& location == with_state(uri, request.state)
        },
{
}

/// A request for a place that the client did not register is turned down,
/// and nothing is terminated. Unless its hint is turned down first, the
/// error says so.
pub proof fn lemma_unregistered_redirect_is_rejected(
    request: LogoutParameters,
    env: Environment,
    now: u64,
)
    requires
        request.client_id matches Some(client_id) && request.post_logout_redirect_uri matches Some(
            uri,
        ) && env.directory.clients.get(client_id) matches Some(client)
            && !client.post_logout_redirect_uris.contains(uri),
    ensures
        logout_outcome(request, env).response is Err,
        logout_outcome(request, env).terminated is None,
        directory_after(request, env, now) == env.directory,
        hint_rejection(request, env) is None ==> logout_outcome(request, env).response == Err::<
            ResponseView,
            LogoutError,
        >(LogoutError::RedirectNotRegistered),
{
}

/// A request with only one of `client_id` and `post_logout_redirect_uri` is
/// turned down, and nothing is terminated. Unless its hint is turned down
/// first, the error says that the request is malformed.
pub proof fn lemma_unpaired_client_parameters_are_rejected(
    request: LogoutParameters,
    env: Environment,
    now: u64,
)
    requires
        request.client_id.is_some() != request.post_logout_redirect_uri.is_some(),
    ensures
        logout_outcome(request, env).response is Err,
        logout_outcome(request, env).terminated is None,
        directory_after(request, env, now) == env.directory,
        hint_rejection(request, env) is None ==> logout_outcome(request, env).response == Err::<
            ResponseView,
            LogoutError,
        >(LogoutError::MalformedRequest),
{
}

/// The hint of `request` names an active session other than the one that
/// the cookie refers to.
pub open spec fn hint_names_another_session(request: LogoutParameters, env: Environment) -> bool {
    &&& request.id_token_hint is Some
    &&& env.cookie_session() matches Some(from_cookie)
    &&& env.hint_session() matches Some(from_hint)
    &&& from_hint.id != from_cookie.id
}

/// Logging out twice is logging out once. When a logout has succeeded and
/// the same request comes again at `later`, with the cookie cleared or
/// still there, it succeeds again with the same answer, terminates nothing
/// and leaves the repository as the first logout left it. This holds unless
/// the hint names another active session than the cookie did: that session
/// is what the second logout is then about.
pub proof fn lemma_repeated_logout_is_idempotent(
    request: LogoutParameters,
    env: Environment,
    now: u64,
    cookie_again: Option<u64>,
    later: u64,
)
    requires
        env.directory.wf(),
        logout_outcome(request, env).response is Ok,
        cookie_again is None || cookie_again == env.cookie,
        !hint_names_another_session(request, env),
    ensures
        ({
            let again = Environment {
                cookie: cookie_again,
                hint: env.hint,
                directory: directory_after(request, env, now),
            };
            &&& logout_outcome(request, again).response == logout_outcome(request, env).response
            &&& logout_outcome(request, again).terminated is None
            &&& directory_after(request, again, later) == again.directory
        }),
{
    let first = logout_outcome(request, env);
    let left = directory_after(request, env, now);
    let again = Environment { cookie: cookie_again, hint: env.hint, directory: left };
    assert(left.clients == env.directory.clients);
    assert forall|id: u64| #[trigger] active_ref(left.sessions.get(id)) is Some implies {
        &&& active_ref(env.directory.sessions.get(id)) == active_ref(left.sessions.get(id))
        &&& first.terminated != Some(id)
    } by {
        if let Some(ended) = first.terminated {
            assert(env.directory.sessions.contains_key(ended) ==> env.directory.sessions[ended].id
                == ended);
        }
    }
    if let Some(id) = env.cookie {
        assert(env.directory.sessions.contains_key(id) ==> env.directory.sessions[id].id == id);
    }
    if let Some(HintClaims { session: Some(id), .. }) = env.hint {
        assert(env.directory.sessions.contains_key(id) ==> env.directory.sessions[id].id == id);
    }
    assert(again.cookie_session() is None);
    assert(resolved_session(request, again) is None);
}

/// Handles a logout request against the sessions and clients in `directory`.
///
/// `cookie` is the session that the browser's cookie decrypts to, `None`
/// where it sent none or one that cannot be decrypted. `hint` is what the
/// request's `id_token_hint` asserts, `None` where this provider did not
/// sign it; it is not looked at where the request has no hint. A session
/// that is terminated is terminated at `now`.
#[verifier::loop_isolation(false)]
pub fn handle(
    now: u64,
    directory: &mut Directory,
    cookie: Option<u64>,
    hint: Option<HintClaims>,
    request: LogoutRequest,
) -> (outcome: LogoutOutcome)
    ensures
        outcome@ == logout_outcome(
            request@,
            Environment { cookie, hint, directory: old(directory)@ },
        ),
        final(directory)@ == directory_after(
            request@,
            Environment { cookie, hint, directory: old(directory)@ },
            now,
        ),
{
    let ghost env = Environment { cookie, hint, directory: directory@ };
    let ghost asked = request@;
    proof {
        use_type_invariant(&*directory);
        directory.lemma_wf();
        lemma_flow_decides(asked, env);
        lemma_flow_begins(asked);
    }
    let mut progress = LogoutFlow::begin(request);
    let ghost mut fuel: nat = 6;
    loop
        invariant
            progress@.steps_left() <= fuel,
            progress@.coherent(),
            run(progress@, env, fuel) == logout_outcome(asked, env),
            progress@ is Waiting ==> directory@ == env.directory,
            progress@ is Done ==> directory@ == directory_after(asked, env, now),
        decreases fuel,
    {
        match progress {
            Progress::Done(outcome) => {
                return outcome;
            },
            Progress::Waiting(flow, action) => {
                let ghost waiting = flow@;
                let ghost doing = action@;
                let event = match action {
                    Action::ReadCookie => Event::Cookie(cookie),
                    Action::LoadSession { id } => Event::Session(directory.session(id)),
                    Action::VerifyHint { token } => Event::Hint(hint),
                    Action::LoadClient { client_id } => Event::Client(directory.client(&client_id)),
                    Action::TerminateSession { id } => {
                        directory.finish_session(id, now);
                        Event::Terminated
                    },
                };
                proof {
                    assert(event@ == env.answer(doing));
                    lemma_flow_advances(waiting, event@);
                    fuel = (fuel - 1) as nat;
                }
                progress = flow.resume(event);
            },
        }
    }
}

/// Handles a logout request that came as the query string of a `GET`.
pub fn get(
    now: u64,
    directory: &mut Directory,
    cookie: Option<u64>,
    hint: Option<HintClaims>,
    request: LogoutRequest,
) -> (outcome: LogoutOutcome)
    ensures
        outcome@ == logout_outcome(
            request@,
            Environment { cookie, hint, directory: old(directory)@ },
        ),
        final(directory)@ == directory_after(
            request@,
            Environment { cookie, hint, directory: old(directory)@ },
            now,
        ),
{
    handle(now, directory, cookie, hint, request)
}

/// Handles a logout request that came as the form body of a `POST`.
pub fn post(
    now: u64,
    directory: &mut Directory,
    cookie: Option<u64>,
    hint: Option<HintClaims>,
    request: LogoutRequest,
) -> (outcome: LogoutOutcome)
    ensures
        outcome@ == logout_outcome(
            request@,
            Environment { cookie, hint, directory: old(directory)@ },
        ),
        final(directory)@ == directory_after(
            request@,
            Environment { cookie, hint, directory: old(directory)@ },
            now,
        ),
{
    handle(now, directory, cookie, hint, request)
}

} // verus!
