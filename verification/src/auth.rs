//! The sign-in state machine. A session is owned by exactly one state; each
//! transition takes the old state and gives the next one, and says what the
//! driver has to do in between: send a request, store the cookies.

use crate::brightwheel::{
    sessions_request, sessions_start_request, BrightwheelClient, Request, RequestView, Response,
    ResponseView,
};
use crate::fault::{Fault, Part};
use crate::json::JsonValue;
use vstd::prelude::*;

verus! {

/// The names of the three tabs.
pub const TAB_LOGIN: &'static str = "login";

pub const TAB_MFA: &'static str = "mfa";

pub const TAB_LOGGED_IN: &'static str = "loggedin";

/// The messages of a failed sign-in.
pub const WRONG_STATE_FOR_LOGIN: &'static str = "wrong state for login";

pub const WRONG_STATE_FOR_LOGIN_MFA: &'static str = "wrong state for login_mfa";

pub const NON_OBJECT_RESPONSE: &'static str =
    "received non-object response from brightwheel login endpoint";

pub const FLAG_NOT_BOOL: &'static str = "2fa_required is not a bool???";

pub const NO_RESPONSE: &'static str = "received no response from brightwheel login endpoint";

pub const ERROR_STATUS: &'static str = "received an error status from brightwheel login endpoint";

pub const NOT_JSON: &'static str = "received a response that is not JSON from brightwheel login endpoint";

/// The state of the session. `S` is the session itself: the transport with
/// its cookie jar, which the library moves and never looks into.
#[derive(Debug, PartialEq, Eq)]
pub enum AuthState<S> {
    /// No credentials were submitted yet.
    Start { session: S },
    /// The credentials were accepted for now; a one-time code is due.
    NeedsSecondFactor { session: S },
    /// Signed in.
    LoggedIn { session: S },
    /// The attempt failed; the session is gone.
    Failed { message: String },
}

/// The mathematical value of an [`AuthState`].
pub ghost enum AuthView<S> {
    Start { session: S },
    NeedsSecondFactor { session: S },
    LoggedIn { session: S },
    Failed { message: Seq<char> },
}

impl<S> View for AuthState<S> {
    type V = AuthView<S>;

    open spec fn view(&self) -> AuthView<S> {
        match self {
            AuthState::Start { session } => AuthView::Start { session: *session },
            AuthState::NeedsSecondFactor { session } => AuthView::NeedsSecondFactor {
                session: *session,
            },
            AuthState::LoggedIn { session } => AuthView::LoggedIn { session: *session },
            AuthState::Failed { message } => AuthView::Failed { message: message@ },
        }
    }
}

/// What a reply to the call that begins a session asks for.
#[derive(Clone, Copy, Debug, PartialEq, Eq, Structural)]
pub enum StartVerdict {
    /// `2fa_required` is `true`.
    NeedsSecondFactor,
    /// `2fa_required` is `false`: the session is to be created at once.
    CreateSession,
    /// `2fa_required` is absent: the service is taken to have signed in.
    AssumeLoggedIn,
    /// The reply cannot be used.
    Reject(Fault),
}

impl ResponseView {
    /// How the reply to the call that begins a session is read.
    pub open spec fn start_verdict(self) -> StartVerdict {
        match self.document() {
            Err(fault) => StartVerdict::Reject(fault),
            Ok(document) => if !document.is_object() {
                StartVerdict::Reject(Fault::Shape(Part::Document))
            } else {
                match document.field("2fa_required"@) {
                    None => StartVerdict::AssumeLoggedIn,
                    Some(flag) => match flag.as_bool() {
                        Some(true) => StartVerdict::NeedsSecondFactor,
                        Some(false) => StartVerdict::CreateSession,
                        None => StartVerdict::Reject(Fault::Shape(Part::TwoFactorRequired)),
                    },
                }
            },
        }
    }

    /// How the reply to the call that creates the session is read: `None`
    /// where it confirms the session, else the reason why it does not.
    pub open spec fn session_fault(self) -> Option<Fault> {
        match self.document() {
            Err(fault) => Some(fault),
            Ok(document) => if document.is_object() {
                None
            } else {
                Some(Fault::Shape(Part::Document))
            },
        }
    }
}

/// The message of a failed sign-in.
pub open spec fn login_failure_text(fault: Fault) -> Seq<char> {
    match fault {
        Fault::Unreachable => NO_RESPONSE@,
        Fault::Status(_) => ERROR_STATUS@,
        Fault::NotJson => NOT_JSON@,
        Fault::Shape(Part::TwoFactorRequired) => FLAG_NOT_BOOL@,
        _ => NON_OBJECT_RESPONSE@,
    }
}

/// Reads the reply to the call that begins a session.
pub fn start_verdict(response: &Response) -> (verdict: StartVerdict)
    ensures
        verdict == response@.start_verdict(),
{
    let document = match response.document() {
        Ok(document) => document,
        Err(fault) => { return StartVerdict::Reject(fault); },
    };
    if !document.is_object() {
        return StartVerdict::Reject(Fault::Shape(Part::Document));
    }
    match document.get("2fa_required") {
        None => StartVerdict::AssumeLoggedIn,
        Some(flag) => match flag.as_bool() {
            Some(true) => StartVerdict::NeedsSecondFactor,
            Some(false) => StartVerdict::CreateSession,
            None => StartVerdict::Reject(Fault::Shape(Part::TwoFactorRequired)),
        },
    }
}

/// Reads the reply to the call that creates the session.
pub fn session_fault(response: &Response) -> (fault: Option<Fault>)
    ensures
        fault == response@.session_fault(),
{
    match response.document() {
        Err(fault) => Some(fault),
        Ok(document) => if document.is_object() {
            None
        } else {
            Some(Fault::Shape(Part::Document))
        },
    }
}

/// Writes the message of a failed sign-in.
pub fn login_failure_message(fault: Fault) -> (message: String)
    ensures
        message@ == login_failure_text(fault),
{
    match fault {
        Fault::Unreachable => String::from_str(NO_RESPONSE),
        Fault::Status(_) => String::from_str(ERROR_STATUS),
        Fault::NotJson => String::from_str(NOT_JSON),
        Fault::Shape(Part::TwoFactorRequired) => String::from_str(FLAG_NOT_BOOL),
        _ => String::from_str(NON_OBJECT_RESPONSE),
    }
}

/// Which reply a sign-in waits for.
#[derive(Clone, Copy, Debug, PartialEq, Eq, Structural)]
pub enum Awaiting {
    /// The reply to the call that begins a session.
    Start,
    /// The reply to the call that creates the session.
    Session,
}

/// What the driver does once a sign-in is over.
#[derive(Clone, Copy, Debug, PartialEq, Eq, Structural)]
pub enum Effect {
    Nothing,
    /// The session was confirmed: the cookie jar is written to its file.
    PersistCookies,
    /// The state is `LoggedIn` on the strength of a reply that did not say
    /// so: the cookie jar is written to its file, and the raw reply is kept
    /// for diagnosis.
    PersistUnconfirmed,
}

impl Effect {
    /// Whether the cookie jar is written to its file.
    pub open spec fn persists(self) -> bool {
        self != Effect::Nothing
    }
}

/// A sign-in that waits for a reply. It owns the session meanwhile.
#[derive(Debug, PartialEq, Eq)]
pub struct PendingLogin<S> {
    pub session: S,
    pub awaiting: Awaiting,
    pub email: String,
    pub password: String,
}

/// The mathematical value of a [`PendingLogin`].
pub ghost struct PendingView<S> {
    pub session: S,
    pub awaiting: Awaiting,
    pub email: Seq<char>,
    pub password: Seq<char>,
}

impl<S> View for PendingLogin<S> {
    type V = PendingView<S>;

    open spec fn view(&self) -> PendingView<S> {
        PendingView {
            session: self.session,
            awaiting: self.awaiting,
            email: self.email@,
            password: self.password@,
        }
    }
}

/// One step of a sign-in.
#[derive(Debug, PartialEq, Eq)]
pub enum LoginStep<S> {
    /// The driver sends `request` over the session in `pending` and hands
    /// the reply to [`PendingLogin::resume`].
    Send { request: Request, pending: PendingLogin<S> },
    /// The sign-in is over: `state` is the next state of the session.
    Done { state: AuthState<S>, effect: Effect },
}

/// The mathematical value of a [`LoginStep`].
pub ghost enum LoginStepView<S> {
    Send { request: RequestView, pending: PendingView<S> },
    Done { state: AuthView<S>, effect: Effect },
}

impl<S> View for LoginStep<S> {
    type V = LoginStepView<S>;

    open spec fn view(&self) -> LoginStepView<S> {
        match self {
            LoginStep::Send { request, pending } => LoginStepView::Send {
                request: request@,
                pending: pending@,
            },
            LoginStep::Done { state, effect } => LoginStepView::Done {
                state: state@,
                effect: *effect,
            },
        }
    }
}

/// A sign-in that ends in failure for the reason `fault`.
pub open spec fn rejected<S>(fault: Fault) -> LoginStepView<S> {
    LoginStepView::Done {
        state: AuthView::Failed { message: login_failure_text(fault) },
        effect: Effect::Nothing,
    }
}

impl<S> AuthView<S> {
    /// Submitting the primary credentials: `Start` sends the call that
    /// begins a session; every other state fails.
    pub open spec fn login(self, email: Seq<char>, password: Seq<char>) -> LoginStepView<S> {
        match self {
            AuthView::Start { session } => LoginStepView::Send {
                request: sessions_start_request(email, password),
                pending: PendingView { session, awaiting: Awaiting::Start, email, password },
            },
            _ => LoginStepView::Done {
                state: AuthView::Failed { message: WRONG_STATE_FOR_LOGIN@ },
                effect: Effect::Nothing,
            },
        }
    }

    /// Submitting the one-time code: `NeedsSecondFactor` sends the call
    /// that creates the session; every other state fails.
    pub open spec fn login_mfa(
        self,
        email: Seq<char>,
        password: Seq<char>,
        mfa_code: Seq<char>,
    ) -> LoginStepView<S> {
        match self {
            AuthView::NeedsSecondFactor { session } => LoginStepView::Send {
                request: sessions_request(email, password, Some(mfa_code)),
                pending: PendingView { session, awaiting: Awaiting::Session, email, password },
            },
            _ => LoginStepView::Done {
                state: AuthView::Failed { message: WRONG_STATE_FOR_LOGIN_MFA@ },
                effect: Effect::Nothing,
            },
        }
    }

    /// The state that a process begins in: `LoggedIn` where the cookie jar
    /// of `session` was restored from its file, else `Start`.
    pub open spec fn at_startup(session: S, cookies_restored: bool) -> AuthView<S> {
        if cookies_restored {
            AuthView::LoggedIn { session }
        } else {
            AuthView::Start { session }
        }
    }

    /// The tab that shows this state.
    pub open spec fn tab_name(self) -> Seq<char> {
        match self {
            AuthView::Start { .. } => TAB_LOGIN@,
            AuthView::NeedsSecondFactor { .. } => TAB_MFA@,
            AuthView::LoggedIn { .. } => TAB_LOGGED_IN@,
            AuthView::Failed { .. } => TAB_LOGIN@,
        }
    }

    /// What the caller of `login` is told about the state it led to.
    pub open spec fn login_result(self) -> LoginResultView {
        match self {
            AuthView::Failed { message } => LoginResultView {
                message: Some(message),
                tab_name: TAB_LOGIN@,
            },
            AuthView::NeedsSecondFactor { .. } => LoginResultView {
                message: None,
                tab_name: TAB_MFA@,
            },
            AuthView::LoggedIn { .. } => LoginResultView {
                message: None,
                tab_name: TAB_LOGGED_IN@,
            },
            AuthView::Start { .. } => LoginResultView { message: None, tab_name: TAB_LOGIN@ },
        }
    }

    /// What the caller of `login_mfa` is told about the state it led to.
    pub open spec fn login_mfa_result(self) -> LoginResultView {
        match self {
            AuthView::Failed { message } => LoginResultView {
                message: Some(message),
                tab_name: TAB_MFA@,
            },
            AuthView::LoggedIn { .. } => LoginResultView {
                message: None,
                tab_name: TAB_LOGGED_IN@,
            },
            _ => LoginResultView { message: None, tab_name: TAB_MFA@ },
        }
    }
}

impl<S> PendingView<S> {
    /// The step that the reply `response` leads to.
    pub open spec fn resume(self, response: ResponseView) -> LoginStepView<S> {
        match self.awaiting {
            Awaiting::Start => match response.start_verdict() {
                StartVerdict::NeedsSecondFactor => LoginStepView::Done {
                    state: AuthView::NeedsSecondFactor { session: self.session },
                    effect: Effect::Nothing,
                },
                StartVerdict::CreateSession => LoginStepView::Send {
                    request: sessions_request(self.email, self.password, None),
                    pending: PendingView { awaiting: Awaiting::Session, ..self },
                },
                StartVerdict::AssumeLoggedIn => LoginStepView::Done {
                    state: AuthView::LoggedIn { session: self.session },
                    effect: Effect::PersistUnconfirmed,
                },
                StartVerdict::Reject(fault) => rejected(fault),
            },
            Awaiting::Session => match response.session_fault() {
                None => LoginStepView::Done {
                    state: AuthView::LoggedIn { session: self.session },
                    effect: Effect::PersistCookies,
                },
                Some(fault) => rejected(fault),
            },
        }
    }
}

/// What a caller is told after `login` or `login_mfa`.
#[derive(Clone, Debug, PartialEq, Eq)]
pub struct LoginResult {
    /// The cause, after a failure.
    pub message: Option<String>,
    /// The tab that shows the state.
    pub tab_name: String,
}

/// The mathematical value of a [`LoginResult`].
pub ghost struct LoginResultView {
    pub message: Option<Seq<char>>,
    pub tab_name: Seq<char>,
}

impl View for LoginResult {
    type V = LoginResultView;

    open spec fn view(&self) -> LoginResultView {
        LoginResultView {
            message: match self.message {
                Some(message) => Some(message@),
                None => None,
            },
            tab_name: self.tab_name@,
        }
    }
}

impl<S> AuthState<S> {
    /// Submits the primary credentials.
    pub fn login(self, client: &BrightwheelClient, email: &str, password: &str) -> (step: LoginStep<
        S,
    >)
        ensures
            step@ == self@.login(email@, password@),
    {
        match self {
            AuthState::Start { session } => LoginStep::Send {
                request: client.post_sessions_start(email, password),
                pending: PendingLogin {
                    session,
                    awaiting: Awaiting::Start,
                    email: String::from_str(email),
                    password: String::from_str(password),
                },
            },
            _ => LoginStep::Done {
                state: AuthState::Failed { message: String::from_str(WRONG_STATE_FOR_LOGIN) },
                effect: Effect::Nothing,
            },
        }
    }

    /// Submits the one-time code.
    pub fn login_mfa(
        self,
        client: &BrightwheelClient,
        email: &str,
        password: &str,
        mfa_code: &str,
    ) -> (step: LoginStep<S>)
        ensures
            step@ == self@.login_mfa(email@, password@, mfa_code@),
    {
        match self {
            AuthState::NeedsSecondFactor { session } => LoginStep::Send {
                request: client.post_sessions(email, password, Some(mfa_code)),
                pending: PendingLogin {
                    session,
                    awaiting: Awaiting::Session,
                    email: String::from_str(email),
                    password: String::from_str(password),
                },
            },
            _ => LoginStep::Done {
                state: AuthState::Failed { message: String::from_str(WRONG_STATE_FOR_LOGIN_MFA) },
                effect: Effect::Nothing,
            },
        }
    }

    /// The tab that shows this state.
    pub fn init_view(&self) -> (tab_name: String)
        ensures
            tab_name@ == self@.tab_name(),
    {
        match self {
            AuthState::Start { .. } => String::from_str(TAB_LOGIN),
            AuthState::NeedsSecondFactor { .. } => String::from_str(TAB_MFA),
            AuthState::LoggedIn { .. } => String::from_str(TAB_LOGGED_IN),
            AuthState::Failed { .. } => String::from_str(TAB_LOGIN),
        }
    }

    /// What the caller of `login` is told about the state it led to.
    pub fn login_result(&self) -> (result: LoginResult)
        ensures
            result@ == self@.login_result(),
    {
        match self {
            AuthState::Failed { message } => LoginResult {
                message: Some(message.clone()),
                tab_name: String::from_str(TAB_LOGIN),
            },
            AuthState::NeedsSecondFactor { .. } => LoginResult {
                message: None,
                tab_name: String::from_str(TAB_MFA),
            },
            AuthState::LoggedIn { .. } => LoginResult {
                message: None,
                tab_name: String::from_str(TAB_LOGGED_IN),
            },
            AuthState::Start { .. } => LoginResult {
                message: None,
                tab_name: String::from_str(TAB_LOGIN),
            },
        }
    }

    /// What the caller of `login_mfa` is told about the state it led to.
    pub fn login_mfa_result(&self) -> (result: LoginResult)
        ensures
            result@ == self@.login_mfa_result(),
    {
        match self {
            AuthState::Failed { message } => LoginResult {
                message: Some(message.clone()),
                tab_name: String::from_str(TAB_MFA),
            },
            AuthState::LoggedIn { .. } => LoginResult {
                message: None,
                tab_name: String::from_str(TAB_LOGGED_IN),
            },
            _ => LoginResult { message: None, tab_name: String::from_str(TAB_MFA) },
        }
    }

    /// The session of the `LoggedIn` state; no other state lends its session.
    pub fn session(&self) -> (session: Option<&S>)
        ensures
            match self@ {
                AuthView::LoggedIn { session: owned } => session == Some(&owned),
                _ => session is None,
            },
    {
        match self {
            AuthState::LoggedIn { session } => Some(session),
            _ => None,
        }
    }
}

impl<S> PendingLogin<S> {
    /// Takes the reply that this sign-in waits for and gives the next step.
    pub fn resume(self, client: &BrightwheelClient, response: &Response) -> (step: LoginStep<S>)
        ensures
            step@ == self@.resume(response@),
    {
        match self.awaiting {
            Awaiting::Start => match start_verdict(response) {
                StartVerdict::NeedsSecondFactor => LoginStep::Done {
                    state: AuthState::NeedsSecondFactor { session: self.session },
                    effect: Effect::Nothing,
                },
                StartVerdict::CreateSession => {
                    let request = client.post_sessions(
                        self.email.as_str(),
                        self.password.as_str(),
                        None,
                    );
                    LoginStep::Send {
                        request,
                        pending: PendingLogin {
                            session: self.session,
                            awaiting: Awaiting::Session,
                            email: self.email,
                            password: self.password,
                        },
                    }
                },
                StartVerdict::AssumeLoggedIn => LoginStep::Done {
                    state: AuthState::LoggedIn { session: self.session },
                    effect: Effect::PersistUnconfirmed,
                },
                StartVerdict::Reject(fault) => LoginStep::Done {
                    state: AuthState::Failed { message: login_failure_message(fault) },
                    effect: Effect::Nothing,
                },
            },
            Awaiting::Session => match session_fault(response) {
                None => LoginStep::Done {
                    state: AuthState::LoggedIn { session: self.session },
                    effect: Effect::PersistCookies,
                },
                Some(fault) => LoginStep::Done {
                    state: AuthState::Failed { message: login_failure_message(fault) },
                    effect: Effect::Nothing,
                },
            },
        }
    }
}

/// Where the reply to the call that begins a session is a JSON object
/// without `2fa_required`, the sign-in ends in `LoggedIn`, with the session
/// it started with.
pub proof fn law_absent_flag_logs_in<S>(
    session: S,
    email: Seq<char>,
    password: Seq<char>,
    response: ResponseView,
)
    requires
        (response.document() is Ok),
        response.document()->Ok_0.is_object(),
        (response.document()->Ok_0.field("2fa_required"@) is None),
    ensures
        ((AuthView::Start { session }).login(email, password) is Send),
        (AuthView::Start { session }).login(email, password)->pending.resume(response) == (
        LoginStepView::Done {
            state: AuthView::LoggedIn { session },
            effect: Effect::PersistUnconfirmed,
        }),
{
}

/// Where the reply to the call that begins a session says that
/// `2fa_required` is `true`, the sign-in ends in `NeedsSecondFactor`, and
/// that state owns the very session that `Start` owned.
pub proof fn law_required_flag_asks_for_code<S>(
    session: S,
    email: Seq<char>,
    password: Seq<char>,
    response: ResponseView,
)
    requires
        (response.document() is Ok),
        response.document()->Ok_0.field("2fa_required"@) == Some(JsonValue::Bool(true)),
    ensures
        ((AuthView::Start { session }).login(email, password) is Send),
        (AuthView::Start { session }).login(email, password)->pending.resume(response) == (
        LoginStepView::Done {
            state: AuthView::NeedsSecondFactor { session },
            effect: Effect::Nothing,
        }),
{
}

/// A one-time code that is submitted in `Start` sends nothing and leads to
/// `Failed`, with the message for a call in the wrong state; so does one
/// submitted in `LoggedIn` or in `Failed`.
pub proof fn law_code_in_wrong_state_fails<S>(
    state: AuthView<S>,
    email: Seq<char>,
    password: Seq<char>,
    mfa_code: Seq<char>,
)
    requires
        !(state is NeedsSecondFactor),
    ensures
        state.login_mfa(email, password, mfa_code) == (LoginStepView::<S>::Done {
            state: AuthView::Failed { message: WRONG_STATE_FOR_LOGIN_MFA@ },
            effect: Effect::Nothing,
        }),
{
}

/// The cookie jar is written to its file exactly where a sign-in ends in
/// `LoggedIn`.
pub proof fn law_cookies_follow_login<S>(pending: PendingView<S>, response: ResponseView)
    ensures
        pending.resume(response) matches LoginStepView::Done { state, effect } ==> (
        effect.persists() <==> state is LoggedIn),
{
}

/// A sign-in that ends in `LoggedIn` has the cookie jar written to its
/// file, and a process that restored a jar from the file begins in
/// `LoggedIn`, on the tab for it, with the session that holds that jar.
pub proof fn law_persisted_session_resumes<S>(
    pending: PendingView<S>,
    response: ResponseView,
    restored: S,
)
    requires
        (pending.resume(response) is Done),
        (pending.resume(response)->state is LoggedIn),
    ensures
        pending.resume(response)->effect.persists(),
        AuthView::at_startup(restored, true) == (AuthView::LoggedIn { session: restored }),
        AuthView::at_startup(restored, true).tab_name() == TAB_LOGGED_IN@,
{
}

} // verus!
