use shinydisc::auth::{
    login_failure_message, session_fault, start_verdict, AuthState, Awaiting, Effect, LoginResult,
    LoginStep, PendingLogin, StartVerdict,
};
use shinydisc::brightwheel::{BrightwheelClient, Response};
use shinydisc::fault::{Fault, Part};
use shinydisc::json::{Json, JsonNumber, Member};

/// A stand-in for the transport with its cookie jar.
#[derive(Debug, PartialEq, Eq)]
struct Jar(u32);

fn object(members: Vec<(&str, Json)>) -> Json {
    Json::Object(
        members
            .into_iter()
            .map(|(key, value)| Member { key: key.to_string(), value })
            .collect(),
    )
}

fn ok(body: Json) -> Response {
    Response::Reply { status: 200, body: Some(body) }
}

fn pending_after_login(jar: Jar, email: &str, password: &str) -> PendingLogin<Jar> {
    let client = BrightwheelClient::new();
    match (AuthState::Start { session: jar }).login(&client, email, password) {
        LoginStep::Send { pending, .. } => pending,
        other => panic!("login in Start sends a request, got {:?}", other),
    }
}

fn failed(message: &str) -> LoginStep<Jar> {
    LoginStep::Done {
        state: AuthState::Failed { message: message.to_string() },
        effect: Effect::Nothing,
    }
}

#[test]
fn login_in_start_sends_the_start_call() {
    let client = BrightwheelClient::new();
    let step = (AuthState::Start { session: Jar(7) }).login(&client, "a@b.c", "secret");
    assert_eq!(
        step,
        LoginStep::Send {
            request: client.post_sessions_start("a@b.c", "secret"),
            pending: PendingLogin {
                session: Jar(7),
                awaiting: Awaiting::Start,
                email: "a@b.c".to_string(),
                password: "secret".to_string(),
            },
        }
    );
}

#[test]
fn a_reply_without_the_flag_logs_in() {
    let client = BrightwheelClient::new();
    for (email, password) in [("a@b.c", "secret"), ("", ""), ("x", "y z")] {
        let pending = pending_after_login(Jar(7), email, password);
        let step = pending.resume(&client, &ok(object(vec![("other", Json::Null)])));
        assert_eq!(
            step,
            LoginStep::Done {
                state: AuthState::LoggedIn { session: Jar(7) },
                effect: Effect::PersistUnconfirmed,
            }
        );
    }
}

#[test]
fn a_required_second_factor_keeps_the_session() {
    let client = BrightwheelClient::new();
    let pending = pending_after_login(Jar(41), "a@b.c", "secret");
    let step = pending.resume(&client, &ok(object(vec![("2fa_required", Json::Bool(true))])));
    assert_eq!(
        step,
        LoginStep::Done {
            state: AuthState::NeedsSecondFactor { session: Jar(41) },
            effect: Effect::Nothing,
        }
    );
}

#[test]
fn no_second_factor_creates_the_session_at_once() {
    let client = BrightwheelClient::new();
    let pending = pending_after_login(Jar(7), "a@b.c", "secret");
    let step = pending.resume(&client, &ok(object(vec![("2fa_required", Json::Bool(false))])));
    let pending = match step {
        LoginStep::Send { request, pending } => {
            assert_eq!(request, client.post_sessions("a@b.c", "secret", None));
            assert_eq!(pending.awaiting, Awaiting::Session);
            assert_eq!(pending.session, Jar(7));
            pending
        }
        other => panic!("expected the create-session call, got {:?}", other),
    };
    assert_eq!(
        pending.resume(&client, &ok(object(vec![]))),
        LoginStep::Done {
            state: AuthState::LoggedIn { session: Jar(7) },
            effect: Effect::PersistCookies,
        }
    );
}

#[test]
fn a_session_reply_that_is_no_object_fails() {
    let client = BrightwheelClient::new();
    let pending = pending_after_login(Jar(7), "a@b.c", "secret");
    let step = pending.resume(&client, &ok(object(vec![("2fa_required", Json::Bool(false))])));
    let pending = match step {
        LoginStep::Send { pending, .. } => pending,
        other => panic!("expected the create-session call, got {:?}", other),
    };
    assert_eq!(
        pending.resume(&client, &ok(Json::Array(vec![]))),
        failed("received non-object response from brightwheel login endpoint")
    );
}

#[test]
fn a_flag_that_is_no_boolean_fails() {
    let client = BrightwheelClient::new();
    for flag in [
        Json::Text("true".to_string()),
        Json::Null,
        Json::Number(JsonNumber::Unsigned(1)),
    ] {
        let pending = pending_after_login(Jar(7), "a@b.c", "secret");
        assert_eq!(
            pending.resume(&client, &ok(object(vec![("2fa_required", flag)]))),
            failed("2fa_required is not a bool???")
        );
    }
}

#[test]
fn a_start_reply_that_is_no_object_fails() {
    let client = BrightwheelClient::new();
    let pending = pending_after_login(Jar(7), "a@b.c", "secret");
    assert_eq!(
        pending.resume(&client, &ok(Json::Text("hello".to_string()))),
        failed("received non-object response from brightwheel login endpoint")
    );
}

#[test]
fn a_reply_that_cannot_be_used_fails() {
    let client = BrightwheelClient::new();
    let cases = [
        (Response::Unreachable, "received no response from brightwheel login endpoint"),
        (
            Response::Reply { status: 401, body: Some(object(vec![])) },
            "received an error status from brightwheel login endpoint",
        ),
        (
            Response::Reply { status: 200, body: None },
            "received a response that is not JSON from brightwheel login endpoint",
        ),
    ];
    for (response, message) in cases {
        let pending = pending_after_login(Jar(7), "a@b.c", "secret");
        assert_eq!(pending.resume(&client, &response), failed(message));
    }
}

#[test]
fn a_code_submitted_in_start_fails() {
    let client = BrightwheelClient::new();
    let step = (AuthState::Start { session: Jar(7) }).login_mfa(&client, "a@b.c", "s", "123456");
    assert_eq!(step, failed("wrong state for login_mfa"));
}

#[test]
fn a_code_submitted_in_any_other_wrong_state_fails() {
    let client = BrightwheelClient::new();
    let logged_in: AuthState<Jar> = AuthState::LoggedIn { session: Jar(7) };
    assert_eq!(logged_in.login_mfa(&client, "a", "b", "c"), failed("wrong state for login_mfa"));
    let broken: AuthState<Jar> = AuthState::Failed { message: "earlier".to_string() };
    assert_eq!(broken.login_mfa(&client, "a", "b", "c"), failed("wrong state for login_mfa"));
}

#[test]
fn a_code_submitted_when_due_sends_the_session_call() {
    let client = BrightwheelClient::new();
    let state = AuthState::NeedsSecondFactor { session: Jar(9) };
    let step = state.login_mfa(&client, "a@b.c", "secret", "123456");
    let pending = match step {
        LoginStep::Send { request, pending } => {
            assert_eq!(request, client.post_sessions("a@b.c", "secret", Some("123456")));
            pending
        }
        other => panic!("expected the create-session call, got {:?}", other),
    };
    assert_eq!(pending.awaiting, Awaiting::Session);
    assert_eq!(
        pending.resume(&client, &ok(object(vec![("ok", Json::Bool(true))]))),
        LoginStep::Done {
            state: AuthState::LoggedIn { session: Jar(9) },
            effect: Effect::PersistCookies,
        }
    );
}

#[test]
fn credentials_submitted_in_a_wrong_state_fail() {
    let client = BrightwheelClient::new();
    let states: Vec<AuthState<Jar>> = vec![
        AuthState::NeedsSecondFactor { session: Jar(1) },
        AuthState::LoggedIn { session: Jar(2) },
        AuthState::Failed { message: "earlier".to_string() },
    ];
    for state in states {
        assert_eq!(state.login(&client, "a", "b"), failed("wrong state for login"));
    }
}

#[test]
fn start_verdict_reads_the_flag() {
    let flag = |value: Json| start_verdict(&ok(object(vec![("2fa_required", value)])));
    assert_eq!(flag(Json::Bool(true)), StartVerdict::NeedsSecondFactor);
    assert_eq!(flag(Json::Bool(false)), StartVerdict::CreateSession);
    assert_eq!(flag(Json::Null), StartVerdict::Reject(Fault::Shape(Part::TwoFactorRequired)));
    assert_eq!(start_verdict(&ok(object(vec![]))), StartVerdict::AssumeLoggedIn);
    assert_eq!(
        start_verdict(&ok(Json::Null)),
        StartVerdict::Reject(Fault::Shape(Part::Document))
    );
    assert_eq!(
        start_verdict(&Response::Unreachable),
        StartVerdict::Reject(Fault::Unreachable)
    );
    assert_eq!(
        start_verdict(&Response::Reply { status: 503, body: Some(object(vec![])) }),
        StartVerdict::Reject(Fault::Status(503))
    );
}

#[test]
fn session_fault_accepts_any_object() {
    assert_eq!(session_fault(&ok(object(vec![]))), None);
    assert_eq!(session_fault(&ok(Json::Null)), Some(Fault::Shape(Part::Document)));
    assert_eq!(
        session_fault(&Response::Reply { status: 200, body: None }),
        Some(Fault::NotJson)
    );
}

#[test]
fn login_failure_message_has_a_text_for_each_fault() {
    assert_eq!(
        login_failure_message(Fault::Shape(Part::Document)),
        "received non-object response from brightwheel login endpoint"
    );
    assert_eq!(
        login_failure_message(Fault::Shape(Part::TwoFactorRequired)),
        "2fa_required is not a bool???"
    );
    assert_eq!(
        login_failure_message(Fault::Status(500)),
        "received an error status from brightwheel login endpoint"
    );
}

#[test]
fn init_view_names_the_tab_of_each_state() {
    assert_eq!((AuthState::Start { session: Jar(1) }).init_view(), "login");
    assert_eq!((AuthState::NeedsSecondFactor { session: Jar(1) }).init_view(), "mfa");
    assert_eq!((AuthState::LoggedIn { session: Jar(1) }).init_view(), "loggedin");
    let broken: AuthState<Jar> = AuthState::Failed { message: "no".to_string() };
    assert_eq!(broken.init_view(), "login");
}

#[test]
fn login_result_reports_the_state() {
    let result = |message: Option<&str>, tab: &str| LoginResult {
        message: message.map(|m| m.to_string()),
        tab_name: tab.to_string(),
    };
    let broken: AuthState<Jar> = AuthState::Failed { message: "no".to_string() };
    assert_eq!(broken.login_result(), result(Some("no"), "login"));
    assert_eq!(
        (AuthState::NeedsSecondFactor { session: Jar(1) }).login_result(),
        result(None, "mfa")
    );
    assert_eq!((AuthState::LoggedIn { session: Jar(1) }).login_result(), result(None, "loggedin"));
    assert_eq!((AuthState::Start { session: Jar(1) }).login_result(), result(None, "login"));
}

#[test]
fn login_mfa_result_reports_the_state() {
    let result = |message: Option<&str>, tab: &str| LoginResult {
        message: message.map(|m| m.to_string()),
        tab_name: tab.to_string(),
    };
    let broken: AuthState<Jar> = AuthState::Failed { message: "no".to_string() };
    assert_eq!(broken.login_mfa_result(), result(Some("no"), "mfa"));
    assert_eq!(
        (AuthState::LoggedIn { session: Jar(1) }).login_mfa_result(),
        result(None, "loggedin")
    );
    assert_eq!(
        (AuthState::NeedsSecondFactor { session: Jar(1) }).login_mfa_result(),
        result(None, "mfa")
    );
    assert_eq!((AuthState::Start { session: Jar(1) }).login_mfa_result(), result(None, "mfa"));
}

#[test]
fn restored_cookies_start_logged_in() {
    let state = shinydisc::run(Jar(5), true);
    assert_eq!(state, AuthState::LoggedIn { session: Jar(5) });
    assert_eq!(state.init_view(), "loggedin");
    assert_eq!(state.session(), Some(&Jar(5)));
}

#[test]
fn without_cookies_the_process_starts_at_login() {
    let state = shinydisc::run(Jar(5), false);
    assert_eq!(state, AuthState::Start { session: Jar(5) });
    assert_eq!(state.init_view(), "login");
    assert_eq!(state.session(), None);
}

#[test]
fn only_logged_in_lends_its_session() {
    assert_eq!((AuthState::NeedsSecondFactor { session: Jar(1) }).session(), None);
    let broken: AuthState<Jar> = AuthState::Failed { message: "no".to_string() };
    assert_eq!(broken.session(), None);
}
