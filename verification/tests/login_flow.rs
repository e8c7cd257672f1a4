use meshh_tui::api::{DeviceAuthorization, DeviceCode, DeviceTokenPoll, UserCode};
use meshh_tui::credentials::BearerToken;
use meshh_tui::login::{
    DeviceLogin, LOGIN_APPROVED_TEXT, LoginAction, LoginError, LoginOptions,
    default_max_poll_attempts, login_instructions, output_after,
};

/// What a scripted run of the login flow did.
struct Run {
    polls: usize,
    sleeps: Vec<u64>,
    stored: Option<String>,
    error: Option<LoginError>,
    user_code: Option<String>,
}

fn run(
    authorization: &DeviceAuthorization,
    options: LoginOptions,
    mut answers: Vec<DeviceTokenPoll>,
) -> Run {
    answers.reverse();
    let mut login = DeviceLogin::start(&options, authorization);
    let mut action = login.first_action();
    let mut result = Run {
        polls: 0,
        sleeps: Vec::new(),
        stored: None,
        error: None,
        user_code: None,
    };
    loop {
        match action {
            LoginAction::Poll => {
                result.polls += 1;
                let answer = answers.pop().expect("scripted poll response");
                action = login.receive_poll(answer);
            }
            LoginAction::SleepThenPoll { secs } => {
                result.sleeps.push(secs);
                action = LoginAction::Poll;
            }
            LoginAction::StoreToken { token } => {
                result.stored = Some(token.as_str().to_owned());
                result.user_code = Some(login.success().user_code().to_owned());
                return result;
            }
            LoginAction::Fail(error) => {
                result.error = Some(error);
                return result;
            }
        }
    }
}

fn authorization() -> DeviceAuthorization {
    authorization_with_expiry_and_interval(600, 5)
}

fn authorization_with_expiry_and_interval(expires_in: u64, poll_interval: u64) -> DeviceAuthorization {
    DeviceAuthorization::new(
        DeviceCode::new("device-1").unwrap(),
        UserCode::new("ABCD-EFGH").unwrap(),
        "https://mesh.example/device",
        Some("https://mesh.example/device?user_code=ABCD-EFGH".to_owned()),
        expires_in,
        poll_interval,
    )
    .unwrap()
}

fn approved(token: &str) -> DeviceTokenPoll {
    DeviceTokenPoll::Approved {
        token: BearerToken::new(token).unwrap(),
    }
}

#[test]
fn approved_device_login_prints_prompt_and_stores_token() {
    let authorization = authorization();
    let output = login_instructions(&authorization);
    let outcome = run(&authorization, LoginOptions::default(), vec![approved("approved-token")]);

    assert!(output.contains("https://mesh.example/device"));
    assert!(output.contains("ABCD-EFGH"));
    assert_eq!(outcome.stored.as_deref(), Some("approved-token"));
    assert_eq!(outcome.user_code.as_deref(), Some("ABCD-EFGH"));
}

#[test]
fn pending_device_login_polls_again_before_storing_token() {
    let outcome = run(
        &authorization(),
        LoginOptions::default(),
        vec![DeviceTokenPoll::Pending, approved("approved-after-pending")],
    );

    assert_eq!(outcome.polls, 2);
    assert_eq!(outcome.sleeps.len(), 1);
    assert_eq!(outcome.stored.as_deref(), Some("approved-after-pending"));
}

#[test]
fn default_poll_attempts_cover_non_multiple_expiration_windows() {
    let authorization = authorization_with_expiry_and_interval(6, 5);
    assert_eq!(default_max_poll_attempts(&authorization), 2);
    let outcome = run(
        &authorization,
        LoginOptions::default(),
        vec![DeviceTokenPoll::Pending, approved("approved-before-expiry")],
    );

    assert_eq!(outcome.polls, 2);
    assert_eq!(outcome.sleeps, vec![5]);
    assert_eq!(outcome.stored.as_deref(), Some("approved-before-expiry"));
}

#[test]
fn slow_down_device_login_increases_polling_interval_before_retrying() {
    let outcome = run(
        &authorization(),
        LoginOptions::default(),
        vec![
            DeviceTokenPoll::Pending,
            DeviceTokenPoll::SlowDown,
            DeviceTokenPoll::Pending,
            approved("approved-after-slow-down"),
        ],
    );

    assert_eq!(outcome.polls, 4);
    assert_eq!(outcome.sleeps, vec![5, 10, 10]);
    assert_eq!(outcome.stored.as_deref(), Some("approved-after-slow-down"));
}

#[test]
fn pending_device_login_times_out_after_poll_limit() {
    let outcome = run(
        &authorization(),
        LoginOptions::default().with_max_poll_attempts(1),
        vec![DeviceTokenPoll::Pending],
    );

    assert_eq!(outcome.error, Some(LoginError::TimedOut));
    assert!(outcome.stored.is_none());
    assert!(outcome.sleeps.is_empty());
}

#[test]
fn refused_logins_fail_with_their_reason() {
    for (answer, error, text) in [
        (
            DeviceTokenPoll::Denied,
            LoginError::Denied,
            "login was denied in the browser",
        ),
        (
            DeviceTokenPoll::Expired,
            LoginError::Expired,
            "login expired; run `meshh login` again",
        ),
        (
            DeviceTokenPoll::InvalidDeviceCode,
            LoginError::InvalidDeviceCode,
            "login failed because the device code was rejected; run `meshh login` again",
        ),
    ] {
        let outcome = run(&authorization(), LoginOptions::default(), vec![answer]);
        assert_eq!(outcome.error.as_ref(), Some(&error));
        assert_eq!(error.message(), text);
    }
}

#[test]
fn a_zero_poll_limit_times_out_without_polling() {
    let outcome = run(
        &authorization(),
        LoginOptions::default().with_max_poll_attempts(0),
        Vec::new(),
    );
    assert_eq!(outcome.polls, 0);
    assert_eq!(outcome.error, Some(LoginError::TimedOut));
    assert_eq!(
        LoginError::TimedOut.message(),
        "login timed out before browser approval"
    );
}

#[test]
fn default_poll_limit_rounds_up_and_is_at_least_one() {
    assert_eq!(
        default_max_poll_attempts(&authorization_with_expiry_and_interval(600, 5)),
        120
    );
    assert_eq!(
        default_max_poll_attempts(&authorization_with_expiry_and_interval(0, 5)),
        1
    );
    assert_eq!(
        default_max_poll_attempts(&authorization_with_expiry_and_interval(7, 0)),
        7
    );
}

#[test]
fn instructions_list_the_urls_and_code() {
    assert_eq!(
        login_instructions(&authorization()),
        "Approve this terminal in MESHH:\nVerification URL: https://mesh.example/device\nUser code: ABCD-EFGH\nDirect URL: https://mesh.example/device?user_code=ABCD-EFGH\nWaiting for approval...\n"
    );
    let blank = DeviceAuthorization::new(
        DeviceCode::new("d").unwrap(),
        UserCode::new("u").unwrap(),
        " ",
        None,
        1,
        1,
    );
    assert!(blank.is_err());
}

#[test]
fn runs_that_differ_only_in_the_token_act_alike() {
    let authorization = authorization();
    let first = run(
        &authorization,
        LoginOptions::default(),
        vec![DeviceTokenPoll::Pending, DeviceTokenPoll::SlowDown, approved("token-one")],
    );
    let second = run(
        &authorization,
        LoginOptions::default(),
        vec![DeviceTokenPoll::Pending, DeviceTokenPoll::SlowDown, approved("token-two")],
    );
    assert_eq!(first.polls, second.polls);
    assert_eq!(first.sleeps, second.sleeps);
    assert_eq!(first.sleeps, vec![5, 10]);
    assert_eq!(first.user_code, second.user_code);
    assert_eq!(first.stored.as_deref(), Some("token-one"));
    assert_eq!(second.stored.as_deref(), Some("token-two"));
    let instructions = login_instructions(&authorization);
    assert!(!instructions.contains("token-one"));
}

#[test]
fn only_a_stored_token_prints_the_approval_line() {
    let stored = LoginAction::StoreToken {
        token: BearerToken::new("secret-token").unwrap(),
    };
    assert_eq!(output_after(&stored), "Login approved. Token stored.\n");
    assert_eq!(output_after(&stored), LOGIN_APPROVED_TEXT);
    assert!(!output_after(&stored).contains("secret-token"));
    assert_eq!(output_after(&LoginAction::Poll), "");
    assert_eq!(output_after(&LoginAction::SleepThenPoll { secs: 5 }), "");
    assert_eq!(output_after(&LoginAction::Fail(LoginError::Denied)), "");
}
