//! The device login flow: instructions, the polling schedule and its outcome.
//!
//! The flow is a state machine: the caller performs each action it returns (poll the API,
//! sleep, store the token) and hands back what the API answered.
use vstd::prelude::*;

use crate::api::{ApiError, DeviceAuthorization, DeviceTokenPoll, api_error_text};
use crate::credentials::{BearerToken, CredentialError, credential_error_text};
use crate::text::{concat2, concat3};

verus! {

/// Seconds added to the poll interval each time the API asks the client to slow down.
pub const SLOW_DOWN_INTERVAL_INCREMENT_SECS: u64 = 5;

/// Line printed once the approved token is stored.
pub const LOGIN_APPROVED_TEXT: &'static str = "Login approved. Token stored.\n";

/// Options that control device-login polling.
#[derive(Debug, Clone, Copy, PartialEq, Eq)]
pub struct LoginOptions {
    max_poll_attempts: Option<usize>,
}

impl LoginOptions {
    /// The poll limit the caller set, if any.
    pub closed spec fn limit(&self) -> Option<usize> {
        self.max_poll_attempts
    }

    /// Limits pending polls before the login attempt is treated as timed out.
    pub fn with_max_poll_attempts(self, max_poll_attempts: usize) -> (r: Self)
        ensures
            r.limit() == Some(max_poll_attempts),
    {
        LoginOptions { max_poll_attempts: Some(max_poll_attempts) }
    }

    /// Returns the poll limit the caller set, if any.
    pub fn max_poll_attempts(&self) -> (r: Option<usize>)
        ensures
            r == self.limit(),
    {
        self.max_poll_attempts
    }
}

impl Default for LoginOptions {
    fn default() -> (r: Self)
        ensures
            r.limit() is None,
    {
        LoginOptions { max_poll_attempts: None }
    }
}

/// Successful login result.
#[derive(Debug, PartialEq, Eq)]
pub struct LoginSuccess {
    user_code: String,
}

impl LoginSuccess {
    /// The user code of the approved login.
    pub closed spec fn code_text(&self) -> Seq<char> {
        self.user_code@
    }

    /// Returns the user code associated with the approved login.
    pub fn user_code(&self) -> (r: &str)
        ensures
            r@ == self.code_text(),
    {
        self.user_code.as_str()
    }
}

/// Errors produced by the device login flow. A failed write of the instructions carries a
/// description of the failure.
#[derive(Debug, PartialEq, Eq)]
#[allow(inconsistent_fields)]
pub enum LoginError {
    Api { source: ApiError },
    Credential { source: CredentialError },
    Output { detail: String },
    Denied,
    Expired,
    InvalidDeviceCode,
    TimedOut,
    Interrupted,
}

/// User-facing description of a login error.
pub open spec fn login_error_text(error: LoginError) -> Seq<char> {
    match error {
        LoginError::Api { .. } => "could not contact the Meshh login API"@,
        LoginError::Credential { .. } => "could not store Meshh credentials"@,
        LoginError::Output { .. } => "could not write login instructions"@,
        LoginError::Denied => "login was denied in the browser"@,
        LoginError::Expired => "login expired; run `meshh login` again"@,
        LoginError::InvalidDeviceCode => "login failed because the device code was rejected; run `meshh login` again"@,
        LoginError::TimedOut => "login timed out before browser approval"@,
        LoginError::Interrupted => "login interrupted before browser approval"@,
    }
}

/// Description of the underlying failure, where the error has one.
pub open spec fn login_error_cause(error: LoginError) -> Option<Seq<char>> {
    match error {
        LoginError::Api { source } => Some(api_error_text(source)),
        LoginError::Credential { source } => Some(credential_error_text(source)),
        LoginError::Output { detail } => Some(detail@),
        _ => None,
    }
}

impl LoginError {
    /// Returns the user-facing description of the error.
    pub fn message(&self) -> (r: &'static str)
        ensures
            r@ == login_error_text(*self),
    {
        match self {
            LoginError::Api { .. } => "could not contact the Meshh login API",
            LoginError::Credential { .. } => "could not store Meshh credentials",
            LoginError::Output { .. } => "could not write login instructions",
            LoginError::Denied => "login was denied in the browser",
            LoginError::Expired => "login expired; run `meshh login` again",
            LoginError::InvalidDeviceCode => "login failed because the device code was rejected; run `meshh login` again",
            LoginError::TimedOut => "login timed out before browser approval",
            LoginError::Interrupted => "login interrupted before browser approval",
        }
    }

    /// Returns the description of the underlying failure, where the error has one.
    pub fn cause(&self) -> (r: Option<String>)
        ensures
            crate::text::opt_text(r) == login_error_cause(*self),
    {
        match self {
            LoginError::Api { source } => Some(source.message()),
            LoginError::Credential { source } => Some(source.message()),
            LoginError::Output { detail } => Some(detail.clone()),
            _ => None,
        }
    }
}

/// Text printed when a device login starts: where to approve it and the user code.
pub open spec fn instructions_text(
    url: Seq<char>,
    user_code: Seq<char>,
    complete_url: Option<Seq<char>>,
) -> Seq<char> {
    "Approve this terminal in MESHH:\n"@ + "Verification URL: "@ + url + "\n"@ + "User code: "@
        + user_code + "\n"@ + match complete_url {
        Some(c) => "Direct URL: "@ + c + "\n"@,
        None => Seq::empty(),
    } + "Waiting for approval...\n"@
}

/// Returns the instructions printed when a device login starts.
pub fn login_instructions(authorization: &DeviceAuthorization) -> (r: String)
    ensures
        r@ == instructions_text(
            authorization.url_text(),
            authorization.user_code_value().text(),
            authorization.complete_url_text(),
        ),
{
    let mut r = concat3(
        "Approve this terminal in MESHH:\n",
        "Verification URL: ",
        authorization.verification_url(),
    );
    r.append("\n");
    r.append("User code: ");
    r.append(authorization.user_code().as_str());
    r.append("\n");
    match authorization.verification_url_complete() {
        Some(c) => {
            r.append("Direct URL: ");
            r.append(c);
            r.append("\n");
        },
        None => {},
    }
    r.append("Waiting for approval...\n");
    r
}

/// Polls that fit the expiry window: the expiry divided by the interval (an interval of at
/// least one second), rounded up, and at least one.
pub open spec fn default_attempts(expires_secs: u64, interval_secs: u64) -> nat {
    let interval = if interval_secs == 0 {
        1
    } else {
        interval_secs
    };
    let attempts = (expires_secs + interval - 1) / (interval as int);
    if attempts < 1 {
        1
    } else {
        attempts as nat
    }
}

/// Returns the default poll limit of a device authorization (see `default_attempts`).
pub fn default_max_poll_attempts(authorization: &DeviceAuthorization) -> (r: usize)
    ensures
        r == #[verifier::truncate] (default_attempts(
            authorization.expires_secs(),
            authorization.interval_secs(),
        ) as usize),
{
    let expires = authorization.expires_in_secs();
    let interval = if authorization.poll_interval_secs() == 0 {
        1
    } else {
        authorization.poll_interval_secs()
    };
    let quotient = expires / interval;
    proof {
        if expires % interval != 0 {
            assert(quotient < u64::MAX) by (nonlinear_arith)
                requires
                    interval >= 1,
                    quotient == expires / interval,
                    expires % interval != 0,
                    expires <= u64::MAX,
            ;
        }
    }
    let attempts = if expires % interval == 0 {
        quotient
    } else {
        quotient + 1
    };
    proof {
        assert(attempts == (expires + interval - 1) / (interval as int)) by (nonlinear_arith)
            requires
                interval >= 1,
                quotient == expires / interval,
                expires % interval == 0 ==> attempts == quotient,
                expires % interval != 0 ==> attempts == quotient + 1,
        ;
    }
    let attempts = if attempts < 1 {
        1
    } else {
        attempts
    };
    #[verifier::truncate]
    (attempts as usize)
}

/// What the caller does next in a device login.
#[derive(PartialEq, Eq)]
pub enum LoginAction {
    Poll,
    SleepThenPoll { secs: u64 },
    StoreToken { token: BearerToken },
    Fail(LoginError),
}

/// What answering one poll does: the login counts the poll, keeps its limit and user code,
/// lengthens the interval after a slow-down answer only, and returns the next action (store an
/// approved token; wait and poll again after a pending or slow-down answer while polls remain,
/// else time out; fail on any other answer).
pub open spec fn poll_applied(
    before: DeviceLogin,
    after: DeviceLogin,
    poll: DeviceTokenPoll,
    r: LoginAction,
) -> bool {
    &&& after.wf()
    &&& after.polls_made() == before.polls_made() + 1
    &&& after.limit() == before.limit()
    &&& after.code_text() == before.code_text()
    &&& after.interval() >= before.interval()
    &&& after.interval() == (if poll == DeviceTokenPoll::SlowDown {
        slowed_down(before.interval())
    } else {
        before.interval()
    })
    &&& match poll {
        DeviceTokenPoll::Approved { token } => r == (LoginAction::StoreToken { token }),
        DeviceTokenPoll::Pending => if after.polls_made() < after.limit() {
            r == (LoginAction::SleepThenPoll { secs: after.interval() })
        } else {
            r == LoginAction::Fail(LoginError::TimedOut)
        },
        DeviceTokenPoll::SlowDown => if after.polls_made() < after.limit() {
            r == (LoginAction::SleepThenPoll { secs: after.interval() })
        } else {
            r == LoginAction::Fail(LoginError::TimedOut)
        },
        DeviceTokenPoll::Denied => r == LoginAction::Fail(LoginError::Denied),
        DeviceTokenPoll::Expired => r == LoginAction::Fail(LoginError::Expired),
        DeviceTokenPoll::InvalidDeviceCode => r == LoginAction::Fail(LoginError::InvalidDeviceCode),
    }
}

/// A run of answered polls: `states[i + 1]` is the login after `polls[i]` was answered in
/// `states[i]`, which returned `actions[i]`.
pub open spec fn run_applied(
    states: Seq<DeviceLogin>,
    polls: Seq<DeviceTokenPoll>,
    actions: Seq<LoginAction>,
) -> bool {
    &&& states.len() == polls.len() + 1
    &&& actions.len() == polls.len()
    &&& forall|i: int|
        #![trigger polls[i]]
        0 <= i < polls.len() ==> poll_applied(states[i], states[i + 1], polls[i], actions[i])
}

/// Two logins that agree on everything the flow reads: polls made, limit, interval and user code.
pub open spec fn same_login(a: DeviceLogin, b: DeviceLogin) -> bool {
    &&& a.polls_made() == b.polls_made()
    &&& a.limit() == b.limit()
    &&& a.interval() == b.interval()
    &&& a.code_text() == b.code_text()
}

/// Two poll answers that are equal, or both approvals (whatever tokens they carry).
pub open spec fn same_but_token(a: DeviceTokenPoll, b: DeviceTokenPoll) -> bool {
    a == b || (a is Approved && b is Approved)
}

/// Two actions that are equal, or both stores of a token (whatever the tokens).
pub open spec fn same_action_but_token(a: LoginAction, b: LoginAction) -> bool {
    a == b || (a is StoreToken && b is StoreToken)
}

/// Text printed once an action is done: the approval line after a stored token, nothing after
/// any other action.
pub open spec fn printed_after(action: LoginAction) -> Seq<char> {
    if action is StoreToken {
        LOGIN_APPROVED_TEXT@
    } else {
        Seq::empty()
    }
}

/// Returns the text to print once an action is done (see `printed_after`).
pub fn output_after(action: &LoginAction) -> (r: &'static str)
    ensures
        r@ == printed_after(*action),
{
    match action {
        LoginAction::StoreToken { .. } => LOGIN_APPROVED_TEXT,
        _ => {
            proof {
                reveal_strlit("");
            }
            ""
        },
    }
}

/// Everything a run of the flow prints: the instructions, then what each action done prints.
pub open spec fn run_output(instructions: Seq<char>, actions: Seq<LoginAction>) -> Seq<char>
    decreases actions.len(),
{
    if actions.len() == 0 {
        instructions
    } else {
        run_output(instructions, actions.drop_last()) + printed_after(actions.last())
    }
}

/// Polling state of a device login.
#[derive(Debug, PartialEq, Eq)]
pub struct DeviceLogin {
    max_poll_attempts: usize,
    polls: usize,
    poll_interval_secs: u64,
    user_code: String,
}

/// Interval after a slow-down answer: five seconds longer, stopping at the maximum.
pub open spec fn slowed_down(interval: u64) -> u64 {
    if interval as int + SLOW_DOWN_INTERVAL_INCREMENT_SECS <= u64::MAX {
        (interval + SLOW_DOWN_INTERVAL_INCREMENT_SECS) as u64
    } else {
        u64::MAX
    }
}

impl DeviceLogin {
    /// Most polls the login makes.
    pub closed spec fn limit(&self) -> nat {
        self.max_poll_attempts as nat
    }

    /// Polls answered so far.
    pub closed spec fn polls_made(&self) -> nat {
        self.polls as nat
    }

    /// Current wait between polls, in seconds.
    pub closed spec fn interval(&self) -> u64 {
        self.poll_interval_secs
    }

    /// User code of the login.
    pub closed spec fn code_text(&self) -> Seq<char> {
        self.user_code@
    }

    /// The login never makes more polls than its limit.
    pub closed spec fn wf(&self) -> bool {
        self.polls <= self.max_poll_attempts
    }

    /// Starts polling for an authorization: the limit is the option's, else the default for
    /// the authorization; the interval is the authorization's.
    pub fn start(options: &LoginOptions, authorization: &DeviceAuthorization) -> (r: Self)
        ensures
            r.wf(),
            r.polls_made() == 0,
            r.limit() == match options.limit() {
                Some(n) => n as nat,
                None => default_attempts(
                    authorization.expires_secs(),
                    authorization.interval_secs(),
                ) as usize as nat,
            },
            r.interval() == authorization.interval_secs(),
            r.code_text() == authorization.user_code_value().text(),
    {
        let max_poll_attempts = match options.max_poll_attempts() {
            Some(n) => n,
            None => default_max_poll_attempts(authorization),
        };
        DeviceLogin {
            max_poll_attempts,
            polls: 0,
            poll_interval_secs: authorization.poll_interval_secs(),
            user_code: authorization.user_code().as_str().to_owned(),
        }
    }

    /// Returns the number of polls answered so far.
    pub fn polls(&self) -> (r: usize)
        ensures
            r == self.polls_made(),
    {
        self.polls
    }

    /// Returns the most polls the login makes.
    pub fn max_poll_attempts(&self) -> (r: usize)
        ensures
            r == self.limit(),
    {
        self.max_poll_attempts
    }

    /// Returns the current wait between polls, in seconds.
    pub fn poll_interval_secs(&self) -> (r: u64)
        ensures
            r == self.interval(),
    {
        self.poll_interval_secs
    }

    /// The first action: poll, unless the limit allows no poll at all.
    pub fn first_action(&self) -> (r: LoginAction)
        ensures
            self.limit() > 0 ==> r == LoginAction::Poll,
            self.limit() == 0 ==> r == LoginAction::Fail(LoginError::TimedOut),
    {
        if self.max_poll_attempts > 0 {
            LoginAction::Poll
        } else {
            LoginAction::Fail(LoginError::TimedOut)
        }
    }

    /// Takes the answer to a poll and returns what to do next: store an approved token; after
    /// a pending or slow-down answer wait and poll again while polls remain (slowing down
    /// first lengthens the interval), else time out; fail on any other answer.
    pub fn receive_poll(&mut self, poll: DeviceTokenPoll) -> (r: LoginAction)
        requires
            old(self).wf(),
            old(self).polls_made() < old(self).limit(),
        ensures
            poll_applied(*old(self), *final(self), poll, r),
    {
        self.polls = self.polls + 1;
        match poll {
            DeviceTokenPoll::Approved { token } => LoginAction::StoreToken { token },
            DeviceTokenPoll::Pending => self.wait_or_time_out(),
            DeviceTokenPoll::SlowDown => {
                self.poll_interval_secs = self.poll_interval_secs.saturating_add(
                    SLOW_DOWN_INTERVAL_INCREMENT_SECS,
                );
                self.wait_or_time_out()
            },
            DeviceTokenPoll::Denied => LoginAction::Fail(LoginError::Denied),
            DeviceTokenPoll::Expired => LoginAction::Fail(LoginError::Expired),
            DeviceTokenPoll::InvalidDeviceCode => LoginAction::Fail(LoginError::InvalidDeviceCode),
        }
    }

    fn wait_or_time_out(&self) -> (r: LoginAction)
        ensures
            self.polls_made() < self.limit() ==> r == (LoginAction::SleepThenPoll {
                secs: self.interval(),
            }),
            self.polls_made() >= self.limit() ==> r == LoginAction::Fail(LoginError::TimedOut),
    {
        if self.polls < self.max_poll_attempts {
            LoginAction::SleepThenPoll { secs: self.poll_interval_secs }
        } else {
            LoginAction::Fail(LoginError::TimedOut)
        }
    }

    /// Returns the result of the login once its token is stored.
    pub fn success(&self) -> (r: LoginSuccess)
        ensures
            r.code_text() == self.code_text(),
    {
        LoginSuccess { user_code: self.user_code.clone() }
    }
}

/// The wait between polls never shrinks: a slow-down answer lengthens it by five seconds
/// (stopping at the maximum) and every other answer keeps it.
pub proof fn law_interval_never_shrinks(interval: u64)
    ensures
        slowed_down(interval) >= interval,
        interval as int + SLOW_DOWN_INTERVAL_INCREMENT_SECS <= u64::MAX ==> slowed_down(interval)
            == interval + SLOW_DOWN_INTERVAL_INCREMENT_SECS,
{
}

/// The approved token steers nothing but its own storage: two runs of the flow from logins that
/// agree, answered alike except for the tokens that approvals carry, pass through logins that
/// agree and take the same actions, except that each stores its own token, which is the one its
/// approval carried. Both runs print the same text after the same instructions (which
/// `login_instructions` makes from the authorization alone): the token is never printed.
pub proof fn law_token_never_steers_the_flow(
    states1: Seq<DeviceLogin>,
    polls1: Seq<DeviceTokenPoll>,
    actions1: Seq<LoginAction>,
    states2: Seq<DeviceLogin>,
    polls2: Seq<DeviceTokenPoll>,
    actions2: Seq<LoginAction>,
)
    requires
        run_applied(states1, polls1, actions1),
        run_applied(states2, polls2, actions2),
        polls1.len() == polls2.len(),
        same_login(states1[0], states2[0]),
        forall|i: int| 0 <= i < polls1.len() ==> #[trigger] same_but_token(polls1[i], polls2[i]),
    ensures
        forall|i: int| 0 <= i <= polls1.len() ==> #[trigger] same_login(states1[i], states2[i]),
        forall|i: int|
            0 <= i < polls1.len() ==> #[trigger] same_action_but_token(actions1[i], actions2[i]),
        forall|i: int|
            0 <= i < polls1.len() && actions1[i] is StoreToken ==> #[trigger] polls1[i] == (
            DeviceTokenPoll::Approved { token: actions1[i]->token }),
        forall|instructions: Seq<char>|
            #[trigger] run_output(instructions, actions1) == run_output(instructions, actions2),
{
    assert forall|i: int| 0 <= i <= polls1.len() implies #[trigger] same_login(
        states1[i],
        states2[i],
    ) by {
        lemma_runs_agree_up_to(states1, polls1, actions1, states2, polls2, actions2, i);
    }
    assert forall|i: int| 0 <= i < polls1.len() implies #[trigger] same_action_but_token(
        actions1[i],
        actions2[i],
    ) by {
        lemma_runs_agree_up_to(states1, polls1, actions1, states2, polls2, actions2, i);
        assert(same_but_token(polls1[i], polls2[i]));
        assert(poll_applied(states1[i], states1[i + 1], polls1[i], actions1[i]));
        assert(poll_applied(states2[i], states2[i + 1], polls2[i], actions2[i]));
    }
    assert forall|i: int| 0 <= i < polls1.len() && actions1[i] is StoreToken implies #[trigger] polls1[i]
        == (DeviceTokenPoll::Approved { token: actions1[i]->token }) by {
        assert(poll_applied(states1[i], states1[i + 1], polls1[i], actions1[i]));
    }
    assert forall|instructions: Seq<char>| #[trigger] run_output(instructions, actions1)
        == run_output(instructions, actions2) by {
        lemma_same_output(instructions, actions1, actions2);
    }
}

proof fn lemma_same_output(
    instructions: Seq<char>,
    actions1: Seq<LoginAction>,
    actions2: Seq<LoginAction>,
)
    requires
        actions1.len() == actions2.len(),
        forall|i: int|
            0 <= i < actions1.len() ==> #[trigger] same_action_but_token(actions1[i], actions2[i]),
    ensures
        run_output(instructions, actions1) == run_output(instructions, actions2),
    decreases actions1.len(),
{
    if actions1.len() > 0 {
        let n = actions1.len() - 1;
        let d1 = actions1.drop_last();
        let d2 = actions2.drop_last();
        assert forall|i: int| 0 <= i < d1.len() implies #[trigger] same_action_but_token(
            d1[i],
            d2[i],
        ) by {
            assert(same_action_but_token(actions1[i], actions2[i]));
        }
        lemma_same_output(instructions, d1, d2);
        assert(same_action_but_token(actions1[n], actions2[n]));
    }
}

proof fn lemma_runs_agree_up_to(
    states1: Seq<DeviceLogin>,
    polls1: Seq<DeviceTokenPoll>,
    actions1: Seq<LoginAction>,
    states2: Seq<DeviceLogin>,
    polls2: Seq<DeviceTokenPoll>,
    actions2: Seq<LoginAction>,
    k: int,
)
    requires
        run_applied(states1, polls1, actions1),
        run_applied(states2, polls2, actions2),
        polls1.len() == polls2.len(),
        same_login(states1[0], states2[0]),
        forall|i: int| 0 <= i < polls1.len() ==> #[trigger] same_but_token(polls1[i], polls2[i]),
        0 <= k <= polls1.len(),
    ensures
        same_login(states1[k], states2[k]),
    decreases k,
{
    if k > 0 {
        lemma_runs_agree_up_to(states1, polls1, actions1, states2, polls2, actions2, k - 1);
        let j = k - 1;
        assert(same_but_token(polls1[j], polls2[j]));
        assert(poll_applied(states1[j], states1[j + 1], polls1[j], actions1[j]));
        assert(poll_applied(states2[j], states2[j + 1], polls2[j], actions2[j]));
    }
}

} // verus!
