//! The decisions of a health check: the retry state machine of one check,
//! the result record, and what the check loop prints and alerts.
//!
//! The requests, the pauses and the clock belong to the caller: it performs
//! each action that the state machine returns and hands back what happened.

use vstd::prelude::*;
use vstd::string::*;

use crate::config::Target;
use crate::telegram::{build_error_message, error_message};
use crate::text::{decimal, lemma_decimal_reads_back, push_decimal, push_str, reads_as_number};

verus! {

/// The record of one check, as stored and reported.
pub struct HealthCheckResult {
    /// When the check began: whole seconds since the Unix epoch.
    pub timestamp: i64,
    /// When the check began: nanoseconds past `timestamp`, below 10^9, or
    /// from 10^9 to express a leap second, as the clock reports it.
    pub timestamp_nanos: u32,
    /// The target's name.
    pub target: String,
    /// The URL that was requested.
    pub url: String,
    /// The HTTP status of the response, or 0 when no response arrived.
    pub status: u16,
    /// Milliseconds from the start of the check to its end.
    pub latency_ms: u32,
    /// Whether the check passed.
    pub success: bool,
    /// What went wrong, or empty.
    pub error: String,
}

/// How long the check pauses between two attempts, in milliseconds.
pub const RETRY_PAUSE_MILLIS: u64 = 50;

/// Where a check stands.
#[derive(PartialEq, Eq, Structural, Clone, Copy, Debug)]
pub enum CheckPhase {
    /// A request is in flight.
    Awaiting,
    /// The check pauses before its next request.
    Backoff,
    /// The check has its verdict.
    Done,
}

/// The abstract state of a check.
pub struct CheckState {
    /// The most requests the check may make.
    pub retry: nat,
    /// The requests made so far.
    pub attempts: nat,
    pub phase: CheckPhase,
    /// The URL that every request of the check asks for.
    pub url: Seq<char>,
    /// The timeout of every request, in milliseconds.
    pub timeout_ms: u64,
}

/// What the check tells its caller to do next.
pub enum CheckStep {
    /// Request `url`, giving up after `timeout_ms` milliseconds.
    Send { url: Seq<char>, timeout_ms: u64 },
    /// Pause for the given number of milliseconds, then report `Resumed`.
    Pause(nat),
    /// The check is over.
    Finish { status: u16, success: bool, error: Seq<char> },
}

/// What happened, as the caller reports it.
pub enum CheckNews {
    Responded { status: u16, body_error: Option<Seq<char>> },
    Failed { error: Seq<char> },
    Resumed,
}

/// The error reported when the check made no request at all.
pub open spec fn unknown_error(attempts: nat) -> Seq<char> {
    "Unknown error (after "@ + decimal(attempts) + " attempts)"@
}

/// The error reported when the last allowed request failed with `error`.
pub open spec fn exhausted_error(error: Seq<char>, attempts: nat) -> Seq<char> {
    error + " (after "@ + decimal(attempts) + " attempts)"@
}

/// The error reported when the body of a response could not be read.
pub open spec fn body_error_text(error: Seq<char>) -> Seq<char> {
    "read response body: "@ + error
}

/// Whether an HTTP status is in the success class 200-299.
pub open spec fn is_success_status(status: u16) -> bool {
    200 <= status < 300
}

/// The states a check can be in.
pub open spec fn check_state_ok(s: CheckState) -> bool {
    &&& s.attempts <= s.retry
    &&& s.phase != CheckPhase::Done ==> s.attempts >= 1
    &&& s.phase == CheckPhase::Backoff ==> s.attempts < s.retry
}

/// The news a check waits for in each state.  A response carries an HTTP
/// status code, which lies in 100-999.
pub open spec fn check_accepts(s: CheckState, news: CheckNews) -> bool {
    match s.phase {
        CheckPhase::Awaiting => match news {
            CheckNews::Responded { status, .. } => 100 <= status <= 999,
            CheckNews::Failed { .. } => true,
            CheckNews::Resumed => false,
        },
        CheckPhase::Backoff => news is Resumed,
        CheckPhase::Done => false,
    }
}

/// The start of a check of `url` that may make `retry` requests, each with
/// the timeout `timeout_ms`: with no request allowed it ends at once,
/// otherwise it makes the first request.
pub open spec fn check_start(retry: nat, url: Seq<char>, timeout_ms: u64) -> (CheckState, CheckStep) {
    if retry == 0 {
        (
            CheckState { retry, attempts: 0, phase: CheckPhase::Done, url, timeout_ms },
            CheckStep::Finish { status: 0, success: false, error: unknown_error(0) },
        )
    } else {
        (
            CheckState { retry, attempts: 1, phase: CheckPhase::Awaiting, url, timeout_ms },
            CheckStep::Send { url, timeout_ms },
        )
    }
}

/// The start of a check of `target`, with the target's URL, timeout and
/// request budget.
pub open spec fn check_start_for(target: Target) -> (CheckState, CheckStep) {
    check_start(target.retry as nat, target.url@, target.timeout_ms)
}

/// One transition of a check.  A response ends the check: it passes when
/// the status is 2xx and the body was read.  A failed request ends the check
/// when it was the last one allowed, reporting its error and the number of
/// attempts; otherwise the check pauses, then makes the next request.
pub open spec fn check_next(s: CheckState, news: CheckNews) -> (CheckState, CheckStep) {
    match news {
        CheckNews::Responded { status, body_error } => (
            CheckState { phase: CheckPhase::Done, ..s },
            CheckStep::Finish {
                status,
                success: is_success_status(status) && body_error is None,
                error: match body_error {
                    Some(e) => body_error_text(e),
                    None => Seq::empty(),
                },
            },
        ),
        CheckNews::Failed { error } => if s.attempts < s.retry {
            (CheckState { phase: CheckPhase::Backoff, ..s }, CheckStep::Pause(RETRY_PAUSE_MILLIS as nat))
        } else {
            (
                CheckState { phase: CheckPhase::Done, ..s },
                CheckStep::Finish {
                    status: 0,
                    success: false,
                    error: exhausted_error(error, s.attempts),
                },
            )
        },
        CheckNews::Resumed => (
            CheckState { attempts: s.attempts + 1, phase: CheckPhase::Awaiting, ..s },
            CheckStep::Send { url: s.url, timeout_ms: s.timeout_ms },
        ),
    }
}

/// How many more transitions a check can take at most.
pub open spec fn check_budget(s: CheckState) -> nat {
    match s.phase {
        CheckPhase::Awaiting => (2 * (s.retry - s.attempts) + 1) as nat,
        CheckPhase::Backoff => (2 * (s.retry - s.attempts)) as nat,
        CheckPhase::Done => 0,
    }
}

/// Every transition keeps the state well formed and uses up budget, so a
/// check ends after at most `2 * retry - 1` transitions; only a `Resumed`
/// transition makes a request, and it counts it.
pub proof fn lemma_check_next_progress(s: CheckState, news: CheckNews)
    requires
        check_state_ok(s),
        check_accepts(s, news),
    ensures
        check_state_ok(check_next(s, news).0),
        check_budget(check_next(s, news).0) < check_budget(s),
        check_next(s, news).0.retry == s.retry,
        check_next(s, news).0.url == s.url,
        check_next(s, news).0.timeout_ms == s.timeout_ms,
        check_next(s, news).1 is Send ==> check_next(s, news).1 == (CheckStep::Send {
            url: s.url,
            timeout_ms: s.timeout_ms,
        }),
        check_next(s, news).1 is Send ==> check_next(s, news).0.attempts == s.attempts + 1,
        !(check_next(s, news).1 is Send) ==> check_next(s, news).0.attempts == s.attempts,
        check_next(s, news).1 is Finish <==> check_next(s, news).0.phase == CheckPhase::Done,
{
}

/// A check passes only on a response with a 2xx status whose body was
/// read; a failed request never passes and reports status 0.
pub proof fn lemma_pass_means_2xx(s: CheckState, news: CheckNews)
    ensures
        check_next(s, news).1 matches CheckStep::Finish { status, success, .. } ==> (success
            <==> (news matches CheckNews::Responded { body_error, .. } && body_error is None
            && is_success_status(status))),
        news is Failed ==> (check_next(s, news).1 matches CheckStep::Finish { status, .. } ==> status
            == 0),
{
}

/// Status 0 in a verdict means that no response arrived, and then the check
/// failed with a non-empty error; a passing verdict has a 2xx status and no
/// error.
pub proof fn lemma_status_zero_means_no_response(s: CheckState, news: CheckNews)
    requires
        check_accepts(s, news),
    ensures
        check_next(s, news).1 matches CheckStep::Finish { status, success, error } ==> ((status
            == 0 <==> !(news is Responded)) && (status == 0 ==> !success && error.len() > 0) && (
        success ==> 200 <= status <= 299 && error.len() == 0)),
{
    if let CheckNews::Failed { error } = news {
        reveal_strlit(" attempts)");
        assert(exhausted_error(error, s.attempts).len() > 0);
    }
}

/// A check that may make no request ends at once with status 0 and a
/// non-empty error.
pub proof fn lemma_start_without_requests(url: Seq<char>, timeout_ms: u64)
    ensures
        check_start(0, url, timeout_ms).1 matches CheckStep::Finish { status, success, error } && status
            == 0 && !success && error.len() > 0,
{
    reveal_strlit(" attempts)");
    assert(unknown_error(0).len() > 0);
}

/// A check starts well formed, with a budget of `2 * retry - 1` transitions.
pub proof fn lemma_check_start(retry: nat, url: Seq<char>, timeout_ms: u64)
    ensures
        check_state_ok(check_start(retry, url, timeout_ms).0),
        retry > 0 ==> check_budget(check_start(retry, url, timeout_ms).0) == 2 * retry - 1,
        check_start(retry, url, timeout_ms).1 is Finish <==> check_start(retry, url, timeout_ms).0.phase
            == CheckPhase::Done,
{
}

/// Feeds a check a failure for each error in `errors`, resuming after each
/// pause, and returns the state and the last step.
pub open spec fn run_failures(s: CheckState, errors: Seq<Seq<char>>) -> (CheckState, CheckStep)
    decreases errors.len(),
{
    if errors.len() == 0 {
        (s, CheckStep::Send { url: s.url, timeout_ms: s.timeout_ms })
    } else {
        let (t, step) = check_next(s, CheckNews::Failed { error: errors[0] });
        if step is Pause {
            run_failures(check_next(t, CheckNews::Resumed).0, errors.skip(1))
        } else {
            (t, step)
        }
    }
}

/// When every request of a check fails, the check makes exactly `retry`
/// requests and then ends unsuccessfully, with status 0 and the last error
/// followed by `(after <retry> attempts)`.
pub proof fn lemma_all_failures(
    retry: nat,
    url: Seq<char>,
    timeout_ms: u64,
    errors: Seq<Seq<char>>,
)
    requires
        retry > 0,
        errors.len() == retry,
    ensures
        ({
            let (end, step) = run_failures(check_start(retry, url, timeout_ms).0, errors);
            &&& end.phase == CheckPhase::Done
            &&& end.attempts == retry
            &&& step == CheckStep::Finish {
                status: 0,
                success: false,
                error: exhausted_error(errors.last(), retry),
            }
        }),
{
    lemma_failures_from(check_start(retry, url, timeout_ms).0, errors);
}

proof fn lemma_failures_from(s: CheckState, errors: Seq<Seq<char>>)
    requires
        check_state_ok(s),
        s.phase == CheckPhase::Awaiting,
        errors.len() == s.retry - s.attempts + 1,
    ensures
        ({
            let (end, step) = run_failures(s, errors);
            &&& end.phase == CheckPhase::Done
            &&& end.attempts == s.retry
            &&& step == CheckStep::Finish {
                status: 0,
                success: false,
                error: exhausted_error(errors.last(), s.retry),
            }
        }),
    decreases errors.len(),
{
    if s.attempts < s.retry {
        let t = check_next(s, CheckNews::Failed { error: errors[0] }).0;
        let u = check_next(t, CheckNews::Resumed).0;
        lemma_failures_from(u, errors.skip(1));
        assert(errors.skip(1).last() == errors.last());
    }
}

/// The state of one check.
pub struct CheckRun {
    retry: u32,
    attempts: u32,
    phase: CheckPhase,
    url: String,
    timeout_ms: u64,
}

impl View for CheckRun {
    type V = CheckState;

    closed spec fn view(&self) -> CheckState {
        CheckState {
            retry: self.retry as nat,
            attempts: self.attempts as nat,
            phase: self.phase,
            url: self.url@,
            timeout_ms: self.timeout_ms,
        }
    }
}

impl CheckRun {
    #[verifier::type_invariant]
    closed spec fn inv(self) -> bool {
        check_state_ok(self@)
    }
}

/// What happened to the last action, as the caller reports it.
pub enum CheckEvent {
    /// The request returned a response with this status; `body_error` is
    /// the error met while reading the body, if any.
    Responded { status: u16, body_error: Option<String> },
    /// The request failed before a response arrived.
    Failed { error: String },
    /// The pause is over.
    Resumed,
}

impl View for CheckEvent {
    type V = CheckNews;

    open spec fn view(&self) -> CheckNews {
        match self {
            CheckEvent::Responded { status, body_error } => CheckNews::Responded {
                status: *status,
                body_error: match body_error {
                    Some(e) => Some(e@),
                    None => None,
                },
            },
            CheckEvent::Failed { error } => CheckNews::Failed { error: error@ },
            CheckEvent::Resumed => CheckNews::Resumed,
        }
    }
}

/// The outcome of a finished check.
pub struct CheckVerdict {
    pub status: u16,
    pub success: bool,
    pub error: String,
}

/// What the caller does next.
pub enum CheckAction {
    /// Request `url`, giving up after `timeout_ms` milliseconds.
    Send { url: String, timeout_ms: u64 },
    /// Pause for this many milliseconds, then report `Resumed`.
    Pause { millis: u64 },
    /// The check is over.
    Finish(CheckVerdict),
}

impl View for CheckAction {
    type V = CheckStep;

    open spec fn view(&self) -> CheckStep {
        match self {
            CheckAction::Send { url, timeout_ms } => CheckStep::Send {
                url: url@,
                timeout_ms: *timeout_ms,
            },
            CheckAction::Pause { millis } => CheckStep::Pause(*millis as nat),
            CheckAction::Finish(v) => CheckStep::Finish {
                status: v.status,
                success: v.success,
                error: v.error@,
            },
        }
    }
}

/// Whether an HTTP status code is in the success class.
///
/// Trusted: converts with `reqwest::StatusCode::from_u16` (which accepts
/// exactly the codes 100-999 and fails on the others, for which the answer
/// is `false`) and calls `StatusCode::is_success`, whose source tests
/// `(200..300).contains(..)`.
#[verifier::external_body]
fn status_is_success(code: u16) -> (ok: bool)
    ensures
        ok == is_success_status(code),
{
    match reqwest::StatusCode::from_u16(code) {
        Ok(status) => status.is_success(),
        Err(_) => false,
    }
}

impl CheckRun {
    /// Starts a check of `target`: its requests ask for the target's URL
    /// with the target's timeout, and there are at most `target.retry` of
    /// them.
    pub fn begin(target: &Target) -> (out: (CheckRun, CheckAction))
        ensures
            (out.0@, out.1@) == check_start_for(*target),
    {
        let retry = target.retry;
        let url = target.url.clone();
        let timeout_ms = target.timeout_ms;
        if retry == 0 {
            let mut error = String::from_str("Unknown error (after ");
            push_decimal(&mut error, 0);
            push_str(&mut error, " attempts)");
            let run = CheckRun { retry, attempts: 0, phase: CheckPhase::Done, url, timeout_ms };
            let verdict = CheckVerdict { status: 0, success: false, error };
            assert(verdict.error@ =~= unknown_error(0));
            (run, CheckAction::Finish(verdict))
        } else {
            let send = CheckAction::Send { url: url.clone(), timeout_ms };
            (CheckRun { retry, attempts: 1, phase: CheckPhase::Awaiting, url, timeout_ms }, send)
        }
    }

    /// The most requests this check may make.
    pub fn retry(&self) -> (r: u32)
        ensures
            r == self@.retry,
    {
        self.retry
    }

    /// The requests made so far.
    pub fn attempts(&self) -> (r: u32)
        ensures
            r == self@.attempts,
    {
        self.attempts
    }

    /// Where the check stands.
    pub fn phase(&self) -> (r: CheckPhase)
        ensures
            r == self@.phase,
    {
        self.phase
    }

    /// Whether the check waits for `event` now.
    pub fn accepts(&self, event: &CheckEvent) -> (r: bool)
        ensures
            r == check_accepts(self@, event@),
    {
        match self.phase {
            CheckPhase::Awaiting => match event {
                CheckEvent::Responded { status, .. } => 100 <= *status && *status <= 999,
                CheckEvent::Failed { .. } => true,
                CheckEvent::Resumed => false,
            },
            CheckPhase::Backoff => matches!(event, CheckEvent::Resumed),
            CheckPhase::Done => false,
        }
    }

    /// Takes in what happened to the last action and returns the next state
    /// and action.
    pub fn step(self, event: CheckEvent) -> (out: (CheckRun, CheckAction))
        requires
            check_accepts(self@, event@),
        ensures
            (out.0@, out.1@) == check_next(self@, event@),
    {
        proof {
            use_type_invariant(&self);
        }
        match event {
            CheckEvent::Responded { status, body_error } => {
                let ok = status_is_success(status);
                let run = CheckRun { phase: CheckPhase::Done, ..self };
                let verdict = match body_error {
                    Some(e) => {
                        let mut error = String::from_str("read response body: ");
                        push_str(&mut error, e.as_str());
                        CheckVerdict { status, success: false, error }
                    },
                    None => CheckVerdict { status, success: ok, error: String::new() },
                };
                (run, CheckAction::Finish(verdict))
            },
            CheckEvent::Failed { error } => {
                if self.attempts < self.retry {
                    let run = CheckRun { phase: CheckPhase::Backoff, ..self };
                    (run, CheckAction::Pause { millis: RETRY_PAUSE_MILLIS })
                } else {
                    let mut text = error;
                    push_str(&mut text, " (after ");
                    push_decimal(&mut text, self.attempts as u64);
                    push_str(&mut text, " attempts)");
                    let run = CheckRun { phase: CheckPhase::Done, ..self };
                    let verdict = CheckVerdict { status: 0, success: false, error: text };
                    (run, CheckAction::Finish(verdict))
                }
            },
            CheckEvent::Resumed => {
                let send = CheckAction::Send { url: self.url.clone(), timeout_ms: self.timeout_ms };
                let run = CheckRun {
                    retry: self.retry,
                    attempts: self.attempts + 1,
                    phase: CheckPhase::Awaiting,
                    url: self.url,
                    timeout_ms: self.timeout_ms,
                };
                (run, send)
            },
        }
    }
}

/// Milliseconds as a 32-bit count: the elapsed time wraps modulo `2^32`,
/// as a truncating conversion does.
pub open spec fn wrap_millis(elapsed_millis: u128) -> u32 {
    (elapsed_millis % 0x1_0000_0000) as u32
}

/// Assembles the record of a finished check of `target` that began at
/// `timestamp` seconds and `timestamp_nanos` nanoseconds after the Unix
/// epoch and took `elapsed_millis`.
pub fn finish_result(
    target: &Target,
    timestamp: i64,
    timestamp_nanos: u32,
    elapsed_millis: u128,
    verdict: CheckVerdict,
) -> (r: HealthCheckResult)
    ensures
        r.timestamp == timestamp,
        r.timestamp_nanos == timestamp_nanos,
        r.target@ == target.name@,
        r.url@ == target.url@,
        r.status == verdict.status,
        r.latency_ms == wrap_millis(elapsed_millis),
        elapsed_millis < 0x1_0000_0000 ==> r.latency_ms == elapsed_millis,
        r.success == verdict.success,
        r.error@ == verdict.error@,
{
    let latency: u32 = (elapsed_millis % 0x1_0000_0000u128) as u32;
    HealthCheckResult {
        timestamp,
        timestamp_nanos,
        target: target.name.clone(),
        url: target.url.clone(),
        status: verdict.status,
        latency_ms: latency,
        success: verdict.success,
        error: verdict.error,
    }
}

/// The console line for a finished check:
/// `ok|err <target> - <url> (<latency>ms) - status: <status or error>`.
pub open spec fn report_line(r: HealthCheckResult) -> Seq<char> {
    (if r.success {
        "ok"@
    } else {
        "err"@
    }) + " "@ + r.target@ + " - "@ + r.url@ + " ("@ + decimal(r.latency_ms as nat)
        + "ms) - status: "@ + (if r.status > 0 {
        decimal(r.status as nat)
    } else {
        r.error@
    })
}

/// Builds the console line for a finished check.
pub fn status_line(r: &HealthCheckResult) -> (line: String)
    ensures
        line@ == report_line(*r),
{
    let mut s = if r.success {
        String::from_str("ok")
    } else {
        String::from_str("err")
    };
    push_str(&mut s, " ");
    push_str(&mut s, r.target.as_str());
    push_str(&mut s, " - ");
    push_str(&mut s, r.url.as_str());
    push_str(&mut s, " (");
    push_decimal(&mut s, r.latency_ms as u64);
    push_str(&mut s, "ms) - status: ");
    if r.status > 0 {
        push_decimal(&mut s, r.status as u64);
    } else {
        push_str(&mut s, r.error.as_str());
    }
    s
}

/// What the check loop reports for one finished check.
pub struct CheckReport {
    /// The console line.
    pub line: String,
    /// The Telegram alert, present exactly when the check failed.
    pub alert: Option<String>,
}

/// Decides what to report for a finished check: always the console line,
/// and an alert when the check failed.
pub fn report(r: &HealthCheckResult) -> (out: CheckReport)
    ensures
        out.line@ == report_line(*r),
        out.alert is Some <==> !r.success,
        out.alert matches Some(a) ==> a@ == error_message(*r),
{
    let line = status_line(r);
    let alert = if r.success {
        None
    } else {
        Some(build_error_message(r))
    };
    CheckReport { line, alert }
}

/// How the check loop of a target runs.
pub enum LoopPlan {
    /// The target is not checked; the warning says why.
    Skip { warning: String },
    /// The target is checked every `seconds` seconds.
    Every { seconds: u64 },
}

/// The warning for a target whose interval is zero.
pub open spec fn zero_interval_warning(name: Seq<char>) -> Seq<char> {
    "Target '"@ + name + "' has interval_seconds=0; skipping to avoid panic"@
}

/// Plans the check loop of `target`: a zero interval would make the
/// interval timer panic, so such a target is skipped with a warning.
pub fn plan_check_loop(target: &Target) -> (p: LoopPlan)
    ensures
        target.interval_seconds == 0 ==> (p matches LoopPlan::Skip { warning } && warning@
            == zero_interval_warning(target.name@)),
        target.interval_seconds != 0 ==> p == (LoopPlan::Every {
            seconds: target.interval_seconds as u64,
        }),
{
    if target.interval_seconds == 0 {
        let mut warning = String::from_str("Target '");
        push_str(&mut warning, target.name.as_str());
        push_str(&mut warning, "' has interval_seconds=0; skipping to avoid panic");
        LoopPlan::Skip { warning }
    } else {
        LoopPlan::Every { seconds: target.interval_seconds as u64 }
    }
}

/// The steps a check takes from state `s` when it is told `events` in turn.
pub open spec fn check_steps(s: CheckState, events: Seq<CheckNews>) -> Seq<CheckStep>
    decreases events.len(),
{
    if events.len() == 0 {
        Seq::empty()
    } else {
        let (t, step) = check_next(s, events[0]);
        seq![step] + check_steps(t, events.skip(1))
    }
}

/// Every request that a check of `target` makes, the first one and every
/// retry, asks for the target's URL with the target's own timeout in
/// milliseconds, whatever happens in between; a check that may make no
/// request makes none and ends at once.
pub proof fn lemma_every_request_uses_target(target: Target, events: Seq<CheckNews>)
    ensures
        target.retry > 0 ==> check_start_for(target).1 == (CheckStep::Send {
            url: target.url@,
            timeout_ms: target.timeout_ms,
        }),
        target.retry == 0 ==> check_start_for(target).1 is Finish,
        forall|i: int|
            0 <= i < check_steps(check_start_for(target).0, events).len() && (#[trigger] check_steps(
                check_start_for(target).0,
                events,
            )[i]) is Send ==> check_steps(check_start_for(target).0, events)[i] == (CheckStep::Send {
                url: target.url@,
                timeout_ms: target.timeout_ms,
            }),
{
    lemma_steps_keep_request(check_start_for(target).0, events);
}

proof fn lemma_steps_keep_request(s: CheckState, events: Seq<CheckNews>)
    ensures
        forall|i: int|
            0 <= i < check_steps(s, events).len() && (#[trigger] check_steps(s, events)[i]) is Send
                ==> check_steps(s, events)[i] == (CheckStep::Send {
                url: s.url,
                timeout_ms: s.timeout_ms,
            }),
    decreases events.len(),
{
    if events.len() > 0 {
        let (t, step) = check_next(s, events[0]);
        lemma_steps_keep_request(t, events.skip(1));
        let all = check_steps(s, events);
        let rest = check_steps(t, events.skip(1));
        assert(all == seq![step] + rest);
        assert forall|i: int| 0 <= i < all.len() && (#[trigger] all[i]) is Send implies all[i] == (
        CheckStep::Send { url: s.url, timeout_ms: s.timeout_ms }) by {
            if i > 0 {
                assert(all[i] == rest[i - 1]);
            }
        }
    }
}

/// A latency that fits in 32 bits is recorded as it is; a longer one wraps
/// around by `2^32` milliseconds, as a truncating conversion does.
pub proof fn lemma_wrap_millis(elapsed_millis: u128)
    ensures
        elapsed_millis < 0x1_0000_0000 ==> wrap_millis(elapsed_millis) == elapsed_millis,
        elapsed_millis >= 0x1_0000_0000 ==> wrap_millis(elapsed_millis) == wrap_millis(
            (elapsed_millis - 0x1_0000_0000) as u128,
        ),
{
}

/// The console line of a finished check is `ok` or `err` as the check
/// passed or not, then the target name, the URL, the latency in decimal
/// digits that read back as `latency_ms`, and after `status: ` either
/// digits that read back as the status or, without a response, the error.
pub open spec fn line_layout(
    line: Seq<char>,
    success: bool,
    target: Seq<char>,
    url: Seq<char>,
    latency: Seq<char>,
    tail: Seq<char>,
) -> bool {
    line == (if success {
        "ok"@
    } else {
        "err"@
    }) + " "@ + target + " - "@ + url + " ("@ + latency + "ms) - status: "@ + tail
}

/// The console line shows the whole latency and the whole status.
pub proof fn lemma_report_line_fields(r: HealthCheckResult)
    ensures
        exists|d: Seq<char>, tail: Seq<char>|
            #[trigger] line_layout(
                report_line(r),
                r.success,
                r.target@,
                r.url@,
                d,
                tail,
            ) && reads_as_number(d, r.latency_ms as int) && (r.status > 0 ==> reads_as_number(
                tail,
                r.status as int,
            )) && (r.status == 0 ==> tail == r.error@),
{
    lemma_decimal_reads_back(r.latency_ms as nat);
    lemma_decimal_reads_back(r.status as nat);
    let d = decimal(r.latency_ms as nat);
    let tail = if r.status > 0 {
        decimal(r.status as nat)
    } else {
        r.error@
    };
    assert(line_layout(
        report_line(r),
        r.success,
        r.target@,
        r.url@,
        d,
        tail,
    ));
}

/// Between two requests a check pauses 50 milliseconds, and a response
/// with a 2xx status whose body was read always passes.
pub proof fn lemma_pause_and_pass(s: CheckState, news: CheckNews)
    ensures
        check_next(s, news).1 is Pause ==> check_next(s, news).1 == CheckStep::Pause(50),
        (news matches CheckNews::Responded { status, body_error } && body_error is None && 200
            <= status <= 299) ==> (check_next(s, news).1 matches CheckStep::Finish {
            success,
            ..
        } && success),
{
}

/// The error of a check whose every request failed is the last error,
/// then ` (after `, digits that read back as the number of attempts, and
/// ` attempts)`.
pub proof fn lemma_exhausted_error_counts(error: Seq<char>, attempts: nat)
    ensures
        exists|d: Seq<char>|
            #[trigger] reads_as_number(d, attempts as int) && exhausted_error(error, attempts) == error
                + " (after "@ + d + " attempts)"@,
        exists|d: Seq<char>|
            #[trigger] reads_as_number(d, attempts as int) && unknown_error(attempts)
                == "Unknown error (after "@ + d + " attempts)"@,
{
    lemma_decimal_reads_back(attempts);
    assert(reads_as_number(decimal(attempts), attempts as int));
}

} // verus!
