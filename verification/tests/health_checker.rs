use healthmaster::config::Target;
use healthmaster::health_checker::{
    finish_result, plan_check_loop, report, status_line, CheckAction, CheckEvent, CheckPhase,
    CheckRun, CheckVerdict, HealthCheckResult, LoopPlan, RETRY_PAUSE_MILLIS,
};

fn make_target(url: &str, interval_seconds: u32, retry: u32) -> Target {
    Target {
        name: "example".to_string(),
        url: url.to_string(),
        timeout_ms: 1000,
        interval_seconds,
        retry,
    }
}

/// Runs a check to its end, answering each request with the next outcome.
fn drive(retry: u32, mut outcomes: Vec<CheckEvent>) -> (CheckVerdict, u32, u32) {
    outcomes.reverse();
    let target = make_target("https://example.com/health", 60, retry);
    let (mut run, mut action) = CheckRun::begin(&target);
    let mut pauses = 0;
    loop {
        let event = match action {
            CheckAction::Finish(verdict) => return (verdict, run.attempts(), pauses),
            CheckAction::Send { url, timeout_ms } => {
                assert_eq!(url, "https://example.com/health");
                assert_eq!(timeout_ms, 1000);
                outcomes.pop().expect("a request was made")
            }
            CheckAction::Pause { millis } => {
                assert_eq!(millis, RETRY_PAUSE_MILLIS);
                pauses += 1;
                CheckEvent::Resumed
            }
        };
        assert!(run.accepts(&event));
        let (next, next_action) = run.step(event);
        run = next;
        action = next_action;
    }
}

fn failed(error: &str) -> CheckEvent {
    CheckEvent::Failed { error: error.to_string() }
}

#[test]
fn check_passes_on_2xx_response() {
    let (verdict, attempts, _) =
        drive(3, vec![CheckEvent::Responded { status: 200, body_error: None }]);
    assert_eq!(verdict.status, 200);
    assert!(verdict.success);
    assert!(verdict.error.is_empty());
    assert_eq!(attempts, 1);
}

#[test]
fn check_marks_non_2xx_as_unsuccessful() {
    let (verdict, _, _) = drive(3, vec![CheckEvent::Responded { status: 503, body_error: None }]);
    assert_eq!(verdict.status, 503);
    assert!(!verdict.success);
    assert!(verdict.error.is_empty());
    let (verdict, _, _) = drive(1, vec![CheckEvent::Responded { status: 199, body_error: None }]);
    assert!(!verdict.success);
    let (verdict, _, _) = drive(1, vec![CheckEvent::Responded { status: 299, body_error: None }]);
    assert!(verdict.success);
    let (verdict, _, _) = drive(1, vec![CheckEvent::Responded { status: 300, body_error: None }]);
    assert!(!verdict.success);

}

#[test]
fn check_fails_when_body_cannot_be_read() {
    let (verdict, _, _) = drive(
        3,
        vec![CheckEvent::Responded { status: 200, body_error: Some("connection closed".to_string()) }],
    );
    assert_eq!(verdict.status, 200);
    assert!(!verdict.success);
    assert_eq!(verdict.error, "read response body: connection closed");
}

#[test]
fn check_reports_error_after_all_attempts() {
    let (verdict, attempts, pauses) =
        drive(3, vec![failed("first"), failed("second"), failed("connection refused")]);
    assert_eq!(verdict.status, 0);
    assert!(!verdict.success);
    assert!(!verdict.error.is_empty());
    assert!(verdict.error.contains("after 3 attempts"));
    assert_eq!(verdict.error, "connection refused (after 3 attempts)");
    assert_eq!(attempts, 3);
    assert_eq!(pauses, 2);
}

#[test]
fn check_retries_until_a_response() {
    let (verdict, attempts, pauses) = drive(
        3,
        vec![failed("reset"), CheckEvent::Responded { status: 204, body_error: None }],
    );
    assert!(verdict.success);
    assert_eq!(verdict.status, 204);
    assert_eq!(attempts, 2);
    assert_eq!(pauses, 1);
}

#[test]
fn check_without_attempts_reports_unknown_error() {
    let (verdict, attempts, _) = drive(0, vec![]);
    assert_eq!(verdict.error, "Unknown error (after 0 attempts)");
    assert_eq!(verdict.status, 0);
    assert!(!verdict.success);
    assert_eq!(attempts, 0);
}

#[test]
fn single_attempt_does_not_pause() {
    let (verdict, attempts, pauses) = drive(1, vec![failed("timeout")]);
    assert_eq!(verdict.error, "timeout (after 1 attempts)");
    assert_eq!(attempts, 1);
    assert_eq!(pauses, 0);
}

#[test]
fn check_refuses_unexpected_events() {
    let (run, action) = CheckRun::begin(&make_target("http://127.0.0.1:9", 60, 2));
    match action {
        CheckAction::Send { url, timeout_ms } => {
            assert_eq!(url, "http://127.0.0.1:9");
            assert_eq!(timeout_ms, 1000);
        }
        _ => panic!("the first action is a request"),
    }
    assert_eq!(run.phase(), CheckPhase::Awaiting);
    assert_eq!(run.retry(), 2);
    assert!(!run.accepts(&CheckEvent::Resumed));
    assert!(run.accepts(&CheckEvent::Responded { status: 100, body_error: None }));
    assert!(run.accepts(&CheckEvent::Responded { status: 999, body_error: None }));
    assert!(!run.accepts(&CheckEvent::Responded { status: 0, body_error: None }));
    assert!(!run.accepts(&CheckEvent::Responded { status: 42, body_error: None }));
    assert!(!run.accepts(&CheckEvent::Responded { status: 1000, body_error: None }));
    let (run, action) = run.step(failed("x"));
    assert!(matches!(action, CheckAction::Pause { millis: 50 }));
    assert_eq!(run.phase(), CheckPhase::Backoff);
    assert!(!run.accepts(&failed("y")));
    let (run, _) = run.step(CheckEvent::Resumed);
    let (run, _) = run.step(failed("z"));
    assert_eq!(run.phase(), CheckPhase::Done);
    assert!(!run.accepts(&CheckEvent::Resumed));
    assert!(!run.accepts(&failed("again")));
}

fn sample(status: u16, success: bool, error: &str) -> HealthCheckResult {
    HealthCheckResult {
        timestamp: 1_700_000_000,
        timestamp_nanos: 250_000_000,
        target: "svc".to_string(),
        url: "https://svc.local/health".to_string(),
        status,
        latency_ms: 150,
        success,
        error: error.to_string(),
    }
}

#[test]
fn finish_result_copies_target_and_verdict() {
    let target = make_target("https://example.com", 60, 3);
    let verdict = CheckVerdict { status: 200, success: true, error: String::new() };
    let r = finish_result(&target, 1_700_000_000, 123_456_789, 1234, verdict);
    assert_eq!(r.timestamp, 1_700_000_000);
    assert_eq!(r.timestamp_nanos, 123_456_789);
    assert_eq!(r.target, "example");
    assert_eq!(r.url, "https://example.com");
    assert_eq!(r.status, 200);
    assert_eq!(r.latency_ms, 1234);
    assert!(r.success);
    assert!(r.error.is_empty());
}

#[test]
fn finish_result_wraps_latency() {
    let target = make_target("https://example.com", 60, 3);
    let verdict = CheckVerdict { status: 0, success: false, error: "e".to_string() };
    let r = finish_result(&target, 0, 0, (1u128 << 32) + 5, verdict);
    assert_eq!(r.latency_ms, 5);
}

#[test]
fn status_line_shows_status_or_error() {
    assert_eq!(
        status_line(&sample(200, true, "")),
        "ok svc - https://svc.local/health (150ms) - status: 200"
    );
    assert_eq!(
        status_line(&sample(0, false, "connection reset (after 3 attempts)")),
        "err svc - https://svc.local/health (150ms) - status: connection reset (after 3 attempts)"
    );
}

#[test]
fn report_alerts_only_failures() {
    let ok = report(&sample(200, true, ""));
    assert!(ok.alert.is_none());
    let bad = report(&sample(503, false, ""));
    assert_eq!(bad.line, "err svc - https://svc.local/health (150ms) - status: 503");
    assert!(bad.alert.expect("a failed check alerts").contains("HTTP status 503"));
}

#[test]
fn run_check_loop_returns_immediately_for_zero_interval() {
    let target = Target {
        name: "invalid".to_string(),
        url: "https://example.com".to_string(),
        timeout_ms: 1000,
        interval_seconds: 0,
        retry: 3,
    };
    match plan_check_loop(&target) {
        LoopPlan::Skip { warning } => assert_eq!(
            warning,
            "Target 'invalid' has interval_seconds=0; skipping to avoid panic"
        ),
        LoopPlan::Every { .. } => panic!("zero interval should not block or panic"),
    }
}

#[test]
fn loop_runs_at_the_target_interval() {
    match plan_check_loop(&make_target("https://example.com", 60, 3)) {
        LoopPlan::Every { seconds } => assert_eq!(seconds, 60),
        LoopPlan::Skip { .. } => panic!("a positive interval runs"),
    }
}
