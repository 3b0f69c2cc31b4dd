use healthmaster::health_checker::HealthCheckResult;
use healthmaster::telegram::{alert_reason_text, build_error_message, escape_markdown_v2};

fn result(status: u16, latency_ms: u32, error: &str) -> HealthCheckResult {
    HealthCheckResult {
        timestamp: chrono::Utc::now().timestamp(),
        timestamp_nanos: chrono::Utc::now().timestamp_subsec_nanos(),
        target: "svc".to_string(),
        url: "https://svc.local/health".to_string(),
        status,
        latency_ms,
        success: false,
        error: error.to_string(),
    }
}

#[test]
fn build_error_message_uses_http_status_for_unsuccessful_response() {
    let message = build_error_message(&result(503, 150, ""));

    assert!(message.contains("HTTP status 503"));
}

#[test]
fn build_error_message_uses_transport_error_when_status_missing() {
    let message = build_error_message(&result(0, 10, "connection reset"));

    assert!(message.contains("connection reset"));
}

#[test]
fn build_error_message_full_text() {
    let message = build_error_message(&result(503, 150, ""));
    assert_eq!(
        message,
        "\u{1F534} *Health Check Failed: svc*\n\n*URL:* https://svc\\.local/health\n*Latency:* 150ms\n*Reason:* HTTP status 503"
    );
}

#[test]
fn build_error_message_escapes_the_error() {
    let message = build_error_message(&result(0, 7, "tcp connect error: Connection refused (os error 111)"));
    assert!(message.ends_with(
        "*Reason:* tcp connect error: Connection refused \\(os error 111\\)"
    ));
    assert!(message.contains("*Latency:* 7ms"));
}

#[test]
fn alert_reason_prefers_status() {
    assert_eq!(alert_reason_text(&result(404, 1, "ignored")), "HTTP status 404");
    assert_eq!(alert_reason_text(&result(0, 1, "timed out")), "timed out");
}

#[test]
fn escape_marks_every_special_character() {
    assert_eq!(
        escape_markdown_v2("_*[]()~`>#+-=|{}.!"),
        "\\_\\*\\[\\]\\(\\)\\~\\`\\>\\#\\+\\-\\=\\|\\{\\}\\.\\!"
    );
}

#[test]
fn escape_keeps_other_characters() {
    assert_eq!(escape_markdown_v2(""), "");
    assert_eq!(escape_markdown_v2("plain text 123"), "plain text 123");
    assert_eq!(escape_markdown_v2("back\\slash"), "back\\slash");
    assert_eq!(escape_markdown_v2("héllo wörld 🔴"), "héllo wörld 🔴");
    assert_eq!(escape_markdown_v2("a.b-c"), "a\\.b\\-c");
}

/// Reads an escaped text back, as the round-trip law describes.
fn unescape(s: &str) -> String {
    let specials = "_*[]()~`>#+-=|{}.!";
    let chars: Vec<char> = s.chars().collect();
    let mut out = String::new();
    let mut i = 0;
    while i < chars.len() {
        if chars[i] == '\\' && i + 1 < chars.len() && specials.contains(chars[i + 1]) {
            out.push(chars[i + 1]);
            i += 2;
        } else {
            out.push(chars[i]);
            i += 1;
        }
    }
    out
}

#[test]
fn escape_round_trips() {
    for text in ["", "a.b", "\\*", "\\", "x\\\\_y", "(1+1)=2!", "plain"] {
        assert_eq!(unescape(&escape_markdown_v2(text)), text);
    }
}
