use spacemolt_viewer::models::ConnectionState;
use spacemolt_viewer::ws_client::{
    after_reconnect, AfterReconnect, backoff_delay_secs, classify_close_code, classify_close_code_checked,
    may_reconnect, parse_retry_after, plan_after_close, plan_after_drop, LoopStep,
    ReconnectAction, ReconnectPlan, MAX_BACKOFF_SECS, MAX_RECONNECT_ATTEMPTS, WS_URL,
};
use std::time::Duration;

#[test]
fn close_code_1000_returns_backoff() {
    let action = classify_close_code(1000, "normal closure", 1);
    assert_eq!(action, ReconnectAction::Backoff { delay_secs: 1, attempt: 1 });
}

#[test]
fn close_code_1000_exponential_backoff() {
    let a1 = classify_close_code(1000, "", 1);
    let a2 = classify_close_code(1000, "", 2);
    let a3 = classify_close_code(1000, "", 3);
    assert_eq!(a1, ReconnectAction::Backoff { delay_secs: 1, attempt: 1 });
    assert_eq!(a2, ReconnectAction::Backoff { delay_secs: 2, attempt: 2 });
    assert_eq!(a3, ReconnectAction::Backoff { delay_secs: 4, attempt: 3 });
}

#[test]
fn close_code_1000_backoff_caps_at_30s() {
    let action = classify_close_code(1000, "", 10);
    assert_eq!(action, ReconnectAction::Backoff { delay_secs: MAX_BACKOFF_SECS, attempt: 10 });
}

#[test]
fn close_code_4001_returns_abort() {
    let action = classify_close_code(4001, "session_replaced", 1);
    assert_eq!(action, ReconnectAction::Abort);
}

#[test]
fn close_code_4002_returns_immediate() {
    let action = classify_close_code(4002, "auth_timeout", 1);
    assert_eq!(action, ReconnectAction::Immediate);
}

#[test]
fn close_code_4003_parses_json_retry_after() {
    let reason = r#"{"retry_after": 60}"#;
    let action = classify_close_code(4003, reason, 1);
    assert_eq!(action, ReconnectAction::WaitFor { seconds: 60 });
}

#[test]
fn close_code_4003_parses_plain_number() {
    let action = classify_close_code(4003, "45", 1);
    assert_eq!(action, ReconnectAction::WaitFor { seconds: 45 });
}

#[test]
fn close_code_4003_parses_retry_after_in_text() {
    let action = classify_close_code(4003, "rate limited, retry_after=120 seconds", 1);
    assert_eq!(action, ReconnectAction::WaitFor { seconds: 120 });
}

#[test]
fn close_code_4003_defaults_to_30_when_no_number() {
    let action = classify_close_code(4003, "rate limited", 1);
    assert_eq!(action, ReconnectAction::WaitFor { seconds: 30 });
}

#[test]
fn parse_retry_after_json_object() {
    let result = parse_retry_after(r#"{"retry_after": 90}"#);
    assert_eq!(result, Some(90));
}

#[test]
fn parse_retry_after_plain_number() {
    let result = parse_retry_after("30");
    assert_eq!(result, Some(30));
}

#[test]
fn parse_retry_after_text_with_number() {
    let result = parse_retry_after("retry_after: 15");
    assert_eq!(result, Some(15));
}

#[test]
fn parse_retry_after_no_number_returns_none() {
    let result = parse_retry_after("rate limited, try again later");
    assert_eq!(result, None);
}

#[test]
fn parse_retry_after_empty_string() {
    let result = parse_retry_after("");
    assert_eq!(result, None);
}

#[test]
fn reconnect_action_abort_is_distinct() {
    assert_ne!(ReconnectAction::Abort, ReconnectAction::Immediate);
    assert_ne!(ReconnectAction::Abort, ReconnectAction::Backoff { delay_secs: 1, attempt: 1 });
}

#[test]
fn reconnect_action_wait_for_equality() {
    assert_eq!(ReconnectAction::WaitFor { seconds: 30 }, ReconnectAction::WaitFor { seconds: 30 });
    assert_ne!(ReconnectAction::WaitFor { seconds: 30 }, ReconnectAction::WaitFor { seconds: 60 });
}

#[test]
fn max_reconnect_attempts_is_reasonable() {
    assert_eq!(MAX_RECONNECT_ATTEMPTS, 10);
}

#[test]
fn max_backoff_is_30s() {
    assert_eq!(Duration::from_secs(MAX_BACKOFF_SECS), Duration::from_secs(30));
}

#[test]
fn ws_url_is_v2_endpoint() {
    assert_eq!(WS_URL, "wss://game.spacemolt.com/ws/v2");
}

#[test]
fn backoff_doubles_then_caps() {
    let delays: Vec<u64> = (1..=8).map(backoff_delay_secs).collect();
    assert_eq!(delays, vec![1, 2, 4, 8, 16, 30, 30, 30]);
}

#[test]
fn parse_retry_after_is_case_insensitive_in_text() {
    assert_eq!(parse_retry_after("Retry_After 7s"), Some(7));
    assert_eq!(parse_retry_after("RETRY_AFTER=9"), Some(9));
}

#[test]
fn parse_retry_after_trims_plain_number() {
    assert_eq!(parse_retry_after("  12 \n"), Some(12));
}

#[test]
fn parse_retry_after_json_without_key_falls_back_to_text() {
    assert_eq!(parse_retry_after(r#"{"wait": 5}"#), Some(5));
    assert_eq!(parse_retry_after(r#"{"retry_after": -5}"#), Some(5));
}

#[test]
fn checked_classification_refuses_attempt_zero() {
    assert_eq!(classify_close_code_checked(1000, "", 0), None);
    assert_eq!(classify_close_code_checked(4001, "", 0), Some(ReconnectAction::Abort));
    assert_eq!(classify_close_code_checked(4003, "retry_after 3", 0), Some(ReconnectAction::WaitFor { seconds: 3 }));
    assert_eq!(classify_close_code_checked(1000, "", 2), Some(ReconnectAction::Backoff { delay_secs: 2, attempt: 2 }));
}

#[test]
fn plan_after_session_replaced_stops() {
    assert_eq!(
        plan_after_close(3, ReconnectAction::Abort),
        LoopStep::Stop { notify: ConnectionState::SessionReplaced }
    );
}

#[test]
fn plan_after_rate_limit_waits_and_keeps_attempt() {
    assert_eq!(
        plan_after_close(2, ReconnectAction::WaitFor { seconds: 45 }),
        LoopStep::Reconnect(ReconnectPlan {
            notify: ConnectionState::RateLimited { retry_after: 45 },
            wait_secs: 45,
            attempt: 2,
        })
    );
}

#[test]
fn plan_after_auth_timeout_resets_attempts() {
    assert_eq!(
        plan_after_close(4, ReconnectAction::Immediate),
        LoopStep::Reconnect(ReconnectPlan { notify: ConnectionState::Reconnecting, wait_secs: 0, attempt: 0 })
    );
}

#[test]
fn plan_after_drop_counts_an_attempt() {
    assert_eq!(
        plan_after_drop(2),
        ReconnectPlan { notify: ConnectionState::Reconnecting, wait_secs: 4, attempt: 3 }
    );
}

#[test]
fn reconnect_limit_and_outcome() {
    assert!(may_reconnect(10));
    assert!(!may_reconnect(11));
    assert_eq!(after_reconnect(3, true), AfterReconnect::Connected);
    assert_eq!(
        after_reconnect(3, false),
        AfterReconnect::Retry(ReconnectPlan { notify: ConnectionState::Reconnecting, wait_secs: 8, attempt: 4 })
    );
    assert_eq!(
        after_reconnect(0, false),
        AfterReconnect::Retry(ReconnectPlan { notify: ConnectionState::Reconnecting, wait_secs: 1, attempt: 1 })
    );
    assert_eq!(
        after_reconnect(9, false),
        AfterReconnect::Retry(ReconnectPlan { notify: ConnectionState::Reconnecting, wait_secs: 30, attempt: 10 })
    );
    assert_eq!(after_reconnect(10, false), AfterReconnect::GiveUp);
}

#[test]
fn parse_retry_after_takes_any_number_in_plain_text() {
    assert_eq!(parse_retry_after("wait 5 seconds"), Some(5));
    assert_eq!(parse_retry_after("try in 12s (retry_after unknown)"), Some(12));
    assert_eq!(parse_retry_after("retry_after: soon, 7 maybe"), Some(7));
    assert_eq!(classify_close_code(4003, "slow down for 9 s", 1), ReconnectAction::WaitFor { seconds: 9 });
}

#[test]
fn parse_retry_after_answers_every_reason() {
    // Lower-casing 'İ' takes more bytes than the letter itself, so the word
    // found in the lower-cased text does not end on a boundary of the reason.
    assert_eq!(parse_retry_after("İretry_after"), None);
    assert_eq!(parse_retry_after("İretry_after 5"), Some(5));
    assert_eq!(parse_retry_after("İİretry_after=8"), Some(8));
    assert_eq!(classify_close_code(4003, "İretry_after", 1), ReconnectAction::WaitFor { seconds: 30 });
}
