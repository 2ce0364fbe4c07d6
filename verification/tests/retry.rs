use slack_zc::retry::{
    backoff_with_jitter, calculate_backoff, is_transient_lowered, is_transient_network_error,
    parse_retry_after,
    retry_decision, retry_decision_with_jitter, CallError, RetryDecision, RetryState, RetryStep,
    TransportFailure, BASE_DELAY_MS, JITTER_SPAN_MS, MAX_BACKOFF_MS, MAX_RETRIES,
    RATE_LIMIT_FALLBACK_SECS,
};

fn text_error(message: &str) -> CallError {
    CallError { message: message.to_string(), transport: None }
}

/// Runs `operation` as a retried call does, without sleeping, and counts
/// the invocations.
fn drive<T>(mut operation: impl FnMut(u32) -> Result<T, CallError>) -> (Result<T, CallError>, u32) {
    let mut state = RetryState::start();
    let mut calls = 0u32;
    loop {
        let outcome = operation(calls);
        calls += 1;
        match state.on_outcome(outcome) {
            RetryStep::Done(value) => return (Ok(value), calls),
            RetryStep::GiveUp(error) => return (Err(error), calls),
            RetryStep::Wait { next, .. } => state = next,
        }
    }
}

#[test]
fn test_parse_retry_after_extracts_seconds() {
    assert_eq!(parse_retry_after("rate_limited retry_after:30 more"), Some(30));
    assert_eq!(parse_retry_after("no header here"), None);
}

#[test]
fn test_retry_success_after_rate_limit() {
    let (result, _) = drive(|count| {
        if count < 2 {
            Err(text_error("429 retry_after:0"))
        } else {
            Ok("success")
        }
    });
    assert!(result.is_ok());
    assert_eq!(result.unwrap(), "success");
}

#[test]
fn test_retry_fails_after_max_attempts() {
    let (result, calls): (Result<&str, CallError>, u32) =
        drive(|_| Err(text_error("429 retry_after:0")));
    assert!(result.is_err());
    assert_eq!(calls, MAX_RETRIES + 1);
}

#[test]
fn test_retry_does_not_retry_non_rate_limit_errors() {
    let (result, calls): (Result<&str, CallError>, u32) =
        drive(|_| Err(text_error("some other error")));
    assert!(result.is_err());
    assert_eq!(calls, 1);
}

#[test]
fn test_calculate_backoff_increases_with_attempts() {
    let delay_0 = calculate_backoff(0);
    let delay_4 = calculate_backoff(4);
    assert!(delay_4 > delay_0);
}

#[test]
fn test_calculate_backoff_is_capped() {
    let delay = calculate_backoff(20);
    assert!(delay as u128 <= MAX_BACKOFF_MS as u128 + 500);
}

#[test]
fn test_retry_on_transient_network_error() {
    let (result, _) = drive(|count| {
        if count < 2 {
            Err(text_error("connection reset by peer"))
        } else {
            Ok("success")
        }
    });
    assert!(result.is_ok());
}

#[test]
fn retry_twice_then_success_is_invoked_three_times() {
    let (result, calls) = drive(|count| {
        if count < 2 {
            Err(text_error("rate_limited retry_after:0"))
        } else {
            Ok(7u32)
        }
    });
    assert_eq!(result.unwrap(), 7);
    assert_eq!(calls, 3);
}

#[test]
fn retry_gives_up_with_the_last_error() {
    let (result, calls): (Result<u8, CallError>, u32) =
        drive(|count| Err(text_error(&format!("timeout number {}", count))));
    assert_eq!(calls, 4);
    assert_eq!(result.unwrap_err().message, "timeout number 3");
}

#[test]
fn constants_have_their_documented_values() {
    assert_eq!(MAX_RETRIES, 3);
    assert_eq!(BASE_DELAY_MS, 1000);
    assert_eq!(MAX_BACKOFF_MS, 30_000);
    assert_eq!(JITTER_SPAN_MS, 500);
    assert_eq!(RATE_LIMIT_FALLBACK_SECS, 60);
}

#[test]
fn backoff_with_jitter_exact_values() {
    assert_eq!(backoff_with_jitter(0, 0), 1000);
    assert_eq!(backoff_with_jitter(0, 499), 1499);
    assert_eq!(backoff_with_jitter(1, 17), 2017);
    assert_eq!(backoff_with_jitter(2, 0), 4000);
    assert_eq!(backoff_with_jitter(3, 250), 8250);
    assert_eq!(backoff_with_jitter(4, 499), 16499);
    assert_eq!(backoff_with_jitter(5, 0), 30_000);
    assert_eq!(backoff_with_jitter(20, 499), 30_000);
    assert_eq!(backoff_with_jitter(u32::MAX, u64::MAX), 30_000);
    assert_eq!(backoff_with_jitter(4, 14_000), 30_000);
    assert_eq!(backoff_with_jitter(4, 13_999), 29_999);
}

#[test]
fn backoff_is_strictly_increasing_over_the_first_attempts() {
    for attempt in 0..4u32 {
        assert!(backoff_with_jitter(attempt, 499) < backoff_with_jitter(attempt + 1, 0));
    }
}

#[test]
fn calculate_backoff_stays_in_the_jitter_window() {
    for _ in 0..50 {
        let delay = calculate_backoff(2);
        assert!((4000..4500).contains(&delay));
    }
}

#[test]
fn parse_retry_after_edge_cases() {
    assert_eq!(parse_retry_after("retry_after:7"), Some(7));
    assert_eq!(parse_retry_after("retry_after:   12  x"), Some(12));
    assert_eq!(parse_retry_after("retry_after:+5"), Some(5));
    assert_eq!(parse_retry_after("retry_after:"), None);
    assert_eq!(parse_retry_after("retry_after:abc"), None);
    assert_eq!(parse_retry_after("retry_after:-3"), None);
    assert_eq!(parse_retry_after("retry_after:30s"), None);
    assert_eq!(parse_retry_after("retry_after:18446744073709551615"), Some(u64::MAX));
    assert_eq!(parse_retry_after("retry_after:18446744073709551616"), None);
    assert_eq!(parse_retry_after("retry_after:x retry_after:9"), None);
    assert_eq!(parse_retry_after("a retry_after:\t\n4"), Some(4));
}

#[test]
fn rate_limit_without_hint_waits_sixty_seconds() {
    for message in ["429", "HTTP 429 Too Many Requests", "error: rate_limited", "x429y"] {
        let decision = retry_decision(&text_error(message), 0);
        assert_eq!(decision, RetryDecision::Retry { delay_ms: 60_000 });
    }
}

#[test]
fn rate_limit_with_hint_waits_exactly_that_long() {
    assert_eq!(
        retry_decision(&text_error("rate_limited retry_after:30 more"), 2),
        RetryDecision::Retry { delay_ms: 30_000 }
    );
    assert_eq!(
        retry_decision(&text_error("429 retry_after:0"), 0),
        RetryDecision::Retry { delay_ms: 0 }
    );
    assert_eq!(
        retry_decision_with_jitter(&text_error("429 retry_after:18446744073709551615"), 1, 3),
        RetryDecision::Retry { delay_ms: 18_446_744_073_709_551_615_000 }
    );
}

#[test]
fn transient_errors_back_off_exponentially() {
    let error = text_error("Connection refused");
    assert_eq!(
        retry_decision_with_jitter(&error, 0, 123),
        RetryDecision::Retry { delay_ms: 1123 }
    );
    assert_eq!(
        retry_decision_with_jitter(&error, 3, 1),
        RetryDecision::Retry { delay_ms: 8001 }
    );
    assert_eq!(
        retry_decision_with_jitter(&error, 9, 1),
        RetryDecision::Retry { delay_ms: 30_000 }
    );
}

#[test]
fn other_errors_fail_at_once() {
    assert_eq!(retry_decision(&text_error("invalid_auth"), 0), RetryDecision::Fail);
    assert_eq!(retry_decision(&text_error(""), 0), RetryDecision::Fail);
}

#[test]
fn transient_text_markers_are_found_in_any_case() {
    for message in ["CONNECTION lost", "Timeout", "request timed out", "reset", "unexpected EOF"] {
        assert!(is_transient_network_error(&text_error(message)), "{}", message);
    }
    assert!(!is_transient_network_error(&text_error("channel_not_found")));
}

#[test]
fn transport_report_takes_precedence_over_the_text() {
    let quiet = TransportFailure { connect: false, timeout: false, request: false };
    let failed = CallError { message: "connection reset".to_string(), transport: Some(quiet) };
    assert!(!is_transient_network_error(&failed));
    assert_eq!(retry_decision(&failed, 0), RetryDecision::Fail);
    for flags in [
        TransportFailure { connect: true, ..quiet },
        TransportFailure { timeout: true, ..quiet },
        TransportFailure { request: true, ..quiet },
    ] {
        let error = CallError { message: "builder error".to_string(), transport: Some(flags) };
        assert!(is_transient_network_error(&error));
    }
}

#[test]
fn rate_limit_marker_wins_over_transport_report() {
    let quiet = TransportFailure { connect: false, timeout: false, request: false };
    let error = CallError { message: "429".to_string(), transport: Some(quiet) };
    assert_eq!(retry_decision(&error, 0), RetryDecision::Retry { delay_ms: 60_000 });
}

#[test]
fn on_outcome_counts_the_retries() {
    let state = RetryState::start();
    assert_eq!(state.attempts, 0);
    let step: RetryStep<()> = state.on_outcome(Err(text_error("429 retry_after:2")));
    match step {
        RetryStep::Wait { delay_ms, next } => {
            assert_eq!(delay_ms, 2000);
            assert_eq!(next.attempts, 1);
        }
        other => panic!("unexpected step {:?}", other),
    }
    let spent = RetryState { attempts: 3 };
    assert!(matches!(
        spent.on_outcome::<()>(Err(text_error("429"))),
        RetryStep::GiveUp(_)
    ));
    assert!(matches!(spent.on_outcome(Ok(1u8)), RetryStep::Done(1)));
}

#[test]
fn lowered_text_names_a_transient_condition() {
    for text in ["connection refused", "a timeout", "timed out", "reset by peer", "unexpected eof"] {
        assert!(is_transient_lowered(text), "{}", text);
    }
    for text in ["", "invalid_auth", "Connection", "TIMEOUT", "time out", "EOF"] {
        assert!(!is_transient_lowered(text), "{}", text);
    }
    let shouted = CallError { message: "CONNECTION RESET".to_string(), transport: None };
    assert!(is_transient_network_error(&shouted));
}
