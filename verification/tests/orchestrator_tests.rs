use linktor::errors::LinktorError;
use linktor::orchestrator::{
    backoff_delay, classify_success_body, next_action, rate_limit_delay, translate_error,
    ResponseAction, RetryState, SuccessBody,
};

#[test]
fn success_decodes_without_retry() {
    let mut state = RetryState::new(3);
    assert_eq!(next_action(&mut state, 200, None), ResponseAction::Decode);
    assert_eq!(state.attempt, 1);
    assert_eq!(next_action(&mut state, 204, None), ResponseAction::Decode);
}

#[test]
fn rate_limit_retries_once_with_header_delay() {
    // A 429 with Retry-After: 2 and max-retries 3: exactly one retry with a
    // 2-second delay before the next attempt succeeds.
    let mut state = RetryState::new(3);
    let retry_after = "2".to_string();
    let action = next_action(&mut state, 429, Some(&retry_after));
    assert_eq!(action, ResponseAction::Retry { delay_seconds: 2 });
    assert_eq!(state.attempt, 2);
    assert_eq!(next_action(&mut state, 200, None), ResponseAction::Decode);
    assert_eq!(state.attempt, 2);
}

#[test]
fn rate_limit_delay_defaults_to_sixty() {
    assert_eq!(rate_limit_delay(None), 60);
    let junk = "soon".to_string();
    assert_eq!(rate_limit_delay(Some(&junk)), 60);
    let secs = "17".to_string();
    assert_eq!(rate_limit_delay(Some(&secs)), 17);
}

#[test]
fn server_errors_back_off_exponentially_then_fail() {
    // Three consecutive 500s with max-retries 3: exactly 3 attempts, with
    // backoffs of 2 s and 4 s, then a Server error.
    let mut state = RetryState::new(3);
    assert_eq!(next_action(&mut state, 500, None), ResponseAction::Retry { delay_seconds: 2 });
    assert_eq!(state.attempt, 2);
    assert_eq!(next_action(&mut state, 500, None), ResponseAction::Retry { delay_seconds: 4 });
    assert_eq!(state.attempt, 3);
    assert_eq!(next_action(&mut state, 500, None), ResponseAction::Fail);
    assert_eq!(state.attempt, 3);
    let err = translate_error(500, "boom", None);
    assert!(matches!(err, LinktorError::Server { .. }));
}

#[test]
fn rate_limit_exhausted_fails() {
    let mut state = RetryState::new(2);
    let retry_after = "1".to_string();
    assert_eq!(
        next_action(&mut state, 429, Some(&retry_after)),
        ResponseAction::Retry { delay_seconds: 1 }
    );
    assert_eq!(next_action(&mut state, 429, Some(&retry_after)), ResponseAction::Fail);
}

#[test]
fn max_retries_one_never_retries() {
    let mut state = RetryState::new(1);
    assert_eq!(next_action(&mut state, 500, None), ResponseAction::Fail);
    assert_eq!(next_action(&mut state, 429, None), ResponseAction::Fail);
}

#[test]
fn non_retryable_statuses_fail_immediately() {
    let mut state = RetryState::new(3);
    assert_eq!(next_action(&mut state, 400, None), ResponseAction::Fail);
    assert_eq!(next_action(&mut state, 404, None), ResponseAction::Fail);
    assert_eq!(next_action(&mut state, 302, None), ResponseAction::Fail);
    assert_eq!(state.attempt, 1);
}

#[test]
fn retryable_band_covers_all_5xx() {
    let mut state = RetryState::new(3);
    assert_eq!(next_action(&mut state, 503, None), ResponseAction::Retry { delay_seconds: 2 });
    assert_eq!(next_action(&mut state, 599, None), ResponseAction::Retry { delay_seconds: 4 });
}

#[test]
fn backoff_delay_doubles() {
    assert_eq!(backoff_delay(1), 2);
    assert_eq!(backoff_delay(2), 4);
    assert_eq!(backoff_delay(3), 8);
    assert_eq!(backoff_delay(10), 1024);
}

#[test]
fn empty_body_decodes_to_null() {
    assert_eq!(classify_success_body(""), SuccessBody::Null);
}

#[test]
fn envelope_with_data_is_unwrapped() {
    let r = classify_success_body(r#"{"success":true,"data":{"id":"x"}}"#);
    match r {
        SuccessBody::Data(text) => assert_eq!(text, r#"{"id":"x"}"#),
        other => panic!("expected the data text, got {:?}", other),
    }
}

#[test]
fn envelope_marking_failure_is_raw() {
    assert_eq!(
        classify_success_body(r#"{"success":false,"data":{"id":"x"}}"#),
        SuccessBody::Raw
    );
}

#[test]
fn envelope_without_data_is_raw() {
    assert_eq!(classify_success_body(r#"{"success":true}"#), SuccessBody::Raw);
    assert_eq!(classify_success_body(r#"{"success":true,"data":null}"#), SuccessBody::Raw);
}

#[test]
fn bare_body_is_raw() {
    assert_eq!(classify_success_body(r#"{"id":"x"}"#), SuccessBody::Raw);
    assert_eq!(classify_success_body("[1,2,3]"), SuccessBody::Raw);
}

#[test]
fn structured_error_message_is_extracted() {
    let err = translate_error(
        400,
        r#"{"code":"invalid_input","message":"name is required"}"#,
        Some("req_1".to_string()),
    );
    match err {
        LinktorError::Validation { message, request_id } => {
            assert_eq!(message, "name is required");
            assert_eq!(request_id.as_deref(), Some("req_1"));
        }
        other => panic!("expected a validation error, got {:?}", other),
    }
}

#[test]
fn unstructured_error_body_is_kept_verbatim() {
    let err = translate_error(404, "no such conversation", None);
    match err {
        LinktorError::NotFound { message, request_id } => {
            assert_eq!(message, "no such conversation");
            assert!(request_id.is_none());
        }
        other => panic!("expected a not-found error, got {:?}", other),
    }
}

#[test]
fn status_taxonomy_is_complete() {
    assert!(matches!(translate_error(400, "m", None), LinktorError::Validation { .. }));
    assert!(matches!(translate_error(401, "m", None), LinktorError::Authentication { .. }));
    assert!(matches!(translate_error(403, "m", None), LinktorError::Authorization { .. }));
    assert!(matches!(translate_error(404, "m", None), LinktorError::NotFound { .. }));
    assert!(matches!(
        translate_error(429, "m", None),
        LinktorError::RateLimit { retry_after: 60, .. }
    ));
    assert!(matches!(translate_error(500, "m", None), LinktorError::Server { .. }));
    assert!(matches!(translate_error(599, "m", None), LinktorError::Server { .. }));
    match translate_error(418, "m", None) {
        LinktorError::Unknown { status_code, .. } => assert_eq!(status_code, Some(418)),
        other => panic!("expected an unknown-status error, got {:?}", other),
    }
}
