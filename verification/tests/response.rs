use discord_hook::response::{on_body, on_status, ResponseStep};
use discord_hook::WebhookError;

#[test]
fn rate_limit_uses_header_or_one_second() {
    assert!(matches!(
        on_status(429, Some(2500)),
        ResponseStep::Done(Err(WebhookError::RateLimited { retry_after_ms: 2500 }))
    ));
    assert!(matches!(
        on_status(429, None),
        ResponseStep::Done(Err(WebhookError::RateLimited { retry_after_ms: 1000 }))
    ));
}

#[test]
fn success_statuses_are_done() {
    assert!(matches!(on_status(200, None), ResponseStep::Done(Ok(()))));
    assert!(matches!(on_status(204, Some(5)), ResponseStep::Done(Ok(()))));
    assert!(matches!(on_status(299, None), ResponseStep::Done(Ok(()))));
}

#[test]
fn other_statuses_need_the_body() {
    for s in [100u16, 199, 300, 400, 404, 428, 430, 500, 503] {
        assert!(matches!(on_status(s, None), ResponseStep::ReadBody), "status {}", s);
    }
}

#[test]
fn api_error_carries_status_and_body() {
    match on_body(400, Ok(b"{\"message\": \"bad\"}".to_vec())) {
        WebhookError::ApiError { status, message } => {
            assert_eq!(status, 400);
            assert_eq!(message, "{\"message\": \"bad\"}");
        }
        other => panic!("unexpected {:?}", other),
    }
    match on_body(404, Err("404 Not Found".to_string())) {
        WebhookError::ApiError { status, message } => {
            assert_eq!(status, 404);
            assert_eq!(message, "404 Not Found");
        }
        other => panic!("unexpected {:?}", other),
    }
}

#[test]
fn api_error_body_is_capped_and_lossy() {
    match on_body(500, Ok(vec![b'a'; 5000])) {
        WebhookError::ApiError { message, .. } => assert_eq!(message, "a".repeat(4096)),
        other => panic!("unexpected {:?}", other),
    }
    match on_body(500, Ok(vec![b'o', b'k', 0xff])) {
        WebhookError::ApiError { message, .. } => assert_eq!(message, "ok\u{FFFD}"),
        other => panic!("unexpected {:?}", other),
    }
}
