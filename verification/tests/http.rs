use discord_hook::{CoreError, HttpClient, HttpClientBuilder, WebhookError};
use std::time::Duration;

#[test]
fn http_builder_defaults_to_thirty_seconds() {
    let b = HttpClientBuilder::new();
    assert_eq!(b.effective_request_timeout(), Duration::from_secs(30));
    let b = b.request_timeout(Duration::from_secs(15)).connect_timeout(Duration::from_secs(5));
    assert_eq!(b.effective_request_timeout(), Duration::from_secs(15));
    assert!(b.build().is_ok());
}

#[test]
fn http_client_wraps_a_reqwest_client() {
    assert!(HttpClient::try_new().is_ok());
    let wrapped = HttpClient::with_reqwest(reqwest::Client::new());
    let _inner: &reqwest::Client = wrapped.inner();
    let _copy = wrapped.clone();
}

#[test]
fn json_errors_convert_into_both_error_types() {
    let err = serde_json::from_str::<u8>("not json").unwrap_err();
    assert!(matches!(CoreError::from(err), CoreError::Json(_)));
    let err = serde_json::from_str::<u8>("[").unwrap_err();
    assert!(matches!(WebhookError::from(err), WebhookError::Json(_)));
}
