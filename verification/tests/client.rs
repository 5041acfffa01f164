use discord_hook::{validate_thread_id, validate_url, WebhookClient, WebhookClientBuilder, WebhookError};
use std::time::Duration;

#[test]
fn rejects_http_url() {
    let err = validate_url("http://discord.com/api/webhooks/123/abc").unwrap_err();
    assert!(matches!(err, WebhookError::InvalidUrl { .. }));
}

#[test]
fn rejects_non_discord_url() {
    let err = validate_url("https://example.com/webhook").unwrap_err();
    assert!(matches!(err, WebhookError::InvalidUrl { .. }));
}

#[test]
fn accepts_valid_discord_url() {
    assert!(validate_url("https://discord.com/api/webhooks/123456789/abcdef").is_ok());
}

#[test]
fn client_new_propagates_invalid_url() {
    let err = match WebhookClient::new("not-a-url") {
        Err(e) => e,
        Ok(_) => panic!("expected an error"),
    };
    assert!(matches!(err, WebhookError::InvalidUrl { .. }));
}

#[test]
fn debug_output_redacts_token() {
    let client =
        WebhookClient::new("https://discord.com/api/webhooks/123456789/SECRET_TOKEN").unwrap();
    let debug = client.debug_string();
    assert!(!debug.contains("SECRET_TOKEN"), "token must not appear in debug output");
    assert!(debug.contains("123456789"), "webhook id should be visible");
}

#[test]
fn thread_id_rejects_empty() {
    assert!(matches!(validate_thread_id(""), Err(WebhookError::InvalidThreadId)));
}

#[test]
fn thread_id_rejects_non_numeric() {
    for bad in &["abc", "123abc", "12&34", "12/34", "12?id=1", " 123"] {
        assert!(
            matches!(validate_thread_id(bad), Err(WebhookError::InvalidThreadId)),
            "expected InvalidThreadId for {:?}",
            bad
        );
    }
}

#[test]
fn thread_id_accepts_valid_snowflake() {
    assert!(validate_thread_id("1234567890123456789").is_ok());
}

#[test]
fn builder_accepts_valid_url() {
    let result = WebhookClientBuilder::new("https://discord.com/api/webhooks/123456789/abcdef")
        .connect_timeout(Duration::from_secs(5))
        .request_timeout(Duration::from_secs(15))
        .build();
    assert!(result.is_ok());
}

#[test]
fn builder_rejects_invalid_url() {
    let result = WebhookClientBuilder::new("http://example.com/webhook").build();
    assert!(matches!(result, Err(WebhookError::InvalidUrl { .. })));
}

#[test]
fn invalid_url_reasons_are_exact() {
    match validate_url("http://discord.com/api/webhooks/1/t") {
        Err(WebhookError::InvalidUrl { reason }) => assert_eq!(reason, "webhook URL must use HTTPS"),
        other => panic!("unexpected {:?}", other),
    }
    match validate_url("https://example.com/webhook") {
        Err(WebhookError::InvalidUrl { reason }) => {
            assert_eq!(reason, "URL must target discord.com/api/webhooks/")
        }
        other => panic!("unexpected {:?}", other),
    }
}

#[test]
fn url_check_is_case_and_position_sensitive() {
    assert!(validate_url("HTTPS://discord.com/api/webhooks/1/t").is_err());
    assert!(validate_url("https://proxy.example/discord.com/api/webhooks/1/t").is_err());
    assert!(validate_url("https://evil.com/discord.com/api/webhooks/1/t").is_err());
    assert!(validate_url("https://discord.com.evil/api/webhooks/1/t").is_err());
    assert!(validate_url("https://discord.com/api/webhook/1/t").is_err());
    assert!(validate_url("").is_err());
}

#[test]
fn with_client_validates_too() {
    let http = reqwest::Client::new();
    assert!(WebhookClient::with_client("https://discord.com/api/webhooks/1/t", http.clone()).is_ok());
    assert!(matches!(
        WebhookClient::with_client("ftp://discord.com/api/webhooks/1/t", http),
        Err(WebhookError::InvalidUrl { .. })
    ));
}

#[test]
fn request_url_waits_for_confirmation() {
    let client = WebhookClient::new("https://discord.com/api/webhooks/42/tok").unwrap();
    assert_eq!(client.request_url(None), "https://discord.com/api/webhooks/42/tok?wait=true");
    assert_eq!(
        client.request_url(Some("99")),
        "https://discord.com/api/webhooks/42/tok?wait=true&thread_id=99"
    );
}

#[test]
fn thread_request_url_checks_the_thread_id() {
    let client = WebhookClient::new("https://discord.com/api/webhooks/42/tok").unwrap();
    assert_eq!(
        client.thread_request_url("000000000000000000").unwrap(),
        "https://discord.com/api/webhooks/42/tok?wait=true&thread_id=000000000000000000"
    );
    assert!(matches!(client.thread_request_url("1&x=2"), Err(WebhookError::InvalidThreadId)));
}

#[test]
fn debug_string_is_exact() {
    let client = WebhookClient::new("https://discord.com/api/webhooks/123456789/SECRET_TOKEN").unwrap();
    assert_eq!(
        client.debug_string(),
        "WebhookClient { url: https://discord.com/api/webhooks/123456789/<REDACTED>, .. }"
    );
}

#[test]
fn client_is_clone_and_keeps_url() {
    let client = WebhookClient::new("https://discord.com/api/webhooks/7/abc").unwrap();
    let copy = client.clone();
    assert_eq!(copy.request_url(None), client.request_url(None));
}

#[test]
fn new_rejects_a_foreign_host() {
    assert!(matches!(
        WebhookClient::new("https://evil.com/discord.com/api/webhooks/1/t"),
        Err(WebhookError::InvalidUrl { .. })
    ));
}

#[test]
fn discord_subdomains_are_accepted() {
    assert!(validate_url("https://canary.discord.com/api/webhooks/1/t").is_ok());
    assert!(validate_url("https://ptb.discord.com/api/webhooks/1/t").is_ok());
    assert!(validate_url("https://user@discord.com/api/webhooks/1/t").is_ok());
    assert!(WebhookClient::new("https://canary.discord.com/api/webhooks/1/t").is_ok());
    assert!(validate_url("https://evildiscord.com/api/webhooks/1/t").is_err());
    assert!(validate_url("https://discord.com@evil.com/api/webhooks/1/t").is_err());
    assert!(validate_url("https://discord.com:8443/api/webhooks/1/t").is_err());
    assert!(validate_url("https://canary.discord.com/api/webhook/1/t").is_err());
    assert!(validate_url("https://discord.com").is_err());
}
