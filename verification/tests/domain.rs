use discord_hook::is_allowed_domain;

#[test]
fn allowed_domain_examples() {
    assert!(is_allowed_domain("https://hooks.slack.com/services/T/B/X", &["hooks.slack.com"]));
    assert!(!is_allowed_domain("https://evil.com/hooks.slack.com", &["hooks.slack.com"]));
    assert!(!is_allowed_domain("http://hooks.slack.com/services/T/B/X", &["hooks.slack.com"]));
}

#[test]
fn allowed_domain_ignores_port_and_path() {
    assert!(is_allowed_domain("https://example.com:8443/x", &["other.org", "example.com"]));
    assert!(is_allowed_domain("https://example.com", &["example.com"]));
    assert!(!is_allowed_domain("https://example.com.evil/x", &["example.com"]));
    assert!(!is_allowed_domain("https://example.com/x", &[]));
    assert!(is_allowed_domain("https:///x", &[""]));
}

#[test]
fn allowed_domain_looks_past_userinfo() {
    assert!(!is_allowed_domain("https://hooks.slack.com:x@evil.com/services/T/B/X", &["hooks.slack.com"]));
    assert!(is_allowed_domain("https://user@hooks.slack.com/services/T/B/X", &["hooks.slack.com"]));
    assert!(is_allowed_domain("https://a@b:c@example.com:8443/x", &["example.com"]));
    assert!(!is_allowed_domain("https://example.com/x@evil.com", &["evil.com"]));
}
