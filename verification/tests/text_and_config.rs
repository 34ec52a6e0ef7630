use github_app_client::github_api::settings::GITHUB_COM_API_BASE_URL;
use github_app_client::github_api::text::decimal_string;
use github_app_client::github_api::Config;

#[test]
fn writes_numbers_in_decimal() {
    assert_eq!(decimal_string(0), "0");
    assert_eq!(decimal_string(7), "7");
    assert_eq!(decimal_string(10), "10");
    assert_eq!(decimal_string(123), "123");
    assert_eq!(decimal_string(9_007_199_254_740_993), "9007199254740993");
    assert_eq!(decimal_string(u64::MAX), "18446744073709551615");
}

#[test]
fn decimal_agrees_with_the_standard_rendering() {
    let mut value: u64 = 1;
    for _ in 0..63 {
        assert_eq!(decimal_string(value), value.to_string());
        assert_eq!(decimal_string(value - 1), (value - 1).to_string());
        value *= 2;
    }
}

#[test]
fn base_url_defaults_to_github_com() {
    let config = Config::new(None, "acme".to_string(), "key.pem".to_string(), 123, None);
    assert_eq!(config.base_url, "https://api.github.com/");
    assert_eq!(GITHUB_COM_API_BASE_URL, "https://api.github.com/");
    assert_eq!(config.organization, "acme");
    assert_eq!(config.private_key_path, "key.pem");
    assert_eq!(config.app_id, 123);
    assert_eq!(config.webhook_secret, None);
    assert_eq!(config.webhook_secret(), None);
}

#[test]
fn keeps_a_configured_base_url_and_secret() {
    let config = Config::new(
        Some("https://github.example.com/api/v3/".to_string()),
        "acme".to_string(),
        "/etc/app/key.pem".to_string(),
        7,
        Some("s3cret".to_string()),
    );
    assert_eq!(config.base_url, "https://github.example.com/api/v3/");
    assert_eq!(config.webhook_secret(), Some("s3cret"));
    let top = github_app_client::Config { github_api: config };
    assert_eq!(top.github_api.app_id, 7);
}
