use bento::ConfigBuilder;
use bento::headers::auth_header_value;
use bento::headers::request_headers;
use bento::headers::user_agent_value;
use bento::text::decimal_string;
use bento::url::build_url;

fn example_config() -> bento::Config {
    ConfigBuilder::new()
        .publishable_key("pub")
        .secret_key("secret")
        .site_uuid("abc")
        .base_url("https://api.example.com/v1")
        .build()
        .unwrap()
}

#[test]
fn test_build_url_appends_site_uuid() {
    let config = example_config();
    assert_eq!(
        build_url(&config, "/fetch/tags"),
        "https://api.example.com/v1/fetch/tags?site_uuid=abc"
    );
}

#[test]
fn test_build_url_keeps_existing_query() {
    let config = example_config();
    assert_eq!(
        build_url(&config, "/fetch/tags?x=1"),
        "https://api.example.com/v1/fetch/tags?x=1&site_uuid=abc"
    );
}

#[test]
fn test_build_url_trims_slashes() {
    let config = ConfigBuilder::new()
        .publishable_key("pub")
        .secret_key("secret")
        .site_uuid("abc")
        .base_url("https://api.example.com/v1///")
        .build()
        .unwrap();
    assert_eq!(
        build_url(&config, "///fetch/tags"),
        "https://api.example.com/v1/fetch/tags?site_uuid=abc"
    );
    assert_eq!(build_url(&config, "fetch/tags"), "https://api.example.com/v1/fetch/tags?site_uuid=abc");
}

#[test]
fn test_auth_header_is_basic_base64() {
    // base64 of "pub:secret", standard alphabet with padding
    assert_eq!(auth_header_value("pub", "secret"), "Basic cHViOnNlY3JldA==");
}

#[test]
fn test_user_agent_carries_version_and_site() {
    assert_eq!(user_agent_value("abc"), format!("bento-rust-{}-abc", bento::VERSION));
}

#[test]
fn test_request_headers() {
    let config = example_config();
    let headers = request_headers(&config);
    assert_eq!(headers.len(), 4);
    assert_eq!(headers[0].0, "Authorization");
    assert_eq!(headers[0].1, "Basic cHViOnNlY3JldA==");
    assert_eq!(headers[1].0, "Accept");
    assert_eq!(headers[1].1, "application/json");
    assert_eq!(headers[2].0, "Content-Type");
    assert_eq!(headers[2].1, "application/json");
    assert_eq!(headers[3].0, "User-Agent");
    assert_eq!(headers[3].1, format!("bento-rust-{}-abc", bento::VERSION));
}

#[test]
fn test_decimal_string() {
    assert_eq!(decimal_string(0), "0");
    assert_eq!(decimal_string(7), "7");
    assert_eq!(decimal_string(42), "42");
    assert_eq!(decimal_string(100), "100");
    assert_eq!(decimal_string(4294967295), "4294967295");
}
