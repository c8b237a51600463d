use bento::ConfigBuilder;
use bento::Error;

#[test]
fn test_config_builder() {
    let config = ConfigBuilder::new()
        .publishable_key("pub_key")
        .secret_key("secret_key")
        .site_uuid("site_123")
        .timeout(60)
        .build();

    assert!(config.is_ok());
    let config = config.unwrap();
    assert_eq!(config.publishable_key, "pub_key");
    assert_eq!(config.secret_key, "secret_key");
    assert_eq!(config.site_uuid, "site_123");
    assert_eq!(config.timeout_secs, 60);
}

#[test]
fn test_config_builder_missing_required() {
    let config = ConfigBuilder::new().build();
    assert!(config.is_err());

    let config = ConfigBuilder::new().publishable_key("pub_key").build();
    assert!(config.is_err());

    let config = ConfigBuilder::new()
        .publishable_key("pub_key")
        .secret_key("secret_key")
        .build();
    assert!(config.is_err());
}

#[test]
fn test_config_builder_default_values() {
    let config = ConfigBuilder::new()
        .publishable_key("pub_key")
        .secret_key("secret_key")
        .site_uuid("site_123")
        .build()
        .unwrap();

    assert_eq!(config.timeout_secs, 30);
    assert_eq!(config.base_url, "https://app.bentonow.com/api/v1");
}

#[test]
fn test_config_builder_error_messages() {
    match ConfigBuilder::new().build() {
        Err(Error::InvalidConfig(m)) => assert_eq!(m, "publishable key is required"),
        other => panic!("expected InvalidConfig, got {:?}", other),
    }
    match ConfigBuilder::new().publishable_key("pk").build() {
        Err(Error::InvalidConfig(m)) => assert_eq!(m, "secret key is required"),
        other => panic!("expected InvalidConfig, got {:?}", other),
    }
    match ConfigBuilder::new().publishable_key("pk").secret_key("sk").build() {
        Err(Error::InvalidConfig(m)) => assert_eq!(m, "site UUID is required"),
        other => panic!("expected InvalidConfig, got {:?}", other),
    }
}
