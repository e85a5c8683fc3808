use auth_backend::config::AppConfig;

#[test]
fn absent_values_fall_back_to_defaults() {
    let config = AppConfig::from_vars("postgres://localhost:5432/postgres".to_string(), None, None);
    assert_eq!(config.database_url, "postgres://localhost:5432/postgres");
    assert_eq!(config.bind_address, "127.0.0.1:8080");
    assert_eq!(config.jwt_secret, "change-me");
}

#[test]
fn configured_values_are_kept() {
    let config = AppConfig::from_vars(
        "postgres://db/users".to_string(),
        Some("0.0.0.0:9000".to_string()),
        Some("s3cr3t".to_string()),
    );
    assert_eq!(config.database_url, "postgres://db/users");
    assert_eq!(config.bind_address, "0.0.0.0:9000");
    assert_eq!(config.jwt_secret, "s3cr3t");

    let only_address =
        AppConfig::from_vars(String::new(), Some("[::1]:80".to_string()), None);
    assert_eq!(only_address.database_url, "");
    assert_eq!(only_address.bind_address, "[::1]:80");
    assert_eq!(only_address.jwt_secret, "change-me");

    let only_secret = AppConfig::from_vars(String::new(), None, Some(String::new()));
    assert_eq!(only_secret.bind_address, "127.0.0.1:8080");
    assert_eq!(only_secret.jwt_secret, "");
}
