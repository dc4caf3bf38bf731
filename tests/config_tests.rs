use helmctl::config::{Config, ConfigError, SettingKey};

#[test]
fn test_config_default() {
    let config = Config::default();
    assert!(config.default_environment.is_none());
    assert!(config.default_concurrency.is_none());
    assert!(config.repositories.is_none());
}

#[test]
fn test_config_default_config() {
    let config = Config::default_config();

    assert_eq!(config.default_environment, Some("development".to_string()));
    assert_eq!(config.default_concurrency, Some(2));
    assert_eq!(config.default_timeout, Some(300));
    assert_eq!(config.auto_update_repos, Some(true));
    assert_eq!(config.log_level, Some("info".to_string()));
    assert!(config.repositories.is_some());

    let repos = config.repositories.unwrap();
    assert_eq!(repos.len(), 2);
    assert_eq!(repos[0].name, "bitnami");
    assert_eq!(repos[1].name, "stable");
}

#[test]
fn default_config_seed_urls() {
    let config = Config::default_config();
    assert!(config.preferred_context.is_none());
    let repos = config.repositories.unwrap();
    assert_eq!(repos[0].url, "https://charts.bitnami.com/bitnami");
    assert_eq!(repos[1].url, "https://charts.helm.sh/stable");
}

#[test]
fn test_config_invalid_key() {
    let mut config = Config::default_config();
    let err = config.set_value("invalid_key", "value").unwrap_err();
    assert!(err.message().contains("Unknown configuration key"));
    assert!(err.message().contains("invalid_key"));
    assert!(err.message().contains("preferred_context, log_level"));
}

#[test]
fn test_config_invalid_concurrency_value() {
    let mut config = Config::default_config();
    let err = config.set_value("default_concurrency", "invalid").unwrap_err();
    assert!(err.message().contains("Invalid concurrency value"));
    assert_eq!(config.default_concurrency, Some(2));
}

#[test]
fn test_config_set_all_valid_keys() {
    let mut config = Config::default_config();
    let test_cases = vec![
        ("default_environment", "production"),
        ("default_concurrency", "3"),
        ("default_timeout", "600"),
        ("auto_update_repos", "false"),
        ("preferred_context", "prod-cluster"),
        ("log_level", "debug"),
    ];
    for (key, value) in test_cases {
        assert!(config.set_value(key, value).is_ok());
        assert_eq!(config.get_value(key).ok(), Some(value.to_string()));
    }
    assert_eq!(config.default_concurrency, Some(3));
    assert_eq!(config.default_timeout, Some(600));
    assert_eq!(config.auto_update_repos, Some(false));
}

#[test]
fn test_config_invalid_boolean_value() {
    let mut config = Config::default_config();
    let err = config.set_value("auto_update_repos", "maybe").unwrap_err();
    assert!(err.message().contains("Invalid boolean value"));
    assert_eq!(config.auto_update_repos, Some(true));
}

#[test]
fn test_config_invalid_log_level() {
    let mut config = Config::default_config();
    let err = config.set_value("log_level", "invalid_level").unwrap_err();
    assert!(err.message().contains("Invalid log level"));
    assert_eq!(config.log_level, Some("info".to_string()));
}

#[test]
fn test_config_get_nonexistent_key() {
    let config = Config::default_config();
    let err = config.get_value("nonexistent_key").unwrap_err();
    assert!(err.message().contains("Unknown configuration key"));
}

#[test]
fn test_config_get_unset_value() {
    let mut config = Config::default();
    config.default_environment = Some("test".to_string());
    let shown = config.get_value("preferred_context").ok().unwrap();
    assert_eq!(format!("{}: {}", "preferred_context", shown), "preferred_context: not set");
}

#[test]
fn test_config_roundtrip() {
    let mut config = Config::default_config();
    assert!(config.set_value("default_environment", "staging").is_ok());
    let shown = config.get_value("default_environment").ok().unwrap();
    assert_eq!(format!("default_environment: {}", shown), "default_environment: staging");
}

#[test]
fn test_config_set_and_get() {
    let mut config = Config::default_config();
    assert!(config.set_value("default_environment", "testing").is_ok());
    assert_eq!(config.get_value("default_environment").ok(), Some("testing".to_string()));
}

#[test]
fn log_level_is_lowercased() {
    let mut config = Config::default();
    assert!(config.set_value("log_level", "WARN").is_ok());
    assert_eq!(config.get_value("log_level").ok(), Some("warn".to_string()));
    assert!(config.set_value("log_level", "Error").is_ok());
    assert_eq!(config.log_level, Some("error".to_string()));
}

#[test]
fn numbers_are_normalized() {
    let mut config = Config::default();
    assert!(config.set_value("default_concurrency", "007").is_ok());
    assert_eq!(config.get_value("default_concurrency").ok(), Some("7".to_string()));
    assert!(config.set_value("default_timeout", "+42").is_ok());
    assert_eq!(config.get_value("default_timeout").ok(), Some("42".to_string()));
    assert!(config.set_value("default_timeout", "4294967295").is_ok());
    assert_eq!(config.default_timeout, Some(u32::MAX));
}

#[test]
fn out_of_range_numbers_are_rejected() {
    let mut config = Config::default();
    assert!(matches!(
        config.set_value("default_concurrency", "256"),
        Err(ConfigError::InvalidValue(SettingKey::DefaultConcurrency))
    ));
    assert!(matches!(
        config.set_value("default_timeout", "4294967296"),
        Err(ConfigError::InvalidValue(SettingKey::DefaultTimeout))
    ));
    assert!(config.set_value("default_timeout", "-1").is_err());
    assert!(config.set_value("default_timeout", "").is_err());
    assert!(config.set_value("default_timeout", "+").is_err());
    assert!(config.set_value("default_timeout", " 5").is_err());
    assert!(config.default_concurrency.is_none());
    assert!(config.default_timeout.is_none());
}

#[test]
fn concurrency_zero_and_max_accepted() {
    let mut config = Config::default();
    assert!(config.set_value("default_concurrency", "255").is_ok());
    assert_eq!(config.default_concurrency, Some(255));
    assert!(config.set_value("default_concurrency", "0").is_ok());
    assert_eq!(config.get_value("default_concurrency").ok(), Some("0".to_string()));
}

#[test]
fn booleans_round_trip() {
    let mut config = Config::default();
    assert!(config.set_value("auto_update_repos", "true").is_ok());
    assert_eq!(config.get_value("auto_update_repos").ok(), Some("true".to_string()));
    assert!(config.set_value("auto_update_repos", "TRUE").is_err());
    assert_eq!(config.auto_update_repos, Some(true));
}

#[test]
fn unset_values_show_not_set() {
    let config = Config::default();
    for key in [
        "default_environment",
        "default_concurrency",
        "default_timeout",
        "auto_update_repos",
        "preferred_context",
        "log_level",
    ] {
        assert_eq!(config.get_value(key).ok(), Some("not set".to_string()));
    }
}

#[test]
fn error_messages_name_the_domain() {
    assert_eq!(
        ConfigError::InvalidValue(SettingKey::DefaultConcurrency).message(),
        "Invalid concurrency value (must be 1-255)"
    );
    assert_eq!(
        ConfigError::InvalidValue(SettingKey::DefaultTimeout).message(),
        "Invalid timeout value (must be a positive number)"
    );
    assert_eq!(
        ConfigError::InvalidValue(SettingKey::LogLevel).message(),
        "Invalid log level (use: debug, info, warn, error)"
    );
    assert_eq!(
        ConfigError::UnknownKey("x".to_string()).message(),
        "Unknown configuration key: x. Available keys: default_environment, default_concurrency, default_timeout, auto_update_repos, preferred_context, log_level"
    );
}

#[test]
fn cli_values_win_over_stored_ones() {
    let mut config = Config::default_config();
    config.preferred_context = Some("stored-ctx".to_string());
    assert_eq!(config.resolve_environment(Some("qa".to_string())), Some("qa".to_string()));
    assert_eq!(config.resolve_environment(None), Some("development".to_string()));
    assert_eq!(config.resolve_context(None), Some("stored-ctx".to_string()));
    assert_eq!(config.resolve_concurrency(1), 2);
    assert_eq!(config.resolve_concurrency(5), 5);
    assert_eq!(config.resolve_timeout(300), 300);
    config.default_timeout = Some(90);
    assert_eq!(config.resolve_timeout(300), 90);
    assert_eq!(config.resolve_timeout(60), 60);
    let empty = Config::default();
    assert_eq!(empty.resolve_concurrency(1), 1);
    assert_eq!(empty.resolve_context(None), None);
}
