use aisudo::config::{location_in, Config, ConfigError, Location};

#[test]
fn test_config_default() {
    let config = Config::default();
    assert_eq!(config.default_unknown, "allow");
    assert_eq!(config.default_severity, "info");
    assert_eq!(config.request_timeout_secs, 300);
    assert!(config.telegram_bot_token.is_none());
}

#[test]
fn locations_below_home() {
    assert_eq!(location_in("/home/ana", Location::Home), "/home/ana/.aisudo");
    assert_eq!(location_in("/home/ana", Location::Private), "/home/ana/.aisudo/private");
    assert_eq!(location_in("/home/ana", Location::Public), "/home/ana/.aisudo/public");
    assert_eq!(location_in("/home/ana", Location::Requests), "/home/ana/.aisudo/public/requests");
    assert_eq!(location_in("/home/ana", Location::Socket), "/home/ana/.aisudo/aisudo.sock");
    assert_eq!(location_in("/home/ana", Location::ConfigFile), "/home/ana/.aisudo/config.toml");
    assert_eq!(location_in("/home/ana", Location::PolicyFile), "/home/ana/.aisudo/private/policy.toml");
    assert_eq!(location_in("/home/ana", Location::DevicesFile), "/home/ana/.aisudo/private/devices.toml");
    assert_eq!(location_in("/home/ana", Location::GrantsFile), "/home/ana/.aisudo/private/grants.toml");
    assert_eq!(location_in("/home/ana", Location::SecretsFile), "/home/ana/.aisudo/private/secrets.toml");
    assert_eq!(location_in("/home/ana", Location::AuditLog), "/home/ana/.aisudo/public/audit.log");
}

#[test]
fn locations_join_like_paths() {
    // A trailing separator is not doubled; an empty home gives a relative path.
    assert_eq!(location_in("/", Location::Home), "/.aisudo");
    assert_eq!(location_in("/home/ana/", Location::Socket), "/home/ana/.aisudo/aisudo.sock");
    assert_eq!(location_in("", Location::Private), ".aisudo/private");
}

#[test]
fn every_location_lies_under_the_home_directory() {
    let all = [
        Location::Home,
        Location::Private,
        Location::Public,
        Location::Requests,
        Location::Socket,
        Location::ConfigFile,
        Location::PolicyFile,
        Location::DevicesFile,
        Location::GrantsFile,
        Location::SecretsFile,
        Location::AuditLog,
    ];
    let home = location_in("/u", Location::Home);
    let private = location_in("/u", Location::Private);
    for loc in all {
        assert!(location_in("/u", loc).starts_with(&home));
    }
    for loc in [Location::PolicyFile, Location::DevicesFile, Location::GrantsFile, Location::SecretsFile] {
        assert!(location_in("/u", loc).starts_with(&private));
    }
}

#[test]
fn config_error_message() {
    assert_eq!(ConfigError::NoHomeDirectory.message(), "Could not determine home directory");
}

#[test]
fn config_paths_agree_with_home() {
    // Whatever the environment gives, the paths end as the layout says.
    if let Ok(p) = aisudo::config::policy_path() {
        assert!(p.ends_with(".aisudo/private/policy.toml"));
    }
    if let Ok(p) = aisudo::config::audit_path() {
        assert!(p.ends_with(".aisudo/public/audit.log"));
    }
}

#[test]
fn telegram_credentials_need_both_fields() {
    let mut config = Config::default();
    assert!(config.telegram_credentials().is_none());
    config.telegram_bot_token = Some("tok".to_string());
    assert!(config.telegram_credentials().is_none());
    config.telegram_chat_id = Some("42".to_string());
    assert_eq!(config.telegram_credentials(), Some(("tok".to_string(), "42".to_string())));
}
