use ps_payload_injector::config::{
    Config, ConfigError, StoreAction, StoredConfig, AUTO_SAVE_FILE, DEFAULT_AUTO_SAVE_ENABLED,
    DEFAULT_FILE_PATH, DEFAULT_IP, DEFAULT_PORT,
};

#[test]
fn test_config_new() {
    let config = Config::new(
        "192.168.1.1".to_string(),
        "8080".to_string(),
        "/path/to/file".to_string(),
    );

    assert_eq!(config.ip, "192.168.1.1");
    assert_eq!(config.port, "8080");
    assert_eq!(config.file_path, "/path/to/file");
    assert_eq!(config.auto_save_enabled, DEFAULT_AUTO_SAVE_ENABLED);
}

#[test]
fn test_config_new_with_auto_save() {
    let config = Config::new_with_auto_save(
        "192.168.1.1".to_string(),
        "8080".to_string(),
        "/path/to/file".to_string(),
        true,
    );

    assert_eq!(config.ip, "192.168.1.1");
    assert_eq!(config.port, "8080");
    assert_eq!(config.file_path, "/path/to/file");
    assert_eq!(config.auto_save_enabled, true);
}

#[test]
fn test_load_or_default() {
    // No config file exists
    let config = Config::load_or_default(&StoredConfig::Missing);

    assert_eq!(config.ip, DEFAULT_IP);
    assert_eq!(config.port, DEFAULT_PORT);
    assert_eq!(config.file_path, DEFAULT_FILE_PATH);
    assert_eq!(config.auto_save_enabled, DEFAULT_AUTO_SAVE_ENABLED);
}

#[test]
fn test_auto_save() {
    let config = Config::new(
        "10.0.0.1".to_string(),
        "8080".to_string(),
        "/test/path.txt".to_string(),
    );

    let action = config.auto_save();
    assert!(matches!(action, StoreAction::Write(_)));
    let stored = StoredConfig::Missing.apply(action);

    // Load it back to verify
    let loaded = Config::load_or_default(&stored);
    assert_eq!(loaded.ip, "10.0.0.1");
    assert_eq!(loaded.port, "8080");
    assert_eq!(loaded.file_path, "/test/path.txt");
}

#[test]
fn test_config_default() {
    let config = Config::default();

    assert_eq!(config.ip, DEFAULT_IP);
    assert_eq!(config.port, DEFAULT_PORT);
    assert_eq!(config.file_path, DEFAULT_FILE_PATH);
    assert_eq!(config.auto_save_enabled, DEFAULT_AUTO_SAVE_ENABLED);
}

#[test]
fn default_values_are_the_documented_ones() {
    let config = Config::default();
    assert_eq!(config.ip, "192.168.1.4");
    assert_eq!(config.port, "9025");
    assert_eq!(config.file_path, "");
    assert!(!config.auto_save_enabled);
    assert_eq!(AUTO_SAVE_FILE, "app_config.json");
}

#[test]
fn load_or_default_falls_back_on_unreadable_file() {
    let config = Config::load_or_default(&StoredConfig::Unreadable);
    assert_eq!(config.ip, DEFAULT_IP);
    assert_eq!(config.port, DEFAULT_PORT);
    assert_eq!(config.file_path, DEFAULT_FILE_PATH);
    assert_eq!(config.auto_save_enabled, DEFAULT_AUTO_SAVE_ENABLED);
}

#[test]
fn load_or_default_returns_what_is_stored() {
    let stored = StoredConfig::Present(Config::new_with_auto_save(
        "10.1.2.3".to_string(),
        "1".to_string(),
        "/a/b".to_string(),
        true,
    ));
    let config = Config::load_or_default(&stored);
    assert_eq!(config.ip, "10.1.2.3");
    assert_eq!(config.port, "1");
    assert_eq!(config.file_path, "/a/b");
    assert!(config.auto_save_enabled);
}

#[test]
fn config_file_exists_tells_missing_from_the_rest() {
    assert!(!Config::config_file_exists(&StoredConfig::Missing));
    assert!(Config::config_file_exists(&StoredConfig::Unreadable));
    assert!(Config::config_file_exists(&StoredConfig::Present(Config::default())));
}

#[test]
fn clone_keeps_every_field() {
    let config = Config::new_with_auto_save(
        "::1".to_string(),
        "65535".to_string(),
        "/path/файл.txt".to_string(),
        true,
    );
    let copy = config.clone();
    assert_eq!(copy.ip, config.ip);
    assert_eq!(copy.port, config.port);
    assert_eq!(copy.file_path, config.file_path);
    assert_eq!(copy.auto_save_enabled, config.auto_save_enabled);
}

#[test]
fn stored_settings_load_back_for_all_kinds_of_text() {
    let cases = vec![
        ("", "", "", false),
        ("192.168.1.1", "8080", "/path with spaces/file-name_test.txt", true),
        ("192.168.1.1", "8080", "/path/файл.txt", false),
        ("  ", "+80", "\u{3000}", true),
    ];
    for (ip, port, file_path, auto_save) in cases {
        let config = Config::new_with_auto_save(
            ip.to_string(),
            port.to_string(),
            file_path.to_string(),
            auto_save,
        );
        for before in vec![
            StoredConfig::Missing,
            StoredConfig::Unreadable,
            StoredConfig::Present(Config::default()),
        ] {
            let stored = before.apply(config.auto_save());
            assert!(Config::config_file_exists(&stored));
            let loaded = Config::load_or_default(&stored);
            assert_eq!(loaded.ip, ip);
            assert_eq!(loaded.port, port);
            assert_eq!(loaded.file_path, file_path);
            assert_eq!(loaded.auto_save_enabled, auto_save);
        }
    }
}

#[test]
fn apply_keep_and_remove() {
    let stored = StoredConfig::Present(Config::default()).apply(StoreAction::Keep);
    assert!(matches!(stored, StoredConfig::Present(_)));
    let stored = stored.apply(StoreAction::Remove);
    assert!(matches!(stored, StoredConfig::Missing));
    let stored = StoredConfig::Unreadable.apply(StoreAction::Keep);
    assert!(matches!(stored, StoredConfig::Unreadable));
    let stored = StoredConfig::Missing.apply(StoreAction::Remove);
    assert!(matches!(stored, StoredConfig::Missing));
}

#[test]
fn config_error_messages_are_exact() {
    let path = "/root/readonly/config.json".to_string();
    let cause = "No such file or directory (os error 2)".to_string();
    assert_eq!(
        ConfigError::Serialize { cause: "key must be a string".to_string() }.message(),
        "Failed to serialize config: key must be a string"
    );
    assert_eq!(
        ConfigError::Create { path: path.clone(), cause: cause.clone() }.message(),
        "Failed to create config file '/root/readonly/config.json': No such file or directory (os error 2)"
    );
    assert_eq!(
        ConfigError::Write { path: path.clone(), cause: cause.clone() }.message(),
        "Failed to write config file '/root/readonly/config.json': No such file or directory (os error 2)"
    );
    assert_eq!(
        ConfigError::Read { path: "/path/that/does/not/exist.json".to_string(), cause: cause.clone() }
            .message(),
        "Failed to read config file '/path/that/does/not/exist.json': No such file or directory (os error 2)"
    );
    assert_eq!(
        ConfigError::Parse { path: "c.json".to_string(), cause: "expected value".to_string() }
            .message(),
        "Failed to parse config file 'c.json': expected value"
    );
}
