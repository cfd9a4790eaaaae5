use shade::config::{Config, ConfigError, StorageMode};

#[test]
fn default_config_is_valid() {
    let config = Config::default();
    assert_eq!(config.storage.mode, StorageMode::Socket);
    assert_eq!(config.storage.database_url.as_deref(), Some("sqlite::memory:"));
    assert_eq!(config.storage.socket_path.as_deref(), Some("/tmp/shade.sock"));
    assert_eq!(config.server.host, "127.0.0.1");
    assert_eq!(config.server.port, 3000);
    assert_eq!(config.validate(), Ok(()));
    assert!(config.serves_socket());
}

#[test]
fn file_mode_needs_database_url() {
    let mut config = Config::default();
    config.storage.mode = StorageMode::File;
    config.storage.database_url = None;
    let verdict = config.validate();
    assert_eq!(verdict, Err(ConfigError::MissingDatabaseUrl { mode: StorageMode::File }));
    assert_eq!(verdict.unwrap_err().message(), "database_url is required for file mode");
    assert!(!config.serves_socket());
}

#[test]
fn file_mode_needs_no_socket_path() {
    let mut config = Config::default();
    config.storage.mode = StorageMode::File;
    config.storage.socket_path = None;
    assert_eq!(config.validate(), Ok(()));
}

#[test]
fn socket_mode_needs_database_url_first() {
    let mut config = Config::default();
    config.storage.database_url = None;
    config.storage.socket_path = None;
    let verdict = config.validate();
    assert_eq!(verdict, Err(ConfigError::MissingDatabaseUrl { mode: StorageMode::Socket }));
    assert_eq!(verdict.unwrap_err().message(), "database_url is required for socket mode");
}

#[test]
fn socket_mode_needs_socket_path() {
    let mut config = Config::default();
    config.storage.socket_path = None;
    let verdict = config.validate();
    assert_eq!(verdict, Err(ConfigError::MissingSocketPath));
    assert_eq!(verdict.unwrap_err().message(), "socket_path is required for socket mode");
}

#[test]
fn config_clone_keeps_every_field() {
    let mut config = Config::default();
    config.server.port = 8443;
    config.storage.socket_path = None;
    let copy = config.clone();
    assert_eq!(copy.server.port, 8443);
    assert_eq!(copy.server.host, config.server.host);
    assert_eq!(copy.storage.mode, config.storage.mode);
    assert_eq!(copy.storage.database_url, config.storage.database_url);
    assert_eq!(copy.storage.socket_path, None);
}
