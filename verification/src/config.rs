//! Runtime configuration and the rules a configuration must satisfy.

use vstd::prelude::*;
use vstd::string::*;

verus! {

/// Where the identity store is reached.
#[derive(Clone, Copy, Debug, PartialEq, Eq, Structural)]
pub enum StorageMode {
    /// The process opens the database itself.
    File,
    /// The process talks to a running server over the local socket.
    Socket,
}

#[derive(Debug)]
pub struct StorageConfig {
    pub mode: StorageMode,
    pub database_url: Option<String>,
    pub socket_path: Option<String>,
}

#[derive(Debug)]
pub struct ServerConfig {
    pub host: String,
    pub port: u16,
}

#[derive(Debug)]
pub struct Config {
    pub storage: StorageConfig,
    pub server: ServerConfig,
}

/// Why a configuration was turned down.
#[derive(Clone, Copy, Debug, PartialEq, Eq, Structural)]
pub enum ConfigError {
    /// No database URL, in the given mode.
    MissingDatabaseUrl { mode: StorageMode },
    /// Socket mode without a socket path.
    MissingSocketPath,
}

impl Clone for StorageConfig {
    fn clone(&self) -> (copy: Self)
        ensures
            copy == *self,
    {
        StorageConfig {
            mode: self.mode,
            database_url: match &self.database_url {
                Some(url) => Some(url.clone()),
                None => None,
            },
            socket_path: match &self.socket_path {
                Some(path) => Some(path.clone()),
                None => None,
            },
        }
    }
}

impl Clone for ServerConfig {
    fn clone(&self) -> (copy: Self)
        ensures
            copy == *self,
    {
        ServerConfig { host: self.host.clone(), port: self.port }
    }
}

impl Clone for Config {
    fn clone(&self) -> (copy: Self)
        ensures
            copy == *self,
    {
        Config { storage: self.storage.clone(), server: self.server.clone() }
    }
}

impl ConfigError {
    /// The text shown to the operator.
    pub open spec fn spec_message(self) -> Seq<char> {
        match self {
            ConfigError::MissingDatabaseUrl { mode: StorageMode::File } =>
                "database_url is required for file mode"@,
            ConfigError::MissingDatabaseUrl { mode: StorageMode::Socket } =>
                "database_url is required for socket mode"@,
            ConfigError::MissingSocketPath => "socket_path is required for socket mode"@,
        }
    }

    pub fn message(&self) -> (text: String)
        ensures
            text@ == self.spec_message(),
    {
        match self {
            ConfigError::MissingDatabaseUrl { mode: StorageMode::File } => String::from_str(
                "database_url is required for file mode",
            ),
            ConfigError::MissingDatabaseUrl { mode: StorageMode::Socket } => String::from_str(
                "database_url is required for socket mode",
            ),
            ConfigError::MissingSocketPath => String::from_str(
                "socket_path is required for socket mode",
            ),
        }
    }
}

impl Default for Config {
    /// Socket mode on an in-memory database, serving on the loopback address.
    fn default() -> (config: Self)
        ensures
            config.storage.mode == StorageMode::Socket,
            config.storage.database_url matches Some(url) && url@ == "sqlite::memory:"@,
            config.storage.socket_path matches Some(path) && path@ == "/tmp/shade.sock"@,
            config.server.host@ == "127.0.0.1"@,
            config.server.port == 3000,
            config.spec_validate() is Ok,
    {
        Config {
            storage: StorageConfig {
                mode: StorageMode::Socket,
                database_url: Some(String::from_str("sqlite::memory:")),
                socket_path: Some(String::from_str("/tmp/shade.sock")),
            },
            server: ServerConfig { host: String::from_str("127.0.0.1"), port: 3000 },
        }
    }
}

impl Config {
    /// The verdict on a configuration: every mode needs a database URL, and
    /// socket mode a socket path besides. The database URL is looked at first.
    pub open spec fn spec_validate(&self) -> Result<(), ConfigError> {
        if self.storage.database_url is None {
            Err(ConfigError::MissingDatabaseUrl { mode: self.storage.mode })
        } else if self.storage.mode == StorageMode::Socket && self.storage.socket_path is None {
            Err(ConfigError::MissingSocketPath)
        } else {
            Ok(())
        }
    }

    pub fn validate(&self) -> (verdict: Result<(), ConfigError>)
        ensures
            verdict == self.spec_validate(),
    {
        match self.storage.mode {
            StorageMode::File => {
                if self.storage.database_url.is_none() {
                    return Err(ConfigError::MissingDatabaseUrl { mode: StorageMode::File });
                }
            },
            StorageMode::Socket => {
                if self.storage.database_url.is_none() {
                    return Err(ConfigError::MissingDatabaseUrl { mode: StorageMode::Socket });
                }
                if self.storage.socket_path.is_none() {
                    return Err(ConfigError::MissingSocketPath);
                }
            },
        }
        Ok(())
    }

    /// Whether the enrollment socket is to be served beside the HTTP API.
    pub fn serves_socket(&self) -> (yes: bool)
        ensures
            yes == (self.storage.mode == StorageMode::Socket),
    {
        match self.storage.mode {
            StorageMode::File => false,
            StorageMode::Socket => true,
        }
    }
}

} // verus!
