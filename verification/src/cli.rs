//! The command line: its commands, the request each one makes of the
//! enrollment server, and what the server's answer means to the operator.
//! Reading the arguments and printing belong to the caller.

use vstd::prelude::*;
use vstd::string::*;
use crate::cert::{spec_public_from_private, CertError};
use crate::clock::Timestamp;
use crate::config::StorageMode;
use crate::ident::{format_uuid, uuid_text};
use crate::socket::{ClientError, SocketMessage, SocketResponse};
use crate::storage::KeyPair;

verus! {

/// The command line, once read.
#[derive(Debug, PartialEq, Eq)]
pub struct Cli {
    pub config: String,
    pub command: Option<Commands>,
}

#[derive(Debug, PartialEq, Eq)]
pub enum Commands {
    /// Draw a key pair and show it.
    GenKeys,
    /// Run the server.
    Server,
    /// Enroll the identity of a private key.
    RegisterKey { private_key: String },
    /// Revoke the identity with an identifier.
    RevokeCert { id: String },
    /// List the live identities.
    ListCerts,
    /// Check the configuration.
    Validate,
}

/// How a command reaches the identity store.
#[derive(Clone, Copy, Debug, PartialEq, Eq, Structural)]
pub enum Route {
    /// It opens the database itself.
    Direct,
    /// It asks the running server, over the enrollment socket.
    Remote,
}

/// The route that a storage mode stands for.
pub fn route(mode: StorageMode) -> (route: Route)
    ensures
        route == match mode {
            StorageMode::File => Route::Direct,
            StorageMode::Socket => Route::Remote,
        },
{
    match mode {
        StorageMode::File => Route::Direct,
        StorageMode::Socket => Route::Remote,
    }
}

impl Cli {
    /// The configuration file read when none is named.
    pub fn default_config() -> (path: String)
        ensures
            path@ == "shade.yaml"@,
    {
        String::from_str("shade.yaml")
    }

    /// Shown when no command is given.
    pub fn no_command_notice() -> (text: String)
        ensures
            text@ == "No command provided. Use --help to see available commands."@,
    {
        String::from_str("No command provided. Use --help to see available commands.")
    }
}

impl Commands {
    /// Whether the command works on the identity store.
    pub open spec fn spec_uses_store(&self) -> bool {
        self is RegisterKey || self is RevokeCert || self is ListCerts
    }

    pub fn uses_store(&self) -> (yes: bool)
        ensures
            yes == self.spec_uses_store(),
    {
        match self {
            Commands::RegisterKey { .. } => true,
            Commands::RevokeCert { .. } => true,
            Commands::ListCerts => true,
            _ => false,
        }
    }

    /// The request that the command makes of the enrollment server: none for
    /// a command that does not work on the store. Enrolling fails here, and
    /// nothing is sent, when the private key is not the base64 text of 32
    /// bytes; the candidate has no deadline.
    pub fn request(self) -> (request: Option<Result<SocketMessage, CertError>>)
        ensures
            match self {
                Commands::RegisterKey { private_key } => match request {
                    Some(Ok(SocketMessage::Register(candidate))) => {
                        &&& spec_public_from_private(private_key@) == Ok::<Seq<char>, CertError>(
                            candidate.public_key@,
                        )
                        &&& candidate.private_key == private_key
                        &&& candidate.expires_at == None::<Timestamp>
                    },
                    Some(Err(error)) => spec_public_from_private(private_key@) == Err::<
                        Seq<char>,
                        CertError,
                    >(error),
                    _ => false,
                },
                Commands::RevokeCert { id } => request == Some(
                    Ok::<SocketMessage, CertError>(SocketMessage::Revoke { id }),
                ),
                Commands::ListCerts => request == Some(
                    Ok::<SocketMessage, CertError>(SocketMessage::List),
                ),
                _ => request is None,
            },
    {
        match self {
            Commands::RegisterKey { private_key } => match KeyPair::new(private_key, None) {
                Ok(candidate) => Some(Ok(SocketMessage::Register(candidate))),
                Err(error) => Some(Err(error)),
            },
            Commands::RevokeCert { id } => Some(Ok(SocketMessage::Revoke { id })),
            Commands::ListCerts => Some(Ok(SocketMessage::List)),
            _ => None,
        }
    }
}

/// The record enrolled, if the answer to a `Register` is one. An `Error` is
/// the server's failure, in its words; any other answer is out of place.
pub fn expect_registered(response: SocketResponse) -> (outcome: Result<KeyPair, ClientError>)
    ensures
        match response {
            SocketResponse::KeyRegistered(stored) => outcome == Ok::<KeyPair, ClientError>(stored),
            SocketResponse::Error(reason) => outcome == Err::<KeyPair, ClientError>(
                ClientError::Server(reason),
            ),
            _ => outcome == Err::<KeyPair, ClientError>(ClientError::Unexpected),
        },
{
    match response {
        SocketResponse::KeyRegistered(stored) => Ok(stored),
        SocketResponse::Error(reason) => Err(ClientError::Server(reason)),
        _ => Err(ClientError::Unexpected),
    }
}

/// Whether the answer to a `Revoke` confirms it.
pub fn expect_revoked(response: SocketResponse) -> (outcome: Result<(), ClientError>)
    ensures
        match response {
            SocketResponse::KeyRevoked => outcome == Ok::<(), ClientError>(()),
            SocketResponse::Error(reason) => outcome == Err::<(), ClientError>(
                ClientError::Server(reason),
            ),
            _ => outcome == Err::<(), ClientError>(ClientError::Unexpected),
        },
{
    match response {
        SocketResponse::KeyRevoked => Ok(()),
        SocketResponse::Error(reason) => Err(ClientError::Server(reason)),
        _ => Err(ClientError::Unexpected),
    }
}

/// The listing, if the answer to a `List` is one.
pub fn expect_listed(response: SocketResponse) -> (outcome: Result<Vec<KeyPair>, ClientError>)
    ensures
        match response {
            SocketResponse::KeyList(list) => outcome == Ok::<Vec<KeyPair>, ClientError>(list),
            SocketResponse::Error(reason) => outcome == Err::<Vec<KeyPair>, ClientError>(
                ClientError::Server(reason),
            ),
            _ => outcome == Err::<Vec<KeyPair>, ClientError>(ClientError::Unexpected),
        },
{
    match response {
        SocketResponse::KeyList(list) => Ok(list),
        SocketResponse::Error(reason) => Err(ClientError::Server(reason)),
        _ => Err(ClientError::Unexpected),
    }
}

/// The line that confirms an enrollment, with the identifier assigned.
pub fn registered_notice(stored: &KeyPair) -> (text: String)
    ensures
        text@ == "Key registered successfully with ID: "@ + uuid_text(stored.id),
{
    let id = format_uuid(stored.id);
    String::from_str("Key registered successfully with ID: ").concat(id.as_str())
}

/// The line that confirms a revocation, with the identifier as it was given.
pub fn revoked_notice(id: &str) -> (text: String)
    ensures
        text@ == "Key with ID "@ + id@ + " revoked successfully"@,
{
    String::from_str("Key with ID ").concat(id).concat(" revoked successfully")
}

} // verus!
