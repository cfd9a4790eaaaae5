//! The HTTP control API: what each endpoint answers. The HTTP server itself
//! belongs to the caller, which hands over what it read from a request and
//! sends what comes back.

use vstd::prelude::*;
use vstd::string::*;
use crate::models::{HealthResponse, RegisterResponse};
use crate::storage::{has_public_key, StorageBackend, StoreError};
use crate::text::{before, second_field, spec_before, spec_second_field, trim, trimmed};

verus! {

/// Where a client's address was read from.
#[derive(Clone, Copy, Debug, PartialEq, Eq, Structural)]
pub enum IpSource {
    /// The `x-forwarded-for` header.
    ForwardedFor,
    /// The `forwarded` header.
    Forwarded,
    /// The address of the connection's peer.
    PeerAddr,
}

impl IpSource {
    pub open spec fn spec_name(self) -> Seq<char> {
        match self {
            IpSource::ForwardedFor => "x-forwarded-for"@,
            IpSource::Forwarded => "forwarded"@,
            IpSource::PeerAddr => "peer_addr"@,
        }
    }

    pub fn name(&self) -> (name: &'static str)
        ensures
            name@ == self.spec_name(),
    {
        match self {
            IpSource::ForwardedFor => "x-forwarded-for",
            IpSource::Forwarded => "forwarded",
            IpSource::PeerAddr => "peer_addr",
        }
    }
}

/// An answer of the API.
#[derive(Debug, PartialEq, Eq)]
pub enum Reply {
    /// A status and a plain body.
    Text { status: u16, body: String },
    /// Status 200 and the health body.
    Health(HealthResponse),
    /// Status 200 and the registration body.
    Registered(RegisterResponse),
}

impl Reply {
    pub open spec fn spec_status(&self) -> u16 {
        match self {
            Reply::Text { status, .. } => *status,
            Reply::Health(_) => 200,
            Reply::Registered(_) => 200,
        }
    }

    pub fn status(&self) -> (status: u16)
        ensures
            status == self.spec_status(),
    {
        match self {
            Reply::Text { status, .. } => *status,
            Reply::Health(_) => 200,
            Reply::Registered(_) => 200,
        }
    }
}

/// The client's address, and where it was read from. The proxy headers come
/// first: the first entry of `x-forwarded-for`, then the second `=`-separated
/// field of `forwarded`, each without the white space around it. A
/// `forwarded` header without an `=` is passed over. The peer's address is
/// the fallback.
pub open spec fn spec_return_ip(
    forwarded_for: Option<Seq<char>>,
    forwarded: Option<Seq<char>>,
    peer: Option<Seq<char>>,
) -> Option<(IpSource, Seq<char>)> {
    if forwarded_for is Some {
        Some((IpSource::ForwardedFor, trimmed(spec_before(forwarded_for->Some_0, ','))))
    } else if forwarded is Some && spec_second_field(forwarded->Some_0, '=') is Some {
        Some((IpSource::Forwarded, trimmed(spec_second_field(forwarded->Some_0, '=')->Some_0)))
    } else {
        match peer {
            Some(address) => Some((IpSource::PeerAddr, address)),
            None => None,
        }
    }
}

/// The text of a header, where the request has it.
pub open spec fn header_text(header: Option<&str>) -> Option<Seq<char>> {
    match header {
        Some(text) => Some(text@),
        None => None,
    }
}

/// Works out the client's address from the two proxy headers, where the
/// request has them as text, and the peer's address, where it is known.
pub fn return_ip(forwarded_for: Option<&str>, forwarded: Option<&str>, peer: Option<String>) -> (ip:
    Option<(IpSource, String)>)
    ensures
        match spec_return_ip(
            header_text(forwarded_for),
            header_text(forwarded),
            match peer {
                Some(address) => Some(address@),
                None => None,
            },
        ) {
            Some((source, address)) => ip matches Some(found) && found.0 == source && found.1@
                == address,
            None => ip is None,
        },
{
    if let Some(header) = forwarded_for {
        let first = before(header, ',');
        return Some((IpSource::ForwardedFor, String::from_str(trim(first))));
    }
    if let Some(header) = forwarded {
        if let Some(field) = second_field(header, '=') {
            return Some((IpSource::Forwarded, String::from_str(trim(field))));
        }
    }
    match peer {
        Some(address) => Some((IpSource::PeerAddr, address)),
        None => None,
    }
}

/// The root endpoint.
pub fn index() -> (reply: Reply)
    ensures
        reply matches Reply::Text { status, body } && status == 200 && body@
            == "SHADE server alive"@,
{
    Reply::Text { status: 200, body: String::from_str("SHADE server alive") }
}

/// The health check.
pub fn healthcheck() -> (reply: Reply)
    ensures
        reply matches Reply::Health(body) && body.status@ == "SHADE server running"@,
{
    Reply::Health(HealthResponse::running())
}

/// The endpoint that tells a client its address: the address, or status 500
/// where it cannot be told.
pub fn return_client_ip(client: Option<(IpSource, String)>) -> (reply: Reply)
    ensures
        match client {
            Some((_, address)) => reply == (Reply::Text { status: 200, body: address }),
            None => reply matches Reply::Text { status, body } && status == 500 && body@
                == "Unable to determine client IP"@,
        },
{
    match client {
        Some((_, address)) => Reply::Text { status: 200, body: address },
        None => Reply::Text {
            status: 500,
            body: String::from_str("Unable to determine client IP"),
        },
    }
}

/// What a registration needs next.
#[derive(Debug, PartialEq, Eq)]
pub enum RegistrationStep {
    /// Put this host address on record, and report how that went.
    Store(String),
    /// Answer at once.
    Answer(Reply),
}

/// The registration gate, before the store is written to. Only a public key
/// that the store vouches for passes: a `false` and a failure of the store
/// alike are answered with status 400. A request whose client address
/// cannot be told is answered with status 500.
pub fn begin_registration(check: Result<bool, StoreError>, client: Option<(IpSource, String)>) -> (step:
    RegistrationStep)
    ensures
        match (check, client) {
            (Ok(true), Some((_, address))) => step == RegistrationStep::Store(address),
            (Ok(true), None) => step matches RegistrationStep::Answer(
                Reply::Text { status, body },
            ) && status == 500 && body@ == "something went wrong"@,
            _ => step matches RegistrationStep::Answer(Reply::Text { status, body }) && status
                == 400 && body@ == "Invalid public_key"@,
        },
{
    let vouched = match check {
        Ok(yes) => yes,
        Err(_) => false,
    };
    if !vouched {
        return RegistrationStep::Answer(
            Reply::Text { status: 400, body: String::from_str("Invalid public_key") },
        );
    }
    match client {
        Some((_, address)) => RegistrationStep::Store(address),
        None => RegistrationStep::Answer(
            Reply::Text { status: 500, body: String::from_str("something went wrong") },
        ),
    }
}

/// The answer once the store was written to, or was not.
pub fn finish_registration(address: &str, stored: Result<(), StoreError>) -> (reply: Reply)
    ensures
        match stored {
            Ok(()) => reply matches Reply::Registered(body) && body.message@
                == RegisterResponse::spec_text(address@),
            Err(_) => reply matches Reply::Text { status, body } && status == 500 && body@
                == "Failed to store IP"@,
        },
{
    match stored {
        Ok(()) => Reply::Registered(RegisterResponse::registered(address)),
        Err(_) => Reply::Text { status: 500, body: String::from_str("Failed to store IP") },
    }
}

/// Registers a client with a store that can be called in place.
///
/// The host address goes on record only if the store vouches for the public
/// key and the address can be told; then, and only then, the answer can be
/// the confirmation. The identities are never touched.
pub fn register_client_ip<S: StorageBackend>(
    store: &mut S,
    public_key: &str,
    client: Option<(IpSource, String)>,
) -> (reply: Reply)
    requires
        old(store).inv(),
    ensures
        final(store).inv(),
        final(store).keys() == old(store).keys(),
        match reply {
            Reply::Registered(body) => {
                &&& client matches Some((_, address))
                &&& has_public_key(old(store).keys(), public_key@)
                &&& body.message@ == RegisterResponse::spec_text(address@)
                &&& final(store).hosts() == old(store).hosts().push(address@)
            },
            Reply::Text { status, body } => {
                &&& final(store).hosts() == old(store).hosts()
                &&& status == 400 || status == 500
                &&& !has_public_key(old(store).keys(), public_key@) ==> status == 400
                &&& body@ == if status == 400 {
                    "Invalid public_key"@
                } else if client is None {
                    "something went wrong"@
                } else {
                    "Failed to store IP"@
                }
            },
            Reply::Health(_) => false,
        },
{
    let check = store.validate_public_key(public_key);
    match begin_registration(check, client) {
        RegistrationStep::Answer(reply) => reply,
        RegistrationStep::Store(address) => {
            let kept = address.clone();
            let stored = store.store_client_ip(address);
            finish_registration(kept.as_str(), stored)
        },
    }
}

} // verus!
