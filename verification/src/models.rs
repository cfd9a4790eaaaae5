//! The bodies that the HTTP control API exchanges.

use vstd::prelude::*;
use vstd::string::*;

verus! {

/// The body of a health check.
#[derive(Debug, PartialEq, Eq)]
pub struct HealthResponse {
    pub status: String,
}

/// The body of a registration request.
#[derive(Debug, PartialEq, Eq)]
pub struct RegisterRequest {
    pub public_key: String,
}

/// The body of a successful registration.
#[derive(Debug, PartialEq, Eq)]
pub struct RegisterResponse {
    pub message: String,
}

impl HealthResponse {
    /// The one status a running server reports.
    pub fn running() -> (body: Self)
        ensures
            body.status@ == "SHADE server running"@,
    {
        HealthResponse { status: String::from_str("SHADE server running") }
    }
}

impl RegisterResponse {
    pub open spec fn spec_text(ip: Seq<char>) -> Seq<char> {
        "IP "@ + ip + " registered successfully"@
    }

    /// The confirmation for a host address.
    pub fn registered(ip: &str) -> (body: Self)
        ensures
            body.message@ == Self::spec_text(ip@),
    {
        let message = String::from_str("IP ").concat(ip).concat(" registered successfully");
        RegisterResponse { message }
    }
}

} // verus!
