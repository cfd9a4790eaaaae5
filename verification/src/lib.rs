//! Host attestation and dynamic enrollment: the rules of the enrollment
//! protocol, the identity store and the admission gate, with their contracts.

pub mod cert;
pub mod cli;
pub mod clock;
pub mod codec;
pub mod config;
pub mod ident;
pub mod models;
pub mod proxy;
pub mod server;
pub mod socket;
pub mod storage;
pub mod text;
