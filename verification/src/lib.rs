//! A provider-agnostic interface to keys held by a secure element.
//!
//! Calling code names a key by an opaque identifier and asks a handle to sign,
//! verify, encrypt or decrypt raw bytes. The handle forwards the request to the
//! backend it is bound to and turns the backend's tagged outcome into a typed
//! `Result`. No key material ever lives in this process.

pub mod error;
pub mod key;
pub mod outcome;
pub mod backend;
pub mod emulated;
pub mod keyhandle;
pub mod provider;
pub mod guarantees;
