//! A connection-lifecycle adapter between a generic resource pool and a
//! SurrealDB endpoint.
//!
//! The pool asks for two things only: a fresh authenticated session, and a
//! verdict on whether a session it already holds is still usable. This crate
//! holds the rules behind both: which transport scheme and URI to dial, in
//! which order the session is opened and signed in, how each failure is
//! classified, and what a liveness probe must return.

pub mod client;
pub mod connect;
pub mod error;
pub mod interleaving;
pub mod manager;
pub mod protocol;
pub mod validate;

pub use manager::SurrealDBConnectionManager;
pub use protocol::ConnectionProtocol;
