//! A small RPC service core: a named "ritual" operation that counts its
//! invocations and reports a milestone every fifth call, and a stateless
//! "trait synchronization" acknowledgment. The service logic is verified;
//! transport, logging and process startup live outside the library.

pub mod counting;
pub mod service;
