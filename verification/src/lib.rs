//! Verified core of a local native-messaging helper: the length-prefixed
//! frame codec, the closed request/response taxonomy, the project registry,
//! the path sandbox that gates file writes, and the decision logic of the
//! process supervisor and of the dispatch loop. Stream and filesystem
//! effects, child processes and the JSON wire encoding live in the
//! unverified rim around this library.
pub mod bytes;
pub mod dispatch;
pub mod framing;
pub mod protocol;
pub mod registry;
pub mod sandbox;
pub mod supervisor;
