//! A polyglot script execution engine: it classifies untrusted source code,
//! wraps it in a runner script with a strict calling convention, and turns
//! what the interpreter printed into a verifiable execution record (code
//! hash, input hash, output, timestamp) for an attestation signer.
//!
//! Starting processes and fetching blobs is left to the caller: the library
//! plans each run as an `executor::Invocation` and reads back its
//! `executor::ProcessOutcome`.
pub mod coordinator;
pub mod decode;
pub mod digest;
pub mod error;
pub mod executor;
pub mod harness;
pub mod language;
pub mod registry;
pub mod text;
