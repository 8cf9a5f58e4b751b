//! Host-side trust management for an SGX enclave.
//!
//! The crate holds the decisions a host makes around a hardware enclave:
//! where the enclave image is looked for and how its handle is kept, the
//! one-time runtime configuration, the doorbell that bounds how many callers
//! are inside the enclave at once, and the attestation calls with the
//! services the enclave asks of the host while they run.
//!
//! Calls across the enclave boundary, sockets and the file system are the
//! caller's business. Each flow that alternates such work with decisions is a
//! step function here: it takes what the outside work returned and answers
//! with the next thing to do.

pub mod attestation;
pub mod bridge;
pub mod config;
pub mod doorbell;
pub mod enclave;
pub mod error;
pub mod status;
pub mod sync;

