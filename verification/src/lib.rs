//! A trusted-compartment library: sealed storage bound to a compartment
//! identity, local attestation reports and quotes, in-compartment crypto
//! primitives, a compartment state machine, and the status-code contract of
//! the untrusted bridge.
//!
//! Hardware-backed primitives (the identity-bound sealing key, the report
//! key) are modeled as deterministic functions of an explicit
//! [`types::CompartmentIdentity`], so the policy, format and state-machine
//! logic can be exercised and verified without hardware.

pub mod attestation;
pub mod bridge;
pub mod bytes;
pub mod crypto;
pub mod sealing;
pub mod state;
pub mod types;
