//! Attestable records bound to a domain of a name registry.
//!
//! A record is an 8-byte header followed by a variable-length body. The body
//! is the concatenation of a staleness proof segment, a right-of-association
//! (RoA) proof segment and free-form content; the length of each proof
//! segment is determined solely by a validation tag stored in the header.
//! This crate holds the byte layout of the header and body, the validation
//! state machine that rewrites them, and the two signature-verification
//! paths (co-signer match and Ethereum-style signature recovery) that drive
//! its transitions. Talking to the registry that persists a record is the
//! caller's concern.

pub mod buffer;
pub mod error;
pub mod instruction;
pub mod processor;
pub mod rewrite;
pub mod state;

pub use error::SnsRecordsError;
