//! Controlling a ledger-held identity by signed email: an authenticated
//! message's subject line is parsed into a typed command, the sender is
//! mapped to a deterministic per-sender identity, and the root bridge
//! decides the one privileged instruction to send to that identity's
//! actuator account. The actuator itself obeys a single recorded owner.
//!
//! The pipeline is verified end to end over views of its inputs; the
//! MIME parsing and header decoding of the mailparse crate stand behind
//! trusted wrappers, and the signature verifier's verdict enters the
//! pipeline as a value of which only the exact summary `pass` is
//! accepted.
pub mod account;
pub mod actuator;
pub mod bridge;
pub mod command;
pub mod email;
pub mod instructions;
pub mod keyring;
pub mod relay;
pub mod rng;
pub mod strutil;

use vstd::prelude::*;

verus! {

/// Kinds of failure in the verification -> parsing -> authorization pipeline.
/// Every failure aborts the whole invocation; none is recovered locally.
#[derive(Debug, Clone, Copy, PartialEq, Eq, Structural)]
pub enum AuthError {
    MalformedEmail,
    SignatureVerificationFailed,
    MultipleSenders,
    UnrecognizedCommand,
    InvalidKeyFormat,
    InvalidTransferAmount,
    UnsupportedCharacter,
    UnauthorizedCaller,
    Unimplemented,
}

} // verus!
