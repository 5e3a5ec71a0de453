//! The stub randomness source. Nothing in this system may draw
//! randomness, so every request for random bytes fails.
use vstd::prelude::*;

verus! {

#[verifier::external_type_specification]
#[verifier::external_body]
pub struct ExGetrandomError(getrandom::Error);

/// Refuses to fill the buffer: randomness is never available here.
/// Relies on getrandom::Error::from a nonzero custom code for the error
/// value.
#[verifier::external_body]
pub fn always_fail(_buf: &mut [u8]) -> (r: Result<(), getrandom::Error>)
    ensures
        r is Err,
{
    match core::num::NonZeroU32::new(getrandom::Error::CUSTOM_START) {
        Some(code) => Err(getrandom::Error::from(code)),
        None => Err(getrandom::Error::UNSUPPORTED),
    }
}

} // verus!
