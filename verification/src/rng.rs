//! The source of random bytes.

use vstd::prelude::*;

verus! {

/// A byte from `rand::random::<u8>()`, which draws it from the generator
/// that the `rand` crate keeps for the calling thread.
///
/// Nothing is claimed of the byte: any value may come back, and two calls
/// need not agree.
#[verifier::external_body]
pub(crate) fn random_byte() -> (byte: u8) {
    rand::random::<u8>()
}

} // verus!
