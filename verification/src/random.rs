//! The random byte that `CXNN` masks.

use vstd::prelude::*;

verus! {

/// Calls `rand::random_range(0..=255u8)`, which draws from the thread-local
/// generator. Nothing is stated of the byte returned: any of the 256 values
/// may come back, and two calls may differ.
#[verifier::external_body]
pub(crate) fn random_byte() -> u8 {
    rand::random_range(0..=255u8)
}

} // verus!
