//! Overwriting secrets that are no longer needed.

use vstd::prelude::*;
use zeroize::Zeroize;

verus! {

/// Calls `Zeroize::zeroize` on `bytes`. Trusted to make every byte zero. That the writes are not
/// optimised away, which is what the call is for, no contract here can state.
#[verifier::external_body]
pub(crate) fn erase(bytes: &mut [u8])
    ensures
        final(bytes)@ == Seq::new(old(bytes)@.len(), |i: int| 0u8),
{
    bytes.zeroize();
}

} // verus!
