//! The two Keccak functions that the scheme calls.

use sha3::digest::{ExtendableOutput, Update, XofReader};
use vstd::prelude::*;

verus! {

/// The first `length` bytes that SHAKE256 puts out for `input`.
pub uninterp spec fn shake256(input: Seq<u8>, length: nat) -> Seq<u8>;

/// The SHA3-384 digest of `data`.
pub uninterp spec fn sha3_384(data: Seq<u8>) -> Seq<u8>;

/// Calls `sha3::Shake256`: absorbs `input` and reads the first `N` bytes of the output. Trusted to
/// be a function of `input` and `N`, which [`shake256`] names.
#[verifier::external_body]
pub(crate) fn shake256_read<const N: usize>(input: &[u8]) -> (output: [u8; N])
    ensures
        output@ == shake256(input@, N as nat),
{
    let mut hasher = sha3::Shake256::default();
    hasher.update(input);
    let mut output = [0u8; N];
    hasher.finalize_xof().read(&mut output);
    output
}

/// Calls `sha3::Sha3_384` on `data`. Trusted to be a function of `data`, which [`sha3_384`] names.
#[verifier::external_body]
pub(crate) fn sha3_384_digest(data: &[u8]) -> (digest: [u8; 48])
    ensures
        digest@ == sha3_384(data@),
{
    <sha3::Sha3_384 as sha3::Digest>::digest(data).into()
}

} // verus!
