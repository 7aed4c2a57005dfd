//! The combiner, which turns the two halves of an exchange into one shared secret.

use vstd::prelude::*;

use crate::erase::erase;
use crate::hash;
use crate::scheme;
use crate::sizes::SharedSecret;

verus! {

/// What the combiner hashes: `ss_m`, `ss_x`, `ct_x`, `pk_x` and the label, one after the other.
pub fn combiner_input(ss_m: &[u8], ss_x: &[u8], ct_x: &[u8], pk_x: &[u8]) -> (input: Vec<u8>)
    ensures
        input@ == scheme::combiner_input(ss_m@, ss_x@, ct_x@, pk_x@),
        input@ == ss_m@ + ss_x@ + ct_x@ + pk_x@ + seq![0x5cu8, 0x2e, 0x2f, 0x2f, 0x5e, 0x5c],
{
    let label: [u8; 6] = [0x5c, 0x2e, 0x2f, 0x2f, 0x5e, 0x5c];
    let mut input: Vec<u8> = Vec::new();
    input.extend_from_slice(ss_m);
    input.extend_from_slice(ss_x);
    input.extend_from_slice(ct_x);
    input.extend_from_slice(pk_x);
    input.extend_from_slice(&label);
    assert(label@ =~= scheme::label());
    assert(input@ =~= scheme::combiner_input(ss_m@, ss_x@, ct_x@, pk_x@));
    input
}

/// The shared secret that the two halves are combined to.
pub fn combiner(ss_m: &[u8], ss_x: &[u8], ct_x: &[u8], pk_x: &[u8]) -> (ss: SharedSecret)
    ensures
        ss@ == scheme::combine(ss_m@, ss_x@, ct_x@, pk_x@),
        ss@ == hash::sha3_384(
            ss_m@ + ss_x@ + ct_x@ + pk_x@ + seq![0x5cu8, 0x2e, 0x2f, 0x2f, 0x5e, 0x5c],
        ),
{
    let mut input: Vec<u8> = combiner_input(ss_m, ss_x, ct_x, pk_x);
    let ss: SharedSecret = hash::sha3_384_digest(&input);
    erase(input.as_mut_slice());
    ss
}

} // verus!
