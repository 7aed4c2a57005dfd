//! The operating system's random bytes.

use rand_core::{OsRng, RngCore};
use vstd::prelude::*;

verus! {

/// `rand_core::OsRng`, the operating system's generator. A value of it holds nothing.
#[verifier::external_type_specification]
#[verifier::external_body]
pub struct ExOsRng(OsRng);

/// Calls `OsRng::default`. There is only one value of the type, of which there is nothing to state.
#[verifier::external_body]
pub(crate) fn os_rng() -> (rng: OsRng) {
    OsRng::default()
}

/// Calls `OsRng::fill_bytes` on `N` bytes, which panics where the operating system has no
/// randomness to give. Any `N` bytes may come back.
#[verifier::external_body]
pub(crate) fn generate<const N: usize>(rng: &mut OsRng) -> (random: [u8; N]) {
    let mut random = [0u8; N];
    rng.fill_bytes(&mut random);
    random
}

/// Calls `source` on `rng`. The call of a function that is passed as a value tells the caller that
/// what came back is what the function has put out.
fn put_out_by<const N: usize, F: FnOnce(&mut OsRng) -> [u8; N]>(
    source: F,
    rng: &mut OsRng,
) -> (random: [u8; N])
    requires
        forall|rng: &mut OsRng| call_requires(source, (rng,)),
    ensures
        exists|called_on: &mut OsRng|
            *called_on == *old(rng) && #[trigger] call_ensures(source, (called_on,), random),
{
    source(rng)
}

/// Calls `step` on `input`, for what [`put_out_by`] tells, where nothing is borrowed for change.
pub(crate) fn outcome_of<A, B, F: FnOnce(A) -> B>(step: F, input: A) -> (outcome: B)
    requires
        call_requires(step, (input,)),
    ensures
        call_ensures(step, (input,), outcome),
{
    step(input)
}

/// Whether [`generate`] has put out `random` when it was called on `rng`.
spec fn is_put_out<const N: usize>(rng: OsRng, random: [u8; N]) -> bool {
    exists|called_on: &mut OsRng|
        *called_on == rng && #[trigger] call_ensures(generate::<N>, (called_on,), random)
}

/// `N` random bytes that [`generate`] has put out on `rng`, and the generator after that.
fn next<const N: usize>(rng: OsRng) -> (drawn: ([u8; N], OsRng))
    ensures
        is_put_out(rng, drawn.0),
{
    let mut after = rng;
    let random = put_out_by(generate::<N>, &mut after);
    (random, after)
}

/// Whether `random` are `N` bytes that were drawn from the generator `before`, which left it as
/// `after`. Which bytes these are is not known: only a draw tells.
pub closed spec fn is_drawn<const N: usize>(before: OsRng, after: OsRng, random: Seq<u8>) -> bool {
    exists|bytes: [u8; N]|
        bytes@ == random && #[trigger] call_ensures(next::<N>, (before,), (bytes, after))
}

/// `N` random bytes, drawn from `rng`.
pub(crate) fn draw<const N: usize>(rng: &mut OsRng) -> (random: [u8; N])
    ensures
        is_drawn::<N>(*old(rng), *final(rng), random@),
{
    let (random, after) = outcome_of(next::<N>, *rng);
    *rng = after;
    random
}

/// Bytes that were drawn from a generator are bytes that [`generate`] has put out when it was called
/// on that generator, all of them as they came.
pub(crate) proof fn drawn_bytes_are_those_put_out<const N: usize>(
    before: OsRng,
    after: OsRng,
    random: Seq<u8>,
)
    requires
        is_drawn::<N>(before, after, random),
    ensures
        random.len() == N,
        exists|called_on: &mut OsRng, bytes: [u8; N]|
            *called_on == before && bytes@ == random && #[trigger] call_ensures(
                generate::<N>,
                (called_on,),
                bytes,
            ),
{
    let bytes = choose|bytes: [u8; N]|
        bytes@ == random && #[trigger] call_ensures(next::<N>, (before,), (bytes, after));
    assert(is_put_out(before, bytes));
}

} // verus!
