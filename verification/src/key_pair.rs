//! Key pairs.

use rand_core::OsRng;
use vstd::prelude::*;

use crate::decapsulation::DecapsulationKey;
use crate::encapsulation::EncapsulationKey;
use crate::entropy;
use crate::rejection::Rejection;
use crate::scheme;
use crate::sizes::DECAPSULATION_KEY_SIZE;

verus! {

/// Whether `pair` is the outcome of making a key pair from `randomness`: a decapsulation key that
/// consists of these bytes and the encapsulation key that matches it, or a rejected scalar if the
/// bytes expand to none.
pub open spec fn is_outcome(
    randomness: Seq<u8>,
    pair: Result<(DecapsulationKey, EncapsulationKey), Rejection>,
) -> bool {
    match pair {
        Ok((sk, pk)) => scheme::is_expandable(randomness) && sk@ == randomness && pk@
            == scheme::matching_key(randomness),
        Err(rejection) => !scheme::is_expandable(randomness) && rejection == Rejection::Scalar,
    }
}

/// Whether `pair` is the outcome of making a key pair from bytes that were drawn from the generator
/// `before`, which left it as `after`.
pub open spec fn is_drawn_outcome(
    before: OsRng,
    after: OsRng,
    pair: Result<(DecapsulationKey, EncapsulationKey), Rejection>,
) -> bool {
    exists|randomness: Seq<u8>| #[trigger]
        is_outcome(randomness, pair) && entropy::is_drawn::<64>(before, after, randomness)
}

/// Generate a key pair using `OsRng`, unless the bytes that were drawn expand to no scalar.
pub fn generate_key_pair_from_os_rng() -> (pair: Result<
    (DecapsulationKey, EncapsulationKey),
    Rejection,
>)
    ensures
        exists|randomness: Seq<u8>|
            randomness.len() == DECAPSULATION_KEY_SIZE && #[trigger] is_outcome(randomness, pair),
        exists|before: OsRng, after: OsRng| #[trigger] is_drawn_outcome(before, after, pair),
{
    let mut rng = entropy::os_rng();
    generate_key_pair(&mut rng)
}

/// Generate a key pair using the provided rng, unless the bytes that were drawn expand to no
/// scalar.
pub fn generate_key_pair(rng: &mut OsRng) -> (pair: Result<
    (DecapsulationKey, EncapsulationKey),
    Rejection,
>)
    ensures
        exists|randomness: Seq<u8>|
            randomness.len() == DECAPSULATION_KEY_SIZE && #[trigger] is_outcome(randomness, pair),
        is_drawn_outcome(*old(rng), *final(rng), pair),
{
    let sk = DecapsulationKey::generate(rng);
    let pair = match sk.try_encapsulation_key() {
        Ok(pk) => Ok((sk, pk)),
        Err(rejection) => Err(rejection),
    };
    assert(is_outcome(sk@, pair));
    pair
}

/// Generate a key pair using the provided random bytes.
pub fn generate_key_pair_derand(randomness: [u8; DECAPSULATION_KEY_SIZE]) -> (pair: (
    DecapsulationKey,
    EncapsulationKey,
))
    requires
        scheme::is_expandable(randomness@),
    ensures
        pair.0@ == randomness@,
        pair.1@ == scheme::matching_key(randomness@),
{
    let sk = DecapsulationKey::from(randomness);
    let pk = sk.encapsulation_key();
    (sk, pk)
}

/// Generate a key pair using the provided random bytes, unless they expand to no scalar.
pub fn try_generate_key_pair_derand(randomness: [u8; DECAPSULATION_KEY_SIZE]) -> (pair: Result<
    (DecapsulationKey, EncapsulationKey),
    Rejection,
>)
    ensures
        is_outcome(randomness@, pair),
{
    if DecapsulationKey::from(randomness).is_expandable() {
        Ok(generate_key_pair_derand(randomness))
    } else {
        Err(Rejection::Scalar)
    }
}

} // verus!
