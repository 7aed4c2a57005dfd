//! ML-KEM-1024, with keys and ciphertexts as the bytes that encode them.

use kem::{Decapsulate, Encapsulate};
use ml_kem::kem::{DecapsulationKey, EncapsulationKey};
use ml_kem::{EncapsulateDeterministic, EncodedSizeUser, KemCore, MlKem1024, MlKem1024Params};
use rand_core::OsRng;
use vstd::prelude::*;

use crate::entropy::outcome_of;
use crate::sizes::{
    MLKEM_CIPHERTEXT_SIZE, MLKEM_DECAP_KEY_SIZE, MLKEM_ENCAP_KEY_SIZE,
    MLKEM_ENCAP_RANDOMNESS_SIZE, MLKEM_SEED_SIZE, MLKEM_SHARED_KEY_SIZE,
};

verus! {

/// The modulus below which the coefficients of an encapsulation key lie.
pub const COEFFICIENT_MODULUS: u16 = 3329;

/// Bytes of an encapsulation key that hold coefficients, two of them in every three bytes.
pub const COEFFICIENT_BYTES: usize = 1536;

/// Whether `key` has the length of an encapsulation key.
pub open spec fn has_key_length(key: Seq<u8>) -> bool {
    key.len() == MLKEM_ENCAP_KEY_SIZE
}

/// The first coefficient in the three bytes of `key` that start at `at`: their low twelve bits.
pub open spec fn first_coefficient(key: Seq<u8>, at: int) -> int {
    key[at] + 256 * (key[at + 1] as int % 16)
}

/// The second coefficient in the three bytes of `key` that start at `at`: their high twelve bits.
pub open spec fn second_coefficient(key: Seq<u8>, at: int) -> int {
    key[at + 1] as int / 16 + 16 * key[at + 2]
}

/// Byte `i` of an encapsulation key after its coefficients have been reduced.
pub open spec fn reduced_byte(key: Seq<u8>, i: int) -> u8 {
    let first = first_coefficient(key, i - i % 3) % (COEFFICIENT_MODULUS as int);
    let second = second_coefficient(key, i - i % 3) % (COEFFICIENT_MODULUS as int);
    if i >= COEFFICIENT_BYTES {
        key[i]
    } else if i % 3 == 0 {
        (first % 256) as u8
    } else if i % 3 == 1 {
        (first / 256 + 16 * (second % 16)) as u8
    } else {
        (second / 16) as u8
    }
}

/// `key` with each of its coefficients reduced: what is left after reading it and writing it again.
pub open spec fn reduced(key: Seq<u8>) -> Seq<u8> {
    Seq::new(key.len(), |i: int| reduced_byte(key, i))
}

/// Whether every coefficient of `key` is below the modulus.
pub open spec fn is_reduced(key: Seq<u8>) -> bool {
    &&& has_key_length(key)
    &&& forall|at: int|
        #![trigger first_coefficient(key, at)]
        0 <= at < COEFFICIENT_BYTES && at % 3 == 0 ==> first_coefficient(key, at)
            < COEFFICIENT_MODULUS && second_coefficient(key, at) < COEFFICIENT_MODULUS
}

/// Reducing a key whose coefficients are all below the modulus changes nothing.
pub proof fn reduced_key_is_kept(key: Seq<u8>)
    requires
        is_reduced(key),
    ensures
        reduced(key) == key,
{
    assert forall|i: int| 0 <= i < key.len() implies reduced_byte(key, i) == key[i] by {
        if i < COEFFICIENT_BYTES {
            let at = i - i % 3;
            assert(first_coefficient(key, at) < COEFFICIENT_MODULUS);
        }
    }
    assert(reduced(key) =~= key);
}

/// Reducing brings every coefficient of a key below the modulus.
pub proof fn reducing_reduces(key: Seq<u8>)
    requires
        has_key_length(key),
    ensures
        is_reduced(reduced(key)),
{
    assert forall|at: int|
        #![trigger first_coefficient(reduced(key), at)]
        0 <= at < COEFFICIENT_BYTES && at % 3 == 0 implies first_coefficient(reduced(key), at)
        < COEFFICIENT_MODULUS && second_coefficient(reduced(key), at) < COEFFICIENT_MODULUS by {
        let first = first_coefficient(key, at) % (COEFFICIENT_MODULUS as int);
        let second = second_coefficient(key, at) % (COEFFICIENT_MODULUS as int);
        assert(reduced(key)[at] == first % 256);
        assert(reduced(key)[at + 1] == first / 256 + 16 * (second % 16));
        assert(reduced(key)[at + 2] == second / 16);
        assert(first_coefficient(reduced(key), at) == first);
        assert(second_coefficient(reduced(key), at) == second);
    }
}

/// The decapsulation key and the encapsulation key that the seeds `d` and `z` give.
pub uninterp spec fn generate(d: Seq<u8>, z: Seq<u8>) -> (Seq<u8>, Seq<u8>);

/// The ciphertext and the shared key that encapsulating to `key` with the randomness `m` gives.
pub uninterp spec fn encapsulate(key: Seq<u8>, m: Seq<u8>) -> (Seq<u8>, Seq<u8>);

/// The shared key that decapsulating `ciphertext` with `key` gives.
pub uninterp spec fn decapsulate(key: Seq<u8>, ciphertext: Seq<u8>) -> Seq<u8>;

/// Whether some randomness, in encapsulating to `key`, gives `ciphertext` and `shared_key`.
pub open spec fn is_encapsulation(
    key: Seq<u8>,
    ciphertext: Seq<u8>,
    shared_key: Seq<u8>,
) -> bool {
    exists|m: Seq<u8>|
        m.len() == MLKEM_ENCAP_RANDOMNESS_SIZE && #[trigger] encapsulate(key, m) == (
            ciphertext,
            shared_key,
        )
}

/// Calls `MlKem1024::generate_deterministic` and encodes both keys. Trusted to be a function of the
/// two seeds, which [`generate`] names, and to write coefficients that are below the modulus.
#[verifier::external_body]
pub(crate) fn generate_keys(d: &[u8; MLKEM_SEED_SIZE], z: &[u8; MLKEM_SEED_SIZE]) -> (keys: (
    [u8; MLKEM_DECAP_KEY_SIZE],
    [u8; MLKEM_ENCAP_KEY_SIZE],
))
    ensures
        (keys.0@, keys.1@) == generate(d@, z@),
        is_reduced(keys.1@),
{
    let (decapsulation_key, encapsulation_key) =
        MlKem1024::generate_deterministic(&(*d).into(), &(*z).into());
    (decapsulation_key.as_bytes().into(), encapsulation_key.as_bytes().into())
}

/// Calls `EncapsulationKey::from_bytes` and `EncapsulationKey::as_bytes` on its result. Trusted to
/// reduce each coefficient and to keep the bytes that follow them.
#[verifier::external_body]
pub(crate) fn reencode_key(key: &[u8; MLKEM_ENCAP_KEY_SIZE]) -> (encoded: [u8;
    MLKEM_ENCAP_KEY_SIZE])
    ensures
        encoded@ == reduced(key@),
{
    EncapsulationKey::<MlKem1024Params>::from_bytes(&(*key).into()).as_bytes().into()
}

/// Calls `EncapsulationKey::encapsulate_deterministic`, which never fails. Trusted to be a function
/// of the key and the randomness, which [`encapsulate`] names.
#[verifier::external_body]
pub(crate) fn encapsulate_deterministic(
    key: &[u8; MLKEM_ENCAP_KEY_SIZE],
    m: &[u8; MLKEM_ENCAP_RANDOMNESS_SIZE],
) -> (sealed: ([u8; MLKEM_CIPHERTEXT_SIZE], [u8; MLKEM_SHARED_KEY_SIZE]))
    ensures
        (sealed.0@, sealed.1@) == encapsulate(key@, m@),
{
    let key = EncapsulationKey::<MlKem1024Params>::from_bytes(&(*key).into());
    let (ciphertext, shared_key) = key.encapsulate_deterministic(&(*m).into()).unwrap();
    (ciphertext.into(), shared_key.into())
}

/// Calls `EncapsulationKey::encapsulate`, which draws its randomness from `rng` and never fails on
/// its own account; it panics where the operating system has no randomness to give. Trusted to
/// encapsulate with some 32 bytes; which, is left to chance.
#[verifier::external_body]
pub(crate) fn encapsulate_random(key: &[u8; MLKEM_ENCAP_KEY_SIZE], rng: &mut OsRng) -> (sealed: (
    [u8; MLKEM_CIPHERTEXT_SIZE],
    [u8; MLKEM_SHARED_KEY_SIZE],
))
    ensures
        is_encapsulation(key@, sealed.0@, sealed.1@),
{
    let key = EncapsulationKey::<MlKem1024Params>::from_bytes(&(*key).into());
    let (ciphertext, shared_key) = key.encapsulate(rng).unwrap();
    (ciphertext.into(), shared_key.into())
}

/// Calls `source` on `key` and `rng`. The call of a function that is passed as a value tells the
/// caller that what came back is what the function has put out.
fn put_out_by<
    F: FnOnce(&[u8; MLKEM_ENCAP_KEY_SIZE], &mut OsRng) -> (
        [u8; MLKEM_CIPHERTEXT_SIZE],
        [u8; MLKEM_SHARED_KEY_SIZE],
    ),
>(source: F, key: &[u8; MLKEM_ENCAP_KEY_SIZE], rng: &mut OsRng) -> (sealed: (
    [u8; MLKEM_CIPHERTEXT_SIZE],
    [u8; MLKEM_SHARED_KEY_SIZE],
))
    requires
        forall|rng: &mut OsRng| call_requires(source, (key, rng)),
    ensures
        exists|called_on: &mut OsRng|
            *called_on == *old(rng) && #[trigger] call_ensures(source, (key, called_on), sealed),
{
    source(key, rng)
}

/// Whether [`encapsulate_random`] has put out `sealed` when it was called on `key` and `rng`.
spec fn is_put_out(
    key: [u8; MLKEM_ENCAP_KEY_SIZE],
    rng: OsRng,
    sealed: ([u8; MLKEM_CIPHERTEXT_SIZE], [u8; MLKEM_SHARED_KEY_SIZE]),
) -> bool {
    exists|called_on: &mut OsRng|
        *called_on == rng && #[trigger] call_ensures(encapsulate_random, (&key, called_on), sealed)
}

/// What [`encapsulate_random`] has put out on a key and a generator, and the generator after that.
fn next(input: ([u8; MLKEM_ENCAP_KEY_SIZE], OsRng)) -> (drawn: (
    ([u8; MLKEM_CIPHERTEXT_SIZE], [u8; MLKEM_SHARED_KEY_SIZE]),
    OsRng,
))
    ensures
        is_put_out(input.0, input.1, drawn.0),
        is_encapsulation(input.0@, drawn.0.0@, drawn.0.1@),
{
    let (key, mut after) = input;
    let sealed = put_out_by(encapsulate_random, &key, &mut after);
    (sealed, after)
}

/// Whether `ciphertext` and `shared_key` are what encapsulating to `key` has given with randomness
/// that was drawn from the generator `before`, which left it as `after`.
pub closed spec fn is_drawn(
    before: OsRng,
    after: OsRng,
    key: Seq<u8>,
    ciphertext: Seq<u8>,
    shared_key: Seq<u8>,
) -> bool {
    exists|
        key_bytes: [u8; MLKEM_ENCAP_KEY_SIZE],
        sealed: ([u8; MLKEM_CIPHERTEXT_SIZE], [u8; MLKEM_SHARED_KEY_SIZE]),
    |
        key_bytes@ == key && sealed.0@ == ciphertext && sealed.1@ == shared_key
            && #[trigger] call_ensures(next, ((key_bytes, before),), (sealed, after))
}

/// Encapsulates to `key` with randomness that is drawn from `rng`.
pub(crate) fn draw(key: &[u8; MLKEM_ENCAP_KEY_SIZE], rng: &mut OsRng) -> (sealed: (
    [u8; MLKEM_CIPHERTEXT_SIZE],
    [u8; MLKEM_SHARED_KEY_SIZE],
))
    ensures
        is_drawn(*old(rng), *final(rng), key@, sealed.0@, sealed.1@),
        is_encapsulation(key@, sealed.0@, sealed.1@),
{
    let (sealed, after) = outcome_of(next, (*key, *rng));
    *rng = after;
    sealed
}

/// A ciphertext and a shared key that came with a draw are what [`encapsulate_random`] has put out
/// when it was called on the key and the generator, and so belong to some 32 random bytes.
pub(crate) proof fn drawn_encapsulation_is_the_one_put_out(
    before: OsRng,
    after: OsRng,
    key: Seq<u8>,
    ciphertext: Seq<u8>,
    shared_key: Seq<u8>,
)
    requires
        is_drawn(before, after, key, ciphertext, shared_key),
    ensures
        exists|m: Seq<u8>|
            m.len() == 32 && #[trigger] encapsulate(key, m) == (ciphertext, shared_key),
        exists|
            called_on: &mut OsRng,
            key_bytes: [u8; MLKEM_ENCAP_KEY_SIZE],
            sealed: ([u8; MLKEM_CIPHERTEXT_SIZE], [u8; MLKEM_SHARED_KEY_SIZE]),
        |
            *called_on == before && key_bytes@ == key && sealed.0@ == ciphertext && sealed.1@
                == shared_key && #[trigger] call_ensures(
                encapsulate_random,
                (&key_bytes, called_on),
                sealed,
            ),
{
    let (key_bytes, sealed) = choose|
        key_bytes: [u8; MLKEM_ENCAP_KEY_SIZE],
        sealed: ([u8; MLKEM_CIPHERTEXT_SIZE], [u8; MLKEM_SHARED_KEY_SIZE]),
    |
        key_bytes@ == key && sealed.0@ == ciphertext && sealed.1@ == shared_key
            && #[trigger] call_ensures(next, ((key_bytes, before),), (sealed, after));
    assert(is_put_out(key_bytes, before, sealed));
    assert(is_encapsulation(key, ciphertext, shared_key));
}

/// Calls `DecapsulationKey::decapsulate`, which never fails: a ciphertext that does not belong to
/// the key gives a shared key too. Trusted to be a function of the key and the ciphertext, which
/// [`decapsulate`] names. That it gives back the key that was encapsulated is not stated: it does
/// so for all but a tiny share of seeds and randomness.
#[verifier::external_body]
pub(crate) fn decapsulate_ciphertext(
    key: &[u8; MLKEM_DECAP_KEY_SIZE],
    ciphertext: &[u8; MLKEM_CIPHERTEXT_SIZE],
) -> (shared_key: [u8; MLKEM_SHARED_KEY_SIZE])
    ensures
        shared_key@ == decapsulate(key@, ciphertext@),
{
    let key = DecapsulationKey::<MlKem1024Params>::from_bytes(&(*key).into());
    key.decapsulate(&(*ciphertext).into()).unwrap().into()
}

} // verus!
