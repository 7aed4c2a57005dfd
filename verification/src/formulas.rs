//! Every operation written out in full: over the primitives, concatenation and numbers alone, so
//! that nothing rests on how the scheme names its steps.

use rand_core::OsRng;
use vstd::prelude::*;

use crate::bytes;
use crate::ciphertext::Ciphertext;
use crate::curve;
use crate::decapsulation::DecapsulationKey;
use crate::encapsulation;
use crate::encapsulation::EncapsulationKey;
use crate::entropy;
use crate::hash;
use crate::key_pair;
use crate::mlkem;
use crate::rejection::Rejection;
use crate::scheme;
use crate::scheme::{CiphertextHalves, KeyHalves};
use crate::sizes::SharedSecret;

verus! {

/// Four values are combined to the SHA3-384 digest of all their bytes, one value after the other,
/// and of the label `\.//^\`.
pub proof fn combined_is_the_digest_of_all_parts(
    ss_m: Seq<u8>,
    ss_x: Seq<u8>,
    ct_x: Seq<u8>,
    pk_x: Seq<u8>,
)
    ensures
        scheme::combiner_input(ss_m, ss_x, ct_x, pk_x) == ss_m + ss_x + ct_x + pk_x
            + seq![0x5cu8, 0x2e, 0x2f, 0x2f, 0x5e, 0x5c],
        scheme::combine(ss_m, ss_x, ct_x, pk_x) == hash::sha3_384(
            ss_m + ss_x + ct_x + pk_x + seq![0x5cu8, 0x2e, 0x2f, 0x2f, 0x5e, 0x5c],
        ),
{
}

/// The ephemeral scalar is the first 48 bytes that SHAKE256 puts out for the random bytes as they
/// are, and it is used exactly if it is a scalar.
pub proof fn ephemeral_scalar_is_hashed_from_the_bytes_as_they_are(ek_x: Seq<u8>)
    ensures
        scheme::ephemeral_scalar(ek_x) == hash::shake256(ek_x, 48),
        scheme::is_ephemeral(ek_x) <==> curve::is_scalar(hash::shake256(ek_x, 48)),
{
}

/// A decapsulation key is stretched, as it is, to the first 112 bytes that SHAKE256 puts out for
/// it: 32 for the first ML-KEM seed, 32 for the second and 48 for the secret scalar.
pub proof fn expansion_is_hashed_from_the_key_as_it_is(sk: Seq<u8>)
    ensures
        scheme::expansion(sk) == hash::shake256(sk, 112),
        scheme::seed_d(scheme::expansion(sk)) == hash::shake256(sk, 112).subrange(0, 32),
        scheme::seed_z(scheme::expansion(sk)) == hash::shake256(sk, 112).subrange(32, 64),
        scheme::secret_scalar(scheme::expansion(sk)) == hash::shake256(sk, 112).subrange(64, 112),
        scheme::is_expandable(sk) <==> curve::is_scalar(
            hash::shake256(sk, 112).subrange(64, 112),
        ),
{
}

/// A decapsulation key is expanded to the ML-KEM keys of the two seeds, to the secret scalar and to
/// the generator times that scalar. The matching encapsulation key is the public half of these.
pub proof fn keys_are_made_from_the_expansion(sk: Seq<u8>)
    ensures
        scheme::expand(sk).sk_m == mlkem::generate(
            hash::shake256(sk, 112).subrange(0, 32),
            hash::shake256(sk, 112).subrange(32, 64),
        ).0,
        scheme::expand(sk).sk_x == hash::shake256(sk, 112).subrange(64, 112),
        scheme::expand(sk).pk_m == mlkem::generate(
            hash::shake256(sk, 112).subrange(0, 32),
            hash::shake256(sk, 112).subrange(32, 64),
        ).1,
        scheme::expand(sk).pk_x == curve::multiply(
            curve::generator(),
            hash::shake256(sk, 112).subrange(64, 112),
        ),
        scheme::matching_key(sk).pk_m == mlkem::generate(
            hash::shake256(sk, 112).subrange(0, 32),
            hash::shake256(sk, 112).subrange(32, 64),
        ).1,
        scheme::matching_key(sk).pk_x == curve::multiply(
            curve::generator(),
            hash::shake256(sk, 112).subrange(64, 112),
        ),
{
}

/// The randomness of an encapsulation goes, in its first 32 bytes, to ML-KEM and, in its last 48
/// bytes, to P-384, and is usable exactly if these are hashed to a scalar.
pub proof fn randomness_is_cut_after_the_mlkem_part(randomness: Seq<u8>)
    ensures
        scheme::mlkem_randomness(randomness) == randomness.subrange(0, 32),
        scheme::p384_randomness(randomness) == randomness.subrange(32, 80),
        scheme::is_usable(randomness) <==> curve::is_scalar(
            hash::shake256(randomness.subrange(32, 80), 48),
        ),
{
}

/// From what ML-KEM has put out and the random bytes `ek_x`, an encapsulation makes a ciphertext of
/// ML-KEM's ciphertext and the generator times the ephemeral scalar, and a shared secret that is
/// the digest of ML-KEM's shared key, the public key times the ephemeral scalar, the ephemeral key,
/// the public key and the label.
pub proof fn encapsulation_of_halves_in_full(
    key: KeyHalves,
    ct_m: Seq<u8>,
    ss_m: Seq<u8>,
    ek_x: Seq<u8>,
    ct: CiphertextHalves,
    ss: Seq<u8>,
)
    requires
        encapsulation::is_encapsulation_of_halves(key, ct_m, ss_m, ek_x, ct, ss),
    ensures
        ct.ct_m == ct_m,
        ct.ct_x == curve::multiply(curve::generator(), hash::shake256(ek_x, 48)),
        ss == hash::sha3_384(
            ss_m + curve::multiply(key.pk_x, hash::shake256(ek_x, 48)) + curve::multiply(
                curve::generator(),
                hash::shake256(ek_x, 48),
            ) + key.pk_x + seq![0x5cu8, 0x2e, 0x2f, 0x2f, 0x5e, 0x5c],
        ),
        curve::is_point(ct.ct_x),
{
}

/// An encapsulation to `key` with 80 random bytes hands the first 32 to ML-KEM and hashes the last
/// 48 to the ephemeral scalar. Its ciphertext is ML-KEM's ciphertext and the generator times that
/// scalar; its shared secret is the digest of ML-KEM's shared key, the public key times the
/// scalar, the ephemeral key, the public key and the label.
pub proof fn encapsulation_in_full(
    key: KeyHalves,
    randomness: Seq<u8>,
    ct: CiphertextHalves,
    ss: Seq<u8>,
)
    requires
        encapsulation::is_encapsulation(key, randomness, ct, ss),
    ensures
        ct.ct_m == mlkem::encapsulate(key.pk_m, randomness.subrange(0, 32)).0,
        ct.ct_x == curve::multiply(
            curve::generator(),
            hash::shake256(randomness.subrange(32, 80), 48),
        ),
        ss == hash::sha3_384(
            mlkem::encapsulate(key.pk_m, randomness.subrange(0, 32)).1 + curve::multiply(
                key.pk_x,
                hash::shake256(randomness.subrange(32, 80), 48),
            ) + curve::multiply(
                curve::generator(),
                hash::shake256(randomness.subrange(32, 80), 48),
            ) + key.pk_x + seq![0x5cu8, 0x2e, 0x2f, 0x2f, 0x5e, 0x5c],
        ),
        curve::is_point(ct.ct_x),
{
}

/// Encapsulating with given randomness succeeds exactly if the last 48 of the 80 bytes are hashed to
/// a scalar. It then gives the ciphertext and the shared secret that [`encapsulation_in_full`]
/// writes out, and otherwise a rejected scalar.
pub proof fn encapsulation_outcome_in_full(
    key: KeyHalves,
    randomness: Seq<u8>,
    sealed: Result<(Ciphertext, SharedSecret), Rejection>,
)
    requires
        encapsulation::is_outcome(key, randomness, sealed),
    ensures
        sealed is Ok <==> curve::is_scalar(hash::shake256(randomness.subrange(32, 80), 48)),
        sealed matches Err(rejection) ==> rejection == Rejection::Scalar,
        sealed matches Ok((ct, ss)) ==> ct@.ct_m == mlkem::encapsulate(
            key.pk_m,
            randomness.subrange(0, 32),
        ).0 && ct@.ct_x == curve::multiply(
            curve::generator(),
            hash::shake256(randomness.subrange(32, 80), 48),
        ) && ss@ == hash::sha3_384(
            mlkem::encapsulate(key.pk_m, randomness.subrange(0, 32)).1 + curve::multiply(
                key.pk_x,
                hash::shake256(randomness.subrange(32, 80), 48),
            ) + curve::multiply(
                curve::generator(),
                hash::shake256(randomness.subrange(32, 80), 48),
            ) + key.pk_x + seq![0x5cu8, 0x2e, 0x2f, 0x2f, 0x5e, 0x5c],
        ),
{
}

/// An encapsulation whose randomness comes from a generator has drawn twice from it: first ML-KEM
/// has drawn for its half, then 48 bytes were drawn for the P-384 half. The ciphertext and the
/// shared secret, if any, come from what was put out in these two draws.
pub proof fn encapsulation_uses_what_was_drawn(
    before: OsRng,
    after: OsRng,
    key: KeyHalves,
    sealed: Result<(Ciphertext, SharedSecret), Rejection>,
)
    requires
        encapsulation::is_drawn_outcome(before, after, key, sealed),
    ensures
        exists|between: OsRng, ct_m: Seq<u8>, ss_m: Seq<u8>, ek_x: Seq<u8>|
            {
                &&& #[trigger] mlkem::is_drawn(before, between, key.pk_m, ct_m, ss_m)
                &&& #[trigger] entropy::is_drawn::<48>(between, after, ek_x)
                &&& sealed is Ok <==> curve::is_scalar(hash::shake256(ek_x, 48))
                &&& sealed matches Err(rejection) ==> rejection == Rejection::Scalar
                &&& sealed matches Ok((ct, ss)) ==> ct@.ct_m == ct_m && ct@.ct_x
                    == curve::multiply(curve::generator(), hash::shake256(ek_x, 48)) && ss@
                    == hash::sha3_384(
                    ss_m + curve::multiply(key.pk_x, hash::shake256(ek_x, 48)) + curve::multiply(
                        curve::generator(),
                        hash::shake256(ek_x, 48),
                    ) + key.pk_x + seq![0x5cu8, 0x2e, 0x2f, 0x2f, 0x5e, 0x5c],
                )
            },
{
    let randomness = choose|randomness: Seq<u8>| #[trigger]
        encapsulation::is_outcome(key, randomness, sealed) && encapsulation::is_drawn_randomness(
            before,
            after,
            key,
            randomness,
        );
    encapsulation_outcome_in_full(key, randomness, sealed);
}

/// What is drawn for the P-384 half is used as it was drawn: the randomness of the encapsulation
/// ends in it, all 48 bytes.
pub proof fn p384_randomness_is_what_was_drawn(
    before: OsRng,
    after: OsRng,
    key: KeyHalves,
    sealed: Result<(Ciphertext, SharedSecret), Rejection>,
)
    requires
        encapsulation::is_drawn_outcome(before, after, key, sealed),
    ensures
        exists|randomness: Seq<u8>, between: OsRng|
            {
                &&& #[trigger] encapsulation::is_outcome(key, randomness, sealed)
                &&& randomness.len() == 80
                &&& #[trigger] mlkem::is_drawn(
                    before,
                    between,
                    key.pk_m,
                    mlkem::encapsulate(key.pk_m, randomness.subrange(0, 32)).0,
                    mlkem::encapsulate(key.pk_m, randomness.subrange(0, 32)).1,
                )
                &&& entropy::is_drawn::<48>(between, after, randomness.subrange(32, 80))
            },
{
}

/// A key pair that is made from 64 bytes exists exactly if bytes 64 to 112 that SHAKE256 puts out
/// for them are a scalar. Its decapsulation key is those 64 bytes as they are; its encapsulation
/// key is ML-KEM's for the two seeds that SHAKE256 puts out first, and the generator times the
/// scalar.
pub proof fn key_pair_outcome_in_full(
    randomness: Seq<u8>,
    pair: Result<(DecapsulationKey, EncapsulationKey), Rejection>,
)
    requires
        key_pair::is_outcome(randomness, pair),
    ensures
        pair is Ok <==> curve::is_scalar(hash::shake256(randomness, 112).subrange(64, 112)),
        pair matches Err(rejection) ==> rejection == Rejection::Scalar,
        pair matches Ok((sk, pk)) ==> sk@ == randomness && pk@.pk_m == mlkem::generate(
            hash::shake256(randomness, 112).subrange(0, 32),
            hash::shake256(randomness, 112).subrange(32, 64),
        ).1 && pk@.pk_x == curve::multiply(
            curve::generator(),
            hash::shake256(randomness, 112).subrange(64, 112),
        ),
{
}

/// A key pair that comes from a generator has drawn once from it, 64 bytes. These are the
/// decapsulation key, and the encapsulation key is the one that matches them.
pub proof fn key_pair_is_what_was_drawn(
    before: OsRng,
    after: OsRng,
    pair: Result<(DecapsulationKey, EncapsulationKey), Rejection>,
)
    requires
        key_pair::is_drawn_outcome(before, after, pair),
    ensures
        exists|drawn: Seq<u8>|
            {
                &&& #[trigger] entropy::is_drawn::<64>(before, after, drawn)
                &&& pair is Ok <==> curve::is_scalar(hash::shake256(drawn, 112).subrange(64, 112))
                &&& pair matches Err(rejection) ==> rejection == Rejection::Scalar
                &&& pair matches Ok((sk, pk)) ==> sk@ == drawn && pk@.pk_m == mlkem::generate(
                    hash::shake256(drawn, 112).subrange(0, 32),
                    hash::shake256(drawn, 112).subrange(32, 64),
                ).1 && pk@.pk_x == curve::multiply(
                    curve::generator(),
                    hash::shake256(drawn, 112).subrange(64, 112),
                )
            },
{
    let drawn = choose|drawn: Seq<u8>| #[trigger]
        key_pair::is_outcome(drawn, pair) && entropy::is_drawn::<64>(before, after, drawn);
    key_pair_outcome_in_full(drawn, pair);
}

/// The shared secret that a decapsulation key finds in a ciphertext is the digest of what ML-KEM
/// finds in its half, the other half times the secret scalar, that half itself, the public key and
/// the label.
pub proof fn decapsulation_in_full(sk: Seq<u8>, ct: CiphertextHalves)
    ensures
        scheme::decapsulate(sk, ct) == hash::sha3_384(
            mlkem::decapsulate(
                mlkem::generate(
                    hash::shake256(sk, 112).subrange(0, 32),
                    hash::shake256(sk, 112).subrange(32, 64),
                ).0,
                ct.ct_m,
            ) + curve::multiply(ct.ct_x, hash::shake256(sk, 112).subrange(64, 112)) + ct.ct_x
                + curve::multiply(curve::generator(), hash::shake256(sk, 112).subrange(64, 112))
                + seq![0x5cu8, 0x2e, 0x2f, 0x2f, 0x5e, 0x5c],
        ),
{
}

/// The shared secret of a ciphertext whose ML-KEM half has given `ss_m` is the digest of `ss_m`, the
/// other half times the secret scalar, that half itself, the public key and the label.
pub proof fn decapsulation_of_halves_in_full(
    ss_m: Seq<u8>,
    sk_x: Seq<u8>,
    pk_x: Seq<u8>,
    ct_x: Seq<u8>,
)
    ensures
        scheme::decapsulate_halves(ss_m, sk_x, pk_x, ct_x) == hash::sha3_384(
            ss_m + curve::multiply(ct_x, sk_x) + ct_x + pk_x
                + seq![0x5cu8, 0x2e, 0x2f, 0x2f, 0x5e, 0x5c],
        ),
{
}

/// Both sides find the same shared secret. The holder of `sk`, who combines what ML-KEM finds in the
/// ciphertext with the product of the ephemeral key and the secret scalar, finds the secret of the
/// one who encapsulated to the matching key, whenever ML-KEM finds the shared key that it had put
/// in.
pub proof fn both_sides_find_the_same_secret(
    sk: Seq<u8>,
    randomness: Seq<u8>,
    ct: CiphertextHalves,
    ss: Seq<u8>,
)
    requires
        curve::is_scalar(hash::shake256(sk, 112).subrange(64, 112)),
        encapsulation::is_encapsulation(scheme::matching_key(sk), randomness, ct, ss),
        mlkem::decapsulate(
            mlkem::generate(
                hash::shake256(sk, 112).subrange(0, 32),
                hash::shake256(sk, 112).subrange(32, 64),
            ).0,
            ct.ct_m,
        ) == mlkem::encapsulate(
            mlkem::generate(
                hash::shake256(sk, 112).subrange(0, 32),
                hash::shake256(sk, 112).subrange(32, 64),
            ).1,
            randomness.subrange(0, 32),
        ).1,
    ensures
        ss == hash::sha3_384(
            mlkem::decapsulate(
                mlkem::generate(
                    hash::shake256(sk, 112).subrange(0, 32),
                    hash::shake256(sk, 112).subrange(32, 64),
                ).0,
                ct.ct_m,
            ) + curve::multiply(ct.ct_x, hash::shake256(sk, 112).subrange(64, 112)) + ct.ct_x
                + curve::multiply(curve::generator(), hash::shake256(sk, 112).subrange(64, 112))
                + seq![0x5cu8, 0x2e, 0x2f, 0x2f, 0x5e, 0x5c],
        ),
{
    decapsulation_in_full(sk, ct);
    assert(scheme::decapsulate(sk, ct) == ss);
}

/// An encapsulation key is written as its ML-KEM half, then its P-384 half. Of 1665 bytes, the first
/// 1568, with their coefficients reduced, are read as the ML-KEM half, the last 97 as the P-384
/// half.
pub proof fn key_layout(key: KeyHalves, bytes: Seq<u8>)
    ensures
        scheme::key_bytes(key) == key.pk_m + key.pk_x,
        scheme::key_from_bytes(bytes).pk_m == mlkem::reduced(bytes.subrange(0, 1568)),
        scheme::key_from_bytes(bytes).pk_x == bytes.subrange(1568, 1665),
        scheme::p384_part_of_key(bytes) == bytes.subrange(1568, 1665),
        scheme::is_key(key) <==> mlkem::is_reduced(key.pk_m) && curve::is_point(key.pk_x),
{
}

/// A ciphertext is written as its ML-KEM half, then its P-384 half. Of 1665 bytes, the first 1568
/// are read as the ML-KEM half, the last 97 as the P-384 half.
pub proof fn ciphertext_layout(ct: CiphertextHalves, bytes: Seq<u8>)
    ensures
        scheme::ciphertext_bytes(ct) == ct.ct_m + ct.ct_x,
        scheme::ciphertext_from_bytes(bytes).ct_m == bytes.subrange(0, 1568),
        scheme::ciphertext_from_bytes(bytes).ct_x == bytes.subrange(1568, 1665),
        scheme::has_ciphertext_lengths(ct) <==> ct.ct_m.len() == 1568 && ct.ct_x.len() == 97,
{
}

/// Two numbers below 3329 can be read again from the three bytes that they are packed into.
proof fn packed_numbers_are_read_again(first: int, second: int)
    requires
        0 <= first < 3329,
        0 <= second < 3329,
    ensures
        first % 256 + 256 * ((first / 256 + 16 * (second % 16)) % 16) == first,
        (first / 256 + 16 * (second % 16)) / 16 + 16 * (second / 16) == second,
        0 <= first / 256 + 16 * (second % 16) < 256,
        0 <= second / 16 < 256,
{
}

/// Reading an ML-KEM encapsulation key takes each of its coefficients, two in every three of the
/// first 1536 bytes, modulo 3329, and leaves the last 32 bytes as they are.
#[verifier::spinoff_prover]
pub proof fn coefficients_are_taken_modulo(key: Seq<u8>, at: int)
    requires
        key.len() == 1568,
        0 <= at < 1536,
        at % 3 == 0,
    ensures
        mlkem::reduced(key).len() == 1568,
        mlkem::reduced(key)[at] + 256 * (mlkem::reduced(key)[at + 1] as int % 16) == (key[at] + 256
            * (key[at + 1] as int % 16)) % 3329,
        mlkem::reduced(key)[at + 1] as int / 16 + 16 * mlkem::reduced(key)[at + 2] == (
        key[at + 1] as int / 16 + 16 * key[at + 2]) % 3329,
        mlkem::reduced(key).subrange(1536, 1568) == key.subrange(1536, 1568),
{
    let first = mlkem::first_coefficient(key, at) % 3329;
    let second = mlkem::second_coefficient(key, at) % 3329;
    packed_numbers_are_read_again(first, second);
    assert(mlkem::reduced(key)[at] == mlkem::reduced_byte(key, at));
    assert(mlkem::reduced(key)[at + 1] == mlkem::reduced_byte(key, at + 1));
    assert(mlkem::reduced(key)[at + 2] == mlkem::reduced_byte(key, at + 2));
    assert(mlkem::reduced(key).subrange(1536, 1568) =~= key.subrange(1536, 1568));
}

/// A key is one that ML-KEM writes exactly if it has 1568 bytes and both coefficients in every three
/// of the first 1536 are below 3329.
pub proof fn reduced_keys_have_small_coefficients(key: Seq<u8>)
    ensures
        mlkem::is_reduced(key) <==> key.len() == 1568 && forall|at: int|
            0 <= at < 1536 && at % 3 == 0 ==> #[trigger] key[at] + 256 * (key[at + 1] as int % 16)
                < 3329 && key[at + 1] as int / 16 + 16 * key[at + 2] < 3329,
{
    if mlkem::is_reduced(key) {
        assert forall|at: int| 0 <= at < 1536 && at % 3 == 0 implies #[trigger] key[at] + 256 * (
        key[at + 1] as int % 16) < 3329 && key[at + 1] as int / 16 + 16 * key[at + 2] < 3329 by {
            assert(mlkem::first_coefficient(key, at) < 3329);
        }
    }
}

/// A number is spelled with its most significant byte first: one more byte at the end makes it 256
/// times as large and adds that byte.
pub proof fn last_byte_is_least_significant(bytes: Seq<u8>, last: u8)
    ensures
        bytes::big_endian(Seq::empty()) == 0,
        bytes::big_endian(bytes.push(last)) == 256 * bytes::big_endian(bytes) + last,
{
    assert(bytes.push(last).drop_last() =~= bytes);
}

/// Scalars are the numbers of 48 bytes from 1 to the group's order, which is not one of them.
pub proof fn scalars_lie_between_zero_and_the_order(bytes: Seq<u8>)
    ensures
        curve::is_scalar(bytes) <==> bytes.len() == 48 && 0 < bytes::big_endian(bytes)
            < 0xffffffffffffffffffffffffffffffffffffffffffffffffc7634d81f4372ddf581a0db248b0a77aecec196accc52973nat,
{
}

/// Points are 97 bytes: the tag 4, then the coordinates `x` and `y`, both below the prime
/// `p = 2^384 - 2^128 - 2^96 + 2^32 - 1`, with `y^2 = x^3 - 3x + b` modulo `p`.
pub proof fn points_solve_the_equation(bytes: Seq<u8>)
    ensures
        curve::is_point(bytes) <==> {
            let p =
                0xfffffffffffffffffffffffffffffffffffffffffffffffffffffffffffffffeffffffff0000000000000000ffffffffint;
            let b =
                0xb3312fa7e23ee7e4988e056be3f82d19181d9c6efe8141120314088f5013875ac656398d8a2ed19d2a85c8edd3ec2aefint;
            let x = bytes::big_endian(bytes.subrange(1, 49)) as int;
            let y = bytes::big_endian(bytes.subrange(49, 97)) as int;
            bytes.len() == 97 && bytes[0] == 4 && x < p && y < p && (y * y) % p == (x * x * x - 3
                * x + b) % p
        },
{
}

/// The same ciphertexts, and no others, compare as equal.
pub proof fn equal_ciphertexts_are_the_same(a: Ciphertext, b: Ciphertext)
    ensures
        vstd::std_specs::cmp::PartialEqSpec::eq_spec(&a, &b) <==> a == b,
{
    if a@ == b@ {
        Ciphertext::halves_determine(a, b);
    }
}

/// The same encapsulation keys, and no others, compare as equal.
pub proof fn equal_encapsulation_keys_are_the_same(a: EncapsulationKey, b: EncapsulationKey)
    ensures
        vstd::std_specs::cmp::PartialEqSpec::eq_spec(&a, &b) <==> a == b,
{
    if a@ == b@ {
        EncapsulationKey::halves_determine(a, b);
    }
}

/// The same decapsulation keys, and no others, compare as equal.
pub proof fn equal_decapsulation_keys_are_the_same(a: DecapsulationKey, b: DecapsulationKey)
    ensures
        vstd::std_specs::cmp::PartialEqSpec::eq_spec(&a, &b) <==> a == b,
{
    if a@ == b@ {
        DecapsulationKey::bytes_determine(a, b);
    }
}

} // verus!
