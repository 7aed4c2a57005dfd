//! What holds across the operations of the scheme.

use vstd::prelude::*;

use crate::curve;
use crate::encapsulation;
use crate::mlkem;
use crate::scheme;
use crate::scheme::{CiphertextHalves, KeyHalves};
use crate::sizes::{
    CIPHERTEXT_SIZE, ENCAPSULATION_KEY_SIZE, ENCAP_RANDOMNESS_SIZE, EXPANSION_SIZE,
    MLKEM_CIPHERTEXT_SIZE, MLKEM_ENCAP_KEY_SIZE, MLKEM_SHARED_KEY_SIZE, P384_PK_KEY_SIZE,
};

verus! {

/// A ciphertext that is written out and read back is the same ciphertext.
pub proof fn ciphertext_round_trips(ct: CiphertextHalves)
    requires
        scheme::has_ciphertext_lengths(ct),
    ensures
        scheme::ciphertext_bytes(ct).len() == CIPHERTEXT_SIZE,
        scheme::ciphertext_from_bytes(scheme::ciphertext_bytes(ct)) == ct,
{
    assert(scheme::ciphertext_from_bytes(scheme::ciphertext_bytes(ct)) =~= ct);
}

/// Bytes that are read as a ciphertext and written out again are the same bytes.
pub proof fn ciphertext_bytes_round_trip(bytes: Seq<u8>)
    requires
        bytes.len() == CIPHERTEXT_SIZE,
    ensures
        scheme::has_ciphertext_lengths(scheme::ciphertext_from_bytes(bytes)),
        scheme::ciphertext_bytes(scheme::ciphertext_from_bytes(bytes)) == bytes,
{
    assert(scheme::ciphertext_bytes(scheme::ciphertext_from_bytes(bytes)) =~= bytes);
}

/// An encapsulation key that is written out can be read back, and is the same key.
pub proof fn key_round_trips(key: KeyHalves)
    requires
        scheme::is_key(key),
    ensures
        scheme::key_bytes(key).len() == ENCAPSULATION_KEY_SIZE,
        curve::is_point(scheme::p384_part_of_key(scheme::key_bytes(key))),
        scheme::key_from_bytes(scheme::key_bytes(key)) == key,
{
    let bytes = scheme::key_bytes(key);
    assert(bytes.subrange(0, MLKEM_ENCAP_KEY_SIZE as int) =~= key.pk_m);
    assert(scheme::p384_part_of_key(bytes) =~= key.pk_x);
    mlkem::reduced_key_is_kept(key.pk_m);
}

/// Bytes whose P-384 part is a point are read as an encapsulation key, and writing it out gives
/// the same bytes exactly if every coefficient in them is below the modulus.
pub proof fn key_bytes_round_trip(bytes: Seq<u8>)
    requires
        bytes.len() == ENCAPSULATION_KEY_SIZE,
        curve::is_point(scheme::p384_part_of_key(bytes)),
    ensures
        scheme::is_key(scheme::key_from_bytes(bytes)),
        scheme::key_bytes(scheme::key_from_bytes(bytes)) == bytes <==> mlkem::is_reduced(
            bytes.subrange(0, MLKEM_ENCAP_KEY_SIZE as int),
        ),
{
    let pk_m = bytes.subrange(0, MLKEM_ENCAP_KEY_SIZE as int);
    let written = scheme::key_bytes(scheme::key_from_bytes(bytes));
    mlkem::reducing_reduces(pk_m);
    assert(written.subrange(0, MLKEM_ENCAP_KEY_SIZE as int) =~= mlkem::reduced(pk_m));
    if mlkem::is_reduced(pk_m) {
        mlkem::reduced_key_is_kept(pk_m);
        assert(written =~= bytes);
    }
}

/// The combiner's input tells all four of its parts: no two exchanges share it.
pub proof fn combiner_input_is_injective(
    ss_m: Seq<u8>,
    ss_x: Seq<u8>,
    ct_x: Seq<u8>,
    pk_x: Seq<u8>,
    other_ss_m: Seq<u8>,
    other_ss_x: Seq<u8>,
    other_ct_x: Seq<u8>,
    other_pk_x: Seq<u8>,
)
    requires
        ss_m.len() == MLKEM_SHARED_KEY_SIZE,
        other_ss_m.len() == MLKEM_SHARED_KEY_SIZE,
        ss_x.len() == P384_PK_KEY_SIZE,
        other_ss_x.len() == P384_PK_KEY_SIZE,
        ct_x.len() == P384_PK_KEY_SIZE,
        other_ct_x.len() == P384_PK_KEY_SIZE,
        pk_x.len() == P384_PK_KEY_SIZE,
        other_pk_x.len() == P384_PK_KEY_SIZE,
        scheme::combiner_input(ss_m, ss_x, ct_x, pk_x) == scheme::combiner_input(
            other_ss_m,
            other_ss_x,
            other_ct_x,
            other_pk_x,
        ),
    ensures
        ss_m == other_ss_m,
        ss_x == other_ss_x,
        ct_x == other_ct_x,
        pk_x == other_pk_x,
{
    let input = scheme::combiner_input(ss_m, ss_x, ct_x, pk_x);
    let other = scheme::combiner_input(other_ss_m, other_ss_x, other_ct_x, other_pk_x);
    let ss_x_at: int = MLKEM_SHARED_KEY_SIZE as int;
    let ct_x_at: int = ss_x_at + P384_PK_KEY_SIZE;
    let pk_x_at: int = ct_x_at + P384_PK_KEY_SIZE;
    let label_at: int = pk_x_at + P384_PK_KEY_SIZE;
    assert(input.subrange(0, ss_x_at) =~= ss_m);
    assert(other.subrange(0, ss_x_at) =~= other_ss_m);
    assert(input.subrange(ss_x_at, ct_x_at) =~= ss_x);
    assert(other.subrange(ss_x_at, ct_x_at) =~= other_ss_x);
    assert(input.subrange(ct_x_at, pk_x_at) =~= ct_x);
    assert(other.subrange(ct_x_at, pk_x_at) =~= other_ct_x);
    assert(input.subrange(pk_x_at, label_at) =~= pk_x);
    assert(other.subrange(pk_x_at, label_at) =~= other_pk_x);
}

/// The randomness of an encapsulation is used up by its two halves, each byte by one of them.
pub proof fn randomness_is_used_up(randomness: Seq<u8>)
    requires
        randomness.len() == ENCAP_RANDOMNESS_SIZE,
    ensures
        scheme::mlkem_randomness(randomness) + scheme::p384_randomness(randomness) == randomness,
{
    assert(scheme::mlkem_randomness(randomness) + scheme::p384_randomness(randomness)
        =~= randomness);
}

/// The expansion of a decapsulation key is used up by the two seeds and the scalar, each byte by
/// one of them.
pub proof fn expansion_is_used_up(expansion: Seq<u8>)
    requires
        expansion.len() == EXPANSION_SIZE,
    ensures
        scheme::seed_d(expansion) + scheme::seed_z(expansion) + scheme::secret_scalar(expansion)
            == expansion,
{
    assert(scheme::seed_d(expansion) + scheme::seed_z(expansion) + scheme::secret_scalar(expansion)
        =~= expansion);
}

/// Whoever holds the decapsulation key `sk` can decapsulate a ciphertext that was made for the
/// matching encapsulation key, also after it was written out and read back, and finds the shared
/// secret of the one who made it. The exceptions are those of ML-KEM, whose decapsulation, for a
/// tiny share of seeds and randomness, does not give the shared key that was encapsulated.
pub proof fn shared_secret_is_recovered(
    sk: Seq<u8>,
    randomness: Seq<u8>,
    ct: CiphertextHalves,
    ss: Seq<u8>,
)
    requires
        scheme::is_expandable(sk),
        scheme::has_ciphertext_lengths(ct),
        encapsulation::is_encapsulation(scheme::matching_key(sk), randomness, ct, ss),
        scheme::mlkem_half_gives(
            sk,
            ct,
            mlkem::encapsulate(
                scheme::matching_key(sk).pk_m,
                scheme::mlkem_randomness(randomness),
            ).1,
        ),
    ensures
        curve::is_point(ct.ct_x),
        scheme::decapsulate(sk, ct) == ss,
        scheme::decapsulate(sk, scheme::ciphertext_from_bytes(scheme::ciphertext_bytes(ct))) == ss,
{
    ciphertext_round_trips(ct);
}

} // verus!
