//! The scheme as mathematics: what each operation computes, over sequences of bytes.

use vstd::prelude::*;

use crate::curve;
use crate::hash;
use crate::mlkem;
use crate::sizes::{
    CIPHERTEXT_SIZE, DECAPSULATION_KEY_SIZE, ENCAPSULATION_KEY_SIZE, ENCAP_RANDOMNESS_SIZE,
    EXPANSION_SIZE, MLKEM_CIPHERTEXT_SIZE, MLKEM_ENCAP_KEY_SIZE, MLKEM_ENCAP_RANDOMNESS_SIZE,
    MLKEM_SEED_SIZE, P384_PK_KEY_SIZE, P384_SK_KEY_SIZE,
};

verus! {

/// The two halves of an encapsulation key.
#[verifier::ext_equal]
pub struct KeyHalves {
    /// The encoded ML-KEM-1024 encapsulation key.
    pub pk_m: Seq<u8>,
    /// The uncompressed P-384 public key.
    pub pk_x: Seq<u8>,
}

/// The two halves of a ciphertext.
#[verifier::ext_equal]
pub struct CiphertextHalves {
    /// The ML-KEM-1024 ciphertext.
    pub ct_m: Seq<u8>,
    /// The uncompressed ephemeral P-384 public key.
    pub ct_x: Seq<u8>,
}

/// What a decapsulation key is expanded to.
#[verifier::ext_equal]
pub struct ExpandedKey {
    /// The encoded ML-KEM-1024 decapsulation key.
    pub sk_m: Seq<u8>,
    /// The P-384 secret scalar.
    pub sk_x: Seq<u8>,
    /// The encoded ML-KEM-1024 encapsulation key.
    pub pk_m: Seq<u8>,
    /// The uncompressed P-384 public key.
    pub pk_x: Seq<u8>,
}

/// The label that ends the combiner's input: the characters `\.//^\`.
pub open spec fn label() -> Seq<u8> {
    seq![0x5cu8, 0x2e, 0x2f, 0x2f, 0x5e, 0x5c]
}

/// The bytes that a decapsulation key is stretched to.
pub open spec fn expansion(sk: Seq<u8>) -> Seq<u8> {
    hash::shake256(sk, EXPANSION_SIZE as nat)
}

/// The first seed of ML-KEM key generation in an expansion.
pub open spec fn seed_d(expansion: Seq<u8>) -> Seq<u8> {
    expansion.subrange(0, MLKEM_SEED_SIZE as int)
}

/// The second seed of ML-KEM key generation in an expansion.
pub open spec fn seed_z(expansion: Seq<u8>) -> Seq<u8> {
    expansion.subrange(MLKEM_SEED_SIZE as int, 2 * MLKEM_SEED_SIZE)
}

/// The P-384 secret scalar in an expansion.
pub open spec fn secret_scalar(expansion: Seq<u8>) -> Seq<u8> {
    expansion.subrange(2 * MLKEM_SEED_SIZE, EXPANSION_SIZE as int)
}

/// Whether the decapsulation key `sk` expands to a P-384 scalar that is a secret key.
pub open spec fn is_expandable(sk: Seq<u8>) -> bool {
    curve::is_scalar(secret_scalar(expansion(sk)))
}

/// The keys that the decapsulation key `sk` is expanded to.
pub open spec fn expand(sk: Seq<u8>) -> ExpandedKey {
    let (sk_m, pk_m) = mlkem::generate(seed_d(expansion(sk)), seed_z(expansion(sk)));
    let sk_x = secret_scalar(expansion(sk));
    ExpandedKey { sk_m, sk_x, pk_m, pk_x: curve::multiply(curve::generator(), sk_x) }
}

/// The encapsulation key that matches the decapsulation key `sk`.
pub open spec fn matching_key(sk: Seq<u8>) -> KeyHalves {
    KeyHalves { pk_m: expand(sk).pk_m, pk_x: expand(sk).pk_x }
}

/// Whether `key` is an encapsulation key: coefficients below the modulus, and a point of the curve.
pub open spec fn is_key(key: KeyHalves) -> bool {
    &&& mlkem::is_reduced(key.pk_m)
    &&& curve::is_point(key.pk_x)
}

/// `key` in bytes: the ML-KEM half, then the P-384 half.
pub open spec fn key_bytes(key: KeyHalves) -> Seq<u8> {
    key.pk_m + key.pk_x
}

/// The encapsulation key that `bytes` spell.
pub open spec fn key_from_bytes(bytes: Seq<u8>) -> KeyHalves {
    KeyHalves {
        pk_m: mlkem::reduced(bytes.subrange(0, MLKEM_ENCAP_KEY_SIZE as int)),
        pk_x: p384_part_of_key(bytes),
    }
}

/// The bytes of an encoded encapsulation key that hold its P-384 half.
pub open spec fn p384_part_of_key(bytes: Seq<u8>) -> Seq<u8> {
    bytes.subrange(MLKEM_ENCAP_KEY_SIZE as int, ENCAPSULATION_KEY_SIZE as int)
}

/// `ct` in bytes: the ML-KEM half, then the P-384 half.
pub open spec fn ciphertext_bytes(ct: CiphertextHalves) -> Seq<u8> {
    ct.ct_m + ct.ct_x
}

/// The ciphertext that `bytes` spell.
pub open spec fn ciphertext_from_bytes(bytes: Seq<u8>) -> CiphertextHalves {
    CiphertextHalves {
        ct_m: bytes.subrange(0, MLKEM_CIPHERTEXT_SIZE as int),
        ct_x: bytes.subrange(MLKEM_CIPHERTEXT_SIZE as int, CIPHERTEXT_SIZE as int),
    }
}

/// Whether both halves of `ct` have the length that is theirs.
pub open spec fn has_ciphertext_lengths(ct: CiphertextHalves) -> bool {
    &&& ct.ct_m.len() == MLKEM_CIPHERTEXT_SIZE
    &&& ct.ct_x.len() == P384_PK_KEY_SIZE
}

/// What the combiner hashes: both shared values, the ephemeral key, the public key and the label.
pub open spec fn combiner_input(
    ss_m: Seq<u8>,
    ss_x: Seq<u8>,
    ct_x: Seq<u8>,
    pk_x: Seq<u8>,
) -> Seq<u8> {
    ss_m + ss_x + ct_x + pk_x + label()
}

/// The shared secret that the two halves are combined to.
pub open spec fn combine(
    ss_m: Seq<u8>,
    ss_x: Seq<u8>,
    ct_x: Seq<u8>,
    pk_x: Seq<u8>,
) -> Seq<u8> {
    hash::sha3_384(combiner_input(ss_m, ss_x, ct_x, pk_x))
}

/// The ephemeral scalar that the random bytes `ek_x` are hashed to.
pub open spec fn ephemeral_scalar(ek_x: Seq<u8>) -> Seq<u8> {
    hash::shake256(ek_x, P384_SK_KEY_SIZE as nat)
}

/// The ML-KEM half of the randomness of an encapsulation.
pub open spec fn mlkem_randomness(randomness: Seq<u8>) -> Seq<u8> {
    randomness.subrange(0, MLKEM_ENCAP_RANDOMNESS_SIZE as int)
}

/// The P-384 half of the randomness of an encapsulation.
pub open spec fn p384_randomness(randomness: Seq<u8>) -> Seq<u8> {
    randomness.subrange(MLKEM_ENCAP_RANDOMNESS_SIZE as int, ENCAP_RANDOMNESS_SIZE as int)
}

/// Whether the P-384 randomness `ek_x` is hashed to a scalar that is an ephemeral key.
pub open spec fn is_ephemeral(ek_x: Seq<u8>) -> bool {
    curve::is_scalar(ephemeral_scalar(ek_x))
}

/// Whether an encapsulation with `randomness` finds an ephemeral key in its P-384 half.
pub open spec fn is_usable(randomness: Seq<u8>) -> bool {
    is_ephemeral(p384_randomness(randomness))
}

/// The ciphertext to `key` and its shared secret, from the ML-KEM half and the ephemeral
/// randomness.
pub open spec fn encapsulate_halves(
    key: KeyHalves,
    ct_m: Seq<u8>,
    ss_m: Seq<u8>,
    ek_x: Seq<u8>,
) -> (CiphertextHalves, Seq<u8>) {
    let ct_x = curve::multiply(curve::generator(), ephemeral_scalar(ek_x));
    let ss_x = curve::multiply(key.pk_x, ephemeral_scalar(ek_x));
    (CiphertextHalves { ct_m, ct_x }, combine(ss_m, ss_x, ct_x, key.pk_x))
}

/// The ciphertext to `key` and its shared secret, with the given randomness.
pub open spec fn encapsulate(key: KeyHalves, randomness: Seq<u8>) -> (
    CiphertextHalves,
    Seq<u8>,
) {
    let (ct_m, ss_m) = mlkem::encapsulate(key.pk_m, mlkem_randomness(randomness));
    encapsulate_halves(key, ct_m, ss_m, p384_randomness(randomness))
}

/// The shared secret of the ciphertext `ct`, once its ML-KEM half has given `ss_m`.
pub open spec fn decapsulate_halves(
    ss_m: Seq<u8>,
    sk_x: Seq<u8>,
    pk_x: Seq<u8>,
    ct_x: Seq<u8>,
) -> Seq<u8> {
    combine(ss_m, curve::multiply(ct_x, sk_x), ct_x, pk_x)
}

/// The shared secret that the decapsulation key `sk` finds in `ct`.
pub open spec fn decapsulate(sk: Seq<u8>, ct: CiphertextHalves) -> Seq<u8> {
    let key = expand(sk);
    decapsulate_halves(mlkem::decapsulate(key.sk_m, ct.ct_m), key.sk_x, key.pk_x, ct.ct_x)
}

/// Whether the ML-KEM half of `ct` gives `ss_m` to the holder of `sk`.
pub open spec fn mlkem_half_gives(sk: Seq<u8>, ct: CiphertextHalves, ss_m: Seq<u8>) -> bool {
    mlkem::decapsulate(expand(sk).sk_m, ct.ct_m) == ss_m
}

/// Whether `ct` gives `ss` to every holder of a decapsulation key that matches `key` for whom
/// ML-KEM gives `ss_m`, the ML-KEM shared key that went into it.
pub open spec fn is_recovered(
    key: KeyHalves,
    ss_m: Seq<u8>,
    ct: CiphertextHalves,
    ss: Seq<u8>,
) -> bool {
    forall|sk: Seq<u8>|
        is_expandable(sk) && matching_key(sk) == key && mlkem_half_gives(sk, ct, ss_m)
            ==> #[trigger] decapsulate(sk, ct) == ss
}

} // verus!
