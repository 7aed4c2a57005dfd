//! Encapsulation keys.

use core::convert::Infallible;

use rand_core::OsRng;
use vstd::prelude::*;

use crate::bytes;
use crate::bytes::{read_from, same_bytes, write_at};
use crate::ciphertext::Ciphertext;
use crate::combiner::combiner;
use crate::curve;
use crate::entropy;
use crate::erase::erase;
use crate::hash;
use crate::mlkem;
use crate::rejection::Rejection;
use crate::scheme;
use crate::scheme::{CiphertextHalves, KeyHalves};
use crate::sizes::{
    SharedSecret, ENCAPSULATION_KEY_SIZE, ENCAP_RANDOMNESS_SIZE, MLKEM_CIPHERTEXT_SIZE,
    MLKEM_ENCAP_KEY_SIZE, MLKEM_ENCAP_RANDOMNESS_SIZE, MLKEM_SHARED_KEY_SIZE,
    P384_ENCAP_RANDOMNESS_SIZE, P384_PK_KEY_SIZE, P384_SK_KEY_SIZE,
};

verus! {

/// The two halves of the randomness of an encapsulation: for ML-KEM and for P-384.
pub fn split_randomness(randomness: &[u8; ENCAP_RANDOMNESS_SIZE]) -> (halves: (
    [u8; MLKEM_ENCAP_RANDOMNESS_SIZE],
    [u8; P384_ENCAP_RANDOMNESS_SIZE],
))
    ensures
        halves.0@ == scheme::mlkem_randomness(randomness@),
        halves.1@ == scheme::p384_randomness(randomness@),
{
    (read_from(randomness, 0), read_from(randomness, MLKEM_ENCAP_RANDOMNESS_SIZE))
}

/// The ephemeral scalar that `ek_x` is hashed to, unless that is no scalar.
pub fn derive_p384_scalar(ek_x: &[u8; P384_ENCAP_RANDOMNESS_SIZE]) -> (scalar: Result<
    [u8; P384_SK_KEY_SIZE],
    Rejection,
>)
    ensures
        match scalar {
            Ok(bytes) => scheme::is_ephemeral(ek_x@) && bytes@ == scheme::ephemeral_scalar(ek_x@)
                && bytes@ == hash::shake256(ek_x@, 48),
            Err(rejection) => !scheme::is_ephemeral(ek_x@) && rejection == Rejection::Scalar,
        },
        scalar is Ok <==> curve::is_scalar(hash::shake256(ek_x@, 48)),
{
    let hashed: [u8; P384_SK_KEY_SIZE] = hash::shake256_read(ek_x);
    curve::checked_scalar(&hashed)
}

/// Whether `ct` and `ss` are what ML-KEM's `ct_m` and `ss_m` and the random bytes `ek_x` give. The
/// P-384 half of `ct` is then a point, and every holder of a matching decapsulation key to whom
/// ML-KEM gives `ss_m` finds `ss` in `ct`.
pub open spec fn is_encapsulation_of_halves(
    key: KeyHalves,
    ct_m: Seq<u8>,
    ss_m: Seq<u8>,
    ek_x: Seq<u8>,
    ct: CiphertextHalves,
    ss: Seq<u8>,
) -> bool {
    &&& (ct, ss) == scheme::encapsulate_halves(key, ct_m, ss_m, ek_x)
    &&& curve::is_point(ct.ct_x)
    &&& scheme::is_recovered(key, ss_m, ct, ss)
}

/// Whether `ct` and `ss` are what encapsulating to `key` with `randomness` gives. The P-384 half of
/// `ct` is then a point, and every holder of a matching decapsulation key to whom ML-KEM gives the
/// shared key that it put into `ct` finds `ss` in `ct`.
pub open spec fn is_encapsulation(
    key: KeyHalves,
    randomness: Seq<u8>,
    ct: CiphertextHalves,
    ss: Seq<u8>,
) -> bool {
    let (ct_m, ss_m) = mlkem::encapsulate(key.pk_m, scheme::mlkem_randomness(randomness));
    &&& (ct, ss) == scheme::encapsulate(key, randomness)
    &&& curve::is_point(ct.ct_x)
    &&& scheme::is_recovered(key, ss_m, ct, ss)
}

/// Whether `sealed` is the outcome of encapsulating to `key` with `randomness`: a ciphertext and
/// its shared secret if the randomness is usable, a rejected scalar if it is not.
pub open spec fn is_outcome(
    key: KeyHalves,
    randomness: Seq<u8>,
    sealed: Result<(Ciphertext, SharedSecret), Rejection>,
) -> bool {
    match sealed {
        Ok((ct, ss)) => scheme::is_usable(randomness) && is_encapsulation(
            key,
            randomness,
            ct@,
            ss@,
        ),
        Err(rejection) => !scheme::is_usable(randomness) && rejection == Rejection::Scalar,
    }
}

/// Whether `randomness` was drawn for an encapsulation to `key`, which took the generator from
/// `before` to `after`: first the ML-KEM half, which shows in what ML-KEM has put out, then the
/// P-384 half.
pub open spec fn is_drawn_randomness(
    before: OsRng,
    after: OsRng,
    key: KeyHalves,
    randomness: Seq<u8>,
) -> bool {
    let (ct_m, ss_m) = mlkem::encapsulate(key.pk_m, scheme::mlkem_randomness(randomness));
    &&& randomness.len() == ENCAP_RANDOMNESS_SIZE
    &&& exists|between: OsRng| #[trigger]
        mlkem::is_drawn(before, between, key.pk_m, ct_m, ss_m) && entropy::is_drawn::<48>(
            between,
            after,
            scheme::p384_randomness(randomness),
        )
}

/// Whether `sealed` is the outcome of encapsulating to `key` with randomness that was drawn from the
/// generator `before`, which left it as `after`.
pub open spec fn is_drawn_outcome(
    before: OsRng,
    after: OsRng,
    key: KeyHalves,
    sealed: Result<(Ciphertext, SharedSecret), Rejection>,
) -> bool {
    exists|randomness: Seq<u8>| #[trigger]
        is_outcome(key, randomness, sealed) && is_drawn_randomness(before, after, key, randomness)
}

/// An encapsulation key, also called a public key.
pub struct EncapsulationKey {
    pk_m: [u8; MLKEM_ENCAP_KEY_SIZE],
    pk_x: [u8; P384_PK_KEY_SIZE],
}

impl View for EncapsulationKey {
    type V = KeyHalves;

    closed spec fn view(&self) -> KeyHalves {
        KeyHalves { pk_m: self.pk_m@, pk_x: self.pk_x@ }
    }
}

impl EncapsulationKey {
    #[verifier::type_invariant]
    spec fn well_formed(self) -> bool {
        scheme::is_key(self@)
    }

    /// The encapsulation key with the given halves.
    pub(crate) fn from_halves(
        pk_m: [u8; MLKEM_ENCAP_KEY_SIZE],
        pk_x: [u8; P384_PK_KEY_SIZE],
    ) -> (key: EncapsulationKey)
        requires
            mlkem::is_reduced(pk_m@),
            curve::is_point(pk_x@),
        ensures
            key@ == (KeyHalves { pk_m: pk_m@, pk_x: pk_x@ }),
    {
        EncapsulationKey { pk_m, pk_x }
    }

    /// Encapsulate using the given randomness.
    pub fn encapsulate_derand(&self, randomness: [u8; ENCAP_RANDOMNESS_SIZE]) -> (sealed: Result<
        (Ciphertext, SharedSecret),
        Infallible,
    >)
        requires
            scheme::is_usable(randomness@),
        ensures
            sealed matches Ok((ct, ss)) && is_encapsulation(self@, randomness@, ct@, ss@),
    {
        let (mlkem_randomness, ek_x) = split_randomness(&randomness);
        let (ct_m, ss_m) = mlkem::encapsulate_deterministic(&self.pk_m, &mlkem_randomness);
        self.encapsulate_internal(ct_m, ss_m, ek_x)
    }

    /// Encapsulate, given what ML-KEM has put out and the random bytes `ek_x` for the P-384 half.
    pub fn encapsulate_internal(
        &self,
        ct_m: [u8; MLKEM_CIPHERTEXT_SIZE],
        ss_m: [u8; MLKEM_SHARED_KEY_SIZE],
        ek_x: SharedSecret,
    ) -> (sealed: Result<(Ciphertext, SharedSecret), Infallible>)
        requires
            scheme::is_ephemeral(ek_x@),
        ensures
            sealed matches Ok((ct, ss)) && is_encapsulation_of_halves(
                self@,
                ct_m@,
                ss_m@,
                ek_x@,
                ct@,
                ss@,
            ),
    {
        proof {
            use_type_invariant(self);
        }
        let ek_x_scalar: [u8; P384_SK_KEY_SIZE] = derive_p384_scalar(&ek_x).unwrap();
        let ct_x: [u8; P384_PK_KEY_SIZE] = curve::multiply_generator(&ek_x_scalar);
        let mut ss_x: [u8; P384_PK_KEY_SIZE] = curve::multiply_point(&self.pk_x, &ek_x_scalar);
        let ss: SharedSecret = combiner(&ss_m, &ss_x, &ct_x, &self.pk_x);
        erase(&mut ss_x);
        let ct = Ciphertext::from_halves(ct_m, ct_x);
        Ok((ct, ss))
    }

    /// Encapsulate as `encapsulate_internal` does, unless `ek_x` is hashed to no scalar.
    pub fn try_encapsulate_internal(
        &self,
        ct_m: [u8; MLKEM_CIPHERTEXT_SIZE],
        ss_m: [u8; MLKEM_SHARED_KEY_SIZE],
        ek_x: SharedSecret,
    ) -> (sealed: Result<(Ciphertext, SharedSecret), Rejection>)
        ensures
            match sealed {
                Ok((ct, ss)) => scheme::is_ephemeral(ek_x@) && is_encapsulation_of_halves(
                    self@,
                    ct_m@,
                    ss_m@,
                    ek_x@,
                    ct@,
                    ss@,
                ),
                Err(rejection) => !scheme::is_ephemeral(ek_x@) && rejection == Rejection::Scalar,
            },
    {
        match derive_p384_scalar(&ek_x) {
            Ok(_) => Ok(self.encapsulate_internal(ct_m, ss_m, ek_x).unwrap()),
            Err(rejection) => Err(rejection),
        }
    }

    /// Encapsulate as `encapsulate_derand` does, unless the randomness is not usable.
    pub fn try_encapsulate_derand(
        &self,
        randomness: [u8; ENCAP_RANDOMNESS_SIZE],
    ) -> (sealed: Result<(Ciphertext, SharedSecret), Rejection>)
        ensures
            is_outcome(self@, randomness@, sealed),
    {
        let (_, ek_x) = split_randomness(&randomness);
        match derive_p384_scalar(&ek_x) {
            Ok(_) => Ok(self.encapsulate_derand(randomness).unwrap()),
            Err(rejection) => Err(rejection),
        }
    }

    /// Encapsulate using randomness from `rng`. The outcome is that of `try_encapsulate_derand` on
    /// the bytes that were drawn: first those for ML-KEM, then those for P-384.
    pub fn encapsulate(&self, rng: &mut OsRng) -> (sealed: Result<
        (Ciphertext, SharedSecret),
        Rejection,
    >)
        ensures
            exists|randomness: Seq<u8>|
                randomness.len() == ENCAP_RANDOMNESS_SIZE && #[trigger] is_outcome(
                    self@,
                    randomness,
                    sealed,
                ),
            is_drawn_outcome(*old(rng), *final(rng), self@, sealed),
    {
        let (ct_m, ss_m) = mlkem::draw(&self.pk_m, rng);
        let ek_x: SharedSecret = entropy::draw(rng);
        let sealed = self.try_encapsulate_internal(ct_m, ss_m, ek_x);
        proof {
            let m = choose|m: Seq<u8>|
                m.len() == MLKEM_ENCAP_RANDOMNESS_SIZE && #[trigger] mlkem::encapsulate(
                    self@.pk_m,
                    m,
                ) == (ct_m@, ss_m@);
            let randomness = m + ek_x@;
            assert(scheme::mlkem_randomness(randomness) =~= m);
            assert(scheme::p384_randomness(randomness) =~= ek_x@);
            assert(is_outcome(self@, randomness, sealed));
            assert(is_drawn_randomness(*old(rng), *rng, self@, randomness));
        }
        sealed
    }

    /// Convert the key to the following format:
    /// ML-KEM-1024 public key(1568 bytes) | p384 public key(97 bytes).
    #[must_use]
    pub fn as_bytes(&self) -> (bytes: [u8; ENCAPSULATION_KEY_SIZE])
        ensures
            bytes@ == scheme::key_bytes(self@),
            scheme::is_key(self@),
            curve::is_point(scheme::p384_part_of_key(bytes@)),
            scheme::key_from_bytes(bytes@) == self@,
    {
        let mut buffer: [u8; ENCAPSULATION_KEY_SIZE] = [0u8; ENCAPSULATION_KEY_SIZE];
        write_at(&mut buffer, 0, &self.pk_m);
        write_at(&mut buffer, MLKEM_ENCAP_KEY_SIZE, &self.pk_x);
        proof {
            use_type_invariant(self);
            assert(buffer@ =~= self.pk_m@ + self.pk_x@);
            mlkem::reduced_key_is_kept(self.pk_m@);
            assert(buffer@.subrange(0, MLKEM_ENCAP_KEY_SIZE as int) =~= self.pk_m@);
            assert(scheme::p384_part_of_key(buffer@) =~= self.pk_x@);
        }
        buffer
    }

    /// The key that `value` spells, in the format that `as_bytes` writes. Coefficients of the
    /// ML-KEM half that are not below the modulus are reduced.
    pub fn from(value: &[u8; ENCAPSULATION_KEY_SIZE]) -> (key: EncapsulationKey)
        requires
            curve::is_point(scheme::p384_part_of_key(value@)),
        ensures
            key@ == scheme::key_from_bytes(value@),
    {
        let pk_m: [u8; MLKEM_ENCAP_KEY_SIZE] = read_from(value, 0);
        let pk_m: [u8; MLKEM_ENCAP_KEY_SIZE] = mlkem::reencode_key(&pk_m);
        proof {
            mlkem::reducing_reduces(value@.subrange(0, MLKEM_ENCAP_KEY_SIZE as int));
        }
        let pk_x: [u8; P384_PK_KEY_SIZE] = read_from(value, MLKEM_ENCAP_KEY_SIZE);
        let pk_x: [u8; P384_PK_KEY_SIZE] = curve::public_key_from_bytes(&pk_x).unwrap();
        EncapsulationKey { pk_m, pk_x }
    }

    /// The key that `value` spells, as `from` reads it, unless its P-384 half is not a point.
    pub fn try_from_bytes(value: &[u8; ENCAPSULATION_KEY_SIZE]) -> (key: Result<
        EncapsulationKey,
        Rejection,
    >)
        ensures
            match key {
                Ok(key) => curve::is_point(scheme::p384_part_of_key(value@)) && key@
                    == scheme::key_from_bytes(value@),
                Err(rejection) => !curve::is_point(scheme::p384_part_of_key(value@)) && rejection
                    == Rejection::Point,
            },
    {
        let pk_x: [u8; P384_PK_KEY_SIZE] = read_from(value, MLKEM_ENCAP_KEY_SIZE);
        match curve::public_key_from_bytes(&pk_x) {
            Some(_) => Ok(EncapsulationKey::from(value)),
            None => Err(Rejection::Point),
        }
    }

    /// Two encapsulation keys with the same halves are the same.
    pub proof fn halves_determine(a: EncapsulationKey, b: EncapsulationKey)
        requires
            a@ == b@,
        ensures
            a == b,
    {
        bytes::bytes_determine_array(a.pk_m, b.pk_m);
        bytes::bytes_determine_array(a.pk_x, b.pk_x);
    }
}

impl Clone for EncapsulationKey {
    fn clone(&self) -> (copy: EncapsulationKey)
        ensures
            copy == *self,
    {
        proof {
            use_type_invariant(self);
        }
        EncapsulationKey { pk_m: self.pk_m, pk_x: self.pk_x }
    }
}

impl PartialEq for EncapsulationKey {
    fn eq(&self, other: &EncapsulationKey) -> (same: bool) {
        same_bytes(&self.pk_m, &other.pk_m) && same_bytes(&self.pk_x, &other.pk_x)
    }
}

impl vstd::std_specs::cmp::PartialEqSpecImpl for EncapsulationKey {
    open spec fn obeys_eq_spec() -> bool {
        true
    }

    open spec fn eq_spec(&self, other: &EncapsulationKey) -> bool {
        self@ == other@
    }
}

} // verus!
