//! Decapsulation keys.

use core::convert::Infallible;

use rand_core::OsRng;
use vstd::prelude::*;

use crate::bytes;
use crate::bytes::{read_from, same_bytes};
use crate::ciphertext::Ciphertext;
use crate::combiner::combiner;
use crate::curve;
use crate::encapsulation::EncapsulationKey;
use crate::entropy;
use crate::erase::erase;
use crate::hash;
use crate::mlkem;
use crate::rejection::Rejection;
use crate::scheme;
use crate::scheme::ExpandedKey;
use crate::sizes::{
    SharedSecret, DECAPSULATION_KEY_SIZE, EXPANSION_SIZE, MLKEM_DECAP_KEY_SIZE,
    MLKEM_ENCAP_KEY_SIZE, MLKEM_SEED_SIZE, MLKEM_SHARED_KEY_SIZE, P384_PK_KEY_SIZE,
    P384_SK_KEY_SIZE,
};

verus! {

/// The parts of the expansion of a decapsulation key: both ML-KEM seeds and the P-384 scalar.
pub fn split_expansion(expansion: &[u8; EXPANSION_SIZE]) -> (parts: (
    [u8; MLKEM_SEED_SIZE],
    [u8; MLKEM_SEED_SIZE],
    [u8; P384_SK_KEY_SIZE],
))
    ensures
        parts.0@ == scheme::seed_d(expansion@),
        parts.1@ == scheme::seed_z(expansion@),
        parts.2@ == scheme::secret_scalar(expansion@),
{
    (
        read_from(expansion, 0),
        read_from(expansion, MLKEM_SEED_SIZE),
        read_from(expansion, 2 * MLKEM_SEED_SIZE),
    )
}

/// The shared secret of a ciphertext whose ML-KEM half has given `ss_m` and whose P-384 half is
/// `ct_x`, for the holder of the secret scalar `sk_x`, whose public key is `pk_x`.
pub fn decapsulate_internal(
    ss_m: &[u8; MLKEM_SHARED_KEY_SIZE],
    sk_x: &[u8; P384_SK_KEY_SIZE],
    pk_x: &[u8; P384_PK_KEY_SIZE],
    ct_x: &[u8; P384_PK_KEY_SIZE],
) -> (ss: SharedSecret)
    requires
        curve::is_scalar(sk_x@),
        curve::is_point(ct_x@),
    ensures
        ss@ == scheme::decapsulate_halves(ss_m@, sk_x@, pk_x@, ct_x@),
{
    let mut ss_x: [u8; P384_PK_KEY_SIZE] = curve::multiply_point(ct_x, sk_x);
    let ss: SharedSecret = combiner(ss_m, &ss_x, ct_x, pk_x);
    erase(&mut ss_x);
    ss
}

/// A decapsulation key, also called a private key: the bytes that all secrets are expanded from.
pub struct DecapsulationKey {
    sk: [u8; DECAPSULATION_KEY_SIZE],
}

impl View for DecapsulationKey {
    type V = Seq<u8>;

    closed spec fn view(&self) -> Seq<u8> {
        self.sk@
    }
}

impl DecapsulationKey {
    /// Decapsulate `ct`.
    pub fn decapsulate(&self, ct: &Ciphertext) -> (ss: Result<SharedSecret, Infallible>)
        requires
            scheme::is_expandable(self@),
            curve::is_point(ct@.ct_x),
        ensures
            ss matches Ok(ss) && ss@ == scheme::decapsulate(self@, ct@),
    {
        let (mut sk_m, mut sk_x, _pk_m, pk_x) = self.expand_key();
        let ss_m: [u8; MLKEM_SHARED_KEY_SIZE] = mlkem::decapsulate_ciphertext(&sk_m, ct.ct_m());
        let ss: SharedSecret = decapsulate_internal(&ss_m, &sk_x, &pk_x, ct.ct_x());
        erase(&mut sk_m);
        erase(&mut sk_x);
        Ok(ss)
    }

    /// Decapsulate `ct` as `decapsulate` does, unless this key expands to no scalar or the P-384
    /// half of `ct` is not a point.
    pub fn try_decapsulate(&self, ct: &Ciphertext) -> (ss: Result<SharedSecret, Rejection>)
        ensures
            match ss {
                Ok(ss) => scheme::is_expandable(self@) && curve::is_point(ct@.ct_x) && ss@
                    == scheme::decapsulate(self@, ct@),
                Err(Rejection::Scalar) => !scheme::is_expandable(self@),
                Err(Rejection::Point) => scheme::is_expandable(self@) && !curve::is_point(
                    ct@.ct_x,
                ),
            },
    {
        if !self.is_expandable() {
            return Err(Rejection::Scalar);
        }
        if !curve::decodes_to_point(ct.ct_x()) {
            return Err(Rejection::Point);
        }
        Ok(self.decapsulate(ct).unwrap())
    }

    /// Generate a new `DecapsulationKey` using `OsRng`. Which bytes are drawn is left to chance.
    pub fn generate_from_os_rng() -> (key: DecapsulationKey)
        ensures
            key@.len() == DECAPSULATION_KEY_SIZE,
            exists|before: OsRng, after: OsRng| #[trigger]
                entropy::is_drawn::<64>(before, after, key@),
    {
        let mut rng = entropy::os_rng();
        DecapsulationKey::generate(&mut rng)
    }

    /// Generate a new `DecapsulationKey` using the provided RNG: what `from` makes of the bytes that
    /// are drawn. Which they are is left to chance.
    pub fn generate(rng: &mut OsRng) -> (key: DecapsulationKey)
        ensures
            key@.len() == DECAPSULATION_KEY_SIZE,
            entropy::is_drawn::<64>(*old(rng), *final(rng), key@),
    {
        let sk: [u8; DECAPSULATION_KEY_SIZE] = entropy::draw(rng);
        DecapsulationKey::from(sk)
    }

    /// Whether this key expands to a P-384 scalar, as all but a tiny share of keys do.
    pub fn is_expandable(&self) -> (expandable: bool)
        ensures
            expandable == scheme::is_expandable(self@),
    {
        let expansion: [u8; EXPANSION_SIZE] = hash::shake256_read(&self.sk);
        let (_, _, sk_x) = split_expansion(&expansion);
        curve::checked_scalar(&sk_x).is_ok()
    }

    /// Provide the matching `EncapsulationKey`.
    #[must_use]
    pub fn encapsulation_key(&self) -> (key: EncapsulationKey)
        requires
            scheme::is_expandable(self@),
        ensures
            key@ == scheme::matching_key(self@),
            scheme::is_key(key@),
    {
        let (mut sk_m, mut sk_x, pk_m, pk_x) = self.expand_key();
        erase(&mut sk_m);
        erase(&mut sk_x);
        EncapsulationKey::from_halves(pk_m, pk_x)
    }

    /// Provide the matching `EncapsulationKey`, unless this key expands to no scalar.
    pub fn try_encapsulation_key(&self) -> (key: Result<EncapsulationKey, Rejection>)
        ensures
            match key {
                Ok(key) => scheme::is_expandable(self@) && key@ == scheme::matching_key(self@),
                Err(rejection) => !scheme::is_expandable(self@) && rejection == Rejection::Scalar,
            },
    {
        if self.is_expandable() {
            Ok(self.encapsulation_key())
        } else {
            Err(Rejection::Scalar)
        }
    }

    /// The keys that this key is expanded to: the decapsulation key and the secret scalar, then the
    /// encapsulation key and the public key.
    fn expand_key(&self) -> (keys: (
        [u8; MLKEM_DECAP_KEY_SIZE],
        [u8; P384_SK_KEY_SIZE],
        [u8; MLKEM_ENCAP_KEY_SIZE],
        [u8; P384_PK_KEY_SIZE],
    ))
        requires
            scheme::is_expandable(self@),
        ensures
            scheme::expand(self@) == (ExpandedKey {
                sk_m: keys.0@,
                sk_x: keys.1@,
                pk_m: keys.2@,
                pk_x: keys.3@,
            }),
            curve::is_scalar(keys.1@),
            mlkem::is_reduced(keys.2@),
            curve::is_point(keys.3@),
    {
        let expansion: [u8; EXPANSION_SIZE] = hash::shake256_read(&self.sk);
        let (d, z, sk_x) = split_expansion(&expansion);
        let (sk_m, pk_m) = mlkem::generate_keys(&d, &z);
        let sk_x: [u8; P384_SK_KEY_SIZE] = curve::checked_scalar(&sk_x).unwrap();
        let pk_x: [u8; P384_PK_KEY_SIZE] = curve::public_key_of(&sk_x);
        (sk_m, sk_x, pk_m, pk_x)
    }

    /// Private key as bytes.
    #[must_use]
    pub fn as_bytes(&self) -> (bytes: &[u8; DECAPSULATION_KEY_SIZE])
        ensures
            bytes@ == self@,
    {
        &self.sk
    }

    /// Overwrite the key with zeroes.
    pub fn zeroize(&mut self)
        ensures
            final(self)@ == Seq::new(DECAPSULATION_KEY_SIZE as nat, |i: int| 0u8),
    {
        erase(&mut self.sk);
    }

    /// Two decapsulation keys that consist of the same bytes are the same.
    pub proof fn bytes_determine(a: DecapsulationKey, b: DecapsulationKey)
        requires
            a@ == b@,
        ensures
            a == b,
    {
        bytes::bytes_determine_array(a.sk, b.sk);
    }
}

impl From<[u8; DECAPSULATION_KEY_SIZE]> for DecapsulationKey {
    /// The key that consists of the bytes `sk`.
    fn from(sk: [u8; DECAPSULATION_KEY_SIZE]) -> (key: DecapsulationKey)
        ensures
            key@ == sk@,
    {
        DecapsulationKey { sk }
    }
}

impl vstd::std_specs::convert::FromSpecImpl<[u8; DECAPSULATION_KEY_SIZE]> for DecapsulationKey {
    open spec fn obeys_from_spec() -> bool {
        true
    }

    closed spec fn from_spec(sk: [u8; DECAPSULATION_KEY_SIZE]) -> DecapsulationKey {
        DecapsulationKey { sk }
    }
}

impl Clone for DecapsulationKey {
    fn clone(&self) -> (copy: DecapsulationKey)
        ensures
            copy == *self,
    {
        DecapsulationKey { sk: self.sk }
    }
}

impl PartialEq for DecapsulationKey {
    fn eq(&self, other: &DecapsulationKey) -> (same: bool) {
        same_bytes(&self.sk, &other.sk)
    }
}

impl vstd::std_specs::cmp::PartialEqSpecImpl for DecapsulationKey {
    open spec fn obeys_eq_spec() -> bool {
        true
    }

    open spec fn eq_spec(&self, other: &DecapsulationKey) -> bool {
        self@ == other@
    }
}

impl Eq for DecapsulationKey {

}

} // verus!
