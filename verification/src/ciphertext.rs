//! Ciphertexts.

use vstd::prelude::*;

use crate::bytes;
use crate::bytes::{read_from, same_bytes, write_at};
use crate::erase::erase;
use crate::scheme;
use crate::scheme::CiphertextHalves;
use crate::sizes::{CIPHERTEXT_SIZE, MLKEM_CIPHERTEXT_SIZE, P384_PK_KEY_SIZE};

verus! {

/// A ciphertext: an ML-KEM-1024 ciphertext and an ephemeral P-384 public key.
pub struct Ciphertext {
    ct_m: [u8; MLKEM_CIPHERTEXT_SIZE],
    ct_x: [u8; P384_PK_KEY_SIZE],
}

impl View for Ciphertext {
    type V = CiphertextHalves;

    closed spec fn view(&self) -> CiphertextHalves {
        CiphertextHalves { ct_m: self.ct_m@, ct_x: self.ct_x@ }
    }
}

impl Ciphertext {
    /// The ciphertext with the given halves.
    pub fn from_halves(
        ct_m: [u8; MLKEM_CIPHERTEXT_SIZE],
        ct_x: [u8; P384_PK_KEY_SIZE],
    ) -> (ct: Ciphertext)
        ensures
            ct@ == (CiphertextHalves { ct_m: ct_m@, ct_x: ct_x@ }),
    {
        Ciphertext { ct_m, ct_x }
    }

    /// The ML-KEM-1024 half.
    pub(crate) fn ct_m(&self) -> (ct_m: &[u8; MLKEM_CIPHERTEXT_SIZE])
        ensures
            ct_m@ == self@.ct_m,
    {
        &self.ct_m
    }

    /// The P-384 half.
    pub(crate) fn ct_x(&self) -> (ct_x: &[u8; P384_PK_KEY_SIZE])
        ensures
            ct_x@ == self@.ct_x,
    {
        &self.ct_x
    }

    /// Convert the ciphertext to the following format:
    /// ML-KEM-1024 ciphertext(1568 bytes) | p384 ciphertext(97 bytes).
    #[must_use]
    pub fn as_bytes(&self) -> (bytes: [u8; CIPHERTEXT_SIZE])
        ensures
            bytes@ == scheme::ciphertext_bytes(self@),
            scheme::has_ciphertext_lengths(self@),
            scheme::ciphertext_from_bytes(bytes@) == self@,
    {
        let mut buffer: [u8; CIPHERTEXT_SIZE] = [0u8; CIPHERTEXT_SIZE];
        write_at(&mut buffer, 0, &self.ct_m);
        write_at(&mut buffer, MLKEM_CIPHERTEXT_SIZE, &self.ct_x);
        assert(buffer@ =~= self.ct_m@ + self.ct_x@);
        assert(scheme::ciphertext_from_bytes(buffer@) =~= self@);
        buffer
    }

    /// Overwrite both halves with zeroes.
    pub fn zeroize(&mut self)
        ensures
            final(self)@ == (CiphertextHalves {
                ct_m: Seq::new(MLKEM_CIPHERTEXT_SIZE as nat, |i: int| 0u8),
                ct_x: Seq::new(P384_PK_KEY_SIZE as nat, |i: int| 0u8),
            }),
    {
        erase(&mut self.ct_m);
        erase(&mut self.ct_x);
    }

    /// Two ciphertexts with the same halves are the same.
    pub proof fn halves_determine(a: Ciphertext, b: Ciphertext)
        requires
            a@ == b@,
        ensures
            a == b,
    {
        bytes::bytes_determine_array(a.ct_m, b.ct_m);
        bytes::bytes_determine_array(a.ct_x, b.ct_x);
    }
}

impl From<&[u8; CIPHERTEXT_SIZE]> for Ciphertext {
    /// The ciphertext that `value` spells, in the format that `as_bytes` writes.
    fn from(value: &[u8; CIPHERTEXT_SIZE]) -> (ct: Ciphertext)
        ensures
            ct@ == scheme::ciphertext_from_bytes(value@),
    {
        let ct = Ciphertext {
            ct_m: read_from(value, 0),
            ct_x: read_from(value, MLKEM_CIPHERTEXT_SIZE),
        };
        proof {
            let spelled = choose|spelled: Ciphertext|
                spelled@ == scheme::ciphertext_from_bytes(value@);
            Ciphertext::halves_determine(ct, spelled);
        }
        ct
    }
}

impl vstd::std_specs::convert::FromSpecImpl<&[u8; CIPHERTEXT_SIZE]> for Ciphertext {
    open spec fn obeys_from_spec() -> bool {
        true
    }

    open spec fn from_spec(value: &[u8; CIPHERTEXT_SIZE]) -> Ciphertext {
        choose|spelled: Ciphertext| spelled@ == scheme::ciphertext_from_bytes(value@)
    }
}

impl Clone for Ciphertext {
    fn clone(&self) -> (copy: Ciphertext)
        ensures
            copy == *self,
    {
        Ciphertext { ct_m: self.ct_m, ct_x: self.ct_x }
    }
}

impl PartialEq for Ciphertext {
    fn eq(&self, other: &Ciphertext) -> (same: bool) {
        same_bytes(&self.ct_m, &other.ct_m) && same_bytes(&self.ct_x, &other.ct_x)
    }
}

impl vstd::std_specs::cmp::PartialEqSpecImpl for Ciphertext {
    open spec fn obeys_eq_spec() -> bool {
        true
    }

    open spec fn eq_spec(&self, other: &Ciphertext) -> bool {
        self@ == other@
    }
}

impl Eq for Ciphertext {

}

} // verus!
