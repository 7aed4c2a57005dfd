//! Lengths, in bytes, of everything the scheme reads or writes.

use vstd::prelude::*;

verus! {

/// Length of an encoded ML-KEM-1024 encapsulation key.
pub const MLKEM_ENCAP_KEY_SIZE: usize = 1568;

/// Length of an encoded ML-KEM-1024 decapsulation key.
pub const MLKEM_DECAP_KEY_SIZE: usize = 3168;

/// Length of an ML-KEM-1024 ciphertext.
pub const MLKEM_CIPHERTEXT_SIZE: usize = MLKEM_ENCAP_KEY_SIZE;

/// Length of an ML-KEM shared key.
pub const MLKEM_SHARED_KEY_SIZE: usize = 32;

/// Length of each of the two seeds of ML-KEM key generation.
pub const MLKEM_SEED_SIZE: usize = 32;

/// Length of an uncompressed P-384 point: a tag byte and two coordinates.
pub const P384_PK_KEY_SIZE: usize = 97;

/// Length of a P-384 scalar.
pub const P384_SK_KEY_SIZE: usize = 48;

/// Size in bytes of the `EncapsulationKey`.
pub const ENCAPSULATION_KEY_SIZE: usize = MLKEM_ENCAP_KEY_SIZE + P384_PK_KEY_SIZE;

/// Size in bytes of the `DecapsulationKey`.
pub const DECAPSULATION_KEY_SIZE: usize = 64;

/// Size in bytes of the `Ciphertext`.
pub const CIPHERTEXT_SIZE: usize = MLKEM_CIPHERTEXT_SIZE + P384_PK_KEY_SIZE;

/// Length of what a `DecapsulationKey` is expanded to: two ML-KEM seeds and a P-384 scalar.
pub const EXPANSION_SIZE: usize = 2 * MLKEM_SEED_SIZE + P384_SK_KEY_SIZE;

/// Random bytes that the ML-KEM half of an encapsulation takes.
pub const MLKEM_ENCAP_RANDOMNESS_SIZE: usize = 32;

/// Random bytes that the P-384 half of an encapsulation takes.
pub const P384_ENCAP_RANDOMNESS_SIZE: usize = 48;

/// Size of the random bytes required for encapsulation.
pub const ENCAP_RANDOMNESS_SIZE: usize = MLKEM_ENCAP_RANDOMNESS_SIZE + P384_ENCAP_RANDOMNESS_SIZE;

/// Shared secret key.
pub type SharedSecret = [u8; 48];

} // verus!
