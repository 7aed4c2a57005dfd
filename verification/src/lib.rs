//! A hybrid key encapsulation mechanism that pairs ML-KEM-1024 with Diffie-Hellman over P-384.
//!
//! It makes pairs of a decapsulation key and an encapsulation key, such that anyone can use the
//! encapsulation key to establish a shared secret with the holder of the decapsulation key.
//!
//! ```
//! let rng = &mut rand_core::OsRng;
//! let (sk, pk) = x_wing::generate_key_pair(rng).unwrap();
//! let (ct, ss_sender) = pk.encapsulate(rng).unwrap();
//! let ss_receiver = sk.try_decapsulate(&ct).unwrap();
//! assert_eq!(ss_sender, ss_receiver);
//! ```
//!
//! Names follow one pattern: `ss` is a shared secret, `ct` a ciphertext, `ek` an ephemeral key,
//! `pk` a public key and `sk` a secret key; `_m` marks the ML-KEM half and `_x` the P-384 half.

pub mod bytes;
mod ciphertext;
pub mod combiner;
pub mod curve;
pub mod decapsulation;
pub mod encapsulation;
pub mod entropy;
mod erase;
pub mod formulas;
pub mod hash;
pub mod key_pair;
pub mod laws;
pub mod mlkem;
mod rejection;
pub mod scheme;
mod sizes;

pub use ciphertext::Ciphertext;
pub use decapsulation::DecapsulationKey;
pub use encapsulation::EncapsulationKey;
pub use key_pair::{
    generate_key_pair, generate_key_pair_derand, generate_key_pair_from_os_rng,
    try_generate_key_pair_derand,
};
pub use rejection::Rejection;
pub use sizes::{
    SharedSecret, CIPHERTEXT_SIZE, DECAPSULATION_KEY_SIZE, ENCAPSULATION_KEY_SIZE,
    ENCAP_RANDOMNESS_SIZE,
};
