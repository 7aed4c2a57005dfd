# x_wing

A hybrid key encapsulation mechanism: ML-KEM-1024 and Diffie-Hellman over P-384, combined by
SHA3-384 into one 48-byte shared secret. Whoever has an `EncapsulationKey` can establish a shared
secret with the holder of the matching `DecapsulationKey`.

- `src/` is the library, verified with Verus. `scheme.rs` says what every operation computes,
  `laws.rs` what holds across them. `hash.rs`, `curve.rs`, `mlkem.rs`, `entropy.rs` and `erase.rs`
  hold the calls into other crates and what is trusted of them.
- `app/` offers the keys through the traits of the `kem` crate and takes any random number
  generator.
- `tests/` runs the library.

A function whose name starts with `try_` reports a `Rejection` where its namesake must not be
called: a hash that is no P-384 scalar, bytes that are no P-384 point.
