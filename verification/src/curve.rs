//! The group of P-384: scalars, points and their product, each as the bytes that encode it.

use p384::elliptic_curve::sec1::{FromEncodedPoint, ToEncodedPoint};
use p384::{AffinePoint, EncodedPoint, NonZeroScalar, ProjectivePoint, PublicKey, SecretKey, U384};
use vstd::prelude::*;

use crate::bytes;
use crate::rejection::Rejection;
use crate::sizes::{P384_PK_KEY_SIZE, P384_SK_KEY_SIZE};

verus! {

/// The prime over which the curve is defined.
pub open spec fn field_modulus() -> nat {
    0xfffffffffffffffffffffffffffffffffffffffffffffffffffffffffffffffeffffffff0000000000000000ffffffffnat
}

/// The number of points of the curve, a prime.
pub open spec fn group_order() -> nat {
    0xffffffffffffffffffffffffffffffffffffffffffffffffc7634d81f4372ddf581a0db248b0a77aecec196accc52973nat
}

/// The constant `b` of the curve's equation `y^2 = x^3 - 3x + b`.
pub open spec fn equation_b() -> nat {
    0xb3312fa7e23ee7e4988e056be3f82d19181d9c6efe8141120314088f5013875ac656398d8a2ed19d2a85c8edd3ec2aefnat
}

/// Whether `bytes` are a scalar other than zero: a big-endian number below the group's order.
pub open spec fn is_scalar(bytes: Seq<u8>) -> bool {
    &&& bytes.len() == P384_SK_KEY_SIZE
    &&& 0 < bytes::big_endian(bytes) < group_order()
}

/// Whether `x` and `y` are the coordinates of a point of the curve.
pub open spec fn on_curve(x: nat, y: nat) -> bool {
    &&& x < field_modulus()
    &&& y < field_modulus()
    &&& (y * y) as int % field_modulus() as int == (x * x * x - 3 * x + equation_b())
        % field_modulus() as int
}

/// Whether `bytes` are the uncompressed form of a point: the tag 4, then both coordinates.
pub open spec fn is_point(bytes: Seq<u8>) -> bool {
    &&& bytes.len() == P384_PK_KEY_SIZE
    &&& bytes[0] == 4
    &&& on_curve(
        bytes::big_endian(bytes.subrange(1, 49)),
        bytes::big_endian(bytes.subrange(49, 97)),
    )
}

/// The uncompressed form of the group's generator.
pub open spec fn generator() -> Seq<u8> {
    seq![
        0x04u8,
        0xaa, 0x87, 0xca, 0x22, 0xbe, 0x8b, 0x05, 0x37, 0x8e, 0xb1, 0xc7, 0x1e,
        0xf3, 0x20, 0xad, 0x74, 0x6e, 0x1d, 0x3b, 0x62, 0x8b, 0xa7, 0x9b, 0x98,
        0x59, 0xf7, 0x41, 0xe0, 0x82, 0x54, 0x2a, 0x38, 0x55, 0x02, 0xf2, 0x5d,
        0xbf, 0x55, 0x29, 0x6c, 0x3a, 0x54, 0x5e, 0x38, 0x72, 0x76, 0x0a, 0xb7,
        0x36, 0x17, 0xde, 0x4a, 0x96, 0x26, 0x2c, 0x6f, 0x5d, 0x9e, 0x98, 0xbf,
        0x92, 0x92, 0xdc, 0x29, 0xf8, 0xf4, 0x1d, 0xbd, 0x28, 0x9a, 0x14, 0x7c,
        0xe9, 0xda, 0x31, 0x13, 0xb5, 0xf0, 0xb8, 0xc0, 0x0a, 0x60, 0xb1, 0xce,
        0x1d, 0x7e, 0x81, 0x9d, 0x7a, 0x43, 0x1d, 0x7c, 0x90, 0xea, 0x0e, 0x5f,
    ]
}

/// The point `scalar` times `point`, uncompressed.
pub uninterp spec fn multiply(point: Seq<u8>, scalar: Seq<u8>) -> Seq<u8>;

/// Calls `NonZeroScalar::from_uint` on the number that `U384::from_be_slice` reads from `bytes`,
/// and encodes the scalar again. Trusted to accept a number exactly if it is neither zero nor as
/// large as the group's order, and to keep it.
#[verifier::external_body]
fn scalar_from_bytes(bytes: &[u8; P384_SK_KEY_SIZE]) -> (scalar: Option<
    [u8; P384_SK_KEY_SIZE],
>)
    ensures
        match scalar {
            Some(encoded) => is_scalar(bytes@) && encoded@ == bytes@,
            None => !is_scalar(bytes@),
        },
{
    let scalar: Option<NonZeroScalar> = NonZeroScalar::from_uint(U384::from_be_slice(bytes)).into();
    scalar.map(|scalar| p384::FieldBytes::from(scalar).into())
}

/// The scalar that `bytes` are, unless they are none.
pub fn checked_scalar(bytes: &[u8; P384_SK_KEY_SIZE]) -> (scalar: Result<
    [u8; P384_SK_KEY_SIZE],
    Rejection,
>)
    ensures
        match scalar {
            Ok(encoded) => is_scalar(bytes@) && encoded@ == bytes@,
            Err(rejection) => !is_scalar(bytes@) && rejection == Rejection::Scalar,
        },
{
    match scalar_from_bytes(bytes) {
        Some(encoded) => Ok(encoded),
        None => Err(Rejection::Scalar),
    }
}

/// Calls `PublicKey::from_sec1_bytes` on `bytes` and encodes the key again, uncompressed. Trusted
/// to accept exactly the points of the curve, other than the identity, whose uncompressed form
/// `bytes` is, and to keep them: of the forms that the function reads, no other has this length.
#[verifier::external_body]
pub(crate) fn public_key_from_bytes(bytes: &[u8; P384_PK_KEY_SIZE]) -> (key: Option<
    [u8; P384_PK_KEY_SIZE],
>)
    ensures
        match key {
            Some(encoded) => is_point(bytes@) && encoded@ == bytes@,
            None => !is_point(bytes@),
        },
{
    let key = PublicKey::from_sec1_bytes(bytes).ok()?;
    key.to_encoded_point(false).as_bytes().try_into().ok()
}

/// Calls `EncodedPoint::from_bytes` and, on its result, `AffinePoint::from_encoded_point`. Trusted
/// to succeed exactly where `bytes` are the uncompressed form of a point of the curve.
#[verifier::external_body]
pub(crate) fn decodes_to_point(bytes: &[u8; P384_PK_KEY_SIZE]) -> (decodes: bool)
    ensures
        decodes == is_point(bytes@),
{
    match EncodedPoint::from_bytes(bytes) {
        Ok(encoded) => AffinePoint::from_encoded_point(&encoded).is_some().into(),
        Err(_) => false,
    }
}

/// Multiplies a `p384::AffinePoint` by a `p384::Scalar` and encodes the product, uncompressed.
/// Trusted to be a function of the two, which [`multiply`] names; to be a point other than the
/// identity, since the group's order is prime.
#[verifier::external_body]
pub(crate) fn multiply_point(
    point: &[u8; P384_PK_KEY_SIZE],
    scalar: &[u8; P384_SK_KEY_SIZE],
) -> (product: [u8; P384_PK_KEY_SIZE])
    requires
        is_point(point@),
        is_scalar(scalar@),
    ensures
        product@ == multiply(point@, scalar@),
        is_point(product@),
{
    let encoded = EncodedPoint::from_bytes(point).unwrap();
    let point = AffinePoint::from_encoded_point(&encoded).unwrap();
    let scalar = NonZeroScalar::from_uint(U384::from_be_slice(scalar)).unwrap();
    let product = (point * *scalar).to_affine().to_encoded_point(false);
    product.as_bytes().try_into().unwrap()
}

/// Multiplies `p384::ProjectivePoint::GENERATOR` by a `p384::Scalar` and encodes the product,
/// uncompressed. Trusted to be what [`multiply_point`] gives for the generator; to be a point other
/// than the identity; and to be a half of a Diffie-Hellman exchange: a second scalar applied to
/// this product gives what `scalar` gives when it is applied to the second scalar's own product.
#[verifier::external_body]
pub(crate) fn multiply_generator(scalar: &[u8; P384_SK_KEY_SIZE]) -> (product: [u8;
    P384_PK_KEY_SIZE])
    requires
        is_scalar(scalar@),
    ensures
        product@ == multiply(generator(), scalar@),
        is_point(product@),
        forall|other: Seq<u8>|
            is_scalar(other) ==> #[trigger] multiply(multiply(generator(), other), scalar@)
                == multiply(product@, other),
{
    let scalar = NonZeroScalar::from_uint(U384::from_be_slice(scalar)).unwrap();
    let product = (ProjectivePoint::GENERATOR * *scalar).to_affine().to_encoded_point(false);
    product.as_bytes().try_into().unwrap()
}

/// Calls `SecretKey::public_key` on the secret key that `scalar` is, and encodes the public key,
/// uncompressed. Trusted to be the generator times `scalar`, a point other than the identity.
#[verifier::external_body]
pub(crate) fn public_key_of(scalar: &[u8; P384_SK_KEY_SIZE]) -> (key: [u8; P384_PK_KEY_SIZE])
    requires
        is_scalar(scalar@),
    ensures
        key@ == multiply(generator(), scalar@),
        is_point(key@),
{
    let scalar = NonZeroScalar::from_uint(U384::from_be_slice(scalar)).unwrap();
    let key = SecretKey::from(scalar).public_key();
    key.to_encoded_point(false).as_bytes().try_into().unwrap()
}

} // verus!
