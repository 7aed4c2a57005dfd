use kem::Decapsulate;
use ml_kem::{EncapsulateDeterministic, EncodedSizeUser, KemCore, MlKem1024, B32};
use sha3::digest::{ExtendableOutput, Update, XofReader};
use x_wing::bytes::{read_from, same_bytes, write_at};
use x_wing::combiner::{combiner, combiner_input};
use x_wing::curve::checked_scalar;
use x_wing::decapsulation::{decapsulate_internal, split_expansion};
use x_wing::encapsulation::{derive_p384_scalar, split_randomness};
use x_wing::{
    generate_key_pair_derand, DecapsulationKey, EncapsulationKey, Rejection, CIPHERTEXT_SIZE,
    DECAPSULATION_KEY_SIZE, ENCAPSULATION_KEY_SIZE, ENCAP_RANDOMNESS_SIZE,
};

const PK_X: &str = "04\
    ab3d5c15901ef11f165d6cd81b8fa13a4bf65dd3dfda37467ea427f3073a0d392b5d04ee02a81c0571aeec41cc1addc2\
    25d399ff626bf74232afcb445ee8cf7aba4f552c92760f4fcdcbf241833e851500e1710d64998889db9d9390a76324fb";

const CT_X: &str = "04\
    e5568b07ec7946bd6366bf30e70e78e493197c0688612be8780af993841c5aa3f78436e0576254e6beb39de2c5f5253f\
    e7336025d619a5c1d23650919f60287bf8abe3027e11f151ec123a6bacfc16a4d453fc79ddab8ecc0d444ce582fc7179";

const SS_X: &str = "04\
    e5fb66a115bf7329c9139fc7f3589123bfaf7c1991c85164e4277413d04f86bc878fc4f4ae4f430ba1c4aff0b5307dda\
    0dd185dcb550dae57aacc7a904078edecbee4da17f18c9e3b693a2e8beac0f38b668f4a4ea3ef998e46f5149c846c5e7";

/// The combiner's digest of 32 bytes of 7 with `SS_X`, `CT_X` and `PK_X`.
const SS: &str = "d6bbe3d94e98dcc0621a1b30e994665277996e26c226506040ec08901479d2b6\
    9c8a8f04dd5e523a59cf2f3b00c32a2b";

const ORDER: &str = "ffffffffffffffffffffffffffffffffffffffffffffffffc7634d81f4372ddf\
    581a0db248b0a77aecec196accc52973";

const PRIME: &str = "fffffffffffffffffffffffffffffffffffffffffffffffffffffffffffffffe\
    ffffffff0000000000000000ffffffff";

fn hex<const N: usize>(digits: &str) -> [u8; N] {
    assert_eq!(digits.len(), 2 * N);
    let mut bytes = [0u8; N];
    for (i, byte) in bytes.iter_mut().enumerate() {
        *byte = u8::from_str_radix(&digits[2 * i..2 * i + 2], 16).unwrap();
    }
    bytes
}

fn counting<const N: usize>(start: usize) -> [u8; N] {
    let mut bytes = [0u8; N];
    for (i, byte) in bytes.iter_mut().enumerate() {
        *byte = ((start + i) % 256) as u8;
    }
    bytes
}

#[test]
fn sizes() {
    assert_eq!(ENCAPSULATION_KEY_SIZE, 1665);
    assert_eq!(DECAPSULATION_KEY_SIZE, 64);
    assert_eq!(CIPHERTEXT_SIZE, 1665);
    assert_eq!(ENCAP_RANDOMNESS_SIZE, 80);
}

#[test]
fn parts_of_byte_arrays() {
    assert_eq!(read_from::<2>(&[1, 2, 3, 4], 1), [2, 3]);
    assert_eq!(read_from::<0>(&[1], 1), [0u8; 0]);
    let mut buffer = [1, 2, 3, 4];
    write_at(&mut buffer, 1, &[8, 9]);
    assert_eq!(buffer, [1, 8, 9, 4]);
    assert!(same_bytes(&[1, 2], &[1, 2]));
    assert!(!same_bytes(&[1, 2], &[1, 3]));
}

#[test]
fn randomness_is_split_after_the_mlkem_part() {
    let (m, ek_x) = split_randomness(&counting(0));
    assert_eq!(m, counting::<32>(0));
    assert_eq!(ek_x, counting::<48>(32));
}

#[test]
fn expansion_is_split_into_seeds_and_scalar() {
    let (d, z, sk_x) = split_expansion(&counting(0));
    assert_eq!(d, counting::<32>(0));
    assert_eq!(z, counting::<32>(32));
    assert_eq!(sk_x, counting::<48>(64));
}

#[test]
fn combiner_input_ends_in_the_label() {
    let input = combiner_input(&[1], &[2], &[3], &[4]);
    assert_eq!(input, b"\x01\x02\x03\x04\\.//^\\");
    assert_ne!(input, combiner_input(&[1], &[2], &[4], &[3]));
}

#[test]
fn combiner_is_the_sha3_digest_of_its_input() {
    assert_eq!(
        combiner(&[1], &[2], &[3], &[4]),
        hex(
            "7afcd2cf7d254eb4cea8df3f9adf1c8bee69dfbf3387605a0b304c7fc01a00ae\
            481d51cbae5accaab3935298df1e2a91"
        )
    );
    let (ss_x, ct_x, pk_x) = (hex::<97>(SS_X), hex::<97>(CT_X), hex::<97>(PK_X));
    assert_eq!(combiner(&[7; 32], &ss_x, &ct_x, &pk_x), hex(SS));
}

#[test]
fn scalars_lie_between_zero_and_the_order() {
    let mut bytes: [u8; 48] = hex(ORDER);
    assert_eq!(checked_scalar(&bytes), Err(Rejection::Scalar));
    bytes[47] += 1;
    assert_eq!(checked_scalar(&bytes), Err(Rejection::Scalar));
    bytes[47] -= 2;
    assert_eq!(checked_scalar(&bytes), Ok(bytes));
    assert_eq!(checked_scalar(&[0xff; 48]), Err(Rejection::Scalar));
    assert_eq!(checked_scalar(&[0; 48]), Err(Rejection::Scalar));
    bytes = [0; 48];
    bytes[47] = 1;
    assert_eq!(checked_scalar(&bytes), Ok(bytes));
}

#[test]
fn ephemeral_scalar_is_hashed() {
    let scalar = derive_p384_scalar(&counting(132)).unwrap();
    assert_eq!(
        scalar,
        hex(
            "891a5586de64e98637725e4773c73f0d749045ee65a4c10176916a10eb836c45\
            22f4497d2c136e4aa52b29560287b0ca"
        )
    );
}

#[test]
fn p384_halves_of_key_and_ciphertext() {
    let (sk, pk) = generate_key_pair_derand(counting(0));
    assert!(sk.is_expandable());
    assert_eq!(pk.as_bytes()[1568..], hex::<97>(PK_X)[..]);
    let (ct, _) = pk.encapsulate_derand(counting(100)).unwrap();
    assert_eq!(ct.as_bytes()[1568..], hex::<97>(CT_X)[..]);
}

#[test]
fn both_sides_combine_the_same_values() {
    let (_, pk) = generate_key_pair_derand(counting(0));
    let (ct, ss) = pk.encapsulate_internal([1; 1568], [7; 32], counting(132)).unwrap();
    assert_eq!(ct.as_bytes()[..1568], [1; 1568]);
    assert_eq!(ct.as_bytes()[1568..], hex::<97>(CT_X)[..]);
    assert_eq!(ss, hex(SS));
    let (other_ct, other_ss) =
        pk.try_encapsulate_internal([1; 1568], [7; 32], counting(132)).unwrap();
    assert!(ct == other_ct);
    assert_eq!(ss, other_ss);

    let mut expansion = [0u8; 112];
    let mut hasher = sha3::Shake256::default();
    hasher.update(&counting::<64>(0));
    hasher.finalize_xof().read(&mut expansion);
    let (_, _, sk_x) = split_expansion(&expansion);
    assert_eq!(decapsulate_internal(&[7; 32], &sk_x, &hex(PK_X), &hex(CT_X)), hex(SS));
}

#[test]
fn mlkem_halves_are_those_of_the_mlkem_crate() {
    let mut hasher = sha3::Shake256::default();
    hasher.update(&counting::<64>(0));
    let mut reader = hasher.finalize_xof();
    let mut d = B32::default();
    let mut z = B32::default();
    let mut sk_x = [0u8; 48];
    reader.read(&mut d);
    reader.read(&mut z);
    reader.read(&mut sk_x);
    let (sk_m, pk_m) = MlKem1024::generate_deterministic(&d, &z);

    let (sk, pk) = generate_key_pair_derand(counting(0));
    assert_eq!(pk.as_bytes()[..1568], pk_m.as_bytes()[..]);

    let m = B32::from(counting::<32>(100));
    let (ct_m, ss_m) = pk_m.encapsulate_deterministic(&m).unwrap();
    assert_eq!(sk_m.decapsulate(&ct_m).unwrap(), ss_m);
    let (ct, ss) = pk.encapsulate_derand(counting(100)).unwrap();
    assert_eq!(ct.as_bytes()[..1568], ct_m[..]);
    assert_eq!(ss, combiner(&ss_m, &hex::<97>(SS_X), &hex::<97>(CT_X), &hex::<97>(PK_X)));
    assert_eq!(
        ss,
        decapsulate_internal(&ss_m.into(), &sk_x, &hex(PK_X), &hex(CT_X))
    );
    assert_eq!(sk.decapsulate(&ct).unwrap(), ss);
}

#[test]
fn a_foreign_ciphertext_is_decapsulated_too() {
    let (sk, _) = generate_key_pair_derand(counting(0));
    let ct = x_wing::Ciphertext::from_halves([0; 1568], hex(CT_X));
    let ss = sk.try_decapsulate(&ct).unwrap();
    assert_eq!(sk.decapsulate(&ct).unwrap(), ss);
    assert_ne!(ss, hex(SS));
}

#[test]
fn reading_a_key_reduces_its_coefficients() {
    let mut bytes = [0xff; 1665];
    bytes[1568..].copy_from_slice(&hex::<97>(PK_X));
    let key = EncapsulationKey::try_from_bytes(&bytes).unwrap();
    let written = key.as_bytes();
    for group in written[..1536].chunks(3) {
        assert_eq!(group, [0xfe, 0xe2, 0x2f]);
    }
    assert_eq!(written[1536..], bytes[1536..]);
    assert!(EncapsulationKey::from(&written) == key);
    assert!(EncapsulationKey::from(&bytes) == key);
    assert_eq!(EncapsulationKey::from(&written).as_bytes(), written);
}

#[test]
fn coefficients_below_the_modulus_are_kept() {
    // The largest coefficient that is kept, then the smallest that is not.
    let mut bytes = [0u8; 1665];
    bytes[1568..].copy_from_slice(&hex::<97>(PK_X));
    bytes[0] = 0x00;
    bytes[1] = 0x0d;
    assert_eq!(EncapsulationKey::from(&bytes).as_bytes(), bytes);
    bytes[0] = 0x01;
    let written = EncapsulationKey::from(&bytes).as_bytes();
    assert_eq!(written[..3], [0, 0, 0]);
    assert_eq!(written[3..], bytes[3..]);
}

#[test]
fn a_key_without_a_point_is_rejected() {
    let mut bytes = [0u8; 1665];
    bytes[1568..].copy_from_slice(&hex::<97>(PK_X));
    assert!(EncapsulationKey::try_from_bytes(&bytes).is_ok());
    for (at, value) in [(1568, 0), (1568, 2), (1568, 5), (1568, 6), (1569, 0), (1664, 0)] {
        let mut tampered = bytes;
        tampered[at] = value;
        assert!(EncapsulationKey::try_from_bytes(&tampered) == Err(Rejection::Point));
    }
    let mut tampered = bytes;
    tampered[1569..1617].copy_from_slice(&hex::<48>(PRIME));
    assert!(EncapsulationKey::try_from_bytes(&tampered) == Err(Rejection::Point));
}

#[test]
fn decapsulation_key_is_its_bytes() {
    let bytes: [u8; 64] = counting(17);
    assert_eq!(DecapsulationKey::from(bytes).as_bytes(), &bytes);
}
