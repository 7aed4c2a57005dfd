use rand_core::{OsRng, RngCore};
use x_wing::{
    generate_key_pair, generate_key_pair_derand, generate_key_pair_from_os_rng,
    try_generate_key_pair_derand, Ciphertext, DecapsulationKey, EncapsulationKey, Rejection,
};

fn generate<const N: usize>(rng: &mut OsRng) -> [u8; N] {
    let mut random = [0; N];
    rng.fill_bytes(&mut random);
    random
}

fn counting<const N: usize>(start: usize) -> [u8; N] {
    let mut bytes = [0u8; N];
    for (i, byte) in bytes.iter_mut().enumerate() {
        *byte = ((start + i) % 256) as u8;
    }
    bytes
}

#[test]
fn ciphertext_serialize() {
    let mut rng = OsRng;

    let ct_a = Ciphertext::from_halves(generate(&mut rng), generate(&mut rng));

    let bytes = ct_a.as_bytes();

    let ct_b = Ciphertext::from(&bytes);

    assert!(ct_a == ct_b);
}

#[test]
fn key_serialize() {
    let sk = DecapsulationKey::generate(&mut OsRng);
    let pk = sk.encapsulation_key();

    let sk_bytes = sk.as_bytes();
    let pk_bytes = pk.as_bytes();

    let sk_b = DecapsulationKey::from(*sk_bytes);
    let pk_b = EncapsulationKey::from(&pk_bytes.clone());

    assert!(sk == sk_b);
    assert!(pk == pk_b);
}

#[test]
fn encap_decap() {
    let mut rng = OsRng;

    let (sk, pk) = generate_key_pair(&mut rng).unwrap();
    let (ct, ss_sender) = pk.encapsulate(&mut rng).unwrap();
    let ss_receiver = sk.decapsulate(&ct).unwrap();
    assert_eq!(ss_sender, ss_receiver);
}

#[test]
fn encap_decap_over_the_wire() {
    let (sk, pk) = generate_key_pair_from_os_rng().unwrap();
    let sk = DecapsulationKey::from(*sk.as_bytes());
    let pk = EncapsulationKey::try_from_bytes(&pk.as_bytes()).unwrap();
    let (ct, ss_sender) = pk.encapsulate(&mut OsRng).unwrap();
    let ct = Ciphertext::from(&ct.as_bytes());
    assert_eq!(sk.try_decapsulate(&ct), Ok(ss_sender));
}

#[test]
fn keys_and_secrets_differ_from_draw_to_draw() {
    let (sk_a, pk_a) = generate_key_pair_from_os_rng().unwrap();
    let (sk_b, pk_b) = generate_key_pair_from_os_rng().unwrap();
    assert!(sk_a != sk_b);
    assert!(pk_a != pk_b);
    assert!(DecapsulationKey::generate_from_os_rng() != sk_a);
    let (ct_a, ss_a) = pk_a.encapsulate(&mut OsRng).unwrap();
    let (ct_b, ss_b) = pk_a.encapsulate(&mut OsRng).unwrap();
    assert!(ct_a != ct_b);
    assert_ne!(ss_a, ss_b);
    assert_ne!(sk_b.decapsulate(&ct_a).unwrap(), ss_a);
}

#[test]
fn derand_functions_are_deterministic() {
    let (sk_a, pk_a) = generate_key_pair_derand(counting(0));
    let (sk_b, pk_b) = try_generate_key_pair_derand(counting(0)).unwrap();
    assert!(sk_a == sk_b);
    assert!(pk_a == pk_b);
    assert!(sk_a.encapsulation_key() == pk_a);
    assert!(sk_a.try_encapsulation_key() == Ok(pk_a.clone()));
    let (ct_a, ss_a) = pk_a.encapsulate_derand(counting(100)).unwrap();
    let (ct_b, ss_b) = pk_b.try_encapsulate_derand(counting(100)).unwrap();
    assert!(ct_a == ct_b);
    assert_eq!(ss_a, ss_b);
    assert_eq!(sk_b.decapsulate(&ct_a).unwrap(), ss_a);
}

#[test]
fn every_byte_of_the_randomness_counts() {
    let (_, pk) = generate_key_pair_derand(counting(0));
    let (ct, ss) = pk.encapsulate_derand([0; 80]).unwrap();
    for i in [0, 31, 32, 79] {
        let mut randomness = [0u8; 80];
        randomness[i] = 1;
        let (other_ct, other_ss) = pk.encapsulate_derand(randomness).unwrap();
        assert_ne!(ss, other_ss);
        let (bytes, other) = (ct.as_bytes(), other_ct.as_bytes());
        assert_eq!(bytes[..1568] == other[..1568], i >= 32);
        assert_eq!(bytes[1568..] == other[1568..], i < 32);
    }
}

#[test]
fn every_byte_of_the_decapsulation_key_counts() {
    let (_, pk) = generate_key_pair_derand([0; 64]);
    for i in [0, 63] {
        let mut randomness = [0u8; 64];
        randomness[i] = 1;
        let (_, other) = generate_key_pair_derand(randomness);
        assert!(pk.as_bytes()[..1568] != other.as_bytes()[..1568]);
        assert!(pk.as_bytes()[1568..] != other.as_bytes()[1568..]);
    }
}

#[test]
fn a_tampered_ciphertext_gives_another_secret() {
    let (sk, pk) = generate_key_pair_derand(counting(0));
    let (ct, ss) = pk.encapsulate_derand(counting(100)).unwrap();
    let mut bytes = ct.as_bytes();
    bytes[0] ^= 1;
    assert_ne!(sk.try_decapsulate(&Ciphertext::from(&bytes)).unwrap(), ss);
}

#[test]
fn a_ciphertext_without_a_point_is_rejected() {
    let (sk, pk) = generate_key_pair_derand(counting(0));
    let (ct, _) = pk.encapsulate_derand(counting(100)).unwrap();
    for i in [1568, 1569, 1664] {
        let mut bytes = ct.as_bytes();
        bytes[i] ^= 1;
        let tampered = Ciphertext::from(&bytes);
        assert_eq!(sk.try_decapsulate(&tampered), Err(Rejection::Point));
    }
}

#[test]
fn ciphertext_bytes_are_the_halves_in_order() {
    let ct = Ciphertext::from_halves(counting(3), counting(200));
    let bytes = ct.as_bytes();
    assert_eq!(bytes[..1568], counting::<1568>(3)[..]);
    assert_eq!(bytes[1568..], counting::<97>(200)[..]);
    let bytes: [u8; 1665] = counting(11);
    assert_eq!(Ciphertext::from(&bytes).as_bytes(), bytes);
}

#[test]
fn equality_looks_at_both_halves() {
    let ct = Ciphertext::from_halves([1; 1568], [2; 97]);
    assert!(ct == ct.clone());
    let mut ct_m = [1; 1568];
    ct_m[1567] = 0;
    assert!(ct != Ciphertext::from_halves(ct_m, [2; 97]));
    let mut ct_x = [2; 97];
    ct_x[96] = 0;
    assert!(ct != Ciphertext::from_halves([1; 1568], ct_x));
    let mut sk = [5; 64];
    let key = DecapsulationKey::from(sk);
    assert!(key == key.clone());
    sk[63] = 0;
    assert!(key != DecapsulationKey::from(sk));
}

#[test]
fn secrets_are_overwritten() {
    let mut sk = DecapsulationKey::from([9; 64]);
    sk.zeroize();
    assert_eq!(sk.as_bytes(), &[0; 64]);
    let mut ct = Ciphertext::from_halves([1; 1568], [2; 97]);
    ct.zeroize();
    assert_eq!(ct.as_bytes(), [0; 1665]);
}
