use rand::rngs::OsRng;
use rsa::{BigUint, PublicKeyParts, RsaPrivateKey, RsaPublicKey};
use serial_key_manager::codec::{decode, encode};
use serial_key_manager::digest::digest;
use serial_key_manager::engine::{sign_digest, verify_digest};
use serial_key_manager::{generate_key, sign_key, verify_key, SigningFailure};

fn hex(bytes: &[u8]) -> String {
    bytes.iter().map(|b| format!("{:02x}", b)).collect()
}

fn key_pair(bits: usize) -> (RsaPrivateKey, RsaPublicKey) {
    let mut rng = OsRng;
    let private_key = RsaPrivateKey::new(&mut rng, bits).expect("failed to generate private key");
    let public_key = RsaPublicKey::from(&private_key);
    (private_key, public_key)
}

#[test]
fn test_sign_and_verify_key() {
    let mut rng = OsRng;
    let bits = 2048;
    let private_key = RsaPrivateKey::new(&mut rng, bits).expect("failed to generate private key");
    let public_key = RsaPublicKey::from(&private_key);

    let product_key = generate_key();
    let signature = sign_key(&private_key, &product_key).expect("failed to sign");

    assert!(verify_key(&public_key, &product_key, &signature));

    // Test with an incorrect product key
    let wrong_product_key = generate_key();
    assert!(!verify_key(&public_key, &wrong_product_key, &signature));

    // Test with an incorrect signature
    let wrong_signature = sign_key(&private_key, &wrong_product_key).expect("failed to sign");
    assert!(!verify_key(&public_key, &product_key, &wrong_signature));
}

#[test]
fn signature_of_one_key_pair_fails_under_another() {
    let (private_a, public_a) = key_pair(2048);
    let k = "ABCDE-FGHIJ-KLMNO-PQRST";
    let s = sign_key(&private_a, k).expect("failed to sign");
    assert!(verify_key(&public_a, k, &s));

    let (_private_b, public_b) = key_pair(2048);
    assert!(!verify_key(&public_b, k, &s));
}

#[test]
fn own_signature_is_accepted() {
    let (private_key, public_key) = key_pair(1024);
    for k in ["ABCDE-FGHIJ-KLMNO-PQRST", "00000-00000-00000-00000", "Z9Z9Z-A1B2C-3D4E5-QQQQQ"] {
        let s = sign_key(&private_key, k).expect("failed to sign");
        assert!(verify_key(&public_key, k, &s));
    }
}

#[test]
fn signature_of_another_product_key_is_rejected() {
    let (private_key, public_key) = key_pair(1024);
    let k1 = "ABCDE-FGHIJ-KLMNO-PQRST";
    let k2 = "ABCDE-FGHIJ-KLMNO-PQRSU";
    let s1 = sign_key(&private_key, k1).expect("failed to sign");
    let s2 = sign_key(&private_key, k2).expect("failed to sign");
    assert_ne!(s1, s2);
    assert!(!verify_key(&public_key, k2, &s1));
    assert!(!verify_key(&public_key, k1, &s2));
    assert!(verify_key(&public_key, k1, &s1));
    assert!(verify_key(&public_key, k2, &s2));
}

#[test]
fn product_key_is_signed_byte_for_byte() {
    let (private_key, public_key) = key_pair(1024);
    let k = "ABCDE-FGHIJ-KLMNO-PQRST";
    let s = sign_key(&private_key, k).expect("failed to sign");
    assert!(!verify_key(&public_key, "abcde-fghij-klmno-pqrst", &s));
    assert!(!verify_key(&public_key, " ABCDE-FGHIJ-KLMNO-PQRST", &s));
    assert!(!verify_key(&public_key, "ABCDE-FGHIJ-KLMNO-PQRST\n", &s));
    assert!(!verify_key(&public_key, "", &s));
}

#[test]
fn signature_text_that_is_not_base64_is_rejected() {
    let (private_key, public_key) = key_pair(1024);
    let k = "ABCDE-FGHIJ-KLMNO-PQRST";
    let s = sign_key(&private_key, k).expect("failed to sign");
    assert!(!verify_key(&public_key, k, "!"));
    assert!(!verify_key(&public_key, k, "not base64!"));
    let mut broken = s.clone();
    broken.replace_range(10..11, "!");
    assert!(!verify_key(&public_key, k, &broken));
    assert!(!verify_key(&public_key, k, ""));
    assert!(!verify_key(&public_key, k, "Zm9v"));
}

#[test]
fn signature_text_is_base64_of_the_signature_over_the_digest() {
    let (private_key, _public_key) = key_pair(1024);
    let k = "ABCDE-FGHIJ-KLMNO-PQRST";
    let s = sign_key(&private_key, k).expect("failed to sign");
    let raw = sign_digest(&private_key, &digest(k)).expect("failed to sign");
    assert_eq!(raw.len(), 128);
    assert_eq!(s, encode(&raw));
    assert_eq!(decode(&s), Ok(raw));
    assert_eq!(s.len(), 172);
    // signing draws no random number: the same text comes again
    assert_eq!(sign_key(&private_key, k), Ok(s));
}

#[test]
fn digest_is_sha256_of_the_key_text() {
    assert_eq!(
        hex(&digest("")),
        "e3b0c44298fc1c149afbf4c8996fb92427ae41e4649b934ca495991b7852b855"
    );
    assert_eq!(
        hex(&digest("abc")),
        "ba7816bf8f01cfea414140de5dae2223b00361a396177a9cb410ff61f20015ad"
    );
    assert_eq!(
        hex(&digest("ABCDE-FGHIJ-KLMNO-PQRST")),
        "69cd026bf64573e968d2acedf5da7d25112dc6cef604725f406dc1a2a2d9c0cc"
    );
    assert_eq!(digest("ABCDE-FGHIJ-KLMNO-PQRST").len(), 32);
}

#[test]
fn verify_digest_tells_good_from_bad() {
    let (private_key, public_key) = key_pair(1024);
    let d = digest("ABCDE-FGHIJ-KLMNO-PQRST");
    let signature = sign_digest(&private_key, &d).expect("failed to sign");
    assert!(verify_digest(&public_key, &d, &signature));

    let mut changed = signature.clone();
    changed[40] ^= 1;
    assert!(!verify_digest(&public_key, &d, &changed));

    let mut other = d.clone();
    other[0] ^= 0x80;
    assert!(!verify_digest(&public_key, &other, &signature));

    assert!(!verify_digest(&public_key, &d, &[]));
    assert!(!verify_digest(&public_key, &d, &d));
    assert!(!verify_digest(&public_key, &d[..31], &signature));
}

#[test]
fn signing_fails_with_a_modulus_too_short() {
    let (private_key, _public_key) = key_pair(256);
    assert_eq!(sign_key(&private_key, "ABCDE-FGHIJ-KLMNO-PQRST"), Err(SigningFailure));
    let d = digest("ABCDE-FGHIJ-KLMNO-PQRST");
    assert_eq!(sign_digest(&private_key, &d), Err(SigningFailure));
}

#[test]
fn signing_fails_with_a_digest_of_the_wrong_length() {
    let (private_key, _public_key) = key_pair(1024);
    assert_eq!(sign_digest(&private_key, &[0_u8; 20]), Err(SigningFailure));
    assert_eq!(sign_digest(&private_key, &[]), Err(SigningFailure));
}

#[test]
fn signing_fails_with_key_parts_that_do_not_fit() {
    let (private_key, _public_key) = key_pair(1024);
    let wrong_exponent = private_key.d() + BigUint::from(2_u32);
    let broken = RsaPrivateKey::from_components(
        private_key.n().clone(),
        private_key.e().clone(),
        wrong_exponent,
        private_key.primes().to_vec(),
    );
    assert_eq!(sign_key(&broken, "ABCDE-FGHIJ-KLMNO-PQRST"), Err(SigningFailure));
}

#[test]
fn signing_with_prime_factors_that_do_not_multiply_to_the_modulus() {
    let (private_key, public_key) = key_pair(2048);
    let k = "ABCDE-FGHIJ-KLMNO-PQRST";
    let good = sign_key(&private_key, k).expect("failed to sign");
    assert_eq!(good.len(), 344);

    // a first factor 1100 bits too long
    let stretched = RsaPrivateKey::from_components(
        private_key.n().clone(),
        private_key.e().clone(),
        private_key.d().clone(),
        vec![private_key.primes()[0].clone() << 1100_usize, private_key.primes()[1].clone()],
    );
    let s = sign_key(&stretched, k).expect("failed to sign");
    assert_eq!(s, good);
    assert_eq!(decode(&s).map(|bytes| bytes.len()), Ok(256));
    assert!(verify_key(&public_key, k, &s));

    // a first factor far smaller than the second
    let lopsided = RsaPrivateKey::from_components(
        private_key.n().clone(),
        private_key.e().clone(),
        private_key.d().clone(),
        vec![BigUint::from(3_u32), private_key.primes()[1].clone()],
    );
    let s = sign_key(&lopsided, k).expect("failed to sign");
    assert_eq!(s, good);
    assert!(verify_key(&public_key, k, &s));
}

#[test]
fn verifying_fails_with_a_digest_of_the_wrong_length() {
    let (private_key, public_key) = key_pair(1024);
    let d = digest("ABCDE-FGHIJ-KLMNO-PQRST");
    let signature = sign_digest(&private_key, &d).expect("failed to sign");
    assert!(verify_digest(&public_key, &d, &signature));
    assert!(!verify_digest(&public_key, &[], &signature));
    assert!(!verify_digest(&public_key, &d[..20], &signature));
    let mut longer = d.clone();
    longer.push(0);
    assert!(!verify_digest(&public_key, &longer, &signature));
}
