use tee_compartment::crypto::{
    cmac, generate_key, hkdf_sha256, random_bytes, sha256, AesGcm, EcdsaKeyPair, Sha256Context,
};
use tee_compartment::types::EnclaveError;

#[test]
fn test_sha256() {
    let data = b"hello world";
    let hash = sha256(data).unwrap();
    assert_eq!(hash.len(), 32);
}

#[test]
fn test_sha256_known_digest() {
    // SHA-256("hello world")
    let expected: [u8; 32] = [
        0xb9, 0x4d, 0x27, 0xb9, 0x93, 0x4d, 0x3e, 0x08, 0xa5, 0x2e, 0x52, 0xd7, 0xda, 0x7d, 0xab,
        0xfa, 0xc4, 0x84, 0xef, 0xe3, 0x7a, 0x53, 0x80, 0xee, 0x90, 0x88, 0xf7, 0xac, 0xe2, 0xef,
        0xcd, 0xe9,
    ];
    let hash = sha256(b"hello world").unwrap();
    assert_eq!(hash.as_slice(), &expected);
}

#[test]
fn test_sha256_streaming_matches_one_shot() {
    let mut ctx = Sha256Context::new().unwrap();
    ctx.update(b"hello ").unwrap();
    ctx.update(b"world").unwrap();
    let streamed = ctx.finalize().unwrap();
    let direct = sha256(b"hello world").unwrap();
    assert_eq!(streamed, direct);
}

#[test]
fn test_ecdsa_sign_verify() {
    let keypair = EcdsaKeyPair::generate().unwrap();
    let data = b"test message";

    let signature = keypair.sign(data).unwrap();
    assert!(keypair.verify(data, &signature).unwrap());
}

#[test]
fn test_ecdsa_sign_deterministic() {
    // Signing uses a deterministic ephemeral scalar, so the same key and
    // message always give the same signature.
    let keypair = EcdsaKeyPair::generate().unwrap();
    let first = keypair.sign(b"same message").unwrap();
    let second = keypair.sign(b"same message").unwrap();
    assert_eq!(first, second);
    let other = keypair.sign(b"other message").unwrap();
    assert_ne!(first, other);
}

#[test]
fn test_ecdsa_bit_flip_fails() {
    let keypair = EcdsaKeyPair::generate().unwrap();
    let data = b"test message";
    let signature = keypair.sign(data).unwrap();
    assert_eq!(signature.len(), 64);

    // Flipping any single bit of the signature must make verification fail.
    for byte in [0usize, 17, 31, 32, 48, 63] {
        for bit in 0..8 {
            let mut bad = signature.clone();
            bad[byte] ^= 1u8 << bit;
            assert!(!keypair.verify(data, &bad).unwrap());
        }
    }
    // Flipping a bit of the message must make verification fail too.
    let mut bad_msg = data.to_vec();
    bad_msg[0] ^= 0x01;
    assert!(!keypair.verify(&bad_msg, &signature).unwrap());
}

#[test]
fn test_ecdsa_from_private_key() {
    let keypair = EcdsaKeyPair::generate().unwrap();
    let restored = EcdsaKeyPair::from_private_key(&keypair.private_key_bytes()).unwrap();
    assert_eq!(restored.public_key_bytes(), keypair.public_key_bytes());

    let signature = restored.sign(b"restored key").unwrap();
    assert!(keypair.verify(b"restored key", &signature).unwrap());

    assert!(matches!(
        EcdsaKeyPair::from_private_key(&[1u8; 31]),
        Err(EnclaveError::InvalidParameter)
    ));
}

#[test]
fn test_aes_gcm_roundtrip() {
    let key = generate_key().unwrap();
    let iv = [0u8; 12];
    let plaintext = b"secret data";
    let aad = b"additional data";

    let (ciphertext, tag) = AesGcm::encrypt(&key, &iv, plaintext, aad).unwrap();
    let decrypted = AesGcm::decrypt(&key, &iv, &ciphertext, aad, &tag).unwrap();

    assert_eq!(plaintext.as_slice(), decrypted.as_slice());
}

#[test]
fn test_aes_gcm_known_tag() {
    // AES-256-GCM with an all-zero key and nonce and empty inputs.
    let key = [0u8; 32];
    let iv = [0u8; 12];
    let expected_tag: [u8; 16] = [
        0x53, 0x0f, 0x8a, 0xfb, 0xc7, 0x45, 0x36, 0xb9, 0xa9, 0x63, 0xb4, 0xf1, 0xc4, 0xcb, 0x73,
        0x8b,
    ];
    let (ciphertext, tag) = AesGcm::encrypt(&key, &iv, b"", b"").unwrap();
    assert!(ciphertext.is_empty());
    assert_eq!(tag.as_slice(), &expected_tag);
}

#[test]
fn test_aes_gcm_tamper_fails() {
    let key = generate_key().unwrap();
    let iv = [7u8; 12];
    let plaintext = b"authenticated payload";
    let aad = b"bound context";
    let (ciphertext, tag) = AesGcm::encrypt(&key, &iv, plaintext, aad).unwrap();

    let mut bad_ct = ciphertext.clone();
    bad_ct[3] ^= 0x01;
    assert!(matches!(
        AesGcm::decrypt(&key, &iv, &bad_ct, aad, &tag),
        Err(EnclaveError::CryptoError(_))
    ));

    let mut bad_tag = tag.clone();
    bad_tag[15] ^= 0x80;
    assert!(matches!(
        AesGcm::decrypt(&key, &iv, &ciphertext, aad, &bad_tag),
        Err(EnclaveError::CryptoError(_))
    ));

    let bad_aad = b"bound contexu";
    assert!(matches!(
        AesGcm::decrypt(&key, &iv, &ciphertext, bad_aad, &tag),
        Err(EnclaveError::CryptoError(_))
    ));
}

#[test]
fn test_cmac_rfc_vector() {
    // AES-128 CMAC test vector: the MAC of the empty message.
    let key: [u8; 16] = [
        0x2b, 0x7e, 0x15, 0x16, 0x28, 0xae, 0xd2, 0xa6, 0xab, 0xf7, 0x15, 0x88, 0x09, 0xcf, 0x4f,
        0x3c,
    ];
    let expected: [u8; 16] = [
        0xbb, 0x1d, 0x69, 0x29, 0xe9, 0x59, 0x37, 0x28, 0x7f, 0xa3, 0x7d, 0x12, 0x9b, 0x75, 0x67,
        0x46,
    ];
    let mac = cmac(&key, b"").unwrap();
    assert_eq!(mac.as_slice(), &expected);
}

#[test]
fn test_random_bytes() {
    let a = random_bytes(32).unwrap();
    let b = random_bytes(32).unwrap();
    assert_eq!(a.len(), 32);
    assert_eq!(b.len(), 32);
    assert_ne!(a, b);
    assert!(random_bytes(0).unwrap().is_empty());
}

#[test]
fn test_hkdf_chaining() {
    let ikm = b"input keying material";
    let info = b"context";

    // An empty salt hashes as 32 zero bytes.
    let mut seed = vec![0u8; 32];
    seed.extend_from_slice(ikm);
    seed.extend_from_slice(info);
    let block0 = sha256(&seed).unwrap();

    let mut msg1 = block0.clone();
    msg1.extend_from_slice(info);
    msg1.push(1);
    let block1 = sha256(&msg1).unwrap();

    let mut msg2 = block1.clone();
    msg2.extend_from_slice(info);
    msg2.push(2);
    let block2 = sha256(&msg2).unwrap();

    let mut expected = block1.clone();
    expected.extend_from_slice(&block2);
    expected.truncate(48);

    let derived = hkdf_sha256(ikm, b"", info, 48).unwrap();
    assert_eq!(derived, expected);

    // A single full block stops after block 1.
    let derived32 = hkdf_sha256(ikm, b"", info, 32).unwrap();
    assert_eq!(derived32, block1);
}

#[test]
fn test_hkdf_salt_and_lengths() {
    let with_salt = hkdf_sha256(b"ikm", b"salt", b"info", 16).unwrap();
    let without_salt = hkdf_sha256(b"ikm", b"", b"info", 16).unwrap();
    assert_eq!(with_salt.len(), 16);
    assert_ne!(with_salt, without_salt);
    assert!(hkdf_sha256(b"ikm", b"", b"info", 0).unwrap().is_empty());
    assert!(hkdf_sha256(b"ikm", b"", b"info", 8161).is_err());
}
