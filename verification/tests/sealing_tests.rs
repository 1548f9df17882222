use tee_compartment::sealing::{
    calc_sealed_size, derive_key, seal_data, seal_data_with_header, unseal_data,
    unseal_data_with_header, SealingPolicy, SEALED_OVERHEAD,
};
use tee_compartment::types::{CompartmentIdentity, EnclaveError};

fn identity_a() -> CompartmentIdentity {
    CompartmentIdentity::new(vec![0x11u8; 32], vec![0x22u8; 32], 1, 1, false).unwrap()
}

fn identity_same_signer() -> CompartmentIdentity {
    // A different build (content measurement) signed by the same key.
    CompartmentIdentity::new(vec![0x33u8; 32], vec![0x22u8; 32], 1, 2, false).unwrap()
}

fn identity_other_signer() -> CompartmentIdentity {
    CompartmentIdentity::new(vec![0x11u8; 32], vec![0x44u8; 32], 1, 1, false).unwrap()
}

#[test]
fn test_seal_unseal_roundtrip() {
    let plaintext = b"secret data to seal";
    let aad = b"additional authenticated data";

    let identity = identity_a();
    let sealed = seal_data(&identity, plaintext, aad, SealingPolicy::MrSigner).unwrap();
    let (unsealed_plaintext, unsealed_aad) = unseal_data(&identity, &sealed).unwrap();

    assert_eq!(plaintext.as_slice(), unsealed_plaintext.as_slice());
    assert_eq!(aad.as_slice(), unsealed_aad.as_slice());
}

#[test]
fn test_seal_with_header() {
    let plaintext = b"versioned secret";
    let aad = b"metadata";

    let identity = identity_a();
    let sealed = seal_data_with_header(&identity, plaintext, aad, SealingPolicy::MrSigner)
        .unwrap();
    let (unsealed_plaintext, unsealed_aad) = unseal_data_with_header(&identity, &sealed).unwrap();

    assert_eq!(plaintext.as_slice(), unsealed_plaintext.as_slice());
    assert_eq!(aad.as_slice(), unsealed_aad.as_slice());
}

#[test]
fn test_derive_key() {
    let identity = identity_a();
    let key1 = derive_key(&identity, b"key-1", 32, SealingPolicy::MrSigner).unwrap();
    let key2 = derive_key(&identity, b"key-2", 32, SealingPolicy::MrSigner).unwrap();
    let key1_again = derive_key(&identity, b"key-1", 32, SealingPolicy::MrSigner).unwrap();

    // Different key IDs should produce different keys
    assert_ne!(key1, key2);
    // Same key ID should produce same key (deterministic)
    assert_eq!(key1, key1_again);
}

#[test]
fn test_derive_key_lengths_and_policies() {
    let identity = identity_a();
    let short = derive_key(&identity, b"key-1", 16, SealingPolicy::MrSigner).unwrap();
    let long = derive_key(&identity, b"key-1", 80, SealingPolicy::MrSigner).unwrap();
    assert_eq!(short.len(), 16);
    assert_eq!(long.len(), 80);
    // The shorter key is a prefix of the longer one: same chain, truncated.
    assert_eq!(&long[..16], short.as_slice());

    let strict = derive_key(&identity, b"key-1", 32, SealingPolicy::MrEnclave).unwrap();
    let portable = derive_key(&identity, b"key-1", 32, SealingPolicy::MrSigner).unwrap();
    assert_ne!(strict, portable);

    assert!(matches!(
        derive_key(&identity, b"key-1", 8161, SealingPolicy::MrSigner),
        Err(EnclaveError::InvalidParameter)
    ));
}

#[test]
fn test_seal_empty_plaintext_rejected() {
    let identity = identity_a();
    assert!(matches!(
        seal_data(&identity, b"", b"aad", SealingPolicy::MrSigner),
        Err(EnclaveError::InvalidParameter)
    ));
}

#[test]
fn test_unseal_rejects_malformed() {
    let identity = identity_a();
    assert!(matches!(
        unseal_data(&identity, b""),
        Err(EnclaveError::InvalidParameter)
    ));
    assert!(matches!(
        unseal_data(&identity, b"short"),
        Err(EnclaveError::UnsealError(_))
    ));
    let garbage = vec![0x99u8; 80];
    assert!(matches!(
        unseal_data(&identity, &garbage),
        Err(EnclaveError::UnsealError(_))
    ));
}

#[test]
fn test_sealing_policy_scoping() {
    let plaintext = b"policy bound";
    let aad = b"";

    // Signer-bound data survives an upgrade signed by the same key...
    let portable = seal_data(&identity_a(), plaintext, aad, SealingPolicy::MrSigner).unwrap();
    let (pt, _) = unseal_data(&identity_same_signer(), &portable).unwrap();
    assert_eq!(pt.as_slice(), plaintext.as_slice());
    // ...but not a compartment from another signer.
    assert!(unseal_data(&identity_other_signer(), &portable).is_err());

    // Content-bound data is tied to the exact build, whoever signed it.
    let strict = seal_data(&identity_a(), plaintext, aad, SealingPolicy::MrEnclave).unwrap();
    assert!(unseal_data(&identity_same_signer(), &strict).is_err());
    let (pt2, _) = unseal_data(&identity_other_signer(), &strict).unwrap();
    assert_eq!(pt2.as_slice(), plaintext.as_slice());
}

#[test]
fn test_corrupt_header_magic_fails() {
    let identity = identity_a();
    let plaintext = b"versioned secret";
    let mut sealed =
        seal_data_with_header(&identity, plaintext, b"meta", SealingPolicy::MrSigner).unwrap();
    // The header opens the AAD section of the blob; corrupt its first
    // (magic) byte.
    let magic_offset = 17;
    sealed[magic_offset] ^= 0xff;
    assert!(matches!(
        unseal_data_with_header(&identity, &sealed),
        Err(EnclaveError::UnsealError(_))
    ));
}

#[test]
fn test_plain_blob_has_no_header() {
    let identity = identity_a();
    let sealed = seal_data(&identity, b"plain", b"xy", SealingPolicy::MrSigner).unwrap();
    assert!(matches!(
        unseal_data_with_header(&identity, &sealed),
        Err(EnclaveError::UnsealError(_))
    ));
}

#[test]
fn test_calc_sealed_size_matches_seal() {
    let identity = identity_a();
    let plaintext = b"0123456789";
    let aad = b"abc";
    let sealed = seal_data(&identity, plaintext, aad, SealingPolicy::MrSigner).unwrap();
    assert_eq!(sealed.len(), calc_sealed_size(plaintext.len(), aad.len()));
    assert_eq!(calc_sealed_size(10, 3), 13 + SEALED_OVERHEAD);
}

#[test]
fn test_blob_records_policy() {
    let identity = identity_a();
    let portable = seal_data(&identity, b"pt", b"", SealingPolicy::MrSigner).unwrap();
    assert_eq!(portable[0], 2);
    let strict = seal_data(&identity, b"pt", b"", SealingPolicy::MrEnclave).unwrap();
    assert_eq!(strict[0], 1);
}

#[test]
fn test_header_bytes_inside_sealed_aad() {
    let identity = identity_a();
    let plaintext = b"versioned secret";
    let aad = b"meta";
    let sealed =
        seal_data_with_header(&identity, plaintext, aad, SealingPolicy::MrSigner).unwrap();
    // The blob's AAD is the 32 serialized header bytes, then the caller's.
    let (_, combined) = unseal_data(&identity, &sealed).unwrap();
    assert_eq!(&combined[..4], b"SEAL");
    assert_eq!(&combined[4..8], &[1, 0, 0, 0]);
    assert_eq!(&combined[8..16], &[0u8; 8]);
    assert_eq!(&combined[16..20], &[16, 0, 0, 0]);
    assert_eq!(&combined[20..24], &[4, 0, 0, 0]);
    assert_eq!(&combined[24..32], &[0u8; 8]);
    assert_eq!(&combined[32..], aad);
}

#[test]
fn test_seal_fresh_nonce_blobs_differ() {
    let identity = identity_a();
    let a = seal_data(&identity, b"same input", b"", SealingPolicy::MrSigner).unwrap();
    let b = seal_data(&identity, b"same input", b"", SealingPolicy::MrSigner).unwrap();
    // Fresh randomness per seal: equal inputs still give distinct blobs.
    assert_ne!(a, b);
    // Yet both unseal to the same plaintext.
    assert_eq!(unseal_data(&identity, &a).unwrap().0, b"same input");
    assert_eq!(unseal_data(&identity, &b).unwrap().0, b"same input");
}
