use tee_compartment::types::{
    AttestationData, CompartmentIdentity, EnclaveError, KeyType, SealedDataHeader,
    SEALED_HEADER_SIZE,
};

#[test]
fn test_header_new_and_validate() {
    let header = SealedDataHeader::new(5, 7);
    assert_eq!(header.magic, b"SEAL".to_vec());
    assert_eq!(header.version, 1);
    assert_eq!(header.timestamp, 0);
    assert_eq!(header.plaintext_len, 5);
    assert_eq!(header.aad_len, 7);
    assert!(header.validate());

    let mut bad = header.clone();
    bad.magic = b"SEAM".to_vec();
    assert!(!bad.validate());

    let mut future = SealedDataHeader::new(1, 1);
    future.version = 2;
    assert!(!future.validate());
}

#[test]
fn test_header_wire_layout() {
    let header = SealedDataHeader::new(0x0102_0304, 0x0506_0708);
    let bytes = header.to_bytes();
    assert_eq!(bytes.len(), SEALED_HEADER_SIZE);
    assert_eq!(&bytes[..4], b"SEAL");
    // version 1, little-endian.
    assert_eq!(&bytes[4..8], &[1, 0, 0, 0]);
    // timestamp 0.
    assert_eq!(&bytes[8..16], &[0u8; 8]);
    // plaintext_len and aad_len, little-endian.
    assert_eq!(&bytes[16..20], &[0x04, 0x03, 0x02, 0x01]);
    assert_eq!(&bytes[20..24], &[0x08, 0x07, 0x06, 0x05]);
    // reserved.
    assert_eq!(&bytes[24..32], &[0u8; 8]);
}

#[test]
fn test_key_type_sizes() {
    assert_eq!(KeyType::EcdsaP256.private_key_size(), 32);
    assert_eq!(KeyType::EcdsaP256.public_key_size(), 65);
    assert_eq!(KeyType::EcdsaP256.signature_size(), 64);
    assert_eq!(KeyType::EcdsaSecp256k1.public_key_size(), 65);
    assert_eq!(KeyType::Aes256.public_key_size(), 0);
    assert_eq!(KeyType::Aes256.signature_size(), 0);
    assert_eq!(KeyType::Ed25519.public_key_size(), 32);
    assert_eq!(KeyType::Ed25519.signature_size(), 64);
}

#[test]
fn test_attestation_data_default() {
    let data = AttestationData::default();
    assert_eq!(data.mr_enclave, vec![0u8; 32]);
    assert_eq!(data.mr_signer, vec![0u8; 32]);
    assert_eq!(data.report_data, vec![0u8; 64]);
    assert_eq!(data.isv_prod_id, 0);
    assert_eq!(data.isv_svn, 0);
    assert!(!data.is_debug);
}

#[test]
fn test_identity_validation() {
    assert!(matches!(
        CompartmentIdentity::new(vec![0u8; 31], vec![0u8; 32], 0, 0, false),
        Err(EnclaveError::InvalidParameter)
    ));
    assert!(matches!(
        CompartmentIdentity::new(vec![0u8; 32], vec![0u8; 33], 0, 0, false),
        Err(EnclaveError::InvalidParameter)
    ));
    let id = CompartmentIdentity::new(vec![1u8; 32], vec![2u8; 32], 4, 5, true).unwrap();
    assert_eq!(id.mr_enclave(), &vec![1u8; 32]);
    assert_eq!(id.mr_signer(), &vec![2u8; 32]);
    assert_eq!(id.isv_prod_id(), 4);
    assert_eq!(id.isv_svn(), 5);
    assert!(id.is_debug());
}
