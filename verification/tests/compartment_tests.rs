use tee_compartment::crypto::ecdsa_verify;
use tee_compartment::state::Compartment;
use tee_compartment::types::{CompartmentIdentity, EnclaveError};

fn identity() -> CompartmentIdentity {
    CompartmentIdentity::new(vec![0x10u8; 32], vec![0x20u8; 32], 1, 1, false).unwrap()
}

fn initialized_compartment() -> Compartment {
    let mut c = Compartment::new(identity());
    c.initialize().unwrap();
    c
}

#[test]
fn test_initialize_idempotent() {
    let mut c = Compartment::new(identity());
    let token1 = c.initialize().unwrap();
    let token2 = c.initialize().unwrap();
    assert_eq!(token1.len(), 32);
    // Re-initializing returns the existing token rather than erroring.
    assert_eq!(token1, token2);
}

#[test]
fn test_entry_points_before_initialize() {
    let c = Compartment::new(identity());
    assert!(matches!(c.health_check(), Err(EnclaveError::NotInitialized)));
    assert!(matches!(c.seal_data(b"x", b""), Err(EnclaveError::NotInitialized)));
    assert!(matches!(c.unseal_data(b"x"), Err(EnclaveError::NotInitialized)));
    assert!(matches!(c.sha256(b"x"), Err(EnclaveError::NotInitialized)));
    assert!(matches!(c.ecdsa_sign("k", b"x"), Err(EnclaveError::NotInitialized)));
    assert!(matches!(c.get_enclave_info(), Err(EnclaveError::NotInitialized)));
    assert!(matches!(c.generate_report(b"x", None), Err(EnclaveError::NotInitialized)));
    assert!(matches!(
        c.aes_gcm_encrypt(&[0u8; 32], &[0u8; 12], b"x", b""),
        Err(EnclaveError::NotInitialized)
    ));
    let mut buf = vec![0u8; 64];
    assert!(matches!(
        c.unseal_into(b"blob", &mut buf),
        Err(EnclaveError::NotInitialized)
    ));
    // Argument validation precedes the readiness check.
    assert!(matches!(
        c.aes_gcm_encrypt(&[0u8; 31], &[0u8; 12], b"x", b""),
        Err(EnclaveError::InvalidParameter)
    ));
    let mut c = c;
    assert!(matches!(
        c.generate_ecdsa_keypair("k"),
        Err(EnclaveError::NotInitialized)
    ));
}

#[test]
fn test_end_to_end_scenario() {
    let mut c = Compartment::new(identity());

    // Any entry point before initialize reports not-initialized.
    assert!(matches!(c.ecdsa_sign("svc-key-1", b"payload"), Err(EnclaveError::NotInitialized)));

    c.initialize().unwrap();

    let public_key = c.generate_ecdsa_keypair("svc-key-1").unwrap();
    assert_eq!(public_key.len(), 65);
    assert_eq!(public_key[0], 0x04);

    let signature = c.ecdsa_sign("svc-key-1", b"payload").unwrap();
    assert_eq!(signature.len(), 64);
    assert!(ecdsa_verify(&public_key, b"payload", &signature));

    let signature_again = c.ecdsa_sign("svc-key-1", b"payload").unwrap();
    assert_eq!(signature, signature_again);

    let sealed = c.seal_data(b"payload", b"").unwrap();
    // Compartment-sealed blobs carry the signer-bound policy.
    assert_eq!(sealed[0], 2);
    let unsealed = c.unseal_data(&sealed).unwrap();
    assert_eq!(unsealed, b"payload");

    assert!(c.health_check().is_ok());
}

#[test]
fn test_key_overwrite_is_silent() {
    let mut c = initialized_compartment();
    let pk1 = c.generate_ecdsa_keypair("dup").unwrap();
    let pk2 = c.generate_ecdsa_keypair("dup").unwrap();
    assert_ne!(pk1, pk2);
    // Signatures now verify under the latest key only.
    let sig = c.ecdsa_sign("dup", b"data").unwrap();
    assert!(ecdsa_verify(&pk2, b"data", &sig));
    assert!(!ecdsa_verify(&pk1, b"data", &sig));
}

#[test]
fn test_sign_unknown_key() {
    let c = initialized_compartment();
    match c.ecdsa_sign("missing-key", b"data") {
        Err(EnclaveError::KeyNotFound(id)) => assert_eq!(id, "missing-key"),
        other => panic!("expected KeyNotFound, got {:?}", other.map(|_| ())),
    }
}

#[test]
fn test_unseal_buffer_too_small() {
    let c = initialized_compartment();
    let sealed = c.seal_data(b"payload", b"").unwrap();

    // One byte shorter than required: the exact size is reported and the
    // buffer is untouched.
    let mut small = vec![0xAAu8; 6];
    match c.unseal_into(&sealed, &mut small) {
        Err(EnclaveError::BufferTooSmall { required, provided }) => {
            assert_eq!(required, 7);
            assert_eq!(provided, 6);
        },
        other => panic!("expected BufferTooSmall, got {:?}", other.map(|_| ())),
    }
    assert_eq!(small, vec![0xAAu8; 6]);

    // A big enough buffer gets the plaintext in its prefix, the rest intact.
    let mut ok_buf = vec![0xAAu8; 10];
    let n = c.unseal_into(&sealed, &mut ok_buf).unwrap();
    assert_eq!(n, 7);
    assert_eq!(&ok_buf[..7], b"payload");
    assert_eq!(&ok_buf[7..], &[0xAAu8; 3]);
}

#[test]
fn test_seal_into_buffer() {
    let c = initialized_compartment();
    let required = tee_compartment::sealing::calc_sealed_size(7, 3);

    let mut small = vec![0u8; required - 1];
    match c.seal_into(b"payload", b"aad", &mut small) {
        Err(EnclaveError::BufferTooSmall { required: r, provided }) => {
            assert_eq!(r, required);
            assert_eq!(provided, required - 1);
        },
        other => panic!("expected BufferTooSmall, got {:?}", other.map(|_| ())),
    }

    let mut buf = vec![0u8; required + 5];
    let n = c.seal_into(b"payload", b"aad", &mut buf).unwrap();
    assert_eq!(n, required);
    assert_eq!(c.unseal_data(&buf[..n]).unwrap(), b"payload");
    let (pt, aad) =
        tee_compartment::sealing::unseal_data(c.identity(), &buf[..n]).unwrap();
    assert_eq!(pt, b"payload");
    assert_eq!(aad, b"aad");
}

#[test]
fn test_compartment_aes_gcm() {
    let c = initialized_compartment();
    let key = [9u8; 32];
    let iv = [4u8; 12];
    let (ct, tag) = c.aes_gcm_encrypt(&key, &iv, b"inner data", b"ctx").unwrap();
    let pt = c.aes_gcm_decrypt(&key, &iv, &ct, b"ctx", &tag).unwrap();
    assert_eq!(pt, b"inner data");

    // Caller-supplied key and nonce are validated.
    assert!(matches!(
        c.aes_gcm_encrypt(&key[..31], &iv, b"x", b""),
        Err(EnclaveError::InvalidParameter)
    ));
    assert!(matches!(
        c.aes_gcm_decrypt(&key, &iv[..11], &ct, b"ctx", &tag),
        Err(EnclaveError::InvalidParameter)
    ));
}

#[test]
fn test_compartment_sha256_and_info() {
    let c = initialized_compartment();
    let hash = c.sha256(b"hello world").unwrap();
    assert_eq!(hash, tee_compartment::crypto::sha256(b"hello world").unwrap());

    let (mre, mrs) = c.get_enclave_info().unwrap();
    assert_eq!(mre, vec![0x10u8; 32]);
    assert_eq!(mrs, vec![0x20u8; 32]);
}

#[test]
fn test_compartment_report() {
    let mut c = Compartment::new(identity());
    c.initialize().unwrap();
    let report = c.generate_report(b"hello", None).unwrap();
    assert_eq!(&report.report_data[..5], b"hello");
    assert!(report.report_data[5..].iter().all(|&b| b == 0));
    assert!(tee_compartment::attestation::verify_report(c.identity(), &report).unwrap());
}
