use tee_compartment::attestation::{
    generate_report, generate_self_report, get_enclave_measurements, verify_report,
    AttestationEvidence, ChannelBinding, Quote, QUOTE_BASE_SIZE,
};
use tee_compartment::types::CompartmentIdentity;

fn identity() -> CompartmentIdentity {
    CompartmentIdentity::new(vec![0xA1u8; 32], vec![0xB2u8; 32], 7, 3, true).unwrap()
}

#[test]
fn test_get_measurements() {
    let data = get_enclave_measurements(&identity()).unwrap();
    assert_eq!(data.mr_enclave.len(), 32);
    assert_eq!(data.mr_signer.len(), 32);
}

#[test]
fn test_measurement_values() {
    let data = get_enclave_measurements(&identity()).unwrap();
    assert_eq!(data.mr_enclave, vec![0xA1u8; 32]);
    assert_eq!(data.mr_signer, vec![0xB2u8; 32]);
    assert_eq!(data.isv_prod_id, 7);
    assert_eq!(data.isv_svn, 3);
    assert!(data.is_debug);
}

#[test]
fn test_generate_self_report() {
    let report_data = b"test data for report";
    let report = generate_self_report(&identity(), report_data).unwrap();

    // Verify the report data was included
    assert_eq!(&report.report_data[..report_data.len()], report_data);
}

#[test]
fn test_report_data_truncated_and_padded() {
    let id = identity();
    let report = generate_report(&id, None, b"hello").unwrap();
    assert_eq!(&report.report_data[..5], b"hello");
    assert!(report.report_data[5..].iter().all(|&b| b == 0));
    assert_eq!(report.report_data.len(), 64);

    let long = vec![0x5Au8; 100];
    let truncated = generate_report(&id, None, &long).unwrap();
    assert_eq!(truncated.report_data, vec![0x5Au8; 64]);
}

#[test]
fn test_verify_report() {
    let id = identity();
    let report = generate_self_report(&id, b"bound data").unwrap();
    assert!(verify_report(&id, &report).unwrap());

    // A tampered report no longer authenticates...
    let mut tampered = report.clone();
    tampered.report_data[0] ^= 0x01;
    assert!(!verify_report(&id, &tampered).unwrap());

    // ...and another compartment's report key does not match either.
    let other = CompartmentIdentity::new(vec![0xC3u8; 32], vec![0xB2u8; 32], 7, 3, true).unwrap();
    assert!(!verify_report(&other, &report).unwrap());
}

#[test]
fn test_quote_serialization() {
    let report = generate_self_report(&identity(), b"test").unwrap();
    let quote = Quote::from_report(&report);
    let bytes = quote.to_bytes();

    // Quote should have reasonable size
    assert!(bytes.len() > 400);
}

#[test]
fn test_quote_wire_layout() {
    let id = identity();
    let report = generate_self_report(&id, b"wire").unwrap();
    let quote = Quote::from_report(&report);
    let bytes = quote.to_bytes();

    assert_eq!(bytes.len(), QUOTE_BASE_SIZE);
    // version = 3, sign_type = 0, little-endian.
    assert_eq!(&bytes[..4], &[3, 0, 0, 0]);
    // mr_enclave sits after 48 header bytes and 64 body bytes.
    assert_eq!(&bytes[112..144], vec![0xA1u8; 32].as_slice());
    // mr_signer follows a 32-byte reserved gap.
    assert_eq!(&bytes[176..208], vec![0xB2u8; 32].as_slice());
    // isv_prod_id and isv_svn after the 96-byte reserved block.
    assert_eq!(&bytes[304..308], &[7, 0, 3, 0]);
    // report data occupies the last 68..4 bytes before signature_len.
    assert_eq!(&bytes[368..372], b"wire");
    // empty signature: signature_len = 0.
    assert_eq!(&bytes[432..436], &[0, 0, 0, 0]);
}

#[test]
fn test_attestation_evidence() {
    let report = generate_self_report(&identity(), b"evidence").unwrap();
    let evidence = AttestationEvidence::from_report(&report);
    assert!(evidence.cert_chain.is_none());
    assert!(evidence.collateral.is_none());
    assert_eq!(evidence.quote_bytes(), Quote::from_report(&report).to_bytes());
}

#[test]
fn test_channel_binding_layout() {
    let binding = ChannelBinding::new(vec![0x01u8; 32], vec![0x02u8; 32]);
    assert_eq!(binding.timestamp, 0);
    let bytes = binding.to_bytes();
    assert_eq!(bytes.len(), 64);
    assert_eq!(&bytes[..32], vec![0x01u8; 32].as_slice());
    assert_eq!(&bytes[32..], vec![0x02u8; 32].as_slice());
}
