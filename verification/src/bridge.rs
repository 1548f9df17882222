//! The untrusted bridge's stable contract: the status-code enumeration with
//! its fixed numeric values, the re-encoding of internal errors as status
//! codes, the fixed-size attestation output structure, and the stable
//! not-supported stub for script execution.
//!
//! The process-level plumbing (loading a compartment image, owning the
//! handle, marshaling raw buffers) lives outside the library; everything
//! here is pure computation over the compartment's entry points.

use vstd::prelude::*;

use crate::attestation::{
    embedded_report_data, AttestationEvidence, DEBUG_ATTRIBUTE_FLAG, QUOTE_BASE_SIZE,
};
use crate::bytes::{u16_le, u32_le, u64_le};
use crate::state::Compartment;
use crate::types::{CompartmentIdentity, EnclaveError, ScriptRequest};

verus! {

/// Status codes exposed at the bridge boundary; their numeric values (see
/// [`SgxBridgeStatus::code`]) are a stable wire contract.
#[derive(Clone, Copy, Debug, PartialEq, Eq, Structural)]
pub enum SgxBridgeStatus {
    /// Operation succeeded.
    Success,
    /// Invalid parameter provided.
    ErrorInvalidParameter,
    /// Out of memory.
    ErrorOutOfMemory,
    /// The compartment was lost and must be reloaded.
    ErrorEnclaveLost,
    /// The compartment image is invalid.
    ErrorInvalidEnclave,
    /// The compartment has not been initialized.
    ErrorEnclaveNotInitialized,
    /// A cryptographic operation failed.
    ErrorCryptoFailed,
    /// Sealing failed.
    ErrorSealFailed,
    /// Unsealing failed.
    ErrorUnsealFailed,
    /// Attestation failed.
    ErrorAttestationFailed,
    /// The named key was not found.
    ErrorKeyNotFound,
    /// The output buffer is too small.
    ErrorBufferTooSmall,
    /// The operation is not supported.
    ErrorNotSupported,
    /// An unmapped lower-layer failure.
    ErrorUnknown,
}

/// The stable numeric value of each status code.
pub open spec fn status_code(s: SgxBridgeStatus) -> u8 {
    match s {
        SgxBridgeStatus::Success => 0u8,
        SgxBridgeStatus::ErrorInvalidParameter => 1u8,
        SgxBridgeStatus::ErrorOutOfMemory => 2u8,
        SgxBridgeStatus::ErrorEnclaveLost => 3u8,
        SgxBridgeStatus::ErrorInvalidEnclave => 4u8,
        SgxBridgeStatus::ErrorEnclaveNotInitialized => 5u8,
        SgxBridgeStatus::ErrorCryptoFailed => 6u8,
        SgxBridgeStatus::ErrorSealFailed => 7u8,
        SgxBridgeStatus::ErrorUnsealFailed => 8u8,
        SgxBridgeStatus::ErrorAttestationFailed => 9u8,
        SgxBridgeStatus::ErrorKeyNotFound => 10u8,
        SgxBridgeStatus::ErrorBufferTooSmall => 11u8,
        SgxBridgeStatus::ErrorNotSupported => 12u8,
        SgxBridgeStatus::ErrorUnknown => 255u8,
    }
}

/// The status code an internal error is re-encoded as at the bridge
/// boundary: each lower-layer failure maps to a coarser, stable status, and
/// is never passed through raw.
pub open spec fn status_of_error(e: EnclaveError) -> SgxBridgeStatus {
    match e {
        EnclaveError::InvalidParameter => SgxBridgeStatus::ErrorInvalidParameter,
        EnclaveError::OutOfMemory => SgxBridgeStatus::ErrorOutOfMemory,
        EnclaveError::NotInitialized => SgxBridgeStatus::ErrorEnclaveNotInitialized,
        EnclaveError::CryptoError(_) => SgxBridgeStatus::ErrorCryptoFailed,
        EnclaveError::SealError(_) => SgxBridgeStatus::ErrorSealFailed,
        EnclaveError::UnsealError(_) => SgxBridgeStatus::ErrorUnsealFailed,
        EnclaveError::KeyNotFound(_) => SgxBridgeStatus::ErrorKeyNotFound,
        EnclaveError::BufferTooSmall { .. } => SgxBridgeStatus::ErrorBufferTooSmall,
        EnclaveError::NotSupported => SgxBridgeStatus::ErrorNotSupported,
        EnclaveError::Internal(_) => SgxBridgeStatus::ErrorUnknown,
    }
}

impl SgxBridgeStatus {
    /// The stable numeric value of this status.
    pub fn code(&self) -> (r: u8)
        ensures
            r == status_code(*self),
    {
        match self {
            SgxBridgeStatus::Success => 0u8,
            SgxBridgeStatus::ErrorInvalidParameter => 1u8,
            SgxBridgeStatus::ErrorOutOfMemory => 2u8,
            SgxBridgeStatus::ErrorEnclaveLost => 3u8,
            SgxBridgeStatus::ErrorInvalidEnclave => 4u8,
            SgxBridgeStatus::ErrorEnclaveNotInitialized => 5u8,
            SgxBridgeStatus::ErrorCryptoFailed => 6u8,
            SgxBridgeStatus::ErrorSealFailed => 7u8,
            SgxBridgeStatus::ErrorUnsealFailed => 8u8,
            SgxBridgeStatus::ErrorAttestationFailed => 9u8,
            SgxBridgeStatus::ErrorKeyNotFound => 10u8,
            SgxBridgeStatus::ErrorBufferTooSmall => 11u8,
            SgxBridgeStatus::ErrorNotSupported => 12u8,
            SgxBridgeStatus::ErrorUnknown => 255u8,
        }
    }

    /// Re-encode an internal error as its bridge status.
    pub fn from_error(e: &EnclaveError) -> (r: Self)
        ensures
            r == status_of_error(*e),
    {
        match e {
            EnclaveError::InvalidParameter => SgxBridgeStatus::ErrorInvalidParameter,
            EnclaveError::OutOfMemory => SgxBridgeStatus::ErrorOutOfMemory,
            EnclaveError::NotInitialized => SgxBridgeStatus::ErrorEnclaveNotInitialized,
            EnclaveError::CryptoError(_) => SgxBridgeStatus::ErrorCryptoFailed,
            EnclaveError::SealError(_) => SgxBridgeStatus::ErrorSealFailed,
            EnclaveError::UnsealError(_) => SgxBridgeStatus::ErrorUnsealFailed,
            EnclaveError::KeyNotFound(_) => SgxBridgeStatus::ErrorKeyNotFound,
            EnclaveError::BufferTooSmall { .. } => SgxBridgeStatus::ErrorBufferTooSmall,
            EnclaveError::NotSupported => SgxBridgeStatus::ErrorNotSupported,
            EnclaveError::Internal(_) => SgxBridgeStatus::ErrorUnknown,
        }
    }
}

/// Size of the fixed quote buffer in the attestation output structure.
pub const ATTESTATION_QUOTE_BUFFER: usize = 4096;

/// The fixed-size attestation output structure handed to the host:
/// measurements, embedded report data, a fixed quote buffer with its actual
/// length, and the debug flag. Callers must treat `quote_len` as
/// authoritative and ignore trailing bytes of the buffer.
pub struct SgxBridgeAttestation {
    /// Content measurement (32 bytes).
    pub mr_enclave: Vec<u8>,
    /// Signer measurement (32 bytes).
    pub mr_signer: Vec<u8>,
    /// Report data, truncated and zero-padded to 64 bytes.
    pub report_data: Vec<u8>,
    /// Fixed 4096-byte quote buffer.
    pub quote: Vec<u8>,
    /// Number of quote bytes actually used.
    pub quote_len: usize,
    /// Whether the compartment runs in debug mode.
    pub is_debug: bool,
}

/// The serialized quote the attestation output carries for an identity and
/// caller report data: a fresh quote of a fresh report, whose signature is
/// still empty.
pub open spec fn attestation_quote_wire(
    identity: CompartmentIdentity,
    report_data: Seq<u8>,
) -> Seq<u8> {
    u16_le(3u16) + u16_le(0u16) + Seq::<u8>::new(4, |i: int| 0u8) + u16_le(0u16) + u16_le(0u16)
        + u32_le(0u32) + Seq::<u8>::new(32, |i: int| 0u8) + Seq::<u8>::new(16, |i: int| 0u8)
        + u32_le(0u32) + Seq::<u8>::new(28, |i: int| 0u8) + u64_le(
        if identity.is_debug_view() {
            DEBUG_ATTRIBUTE_FLAG
        } else {
            0u64
        },
    ) + u64_le(0u64) + identity.mr_enclave_view() + Seq::<u8>::new(32, |i: int| 0u8)
        + identity.mr_signer_view() + Seq::<u8>::new(96, |i: int| 0u8) + u16_le(
        identity.isv_prod_id_view(),
    ) + u16_le(identity.isv_svn_view()) + Seq::<u8>::new(60, |i: int| 0u8) + embedded_report_data(
        report_data,
    ) + u32_le(0u32)
}

/// Pure size computation for sealed blobs; available without a loaded
/// compartment.
pub fn sgx_bridge_calc_sealed_size(plaintext_len: usize, additional_len: usize) -> (r: usize)
    requires
        plaintext_len + additional_len + crate::sealing::SEALED_OVERHEAD <= usize::MAX,
    ensures
        r == plaintext_len + additional_len + crate::sealing::SEALED_OVERHEAD,
{
    crate::sealing::calc_sealed_size(plaintext_len, additional_len)
}

/// Two-step attestation orchestration: fetch the identity measurements,
/// generate a report, and assemble the fixed-size evidence structure. Fails
/// with the dedicated attestation status if either step fails.
pub fn sgx_bridge_generate_attestation(compartment: &Compartment, report_data: &[u8]) -> (r:
    Result<SgxBridgeAttestation, SgxBridgeStatus>)
    ensures
        !compartment.is_initialized() ==> (r matches Err(s) && s
            == SgxBridgeStatus::ErrorAttestationFailed),
        compartment.is_initialized() ==> (r matches Ok(att) && att.mr_enclave@
            == compartment.identity_view().mr_enclave_view() && att.mr_signer@
            == compartment.identity_view().mr_signer_view() && att.report_data@
            == embedded_report_data(report_data@) && att.quote@.len() == ATTESTATION_QUOTE_BUFFER
            && att.quote_len == QUOTE_BASE_SIZE && att.quote@.take(QUOTE_BASE_SIZE as int)
            == attestation_quote_wire(compartment.identity_view(), report_data@) && (forall|i: int|
            QUOTE_BASE_SIZE <= i < ATTESTATION_QUOTE_BUFFER ==> att.quote@[i] == 0u8)
            && att.is_debug == compartment.identity_view().is_debug_view()),
{
    let (mr_enclave, mr_signer) = match compartment.get_enclave_info() {
        Ok(m) => m,
        Err(_) => {
            return Err(SgxBridgeStatus::ErrorAttestationFailed);
        },
    };
    let report = match compartment.generate_report(report_data, None) {
        Ok(rep) => rep,
        Err(_) => {
            return Err(SgxBridgeStatus::ErrorAttestationFailed);
        },
    };

    let evidence = AttestationEvidence::from_report(&report);
    let quote_bytes = evidence.quote_bytes();
    let ghost quote_view = quote_bytes@;
    let quote_len = quote_bytes.len();
    let mut quote = quote_bytes;
    let pad = crate::bytes::zero_bytes(ATTESTATION_QUOTE_BUFFER - quote_len);
    crate::bytes::append_bytes(&mut quote, pad.as_slice());

    let att = SgxBridgeAttestation {
        mr_enclave,
        mr_signer,
        report_data: crate::bytes::bytes_to_vec(report.report_data.as_slice()),
        quote,
        quote_len,
        is_debug: compartment.identity().is_debug(),
    };
    proof {
        let identity = compartment.identity_view();
        let wire = attestation_quote_wire(identity, report_data@);
        // The serialized quote is the wire prefix plus the (empty) signature.
        assert(quote_view == wire + evidence.quote.signature@);
        assert(wire + evidence.quote.signature@ =~= wire);
        assert(att.quote@.take(QUOTE_BASE_SIZE as int) =~= wire);
        assert forall|i: int| QUOTE_BASE_SIZE <= i < ATTESTATION_QUOTE_BUFFER implies att.quote@[i]
            == 0u8 by {
            assert(att.quote@[i] == pad@[i - QUOTE_BASE_SIZE]);
        }
    }
    Ok(att)
}

/// Script execution is a stable, documented stub: it always reports
/// not-supported.
pub fn sgx_bridge_execute_script(request: &ScriptRequest) -> (r: SgxBridgeStatus)
    ensures
        r == SgxBridgeStatus::ErrorNotSupported,
{
    let _ = request;
    SgxBridgeStatus::ErrorNotSupported
}

} // verus!
