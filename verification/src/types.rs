//! Common types: the error taxonomy, the compartment identity, key kinds,
//! the sealed-data header, and the script-execution placeholders.

use vstd::prelude::*;

verus! {

/// Result type for compartment operations.
pub type EnclaveResult<T> = Result<T, EnclaveError>;

/// Errors reported by the compartment's operations.
///
/// Lower layers always map their failures into one of these variants before
/// crossing a boundary; nothing is passed through raw.
#[derive(Debug, Clone)]
pub enum EnclaveError {
    /// Invalid parameter provided.
    InvalidParameter,
    /// Out of memory.
    OutOfMemory,
    /// An operation was attempted before the compartment was initialized.
    NotInitialized,
    /// Cryptographic operation failed.
    CryptoError(String),
    /// Sealing operation failed.
    SealError(String),
    /// Unsealing operation failed.
    UnsealError(String),
    /// Key not found in the registry.
    KeyNotFound(String),
    /// Output buffer too small; carries the sizes so the caller can retry.
    BufferTooSmall { required: usize, provided: usize },
    /// Operation not supported.
    NotSupported,
    /// Internal error.
    Internal(String),
}

/// The magic bytes that open a sealed-data header: ASCII `SEAL`.
pub open spec fn seal_magic() -> Seq<u8> {
    seq![0x53u8, 0x45u8, 0x41u8, 0x4cu8]
}

/// The magic bytes as a vector.
pub fn seal_magic_bytes() -> (r: Vec<u8>)
    ensures
        r@ == seal_magic(),
{
    let mut r: Vec<u8> = Vec::new();
    r.push(0x53u8);
    r.push(0x45u8);
    r.push(0x41u8);
    r.push(0x4cu8);
    proof {
        assert(r@ =~= seal_magic());
    }
    r
}

/// Size of the serialized sealed-data header in bytes.
pub const SEALED_HEADER_SIZE: usize = 32;

/// Current version of the sealed-data format.
pub const SEALED_FORMAT_VERSION: u32 = 1;

/// Sealed-data header for versioning and metadata, serialized as
/// `magic(4) || version(4 LE) || timestamp(8 LE) || plaintext_len(4 LE) ||
/// aad_len(4 LE) || reserved(8)`, 32 bytes in all.
#[derive(Clone)]
pub struct SealedDataHeader {
    /// Magic bytes for validation (4 bytes).
    pub magic: Vec<u8>,
    /// Version of the sealing format.
    pub version: u32,
    /// Timestamp when sealed (Unix epoch; zero without a trusted time
    /// source).
    pub timestamp: u64,
    /// Length of the plaintext data.
    pub plaintext_len: u32,
    /// Length of additional authenticated data.
    pub aad_len: u32,
    /// Reserved for future use (8 bytes).
    pub reserved: Vec<u8>,
}

impl SealedDataHeader {
    /// The field widths a serializable header must have.
    pub open spec fn wf(self) -> bool {
        self.magic@.len() == 4 && self.reserved@.len() == 8
    }

    /// What [`Self::validate`] checks: the magic bytes and a version this
    /// format knows.
    pub open spec fn valid_spec(self) -> bool {
        self.magic@ == seal_magic() && self.version <= SEALED_FORMAT_VERSION
    }

    /// The serialized form of this header.
    pub open spec fn bytes_spec(self) -> Seq<u8> {
        self.magic@ + crate::bytes::u32_le(self.version) + crate::bytes::u64_le(self.timestamp)
            + crate::bytes::u32_le(self.plaintext_len) + crate::bytes::u32_le(self.aad_len)
            + self.reserved@
    }

    /// Create a new header for the given lengths.
    pub fn new(plaintext_len: u32, aad_len: u32) -> (r: Self)
        ensures
            r.wf(),
            r.valid_spec(),
            r.magic@ == seal_magic(),
            r.version == SEALED_FORMAT_VERSION,
            r.timestamp == 0,
            r.plaintext_len == plaintext_len,
            r.aad_len == aad_len,
            r.reserved@ == Seq::<u8>::new(8, |i: int| 0u8),
    {
        let mut magic: Vec<u8> = Vec::new();
        magic.push(0x53u8);
        magic.push(0x45u8);
        magic.push(0x41u8);
        magic.push(0x4cu8);
        proof {
            assert(magic@ =~= seal_magic());
        }
        let reserved = crate::bytes::zero_bytes(8);
        Self { magic, version: SEALED_FORMAT_VERSION, timestamp: 0, plaintext_len, aad_len, reserved }
    }

    /// Validate the header: magic bytes intact and version known.
    pub fn validate(&self) -> (r: bool)
        ensures
            r == self.valid_spec(),
    {
        let mut expected: Vec<u8> = Vec::new();
        expected.push(0x53u8);
        expected.push(0x45u8);
        expected.push(0x41u8);
        expected.push(0x4cu8);
        proof {
            assert(expected@ =~= seal_magic());
        }
        let magic_ok = crate::bytes::bytes_eq(self.magic.as_slice(), expected.as_slice());
        magic_ok && self.version <= SEALED_FORMAT_VERSION
    }

    /// Serialize the header to its 32-byte form.
    pub fn to_bytes(&self) -> (r: Vec<u8>)
        requires
            self.wf(),
        ensures
            r@ == self.bytes_spec(),
            r@.len() == SEALED_HEADER_SIZE,
    {
        let mut r: Vec<u8> = Vec::new();
        crate::bytes::append_bytes(&mut r, self.magic.as_slice());
        crate::bytes::push_u32_le(&mut r, self.version);
        crate::bytes::push_u64_le(&mut r, self.timestamp);
        crate::bytes::push_u32_le(&mut r, self.plaintext_len);
        crate::bytes::push_u32_le(&mut r, self.aad_len);
        crate::bytes::append_bytes(&mut r, self.reserved.as_slice());
        proof {
            assert(r@ =~= self.bytes_spec());
        }
        r
    }
}

/// The identity of a loaded compartment: two 32-byte measurements (one of
/// the loaded content, one of the signing key), the product and security
/// version numbers, and whether the compartment was loaded in debug mode.
///
/// Immutable for the life of the loaded compartment; the sealing and report
/// keys are deterministic functions of it.
pub struct CompartmentIdentity {
    mr_enclave: Vec<u8>,
    mr_signer: Vec<u8>,
    isv_prod_id: u16,
    isv_svn: u16,
    is_debug: bool,
}

impl CompartmentIdentity {
    /// The 32-byte content measurement.
    pub closed spec fn mr_enclave_view(self) -> Seq<u8> {
        self.mr_enclave@
    }

    /// The 32-byte signer measurement.
    pub closed spec fn mr_signer_view(self) -> Seq<u8> {
        self.mr_signer@
    }

    /// The product identifier.
    pub closed spec fn isv_prod_id_view(self) -> u16 {
        self.isv_prod_id
    }

    /// The security version number.
    pub closed spec fn isv_svn_view(self) -> u16 {
        self.isv_svn
    }

    /// Whether the compartment was loaded in debug mode.
    pub closed spec fn is_debug_view(self) -> bool {
        self.is_debug
    }

    #[verifier::type_invariant]
    closed spec fn wf(self) -> bool {
        self.mr_enclave@.len() == 32 && self.mr_signer@.len() == 32
    }

    /// Build an identity from its measurements; both must be 32 bytes.
    pub fn new(
        mr_enclave: Vec<u8>,
        mr_signer: Vec<u8>,
        isv_prod_id: u16,
        isv_svn: u16,
        is_debug: bool,
    ) -> (r: EnclaveResult<Self>)
        ensures
            mr_enclave@.len() != 32 || mr_signer@.len() != 32 ==> (r matches Err(e) && e
                is InvalidParameter),
            mr_enclave@.len() == 32 && mr_signer@.len() == 32 ==> (r matches Ok(id)
                && id.mr_enclave_view() == mr_enclave@ && id.mr_signer_view() == mr_signer@
                && id.isv_prod_id_view() == isv_prod_id && id.isv_svn_view() == isv_svn
                && id.is_debug_view() == is_debug),
    {
        if mr_enclave.len() != 32 || mr_signer.len() != 32 {
            return Err(EnclaveError::InvalidParameter);
        }
        Ok(Self { mr_enclave, mr_signer, isv_prod_id, isv_svn, is_debug })
    }

    /// The content measurement bytes.
    pub fn mr_enclave(&self) -> (r: &Vec<u8>)
        ensures
            r@ == self.mr_enclave_view(),
            r@.len() == 32,
    {
        proof {
            use_type_invariant(self);
        }
        &self.mr_enclave
    }

    /// The signer measurement bytes.
    pub fn mr_signer(&self) -> (r: &Vec<u8>)
        ensures
            r@ == self.mr_signer_view(),
            r@.len() == 32,
    {
        proof {
            use_type_invariant(self);
        }
        &self.mr_signer
    }

    /// The product identifier.
    pub fn isv_prod_id(&self) -> (r: u16)
        ensures
            r == self.isv_prod_id_view(),
    {
        self.isv_prod_id
    }

    /// The security version number.
    pub fn isv_svn(&self) -> (r: u16)
        ensures
            r == self.isv_svn_view(),
    {
        self.isv_svn
    }

    /// Whether the compartment was loaded in debug mode.
    pub fn is_debug(&self) -> (r: bool)
        ensures
            r == self.is_debug_view(),
    {
        self.is_debug
    }
}

impl Clone for CompartmentIdentity {
    /// A clone carries the same measurements and flags.
    fn clone(&self) -> (r: Self)
        ensures
            r.mr_enclave_view() == self.mr_enclave_view(),
            r.mr_signer_view() == self.mr_signer_view(),
            r.isv_prod_id_view() == self.isv_prod_id_view(),
            r.isv_svn_view() == self.isv_svn_view(),
            r.is_debug_view() == self.is_debug_view(),
    {
        proof {
            use_type_invariant(self);
        }
        Self {
            mr_enclave: crate::bytes::bytes_to_vec(self.mr_enclave.as_slice()),
            mr_signer: crate::bytes::bytes_to_vec(self.mr_signer.as_slice()),
            isv_prod_id: self.isv_prod_id,
            isv_svn: self.isv_svn,
            is_debug: self.is_debug,
        }
    }
}

/// Supported key types.
#[derive(Clone, Copy, Debug, PartialEq, Eq, Structural)]
pub enum KeyType {
    /// ECDSA P-256 (secp256r1).
    EcdsaP256,
    /// ECDSA secp256k1.
    EcdsaSecp256k1,
    /// AES-256.
    Aes256,
    /// Ed25519.
    Ed25519,
}

impl KeyType {
    /// Private key size in bytes.
    pub fn private_key_size(&self) -> (size: usize)
        ensures
            size == 32,
    {
        match self {
            KeyType::EcdsaP256 => 32,
            KeyType::EcdsaSecp256k1 => 32,
            KeyType::Aes256 => 32,
            KeyType::Ed25519 => 32,
        }
    }

    /// Public key size in bytes (0 for symmetric keys).
    pub fn public_key_size(&self) -> (size: usize)
        ensures
            size == match self {
                KeyType::EcdsaP256 => 65int,
                KeyType::EcdsaSecp256k1 => 65int,
                KeyType::Aes256 => 0int,
                KeyType::Ed25519 => 32int,
            },
    {
        match self {
            KeyType::EcdsaP256 => 65,
            KeyType::EcdsaSecp256k1 => 65,
            KeyType::Aes256 => 0,
            KeyType::Ed25519 => 32,
        }
    }

    /// Signature size in bytes (0 for non-signing keys).
    pub fn signature_size(&self) -> (size: usize)
        ensures
            size == match self {
                KeyType::EcdsaP256 => 64int,
                KeyType::EcdsaSecp256k1 => 64int,
                KeyType::Aes256 => 0int,
                KeyType::Ed25519 => 64int,
            },
    {
        match self {
            KeyType::EcdsaP256 => 64,
            KeyType::EcdsaSecp256k1 => 64,
            KeyType::Aes256 => 0,
            KeyType::Ed25519 => 64,
        }
    }
}

/// Attestation summary data: the compartment's measurements and version
/// numbers, caller-provided report data, and the debug flag.
#[derive(Clone)]
pub struct AttestationData {
    /// Content measurement.
    pub mr_enclave: Vec<u8>,
    /// Signer measurement.
    pub mr_signer: Vec<u8>,
    /// Product identifier.
    pub isv_prod_id: u16,
    /// Security version number.
    pub isv_svn: u16,
    /// User-provided report data.
    pub report_data: Vec<u8>,
    /// Debug flag; a production verifier must reject a debug compartment.
    pub is_debug: bool,
}

impl Default for AttestationData {
    /// All-zero measurements and report data, non-debug.
    fn default() -> (r: Self)
        ensures
            r.mr_enclave@ == Seq::<u8>::new(32, |i: int| 0u8),
            r.mr_signer@ == Seq::<u8>::new(32, |i: int| 0u8),
            r.isv_prod_id == 0,
            r.isv_svn == 0,
            r.report_data@ == Seq::<u8>::new(64, |i: int| 0u8),
            !r.is_debug,
    {
        Self {
            mr_enclave: crate::bytes::zero_bytes(32),
            mr_signer: crate::bytes::zero_bytes(32),
            isv_prod_id: 0,
            isv_svn: 0,
            report_data: crate::bytes::zero_bytes(64),
            is_debug: false,
        }
    }
}

/// Key metadata stored alongside keys.
#[derive(Clone)]
pub struct KeyMetadata {
    /// Key identifier.
    pub key_id: String,
    /// Key type.
    pub key_type: KeyType,
    /// Creation timestamp.
    pub created_at: u64,
    /// Whether the key can be exported.
    pub exportable: bool,
}

/// Script execution request.
#[derive(Clone)]
pub struct ScriptRequest {
    /// Script source code.
    pub script: String,
    /// Entry point function name.
    pub entry_point: String,
    /// Encoded input arguments.
    pub input: Vec<u8>,
    /// Memory limit in bytes.
    pub memory_limit: u64,
    /// Execution timeout in milliseconds.
    pub timeout_ms: u64,
}

/// Script execution result.
#[derive(Clone)]
pub struct ScriptResult {
    /// Encoded output.
    pub output: Vec<u8>,
    /// Error message if failed.
    pub error: Option<String>,
    /// Memory used in bytes.
    pub memory_used: u64,
    /// Execution duration in milliseconds.
    pub duration_ms: u64,
    /// Whether execution succeeded.
    pub success: bool,
}

impl ScriptResult {
    /// Create a successful result.
    pub fn success(output: Vec<u8>, memory_used: u64, duration_ms: u64) -> (r: Self)
        ensures
            r.output@ == output@,
            r.error is None,
            r.memory_used == memory_used,
            r.duration_ms == duration_ms,
            r.success,
    {
        Self { output, error: None, memory_used, duration_ms, success: true }
    }

    /// Create a failed result.
    pub fn failure(error: String, memory_used: u64, duration_ms: u64) -> (r: Self)
        ensures
            r.output@.len() == 0,
            r.error matches Some(e) && e@ == error@,
            r.memory_used == memory_used,
            r.duration_ms == duration_ms,
            !r.success,
    {
        Self { output: Vec::new(), error: Some(error), memory_used, duration_ms, success: false }
    }
}

} // verus!
