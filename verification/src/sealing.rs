//! The sealing engine: confidentiality- and integrity-protected blobs bound
//! to the compartment's identity through a policy-selected sealing key.
//!
//! A sealed blob is `policy(1) || iv(12) || aad_len(4 LE) || aad || tag(16)
//! || ciphertext`; the sealing key is a deterministic function of the
//! identity measurement the policy selects, so a blob can only be unsealed
//! by a compartment whose identity satisfies the policy.

use vstd::prelude::*;

use crate::bytes::{append_bytes, bytes_range, push_u32_le, read_u32_le, u32_from_le, u32_le};
use crate::crypto::{
    aes_gcm_dec, aes_gcm_decrypt_raw, aes_gcm_encrypt_raw, hkdf_bytes, random_bytes, sha256_of,
    sha256_raw, HKDF_MAX_OUTPUT,
};
use crate::types::{
    seal_magic, CompartmentIdentity, EnclaveError, EnclaveResult, SealedDataHeader,
    SEALED_FORMAT_VERSION, SEALED_HEADER_SIZE,
};

verus! {

/// Sealing policy: which compartments may unseal the data.
#[derive(Clone, Copy, Debug, PartialEq, Eq, Structural)]
pub enum SealingPolicy {
    /// Only a compartment with the same content measurement can unseal.
    /// Most restrictive: the data is tied to one exact build.
    MrEnclave,
    /// Any compartment signed by the same key can unseal, so sealed data
    /// survives an upgrade signed by the same key.
    MrSigner,
}

impl Default for SealingPolicy {
    /// The default policy is signer-bound.
    fn default() -> (r: Self)
        ensures
            r == SealingPolicy::MrSigner,
    {
        SealingPolicy::MrSigner
    }
}

/// Bytes a sealed blob adds beyond plaintext and AAD: the policy byte, the
/// 12-byte nonce, the 4-byte AAD length and the 16-byte tag.
pub const SEALED_OVERHEAD: usize = 33;

/// The byte that records the sealing policy in a blob.
pub open spec fn policy_byte(policy: SealingPolicy) -> u8 {
    match policy {
        SealingPolicy::MrEnclave => 1u8,
        SealingPolicy::MrSigner => 2u8,
    }
}

/// The policy a blob's first byte denotes, if any.
pub open spec fn policy_of_byte(b: u8) -> Option<SealingPolicy> {
    if b == 1 {
        Some(SealingPolicy::MrEnclave)
    } else if b == 2 {
        Some(SealingPolicy::MrSigner)
    } else {
        None
    }
}

/// The identity measurement a policy scopes the sealing key to.
pub open spec fn policy_measurement(identity: CompartmentIdentity, policy: SealingPolicy) -> Seq<
    u8,
> {
    match policy {
        SealingPolicy::MrEnclave => identity.mr_enclave_view(),
        SealingPolicy::MrSigner => identity.mr_signer_view(),
    }
}

/// The policy-scoped sealing key: the digest of the policy byte followed by
/// the selected measurement. Deterministic in the identity and the policy.
pub open spec fn seal_key_bytes(identity: CompartmentIdentity, policy: SealingPolicy) -> Seq<u8> {
    sha256_of(seq![policy_byte(policy)] + policy_measurement(identity, policy))
}

/// Compute the policy-scoped sealing key.
fn seal_key(identity: &CompartmentIdentity, policy: SealingPolicy) -> (r: Vec<u8>)
    ensures
        r@ == seal_key_bytes(*identity, policy),
        r@.len() == 32,
{
    let mut msg: Vec<u8> = Vec::new();
    match policy {
        SealingPolicy::MrEnclave => {
            msg.push(1u8);
            append_bytes(&mut msg, identity.mr_enclave().as_slice());
        },
        SealingPolicy::MrSigner => {
            msg.push(2u8);
            append_bytes(&mut msg, identity.mr_signer().as_slice());
        },
    }
    proof {
        assert(msg@ =~= seq![policy_byte(policy)] + policy_measurement(*identity, policy));
    }
    sha256_raw(msg.as_slice())
}

/// What unsealing a blob under a given identity yields: the plaintext and
/// AAD when the blob parses and its tag authenticates under the
/// policy-scoped key, `None` otherwise.
pub open spec fn unseal_to(identity: CompartmentIdentity, blob: Seq<u8>) -> Option<
    (Seq<u8>, Seq<u8>),
> {
    if blob.len() < SEALED_OVERHEAD {
        None
    } else {
        match policy_of_byte(blob[0]) {
            None => None,
            Some(policy) => {
                let iv = blob.subrange(1, 13);
                let aad_len = u32_from_le(blob[13], blob[14], blob[15], blob[16]) as int;
                if blob.len() < 33 + aad_len {
                    None
                } else {
                    let aad = blob.subrange(17, 17 + aad_len);
                    let tag = blob.subrange(17 + aad_len, 33 + aad_len);
                    let ct = blob.subrange(33 + aad_len, blob.len() as int);
                    match aes_gcm_dec(seal_key_bytes(identity, policy), iv, ct, aad, tag) {
                        Some(pt) => Some((pt, aad)),
                        None => None,
                    }
                }
            },
        }
    }
}

/// The byte layout of a sealed blob: the policy byte, the nonce, the
/// length-prefixed AAD, the tag, and the ciphertext.
pub open spec fn sealed_blob_bytes(
    policy: SealingPolicy,
    iv: Seq<u8>,
    aad: Seq<u8>,
    tag: Seq<u8>,
    ct: Seq<u8>,
) -> Seq<u8> {
    seq![policy_byte(policy)] + iv + u32_le(aad.len() as u32) + aad + tag + ct
}

/// The blob format round-trips: a blob laid out by [`sealed_blob_bytes`]
/// parses back to exactly its policy, nonce, AAD, tag and ciphertext, so
/// unsealing it comes down to the authenticated decryption of that
/// ciphertext under the policy-scoped key.
pub proof fn lemma_sealed_blob_roundtrip(
    identity: CompartmentIdentity,
    policy: SealingPolicy,
    iv: Seq<u8>,
    aad: Seq<u8>,
    tag: Seq<u8>,
    ct: Seq<u8>,
)
    requires
        iv.len() == 12,
        aad.len() <= u32::MAX,
        tag.len() == 16,
    ensures
        unseal_to(identity, sealed_blob_bytes(policy, iv, aad, tag, ct)) == match aes_gcm_dec(
            seal_key_bytes(identity, policy),
            iv,
            ct,
            aad,
            tag,
        ) {
            Some(pt) => Some((pt, aad)),
            None => None::<(Seq<u8>, Seq<u8>)>,
        },
{
    let al = aad.len() as int;
    let b = sealed_blob_bytes(policy, iv, aad, tag, ct);
    assert(b.len() == 33 + al + ct.len());
    assert(b[0] == policy_byte(policy));
    assert(policy_of_byte(b[0]) == Some(policy));
    assert(b.subrange(1, 13) =~= iv);
    assert(b.subrange(13, 17) =~= u32_le(aad.len() as u32));
    crate::bytes::lemma_u32_le_roundtrip(aad.len() as u32);
    assert(u32_from_le(b[13], b[14], b[15], b[16]) == aad.len() as u32);
    assert(b.subrange(17, 17 + al) =~= aad);
    assert(b.subrange(17 + al, 33 + al) =~= tag);
    assert(b.subrange(33 + al, b.len() as int) =~= ct);
}

/// Whether `seal_data` accepts these argument lengths: a non-empty
/// plaintext, both lengths within the 4-byte length field, and a blob size
/// that fits in memory.
pub open spec fn seal_ok(plaintext: Seq<u8>, aad: Seq<u8>) -> bool {
    &&& plaintext.len() > 0
    &&& plaintext.len() <= u32::MAX
    &&& aad.len() <= u32::MAX
    &&& plaintext.len() + aad.len() + SEALED_OVERHEAD <= usize::MAX
}

/// The exact size of the blob `seal_data` produces for these lengths.
pub fn calc_sealed_size(plaintext_len: usize, aad_len: usize) -> (r: usize)
    requires
        plaintext_len + aad_len + SEALED_OVERHEAD <= usize::MAX,
    ensures
        r == plaintext_len + aad_len + SEALED_OVERHEAD,
{
    plaintext_len + aad_len + SEALED_OVERHEAD
}

/// Seal data under the compartment's identity.
///
/// The blob binds `(plaintext, aad)`; the nonce is fresh randomness, so two
/// seals of the same input differ, but any blob returned unseals back to
/// exactly `(plaintext, aad)` under an identity satisfying the policy.
#[verifier::rlimit(30)]
pub fn seal_data(
    identity: &CompartmentIdentity,
    plaintext: &[u8],
    aad: &[u8],
    policy: SealingPolicy,
) -> (r: EnclaveResult<Vec<u8>>)
    ensures
        !seal_ok(plaintext@, aad@) ==> (r matches Err(e) && e is InvalidParameter),
        seal_ok(plaintext@, aad@) ==> (r is Ok || (r matches Err(e) && e is SealError)),
        r matches Ok(blob) ==> seal_ok(plaintext@, aad@) && blob@.len() == plaintext@.len()
            + aad@.len() + SEALED_OVERHEAD && blob@[0] == policy_byte(policy) && unseal_to(
            *identity,
            blob@,
        ) == Some((plaintext@, aad@)),
{
    if plaintext.len() == 0 {
        return Err(EnclaveError::InvalidParameter);
    }
    if plaintext.len() > 0xffff_ffffusize || aad.len() > 0xffff_ffffusize {
        return Err(EnclaveError::InvalidParameter);
    }
    if aad.len() > usize::MAX - SEALED_OVERHEAD || plaintext.len() > usize::MAX - SEALED_OVERHEAD
        - aad.len() {
        return Err(EnclaveError::InvalidParameter);
    }

    let iv = match random_bytes(12) {
        Ok(v) => v,
        Err(_) => {
            return Err(EnclaveError::SealError("sealing randomness unavailable".to_owned()));
        },
    };
    let key = seal_key(identity, policy);
    let (ct, tag) = aes_gcm_encrypt_raw(key.as_slice(), iv.as_slice(), plaintext, aad);

    let aad_len32: u32 = aad.len() as u32;
    let mut blob: Vec<u8> = Vec::new();
    let pbyte: u8 = match policy {
        SealingPolicy::MrEnclave => 1u8,
        SealingPolicy::MrSigner => 2u8,
    };
    blob.push(pbyte);
    append_bytes(&mut blob, iv.as_slice());
    push_u32_le(&mut blob, aad_len32);
    append_bytes(&mut blob, aad);
    append_bytes(&mut blob, tag.as_slice());
    append_bytes(&mut blob, ct.as_slice());

    proof {
        assert(seq![pbyte] =~= seq![policy_byte(policy)]);
        assert(blob@ =~= seq![policy_byte(policy)] + iv@ + u32_le(aad_len32) + aad@ + tag@ + ct@);
        lemma_sealed_blob_roundtrip(*identity, policy, iv@, aad@, tag@, ct@);
    }
    Ok(blob)
}

/// Unseal a blob previously produced by [`seal_data`] under a satisfying
/// identity, returning the plaintext and the AAD.
pub fn unseal_data(identity: &CompartmentIdentity, sealed: &[u8]) -> (r: EnclaveResult<
    (Vec<u8>, Vec<u8>),
>)
    ensures
        sealed@.len() == 0 ==> (r matches Err(e) && e is InvalidParameter),
        sealed@.len() > 0 ==> match unseal_to(*identity, sealed@) {
            Some(pa) => (r matches Ok(v) && v.0@ == pa.0 && v.1@ == pa.1),
            None => (r matches Err(e) && e is UnsealError),
        },
{
    if sealed.len() == 0 {
        return Err(EnclaveError::InvalidParameter);
    }
    if sealed.len() < SEALED_OVERHEAD {
        return Err(EnclaveError::UnsealError("sealed blob too short".to_owned()));
    }
    let policy = if sealed[0] == 1u8 {
        SealingPolicy::MrEnclave
    } else if sealed[0] == 2u8 {
        SealingPolicy::MrSigner
    } else {
        return Err(EnclaveError::UnsealError("unknown sealing policy".to_owned()));
    };
    let aad_len = read_u32_le(sealed, 13) as usize;
    if aad_len > sealed.len() - SEALED_OVERHEAD {
        return Err(EnclaveError::UnsealError("sealed blob truncated".to_owned()));
    }
    let iv = bytes_range(sealed, 1, 13);
    let aad = bytes_range(sealed, 17, 17 + aad_len);
    let tag = bytes_range(sealed, 17 + aad_len, 33 + aad_len);
    let ct = bytes_range(sealed, 33 + aad_len, sealed.len());
    let key = seal_key(identity, policy);
    match aes_gcm_decrypt_raw(key.as_slice(), iv.as_slice(), ct.as_slice(), aad.as_slice(),
        tag.as_slice()) {
        Ok(pt) => Ok((pt, aad)),
        Err(_) => Err(EnclaveError::UnsealError("authentication failed".to_owned())),
    }
}

/// Whether `seal_data_with_header` accepts these argument lengths; the
/// header itself occupies 32 bytes of the AAD the blob carries.
pub open spec fn seal_with_header_ok(plaintext: Seq<u8>, aad: Seq<u8>) -> bool {
    &&& plaintext.len() > 0
    &&& plaintext.len() <= u32::MAX
    &&& aad.len() <= u32::MAX - SEALED_HEADER_SIZE
    &&& plaintext.len() + aad.len() + SEALED_HEADER_SIZE + SEALED_OVERHEAD <= usize::MAX
}

/// What unsealing a headered blob yields: the plaintext and the caller's AAD
/// when the blob authenticates and its AAD opens with a valid header.
pub open spec fn unseal_with_header_to(identity: CompartmentIdentity, blob: Seq<u8>) -> Option<
    (Seq<u8>, Seq<u8>),
> {
    match unseal_to(identity, blob) {
        Some(pa) => {
            let combined = pa.1;
            if combined.len() >= SEALED_HEADER_SIZE && combined.subrange(0, 4) == seal_magic()
                && u32_from_le(combined[4], combined[5], combined[6], combined[7])
                <= SEALED_FORMAT_VERSION {
                Some((pa.0, combined.skip(SEALED_HEADER_SIZE as int)))
            } else {
                None
            }
        },
        None => None,
    }
}

/// A header-prefixed AAD opens with a valid header and strips back to the
/// caller's own AAD: the format half of the headered round trip.
pub proof fn lemma_header_prefix(h: SealedDataHeader, aad: Seq<u8>)
    requires
        h.wf(),
        h.magic@ == seal_magic(),
        h.version <= SEALED_FORMAT_VERSION,
    ensures
        (h.bytes_spec() + aad).len() == SEALED_HEADER_SIZE + aad.len(),
        (h.bytes_spec() + aad).subrange(0, 4) == seal_magic(),
        u32_from_le(
            (h.bytes_spec() + aad)[4],
            (h.bytes_spec() + aad)[5],
            (h.bytes_spec() + aad)[6],
            (h.bytes_spec() + aad)[7],
        ) == h.version,
        (h.bytes_spec() + aad).skip(SEALED_HEADER_SIZE as int) == aad,
{
    let c = h.bytes_spec() + aad;
    assert(c.subrange(0, 4) =~= h.magic@);
    assert(c.subrange(4, 8) =~= u32_le(h.version));
    crate::bytes::lemma_u32_le_roundtrip(h.version);
    assert(c.skip(SEALED_HEADER_SIZE as int) =~= aad);
}

/// The 32 header bytes a headered blob carries in front of the caller's
/// AAD: magic, format version, a zero timestamp, the two lengths, and zero
/// reserved bytes.
pub open spec fn sealed_header_bytes(plaintext_len: u32, aad_len: u32) -> Seq<u8> {
    seal_magic() + u32_le(SEALED_FORMAT_VERSION) + crate::bytes::u64_le(0u64) + u32_le(
        plaintext_len,
    ) + u32_le(aad_len) + Seq::<u8>::new(8, |i: int| 0u8)
}

/// Seal data with a self-describing header prepended to the AAD.
pub fn seal_data_with_header(
    identity: &CompartmentIdentity,
    plaintext: &[u8],
    aad: &[u8],
    policy: SealingPolicy,
) -> (r: EnclaveResult<Vec<u8>>)
    ensures
        !seal_with_header_ok(plaintext@, aad@) ==> (r matches Err(e) && e is InvalidParameter),
        seal_with_header_ok(plaintext@, aad@) ==> (r is Ok || (r matches Err(e) && e
            is SealError)),
        r matches Ok(blob) ==> seal_with_header_ok(plaintext@, aad@) && blob@.len()
            == plaintext@.len() + aad@.len() + SEALED_HEADER_SIZE + SEALED_OVERHEAD && blob@[0]
            == policy_byte(policy) && unseal_to(*identity, blob@) == Some(
            (plaintext@, sealed_header_bytes(plaintext@.len() as u32, aad@.len() as u32) + aad@),
        ) && unseal_with_header_to(*identity, blob@) == Some((plaintext@, aad@)),
{
    if plaintext.len() == 0 || plaintext.len() > 0xffff_ffffusize {
        return Err(EnclaveError::InvalidParameter);
    }
    if aad.len() > 0xffff_ffffusize - SEALED_HEADER_SIZE {
        return Err(EnclaveError::InvalidParameter);
    }
    if aad.len() > usize::MAX - SEALED_HEADER_SIZE - SEALED_OVERHEAD || plaintext.len()
        > usize::MAX - SEALED_HEADER_SIZE - SEALED_OVERHEAD - aad.len() {
        return Err(EnclaveError::InvalidParameter);
    }

    let header = SealedDataHeader::new(plaintext.len() as u32, aad.len() as u32);
    let mut combined = header.to_bytes();
    append_bytes(&mut combined, aad);

    let result = seal_data(identity, plaintext, combined.as_slice(), policy);
    proof {
        assert(header.reserved@ =~= Seq::<u8>::new(8, |i: int| 0u8));
        assert(combined@ == sealed_header_bytes(plaintext@.len() as u32, aad@.len() as u32)
            + aad@);
        if result is Ok {
            lemma_header_prefix(header, aad@);
            assert(unseal_with_header_to(*identity, result->Ok_0@) == Some((plaintext@, aad@)));
        }
    }
    result
}

/// Unseal a headered blob, validating the header and returning the
/// plaintext and the caller's original AAD.
pub fn unseal_data_with_header(identity: &CompartmentIdentity, sealed: &[u8]) -> (r: EnclaveResult<
    (Vec<u8>, Vec<u8>),
>)
    ensures
        sealed@.len() == 0 ==> (r matches Err(e) && e is InvalidParameter),
        sealed@.len() > 0 ==> match unseal_with_header_to(*identity, sealed@) {
            Some(pa) => (r matches Ok(v) && v.0@ == pa.0 && v.1@ == pa.1),
            None => (r matches Err(e) && e is UnsealError),
        },
{
    let (plaintext, combined) = match unseal_data(identity, sealed) {
        Ok(v) => v,
        Err(e) => {
            return Err(e);
        },
    };
    if combined.len() < SEALED_HEADER_SIZE {
        return Err(EnclaveError::UnsealError("missing header".to_owned()));
    }
    let magic = bytes_range(combined.as_slice(), 0, 4);
    let expected = crate::types::seal_magic_bytes();
    let magic_ok = crate::bytes::bytes_eq(magic.as_slice(), expected.as_slice());
    let version = read_u32_le(combined.as_slice(), 4);
    if !magic_ok || version > SEALED_FORMAT_VERSION {
        return Err(EnclaveError::UnsealError("invalid header".to_owned()));
    }
    let aad = bytes_range(combined.as_slice(), SEALED_HEADER_SIZE, combined.len());
    proof {
        assert(aad@ =~= combined@.skip(SEALED_HEADER_SIZE as int));
    }
    Ok((plaintext, aad))
}

/// The bytes [`derive_key`] yields: the key-derivation chain applied to the
/// policy-scoped sealing key with the caller's key id as context.
pub open spec fn derive_key_bytes(
    identity: CompartmentIdentity,
    key_id: Seq<u8>,
    key_len: nat,
    policy: SealingPolicy,
) -> Seq<u8> {
    hkdf_bytes(seal_key_bytes(identity, policy), Seq::<u8>::empty(), key_id, key_len)
}

/// Derive a deterministic key from the compartment's identity and a caller
/// context: the same `(identity, key_id, key_len, policy)` always yields the
/// same bytes.
pub fn derive_key(
    identity: &CompartmentIdentity,
    key_id: &[u8],
    key_len: usize,
    policy: SealingPolicy,
) -> (r: EnclaveResult<Vec<u8>>)
    ensures
        key_len > HKDF_MAX_OUTPUT ==> (r matches Err(e) && e is InvalidParameter),
        key_len <= HKDF_MAX_OUTPUT ==> (r matches Ok(k) && k@ == derive_key_bytes(
            *identity,
            key_id@,
            key_len as nat,
            policy,
        ) && k@.len() == key_len),
{
    let key = seal_key(identity, policy);
    let salt: Vec<u8> = Vec::new();
    crate::crypto::hkdf_sha256(key.as_slice(), salt.as_slice(), key_id, key_len)
}

/// Signer-bound blobs are portable across an upgrade: a blob carrying the
/// signer-bound policy unseals the same way under any two identities with
/// the same signer measurement, whatever their content measurements.
pub proof fn lemma_unseal_portable(
    id1: CompartmentIdentity,
    id2: CompartmentIdentity,
    blob: Seq<u8>,
)
    requires
        id1.mr_signer_view() == id2.mr_signer_view(),
        blob.len() > 0,
        blob[0] == policy_byte(SealingPolicy::MrSigner),
    ensures
        unseal_to(id1, blob) == unseal_to(id2, blob),
{
    assert(seal_key_bytes(id1, SealingPolicy::MrSigner) == seal_key_bytes(
        id2,
        SealingPolicy::MrSigner,
    ));
}

/// Content-bound blobs are tied to one exact build: a blob carrying the
/// content-bound policy unseals the same way under any two identities with
/// the same content measurement, whoever signed them.
pub proof fn lemma_unseal_strict(id1: CompartmentIdentity, id2: CompartmentIdentity, blob: Seq<u8>)
    requires
        id1.mr_enclave_view() == id2.mr_enclave_view(),
        blob.len() > 0,
        blob[0] == policy_byte(SealingPolicy::MrEnclave),
    ensures
        unseal_to(id1, blob) == unseal_to(id2, blob),
{
    assert(seal_key_bytes(id1, SealingPolicy::MrEnclave) == seal_key_bytes(
        id2,
        SealingPolicy::MrEnclave,
    ));
}

/// Two derivations with the same identity, key id, length and policy yield
/// the same key: derivation is a pure function of those four inputs.
pub proof fn lemma_derive_key_deterministic(
    identity: CompartmentIdentity,
    key_id: Seq<u8>,
    key_len: nat,
    policy: SealingPolicy,
    k1: Seq<u8>,
    k2: Seq<u8>,
)
    requires
        k1 == derive_key_bytes(identity, key_id, key_len, policy),
        k2 == derive_key_bytes(identity, key_id, key_len, policy),
    ensures
        k1 == k2,
{
}

} // verus!
