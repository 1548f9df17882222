//! The compartment state machine: the single source of truth on the trusted
//! side. It holds the initialization flag, the session identity token, and
//! the named-key registry, and dispatches every entry point; no operation
//! other than initialization runs before `initialize` has succeeded.

use vstd::prelude::*;

use vstd::string::StringSliceAdditionalSpecFns;

use crate::attestation::{
    generate_report as make_report, report_data_embedded, report_mac_of, report_target_mr, Report,
    TargetInfo,
};
use crate::crypto::{
    aes_gcm_dec, aes_gcm_enc, ecdsa_pub_of, ecdsa_valid_private, ecdsa_verify_ok, sha256_of,
    AesGcm, EcdsaKeyPair,
};
use crate::sealing::{seal_ok, unseal_to, SealingPolicy, SEALED_OVERHEAD};
use crate::types::{CompartmentIdentity, EnclaveError, EnclaveResult, KeyType};

verus! {

/// A key held in the compartment's registry; the private material never
/// leaves the compartment.
pub struct KeyEntry {
    key_type: KeyType,
    private_key: Vec<u8>,
    public_key: Vec<u8>,
}

impl KeyEntry {
    /// The kind of key this entry holds.
    pub closed spec fn key_type_view(self) -> KeyType {
        self.key_type
    }

    /// The private key material (spec-level only).
    pub closed spec fn private_view(self) -> Seq<u8> {
        self.private_key@
    }

    /// The public key material.
    pub closed spec fn public_view(self) -> Seq<u8> {
        self.public_key@
    }

    /// A registry entry holds a usable signing key whose public half
    /// matches its private half.
    pub open spec fn wf(self) -> bool {
        &&& self.key_type_view() == KeyType::EcdsaP256
        &&& self.private_view().len() == 32
        &&& ecdsa_valid_private(self.private_view())
        &&& self.public_view() == ecdsa_pub_of(self.private_view())
        &&& self.public_view().len() == 65
    }
}

/// The entry a registry holds for an id: the most recently inserted one,
/// since re-registering an id silently overwrites.
pub open spec fn lookup_keys(keys: Seq<(Vec<u8>, KeyEntry)>, id: Seq<u8>) -> Option<KeyEntry>
    decreases keys.len(),
{
    if keys.len() == 0 {
        None
    } else if keys.last().0@ == id {
        Some(keys.last().1)
    } else {
        lookup_keys(keys.drop_last(), id)
    }
}

/// A compartment instance: identity, session token, and key registry,
/// created once per load and destroyed (with all its contents) on unload.
pub struct Compartment {
    initialized: bool,
    enclave_id: Vec<u8>,
    identity: CompartmentIdentity,
    keys: Vec<(Vec<u8>, KeyEntry)>,
}

impl Compartment {
    /// Whether `initialize` has succeeded.
    pub closed spec fn is_initialized(self) -> bool {
        self.initialized
    }

    /// The 32-byte session identity token.
    pub closed spec fn enclave_id_view(self) -> Seq<u8> {
        self.enclave_id@
    }

    /// The compartment's identity.
    pub closed spec fn identity_view(self) -> CompartmentIdentity {
        self.identity
    }

    /// The key registry's entries.
    pub closed spec fn keys_view(self) -> Seq<(Vec<u8>, KeyEntry)> {
        self.keys@
    }

    /// The registry entry for a key id, if any.
    pub open spec fn key_lookup(self, id: Seq<u8>) -> Option<KeyEntry> {
        lookup_keys(self.keys_view(), id)
    }

    /// Whether the registry holds an ECDSA P-256 entry for `id` whose
    /// public key is `public_key`.
    pub open spec fn key_registered(self, id: Seq<u8>, public_key: Seq<u8>) -> bool {
        match self.key_lookup(id) {
            Some(e) => e.public_view() == public_key && e.key_type_view() == KeyType::EcdsaP256,
            None => false,
        }
    }

    #[verifier::type_invariant]
    closed spec fn wf(self) -> bool {
        &&& self.enclave_id@.len() == 32
        &&& forall|i: int| 0 <= i < self.keys@.len() ==> (#[trigger] self.keys@[i]).1.wf()
    }

    /// Create an uninitialized compartment instance with the given
    /// identity; the identity token stays zero until `initialize`.
    pub fn new(identity: CompartmentIdentity) -> (r: Self)
        ensures
            !r.is_initialized(),
            r.identity_view() == identity,
            r.enclave_id_view() == Seq::<u8>::new(32, |i: int| 0u8),
            r.keys_view() == Seq::<(Vec<u8>, KeyEntry)>::empty(),
    {
        let r = Self {
            initialized: false,
            enclave_id: crate::bytes::zero_bytes(32),
            identity,
            keys: Vec::new(),
        };
        proof {
            assert(r.keys@ =~= Seq::<(Vec<u8>, KeyEntry)>::empty());
        }
        r
    }

    /// The compartment's identity.
    pub fn identity(&self) -> (r: &CompartmentIdentity)
        ensures
            *r == self.identity_view(),
    {
        &self.identity
    }

    /// Initialize the compartment, generating the random identity token.
    /// Idempotent: once initialized, later calls return the existing token
    /// and change nothing.
    pub fn initialize(&mut self) -> (r: EnclaveResult<Vec<u8>>)
        ensures
            old(self).is_initialized() ==> (r matches Ok(v) && v@ == old(self).enclave_id_view()
                && *final(self) == *old(self)),
            r matches Ok(v) ==> final(self).is_initialized() && v@.len() == 32 && final(self).enclave_id_view() == v@ && final(self).identity_view() == old(self).identity_view()
                && final(self).keys_view() == old(self).keys_view(),
            r matches Err(e) ==> e is CryptoError && *final(self) == *old(self)
                && !old(self).is_initialized(),
    {
        proof {
            use_type_invariant(&*self);
        }
        if self.initialized {
            return Ok(crate::bytes::bytes_to_vec(self.enclave_id.as_slice()));
        }
        let token = match crate::crypto::random_bytes(32) {
            Ok(v) => v,
            Err(e) => {
                return Err(e);
            },
        };
        self.enclave_id = token;
        self.initialized = true;
        Ok(crate::bytes::bytes_to_vec(self.enclave_id.as_slice()))
    }

    /// Report readiness: succeeds exactly when the compartment has been
    /// initialized, and otherwise fails with the dedicated not-ready error.
    pub fn health_check(&self) -> (r: EnclaveResult<()>)
        ensures
            r is Ok <==> self.is_initialized(),
            !self.is_initialized() ==> (r matches Err(e) && e is NotInitialized),
    {
        if self.initialized {
            Ok(())
        } else {
            Err(EnclaveError::NotInitialized)
        }
    }

    /// Seal data under the compartment's identity with the signer-bound
    /// policy, so any compartment signed by the same key can unseal it.
    pub fn seal_data(&self, plaintext: &[u8], aad: &[u8]) -> (r: EnclaveResult<Vec<u8>>)
        ensures
            !self.is_initialized() ==> (r matches Err(e) && e is NotInitialized),
            self.is_initialized() ==> {
                &&& !seal_ok(plaintext@, aad@) ==> (r matches Err(e) && e is InvalidParameter)
                &&& seal_ok(plaintext@, aad@) ==> (r is Ok || (r matches Err(e) && e
                    is SealError))
                &&& r matches Ok(blob) ==> seal_ok(plaintext@, aad@) && blob@.len()
                    == plaintext@.len() + aad@.len() + SEALED_OVERHEAD && blob@[0]
                    == crate::sealing::policy_byte(SealingPolicy::MrSigner) && unseal_to(
                    self.identity_view(),
                    blob@,
                ) == Some((plaintext@, aad@))
            },
    {
        if !self.initialized {
            return Err(EnclaveError::NotInitialized);
        }
        crate::sealing::seal_data(&self.identity, plaintext, aad, SealingPolicy::MrSigner)
    }

    /// Unseal a blob previously sealed under a satisfying identity,
    /// returning the plaintext.
    pub fn unseal_data(&self, sealed: &[u8]) -> (r: EnclaveResult<Vec<u8>>)
        ensures
            !self.is_initialized() ==> (r matches Err(e) && e is NotInitialized),
            self.is_initialized() ==> {
                &&& sealed@.len() == 0 ==> (r matches Err(e) && e is InvalidParameter)
                &&& sealed@.len() > 0 ==> match unseal_to(self.identity_view(), sealed@) {
                    Some(pa) => (r matches Ok(v) && v@ == pa.0),
                    None => (r matches Err(e) && e is UnsealError),
                }
            },
    {
        if !self.initialized {
            return Err(EnclaveError::NotInitialized);
        }
        match crate::sealing::unseal_data(&self.identity, sealed) {
            Ok((plaintext, _aad)) => Ok(plaintext),
            Err(e) => Err(e),
        }
    }

    /// Unseal into a caller-owned buffer. The buffer's length is the
    /// caller's capacity: on success the plaintext overwrites its prefix and
    /// the plaintext length is returned; if the buffer is too small, the
    /// exact required size is reported and the buffer is left untouched.
    pub fn unseal_into(&self, sealed: &[u8], output: &mut Vec<u8>) -> (r: EnclaveResult<usize>)
        ensures
            !self.is_initialized() ==> (r matches Err(e) && e is NotInitialized && *final(output)
                == *old(output)),
            self.is_initialized() ==> {
                &&& sealed@.len() == 0 ==> (r matches Err(e) && e is InvalidParameter && *final(output) == *old(output))
                &&& sealed@.len() > 0 ==> match unseal_to(self.identity_view(), sealed@) {
                    Some(pa) => {
                        if old(output)@.len() < pa.0.len() {
                            r matches Err(e) && e matches EnclaveError::BufferTooSmall {
                                required,
                                provided,
                            } && required == pa.0.len() && provided == old(output)@.len()
                                && *final(output) == *old(output)
                        } else {
                            r matches Ok(n) && n == pa.0.len() && final(output)@ == pa.0 + old(output)@.skip(n as int)
                        }
                    },
                    None => (r matches Err(e) && e is UnsealError && *final(output) == *old(output)),
                }
            },
    {
        if !self.initialized {
            return Err(EnclaveError::NotInitialized);
        }
        let (plaintext, _aad) = match crate::sealing::unseal_data(&self.identity, sealed) {
            Ok(v) => v,
            Err(e) => {
                return Err(e);
            },
        };
        if output.len() < plaintext.len() {
            return Err(
                EnclaveError::BufferTooSmall {
                    required: plaintext.len(),
                    provided: output.len(),
                },
            );
        }
        let n = plaintext.len();
        let rest = crate::bytes::bytes_range(output.as_slice(), n, output.len());
        let mut filled = plaintext;
        crate::bytes::append_bytes(&mut filled, rest.as_slice());
        *output = filled;
        Ok(n)
    }

    /// Seal into a caller-owned buffer: the blob overwrites the buffer's
    /// prefix and its length is returned; if the buffer is too small, the
    /// exact required size is reported and the buffer is left untouched.
    pub fn seal_into(&self, plaintext: &[u8], aad: &[u8], output: &mut Vec<u8>) -> (r:
        EnclaveResult<usize>)
        ensures
            !self.is_initialized() ==> (r matches Err(e) && e is NotInitialized && *final(output)
                == *old(output)),
            self.is_initialized() ==> {
                &&& !seal_ok(plaintext@, aad@) ==> (r matches Err(e) && e is InvalidParameter
                    && *final(output) == *old(output))
                &&& seal_ok(plaintext@, aad@) && old(output)@.len() < plaintext@.len()
                    + aad@.len() + SEALED_OVERHEAD ==> (r matches Err(e) && e
                    matches EnclaveError::BufferTooSmall { required, provided } && required
                    == plaintext@.len() + aad@.len() + SEALED_OVERHEAD && provided == old(output)@.len() && *final(output) == *old(output))
                &&& seal_ok(plaintext@, aad@) && old(output)@.len() >= plaintext@.len()
                    + aad@.len() + SEALED_OVERHEAD ==> ((r matches Ok(n) && n == plaintext@.len()
                    + aad@.len() + SEALED_OVERHEAD && final(output)@.len() == old(output)@.len()
                    && final(output)@[0] == crate::sealing::policy_byte(SealingPolicy::MrSigner)
                    && unseal_to(self.identity_view(), final(output)@.take(n as int)) == Some(
                    (plaintext@, aad@),
                ) && final(output)@.skip(n as int) == old(output)@.skip(n as int)) || (r
                    matches Err(e) && e is SealError && *final(output) == *old(output)))
            },
    {
        if !self.initialized {
            return Err(EnclaveError::NotInitialized);
        }
        if plaintext.len() == 0 || plaintext.len() > 0xffff_ffffusize || aad.len()
            > 0xffff_ffffusize {
            return Err(EnclaveError::InvalidParameter);
        }
        if aad.len() > usize::MAX - SEALED_OVERHEAD || plaintext.len() > usize::MAX
            - SEALED_OVERHEAD - aad.len() {
            return Err(EnclaveError::InvalidParameter);
        }
        let required = crate::sealing::calc_sealed_size(plaintext.len(), aad.len());
        if output.len() < required {
            return Err(
                EnclaveError::BufferTooSmall { required, provided: output.len() },
            );
        }
        let blob = match crate::sealing::seal_data(
            &self.identity,
            plaintext,
            aad,
            SealingPolicy::MrSigner,
        ) {
            Ok(b) => b,
            Err(e) => {
                return Err(e);
            },
        };
        let n = blob.len();
        let ghost blob_view = blob@;
        let rest = crate::bytes::bytes_range(output.as_slice(), n, output.len());
        let mut filled = blob;
        crate::bytes::append_bytes(&mut filled, rest.as_slice());
        *output = filled;
        proof {
            assert(output@.take(n as int) =~= blob_view);
            assert(output@.skip(n as int) =~= old(output)@.skip(n as int));
        }
        Ok(n)
    }

    /// Generate an ECDSA P-256 key pair, store it in the registry under
    /// `key_id` (silently overwriting an existing entry for that id), and
    /// return the 65-byte public key.
    pub fn generate_ecdsa_keypair(&mut self, key_id: &str) -> (r: EnclaveResult<Vec<u8>>)
        ensures
            !old(self).is_initialized() ==> (r matches Err(e) && e is NotInitialized && *final(self) == *old(self)),
            r matches Err(e) ==> (e is NotInitialized || e is CryptoError) && *final(self)
                == *old(self),
            r matches Err(e) && e is NotInitialized ==> !old(self).is_initialized(),
            r matches Ok(pk) ==> old(self).is_initialized() && pk@.len() == 65 && pk@[0] == 4
                && final(self).key_registered(key_id.spec_bytes(), pk@) && final(self).is_initialized() && final(self).enclave_id_view() == old(self).enclave_id_view() && final(self).identity_view()
                == old(self).identity_view() && (forall|other: Seq<u8>|
                other != key_id.spec_bytes() ==> final(self).key_lookup(other) == old(self).key_lookup(other)),
    {
        proof {
            use_type_invariant(&*self);
        }
        if !self.initialized {
            return Err(EnclaveError::NotInitialized);
        }
        let keypair = match EcdsaKeyPair::generate() {
            Ok(kp) => kp,
            Err(e) => {
                return Err(e);
            },
        };
        let public_key = keypair.public_key_bytes();
        let entry = KeyEntry {
            key_type: KeyType::EcdsaP256,
            private_key: keypair.private_key_bytes(),
            public_key: keypair.public_key_bytes(),
        };
        let id_bytes = crate::bytes::bytes_to_vec(key_id.as_bytes());

        let ghost old_keys = self.keys@;
        let mut keys: Vec<(Vec<u8>, KeyEntry)> = Vec::new();
        core::mem::swap(&mut keys, &mut self.keys);
        keys.push((id_bytes, entry));
        core::mem::swap(&mut keys, &mut self.keys);

        proof {
            assert(self.keys@.last().0@ == key_id.spec_bytes());
            assert(self.keys@.drop_last() =~= old_keys);
            assert forall|other: Seq<u8>| other != key_id.spec_bytes() implies lookup_keys(
                self.keys@,
                other,
            ) == lookup_keys(old_keys, other) by {
                assert(self.keys@.drop_last() =~= old_keys);
            }
        }
        Ok(public_key)
    }

    /// Sign data with the registry key stored under `key_id`; the data is
    /// hashed with SHA-256 and the signature is raw `r(32) || s(32)`, which
    /// verifies under the public key returned at generation. Signing is
    /// deterministic, so with a registered key the call succeeds exactly
    /// when the named signing outcome exists, and returns that signature.
    pub fn ecdsa_sign(&self, key_id: &str, data: &[u8]) -> (r: EnclaveResult<Vec<u8>>)
        ensures
            !self.is_initialized() ==> (r matches Err(e) && e is NotInitialized),
            self.is_initialized() && self.key_lookup(key_id.spec_bytes()) is None ==> (r
                matches Err(e) && e matches EnclaveError::KeyNotFound(s) && s@ == key_id@),
            self.is_initialized() ==> match self.key_lookup(key_id.spec_bytes()) {
                Some(entry) => {
                    &&& r is Ok <==> crate::crypto::ecdsa_sign_ok(entry.private_view(), data@)
                    &&& r matches Ok(sig) ==> sig@ == crate::crypto::ecdsa_sig_of(
                        entry.private_view(),
                        data@,
                    ) && sig@.len() == 64 && ecdsa_verify_ok(entry.public_view(), data@, sig@)
                    &&& r matches Err(e) ==> e is CryptoError
                },
                None => r matches Err(e) && e is KeyNotFound,
            },
            r matches Err(e) ==> e is NotInitialized || e is KeyNotFound || e is CryptoError,
    {
        proof {
            use_type_invariant(&*self);
        }
        if !self.initialized {
            return Err(EnclaveError::NotInitialized);
        }
        let idx = match self.find_key_index(key_id.as_bytes()) {
            Some(i) => i,
            None => {
                return Err(EnclaveError::KeyNotFound(key_id.to_owned()));
            },
        };
        let entry = &self.keys[idx];
        match crate::crypto::p256_sign_raw(entry.1.private_key.as_slice(), data) {
            Ok(sig) => Ok(sig),
            Err(_) => Err(EnclaveError::CryptoError("signing failed".to_owned())),
        }
    }

    /// Compute the SHA-256 hash of `data`.
    pub fn sha256(&self, data: &[u8]) -> (r: EnclaveResult<Vec<u8>>)
        ensures
            !self.is_initialized() ==> (r matches Err(e) && e is NotInitialized),
            self.is_initialized() ==> (r matches Ok(h) && h@ == sha256_of(data@) && h@.len()
                == 32),
    {
        if !self.initialized {
            return Err(EnclaveError::NotInitialized);
        }
        crate::crypto::sha256(data)
    }

    /// Encrypt with a caller-supplied AES-256 key and nonce (not drawn from
    /// the registry), returning the ciphertext and 16-byte tag.
    pub fn aes_gcm_encrypt(&self, key: &[u8], iv: &[u8], plaintext: &[u8], aad: &[u8]) -> (r:
        EnclaveResult<(Vec<u8>, Vec<u8>)>)
        ensures
            !AesGcm::encrypt_ok(key@, iv@, plaintext@, aad@) ==> (r matches Err(e) && e
                is InvalidParameter),
            AesGcm::encrypt_ok(key@, iv@, plaintext@, aad@) && !self.is_initialized() ==> (r
                matches Err(e) && e is NotInitialized),
            AesGcm::encrypt_ok(key@, iv@, plaintext@, aad@) && self.is_initialized() ==> (r
                matches Ok(ct_tag) && (
            ct_tag.0@,
            ct_tag.1@,
            ) == aes_gcm_enc(key@, iv@, plaintext@, aad@) && ct_tag.0@.len() == plaintext@.len()
                && ct_tag.1@.len() == 16 && aes_gcm_dec(key@, iv@, ct_tag.0@, aad@, ct_tag.1@)
                == Some(plaintext@)),
    {
        if key.len() != 32 || iv.len() != 12 {
            return Err(EnclaveError::InvalidParameter);
        }
        if plaintext.len() as u64 > crate::crypto::AES_GCM_MAX_LEN || aad.len() as u64
            > crate::crypto::AES_GCM_MAX_LEN {
            return Err(EnclaveError::InvalidParameter);
        }
        if !self.initialized {
            return Err(EnclaveError::NotInitialized);
        }
        AesGcm::encrypt(key, iv, plaintext, aad)
    }

    /// Decrypt with a caller-supplied AES-256 key and nonce, failing with a
    /// crypto error if the tag does not authenticate.
    pub fn aes_gcm_decrypt(
        &self,
        key: &[u8],
        iv: &[u8],
        ciphertext: &[u8],
        aad: &[u8],
        tag: &[u8],
    ) -> (r: EnclaveResult<Vec<u8>>)
        ensures
            key@.len() != 32 || iv@.len() != 12 || tag@.len() != 16 ==> (r matches Err(e) && e
                is InvalidParameter),
            key@.len() == 32 && iv@.len() == 12 && tag@.len() == 16 && !self.is_initialized()
                ==> (r matches Err(e) && e is NotInitialized),
            key@.len() == 32 && iv@.len() == 12 && tag@.len() == 16 && self.is_initialized()
                ==> match aes_gcm_dec(key@, iv@, ciphertext@, aad@, tag@) {
                Some(pt) => (r matches Ok(v) && v@ == pt),
                None => (r matches Err(e) && e is CryptoError),
            },
    {
        if key.len() != 32 || iv.len() != 12 || tag.len() != 16 {
            return Err(EnclaveError::InvalidParameter);
        }
        if !self.initialized {
            return Err(EnclaveError::NotInitialized);
        }
        AesGcm::decrypt(key, iv, ciphertext, aad, tag)
    }

    /// Generate an attestation report binding up to 64 bytes of caller data
    /// to the compartment's identity.
    pub fn generate_report(&self, report_data: &[u8], target_info: Option<&TargetInfo>) -> (r:
        EnclaveResult<Report>)
        ensures
            !self.is_initialized() ==> (r matches Err(e) && e is NotInitialized),
            self.is_initialized() ==> (r matches Ok(rep) && rep.wf() && rep.mr_enclave@
                == self.identity_view().mr_enclave_view() && rep.mr_signer@
                == self.identity_view().mr_signer_view() && rep.isv_prod_id
                == self.identity_view().isv_prod_id_view() && rep.isv_svn
                == self.identity_view().isv_svn_view() && rep.attr_flags == (
            if self.identity_view().is_debug_view() {
                crate::attestation::DEBUG_ATTRIBUTE_FLAG as int
            } else {
                0int
            }) && rep.attr_xfrm == 0 && rep.misc_select == 0 && rep.cpu_svn@ == Seq::<u8>::new(
                16,
                |i: int| 0u8,
            ) && report_data_embedded(report_data@, rep.report_data@) && rep.mac@ == report_mac_of(
                report_target_mr(self.identity_view(), target_info),
                rep,
            )),
    {
        if !self.initialized {
            return Err(EnclaveError::NotInitialized);
        }
        make_report(&self.identity, target_info, report_data)
    }

    /// The compartment's content and signer measurements.
    pub fn get_enclave_info(&self) -> (r: EnclaveResult<(Vec<u8>, Vec<u8>)>)
        ensures
            !self.is_initialized() ==> (r matches Err(e) && e is NotInitialized),
            self.is_initialized() ==> (r matches Ok(m) && m.0@
                == self.identity_view().mr_enclave_view() && m.1@
                == self.identity_view().mr_signer_view()),
    {
        if !self.initialized {
            return Err(EnclaveError::NotInitialized);
        }
        Ok(
            (
                crate::bytes::bytes_to_vec(self.identity.mr_enclave().as_slice()),
                crate::bytes::bytes_to_vec(self.identity.mr_signer().as_slice()),
            ),
        )
    }

    /// Index of the registry entry for `key_id`, scanning from the most
    /// recent entry so an overwritten id resolves to its latest key.
    fn find_key_index(&self, key_id: &[u8]) -> (r: Option<usize>)
        ensures
            match r {
                Some(i) => i < self.keys_view().len() && lookup_keys(self.keys_view(), key_id@)
                    == Some(self.keys_view()[i as int].1),
                None => lookup_keys(self.keys_view(), key_id@) is None,
            },
    {
        let mut i: usize = self.keys.len();
        proof {
            assert(self.keys@.take(i as int) =~= self.keys@);
        }
        while i > 0
            invariant
                i <= self.keys@.len(),
                lookup_keys(self.keys@.take(i as int), key_id@) == lookup_keys(
                    self.keys@,
                    key_id@,
                ),
            decreases i,
        {
            let j = i - 1;
            let entry = &self.keys[j];
            if crate::bytes::bytes_eq(entry.0.as_slice(), key_id) {
                proof {
                    assert(self.keys@.take(i as int).last() == self.keys@[j as int]);
                }
                return Some(j);
            }
            proof {
                assert(self.keys@.take(i as int).drop_last() =~= self.keys@.take(j as int));
            }
            i = j;
        }
        None
    }
}

} // verus!
