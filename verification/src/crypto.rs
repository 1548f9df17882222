//! Cryptographic primitives used by the sealing and attestation engines:
//! hashing, AES-256-GCM, ECDSA P-256, CMAC, random bytes, and the iterative
//! SHA-256-based key-derivation chain.
//!
//! The primitives themselves are outside calls behind trusted wrappers; their
//! results are given names (`sha256_of`, `aes_gcm_enc`, ...) that the
//! contracts of the verified layers above speak of.

use vstd::prelude::*;

use aes::Aes128;
use aes_gcm::aead::generic_array::GenericArray;
use aes_gcm::{AeadInPlace, Aes256Gcm, Key, KeyInit};
use cmac::{Cmac, Mac};
use p256::ecdsa::signature::{Signer, Verifier};
use p256::ecdsa::{Signature, SigningKey, VerifyingKey};
use rand::rngs::OsRng;
use rand::RngCore;
use sha2::{Digest, Sha256};

use crate::types::{EnclaveError, EnclaveResult};

verus! {

/// The SHA-256 digest of a byte sequence.
pub uninterp spec fn sha256_of(data: Seq<u8>) -> Seq<u8>;

/// The AES-256-GCM ciphertext and tag for a key, nonce, plaintext and
/// additional authenticated data.
pub uninterp spec fn aes_gcm_enc(key: Seq<u8>, iv: Seq<u8>, plaintext: Seq<u8>, aad: Seq<u8>) -> (
    Seq<u8>,
    Seq<u8>,
);

/// The AES-256-GCM decryption outcome for a key, nonce, ciphertext,
/// additional authenticated data and tag: the plaintext when the tag
/// authenticates, `None` otherwise.
pub uninterp spec fn aes_gcm_dec(
    key: Seq<u8>,
    iv: Seq<u8>,
    ciphertext: Seq<u8>,
    aad: Seq<u8>,
    tag: Seq<u8>,
) -> Option<Seq<u8>>;

/// The AES-128 CMAC of a byte sequence under a 16-byte key.
pub uninterp spec fn cmac_of(key: Seq<u8>, data: Seq<u8>) -> Seq<u8>;

/// Whether 32 bytes encode a valid P-256 secret scalar (non-zero, below the
/// group order).
pub uninterp spec fn ecdsa_valid_private(private_key: Seq<u8>) -> bool;

/// The SEC1 uncompressed encoding of the public key that corresponds to a
/// P-256 private key.
pub uninterp spec fn ecdsa_pub_of(private_key: Seq<u8>) -> Seq<u8>;

/// Whether ECDSA P-256 signing succeeds for a private key and message;
/// signing is deterministic (RFC 6979), so this is a function of the two.
pub uninterp spec fn ecdsa_sign_ok(private_key: Seq<u8>, message: Seq<u8>) -> bool;

/// The ECDSA P-256 signature (raw `r(32) || s(32)`) that deterministic
/// RFC 6979 signing produces for a private key and message.
pub uninterp spec fn ecdsa_sig_of(private_key: Seq<u8>, message: Seq<u8>) -> Seq<u8>;

/// Whether an ECDSA P-256 signature verifies for a SEC1-encoded public key
/// and a message (the message is hashed with SHA-256 before verification).
pub uninterp spec fn ecdsa_verify_ok(public_key: Seq<u8>, message: Seq<u8>, signature: Seq<u8>) -> bool;

/// Largest plaintext and AAD length that AES-GCM accepts (2^36 bytes).
pub const AES_GCM_MAX_LEN: u64 = 0x1000000000;

/// Relies on sha2's `Sha256::digest`: a 32-byte digest that depends on the
/// input bytes alone.
#[verifier::external_body]
pub(crate) fn sha256_raw(data: &[u8]) -> (r: Vec<u8>)
    ensures
        r@ == sha256_of(data@),
        r@.len() == 32,
{
    Sha256::digest(data).to_vec()
}

/// Relies on aes-gcm's `AeadInPlace::encrypt_in_place_detached` for
/// `Aes256Gcm`: within the documented length limits it returns a ciphertext
/// of the plaintext's length and a 16-byte tag, both functions of the
/// arguments alone, and decrypting that pair with the same key, nonce and
/// AAD gives the plaintext back.
#[verifier::external_body]
pub(crate) fn aes_gcm_encrypt_raw(key: &[u8], iv: &[u8], plaintext: &[u8], aad: &[u8]) -> (r: (
    Vec<u8>,
    Vec<u8>,
))
    requires
        key@.len() == 32,
        iv@.len() == 12,
        plaintext@.len() <= AES_GCM_MAX_LEN,
        aad@.len() <= AES_GCM_MAX_LEN,
    ensures
        (r.0@, r.1@) == aes_gcm_enc(key@, iv@, plaintext@, aad@),
        r.0@.len() == plaintext@.len(),
        r.1@.len() == 16,
        aes_gcm_dec(key@, iv@, r.0@, aad@, r.1@) == Some(plaintext@),
{
    let cipher = Aes256Gcm::new(Key::<Aes256Gcm>::from_slice(key));
    let mut buf = plaintext.to_vec();
    let tag = cipher.encrypt_in_place_detached(GenericArray::from_slice(iv), aad, &mut buf)
        .unwrap();
    (buf, tag.to_vec())
}

/// Relies on aes-gcm's `AeadInPlace::decrypt_in_place_detached` for
/// `Aes256Gcm`: deterministic in its arguments, it returns the plaintext
/// exactly when the tag authenticates the ciphertext and AAD, and fails
/// otherwise (also beyond the documented length limits), leaving no partial
/// plaintext behind.
#[verifier::external_body]
pub(crate) fn aes_gcm_decrypt_raw(key: &[u8], iv: &[u8], ciphertext: &[u8], aad: &[u8], tag: &[u8]) -> (r:
    Result<Vec<u8>, ()>)
    requires
        key@.len() == 32,
        iv@.len() == 12,
        tag@.len() == 16,
    ensures
        r is Ok <==> aes_gcm_dec(key@, iv@, ciphertext@, aad@, tag@) is Some,
        r matches Ok(pt) ==> aes_gcm_dec(key@, iv@, ciphertext@, aad@, tag@) == Some(pt@)
            && pt@.len() == ciphertext@.len(),
{
    let cipher = Aes256Gcm::new(Key::<Aes256Gcm>::from_slice(key));
    let mut buf = ciphertext.to_vec();
    let nonce = GenericArray::from_slice(iv);
    match cipher.decrypt_in_place_detached(nonce, aad, &mut buf, GenericArray::from_slice(tag)) {
        Ok(()) => Ok(buf),
        Err(_) => Err(()),
    }
}

/// Relies on cmac's `Mac` implementation for `Cmac<Aes128>`: a 16-byte MAC
/// that depends on the key and input bytes alone.
#[verifier::external_body]
pub(crate) fn cmac_raw(key: &[u8], data: &[u8]) -> (r: Vec<u8>)
    requires
        key@.len() == 16,
    ensures
        r@ == cmac_of(key@, data@),
        r@.len() == 16,
{
    let mut mac = <Cmac<Aes128> as Mac>::new_from_slice(key).unwrap();
    mac.update(data);
    mac.finalize().into_bytes().to_vec()
}

/// Relies on rand's `OsRng::try_fill_bytes`: on success the buffer is filled
/// with bytes from the operating system's entropy source; nothing is assumed
/// of their values.
#[verifier::external_body]
pub(crate) fn rng_fill_raw(len: usize) -> (r: Result<Vec<u8>, ()>)
    ensures
        r matches Ok(v) ==> v@.len() == len,
{
    let mut buf = vec![0u8; len];
    match OsRng.try_fill_bytes(&mut buf) {
        Ok(()) => Ok(buf),
        Err(_) => Err(()),
    }
}

/// Relies on p256's `SigningKey::from_slice` and
/// `VerifyingKey::to_encoded_point(false)`: for a 32-byte input it succeeds
/// exactly when the bytes are a valid secret scalar, and then returns the
/// matching public key in 65-byte SEC1 uncompressed form.
#[verifier::external_body]
pub(crate) fn p256_public_from_private_raw(private_key: &[u8]) -> (r: Result<Vec<u8>, ()>)
    requires
        private_key@.len() == 32,
    ensures
        r is Ok <==> ecdsa_valid_private(private_key@),
        r matches Ok(p) ==> p@ == ecdsa_pub_of(private_key@) && p@.len() == 65 && p@[0] == 4,
{
    match SigningKey::from_slice(private_key) {
        Ok(sk) => Ok(sk.verifying_key().to_encoded_point(false).as_bytes().to_vec()),
        Err(_) => Err(()),
    }
}

/// Relies on p256's `SigningKey::try_sign` (RFC 6979, message hashed with
/// SHA-256): the outcome is a deterministic function of the key and the
/// message, so both success and the signature carry names; a successful
/// signature is 64 bytes `r || s` and verifies under the key's public key.
#[verifier::external_body]
pub(crate) fn p256_sign_raw(private_key: &[u8], message: &[u8]) -> (r: Result<Vec<u8>, ()>)
    requires
        private_key@.len() == 32,
        ecdsa_valid_private(private_key@),
    ensures
        r is Ok <==> ecdsa_sign_ok(private_key@, message@),
        r matches Ok(sig) ==> sig@ == ecdsa_sig_of(private_key@, message@) && sig@.len() == 64
            && ecdsa_verify_ok(ecdsa_pub_of(private_key@), message@, sig@),
{
    let sk = match SigningKey::from_slice(private_key) {
        Ok(sk) => sk,
        Err(_) => return Err(()),
    };
    let sig: Result<Signature, _> = sk.try_sign(message);
    match sig {
        Ok(s) => Ok(s.to_bytes().to_vec()),
        Err(_) => Err(()),
    }
}

/// Relies on p256's `VerifyingKey::from_sec1_bytes`, `Signature::from_slice`
/// and `Verifier::verify` (message hashed with SHA-256): the outcome is a
/// function of the three byte strings alone; malformed keys or signatures
/// verify as false.
#[verifier::external_body]
pub(crate) fn p256_verify_raw(public_key: &[u8], message: &[u8], signature: &[u8]) -> (r: bool)
    ensures
        r == ecdsa_verify_ok(public_key@, message@, signature@),
{
    let vk = match VerifyingKey::from_sec1_bytes(public_key) {
        Ok(v) => v,
        Err(_) => return false,
    };
    let sig = match Signature::from_slice(signature) {
        Ok(s) => s,
        Err(_) => return false,
    };
    vk.verify(message, &sig).is_ok()
}

/// Compute the SHA-256 hash of `data`.
pub fn sha256(data: &[u8]) -> (r: EnclaveResult<Vec<u8>>)
    ensures
        r matches Ok(h) && h@ == sha256_of(data@) && h@.len() == 32,
{
    Ok(sha256_raw(data))
}

/// Streaming SHA-256: feed chunks with [`Self::update`], then consume the
/// context with [`Self::finalize`] to obtain the digest of everything fed.
pub struct Sha256Context {
    buffer: Vec<u8>,
}

impl Sha256Context {
    /// The bytes fed so far.
    pub closed spec fn fed(self) -> Seq<u8> {
        self.buffer@
    }

    /// Create a new SHA-256 context.
    pub fn new() -> (r: EnclaveResult<Self>)
        ensures
            r matches Ok(c) && c.fed() == Seq::<u8>::empty(),
    {
        Ok(Self { buffer: Vec::new() })
    }

    /// Feed more data into the hash.
    pub fn update(&mut self, data: &[u8]) -> (r: EnclaveResult<()>)
        ensures
            r is Ok,
            final(self).fed() == old(self).fed() + data@,
    {
        crate::bytes::append_bytes(&mut self.buffer, data);
        Ok(())
    }

    /// Consume the context and return the digest of all bytes fed.
    pub fn finalize(self) -> (r: EnclaveResult<Vec<u8>>)
        ensures
            r matches Ok(h) && h@ == sha256_of(self.fed()) && h@.len() == 32,
    {
        Ok(sha256_raw(self.buffer.as_slice()))
    }
}

/// Generate `len` cryptographically secure random bytes.
pub fn random_bytes(len: usize) -> (r: EnclaveResult<Vec<u8>>)
    ensures
        r matches Ok(v) ==> v@.len() == len,
        r matches Err(e) ==> e is CryptoError,
{
    match rng_fill_raw(len) {
        Ok(v) => Ok(v),
        Err(_) => Err(EnclaveError::CryptoError("random generation failed".to_owned())),
    }
}

/// Generate a random 32-byte key.
pub fn generate_key() -> (r: EnclaveResult<Vec<u8>>)
    ensures
        r matches Ok(k) ==> k@.len() == 32,
        r matches Err(e) ==> e is CryptoError,
{
    random_bytes(32)
}

/// ECDSA P-256 key pair held as raw big-endian scalar and SEC1 uncompressed
/// point bytes.
pub struct EcdsaKeyPair {
    private_key: Vec<u8>,
    public_key: Vec<u8>,
}

impl EcdsaKeyPair {
    /// The raw private scalar bytes.
    pub closed spec fn private_view(self) -> Seq<u8> {
        self.private_key@
    }

    /// The SEC1 uncompressed public key bytes.
    pub closed spec fn public_view(self) -> Seq<u8> {
        self.public_key@
    }

    #[verifier::type_invariant]
    closed spec fn wf(self) -> bool {
        &&& self.private_key@.len() == 32
        &&& ecdsa_valid_private(self.private_key@)
        &&& self.public_key@ == ecdsa_pub_of(self.private_key@)
        &&& self.public_key@.len() == 65
    }

    /// Generate a new ECDSA P-256 key pair.
    pub fn generate() -> (r: EnclaveResult<Self>)
        ensures
            r matches Ok(kp) ==> kp.private_view().len() == 32 && ecdsa_valid_private(
                kp.private_view(),
            ) && kp.public_view().len() == 65 && kp.public_view()[0] == 4 && kp.public_view()
                == ecdsa_pub_of(kp.private_view()),
            r matches Err(e) ==> e is CryptoError,
    {
        let mut attempts: usize = 0;
        while attempts < 8
            invariant
                attempts <= 8,
            decreases 8 - attempts,
        {
            match random_bytes(32) {
                Ok(candidate) => {
                    match p256_public_from_private_raw(candidate.as_slice()) {
                        Ok(public_key) => {
                            return Ok(Self { private_key: candidate, public_key });
                        },
                        Err(_) => {},
                    }
                },
                Err(_) => {},
            }
            attempts = attempts + 1;
        }
        Err(EnclaveError::CryptoError("key generation failed".to_owned()))
    }

    /// The public key in uncompressed format (65 bytes: `0x04 || x || y`).
    pub fn public_key_bytes(&self) -> (r: Vec<u8>)
        ensures
            r@ == self.public_view(),
    {
        crate::bytes::bytes_to_vec(self.public_key.as_slice())
    }

    /// The raw private key bytes.
    pub fn private_key_bytes(&self) -> (r: Vec<u8>)
        ensures
            r@ == self.private_view(),
    {
        crate::bytes::bytes_to_vec(self.private_key.as_slice())
    }

    /// Restore a key pair from raw private key bytes, recomputing the public
    /// key.
    pub fn from_private_key(private_bytes: &[u8]) -> (r: EnclaveResult<Self>)
        ensures
            private_bytes@.len() != 32 ==> (r matches Err(e) && e is InvalidParameter),
            private_bytes@.len() == 32 ==> (r is Ok <==> ecdsa_valid_private(private_bytes@)),
            r matches Ok(kp) ==> kp.private_view() == private_bytes@ && kp.public_view()
                == ecdsa_pub_of(private_bytes@) && kp.public_view().len() == 65
                && kp.public_view()[0] == 4,
            r matches Err(e) ==> e is InvalidParameter || e is CryptoError,
    {
        if private_bytes.len() != 32 {
            return Err(EnclaveError::InvalidParameter);
        }
        match p256_public_from_private_raw(private_bytes) {
            Ok(public_key) => Ok(
                Self { private_key: crate::bytes::bytes_to_vec(private_bytes), public_key },
            ),
            Err(_) => Err(EnclaveError::CryptoError("invalid private key".to_owned())),
        }
    }

    /// Sign data with ECDSA P-256; the data is hashed with SHA-256 before
    /// signing, and the signature is raw `r(32) || s(32)`. Signing is
    /// deterministic, so success and the signature are functions of the key
    /// and the data; a returned signature verifies under this key pair's
    /// public key.
    pub fn sign(&self, data: &[u8]) -> (r: EnclaveResult<Vec<u8>>)
        ensures
            r is Ok <==> ecdsa_sign_ok(self.private_view(), data@),
            r matches Ok(sig) ==> sig@ == ecdsa_sig_of(self.private_view(), data@) && sig@.len()
                == 64 && ecdsa_verify_ok(self.public_view(), data@, sig@),
            r matches Err(e) ==> e is CryptoError,
    {
        proof {
            use_type_invariant(self);
        }
        match p256_sign_raw(self.private_key.as_slice(), data) {
            Ok(sig) => Ok(sig),
            Err(_) => Err(EnclaveError::CryptoError("signing failed".to_owned())),
        }
    }

    /// Verify an ECDSA P-256 signature over `data` against this key pair's
    /// public key.
    pub fn verify(&self, data: &[u8], signature: &[u8]) -> (r: EnclaveResult<bool>)
        ensures
            signature@.len() != 64 ==> (r matches Err(e) && e is InvalidParameter),
            signature@.len() == 64 ==> (r matches Ok(b) && b == ecdsa_verify_ok(
                self.public_view(),
                data@,
                signature@,
            )),
    {
        if signature.len() != 64 {
            return Err(EnclaveError::InvalidParameter);
        }
        Ok(p256_verify_raw(self.public_key.as_slice(), data, signature))
    }
}

/// Verify an ECDSA P-256 signature against a SEC1-encoded public key.
pub fn ecdsa_verify(public_key: &[u8], data: &[u8], signature: &[u8]) -> (r: bool)
    ensures
        r == ecdsa_verify_ok(public_key@, data@, signature@),
{
    p256_verify_raw(public_key, data, signature)
}

/// Compute the AES-128 CMAC of `data` under a 16-byte key.
pub fn cmac(key: &[u8], data: &[u8]) -> (r: EnclaveResult<Vec<u8>>)
    ensures
        key@.len() != 16 ==> (r matches Err(e) && e is InvalidParameter),
        key@.len() == 16 ==> (r matches Ok(m) && m@ == cmac_of(key@, data@) && m@.len() == 16),
{
    if key.len() != 16 {
        return Err(EnclaveError::InvalidParameter);
    }
    Ok(cmac_raw(key, data))
}

/// Largest output length the key-derivation chain can produce: the block
/// counter is a single byte, so at most 255 blocks of 32 bytes each.
pub const HKDF_MAX_OUTPUT: usize = 8160;

/// The salt actually hashed by the derivation chain: 32 zero bytes when the
/// caller passed an empty salt.
pub open spec fn hkdf_salt_or_zero(salt: Seq<u8>) -> Seq<u8> {
    if salt.len() == 0 {
        Seq::<u8>::new(32, |i: int| 0u8)
    } else {
        salt
    }
}

/// Block `i` of the derivation chain: block 0 is
/// `SHA256(salt_or_zero32 || ikm || info)`, and block `i` for `i >= 1` is
/// `SHA256(block_{i-1} || info || i)` with the counter as a single byte.
pub open spec fn hkdf_block(ikm: Seq<u8>, salt: Seq<u8>, info: Seq<u8>, i: nat) -> Seq<u8>
    decreases i,
{
    if i == 0 {
        sha256_of(hkdf_salt_or_zero(salt) + ikm + info)
    } else {
        sha256_of(hkdf_block(ikm, salt, info, (i - 1) as nat) + info + seq![i as u8])
    }
}

/// The remaining `len` output bytes of the derivation chain, starting at
/// block `i`: whole blocks while 32 or more bytes remain, then a prefix of
/// the final block.
pub open spec fn hkdf_expand(ikm: Seq<u8>, salt: Seq<u8>, info: Seq<u8>, len: nat, i: nat) -> Seq<
    u8,
>
    decreases len,
{
    if len == 0 {
        Seq::<u8>::empty()
    } else if len >= 32 {
        hkdf_block(ikm, salt, info, i) + hkdf_expand(ikm, salt, info, (len - 32) as nat, i + 1)
    } else {
        hkdf_block(ikm, salt, info, i).take(len as int)
    }
}

/// The full output of the derivation chain: blocks from index 1, truncated
/// to `len` bytes.
pub open spec fn hkdf_bytes(ikm: Seq<u8>, salt: Seq<u8>, info: Seq<u8>, len: nat) -> Seq<u8> {
    hkdf_expand(ikm, salt, info, len, 1)
}

/// Derive `output_len` bytes from input keying material with the iterative
/// SHA-256 chain: `block_0 = SHA256(salt_or_zero32 || ikm || info)`,
/// `block_i = SHA256(block_{i-1} || info || i)`, output
/// `block_1 || block_2 || ...` truncated to `output_len`.
pub fn hkdf_sha256(ikm: &[u8], salt: &[u8], info: &[u8], output_len: usize) -> (r: EnclaveResult<
    Vec<u8>,
>)
    ensures
        output_len > HKDF_MAX_OUTPUT ==> (r matches Err(e) && e is InvalidParameter),
        output_len <= HKDF_MAX_OUTPUT ==> (r matches Ok(v) && v@ == hkdf_bytes(
            ikm@,
            salt@,
            info@,
            output_len as nat,
        ) && v@.len() == output_len),
{
    if output_len > HKDF_MAX_OUTPUT {
        return Err(EnclaveError::InvalidParameter);
    }

    // Block 0: hash the effective salt, the keying material and the context.
    let mut seed: Vec<u8> = Vec::new();
    if salt.len() == 0 {
        let zeros = crate::bytes::zero_bytes(32);
        crate::bytes::append_bytes(&mut seed, zeros.as_slice());
        proof {
            assert(seed@ =~= hkdf_salt_or_zero(salt@));
        }
    } else {
        crate::bytes::append_bytes(&mut seed, salt);
    }
    crate::bytes::append_bytes(&mut seed, ikm);
    crate::bytes::append_bytes(&mut seed, info);
    let mut prev = sha256_raw(seed.as_slice());

    let mut output: Vec<u8> = Vec::new();
    let mut counter: usize = 1;
    while output.len() < output_len
        invariant
            output_len <= HKDF_MAX_OUTPUT,
            1 <= counter,
            output@.len() <= output_len,
            output@.len() < output_len ==> output@.len() == 32 * (counter - 1),
            prev@ == hkdf_block(ikm@, salt@, info@, (counter - 1) as nat),
            prev@.len() == 32,
            hkdf_bytes(ikm@, salt@, info@, output_len as nat) == output@ + hkdf_expand(
                ikm@,
                salt@,
                info@,
                (output_len - output@.len()) as nat,
                counter as nat,
            ),
        decreases output_len - output@.len(),
    {
        // counter stays below 256: 32 * (counter - 1) < output_len <= 8160.
        assert(counter <= 255);
        let mut msg: Vec<u8> = Vec::new();
        crate::bytes::append_bytes(&mut msg, prev.as_slice());
        crate::bytes::append_bytes(&mut msg, info);
        msg.push(counter as u8);
        let block = sha256_raw(msg.as_slice());
        proof {
            assert(msg@ =~= hkdf_block(ikm@, salt@, info@, (counter - 1) as nat) + info@ + seq![
                counter as u8,
            ]);
            assert(block@ == hkdf_block(ikm@, salt@, info@, counter as nat));
        }

        let remaining = output_len - output.len();
        let needed: usize = if remaining < 32 {
            remaining
        } else {
            32
        };
        let ghost old_output = output@;
        let mut j: usize = 0;
        while j < needed
            invariant
                j <= needed,
                needed <= 32,
                block@.len() == 32,
                output@ =~= old_output + block@.subrange(0, j as int),
            decreases needed - j,
        {
            output.push(block[j]);
            j = j + 1;
        }
        proof {
            if remaining >= 32 {
                assert(block@.subrange(0, 32) =~= block@);
                assert(hkdf_expand(ikm@, salt@, info@, remaining as nat, counter as nat)
                    == block@ + hkdf_expand(
                    ikm@,
                    salt@,
                    info@,
                    (remaining - 32) as nat,
                    (counter + 1) as nat,
                ));
            } else {
                assert(hkdf_expand(ikm@, salt@, info@, remaining as nat, counter as nat)
                    == block@.take(remaining as int));
                assert(hkdf_expand(ikm@, salt@, info@, 0nat, (counter + 1) as nat)
                    == Seq::<u8>::empty());
            }
            assert(output@ + hkdf_expand(
                ikm@,
                salt@,
                info@,
                (output_len - output@.len()) as nat,
                (counter + 1) as nat,
            ) =~= old_output + hkdf_expand(
                ikm@,
                salt@,
                info@,
                (output_len - old_output.len()) as nat,
                counter as nat,
            ));
        }
        prev = block;
        counter = counter + 1;
    }
    proof {
        assert(hkdf_expand(ikm@, salt@, info@, 0nat, counter as nat) == Seq::<u8>::empty());
        assert(output@ =~= hkdf_bytes(ikm@, salt@, info@, output_len as nat));
    }
    Ok(output)
}

/// AES-256-GCM authenticated encryption.
pub struct AesGcm;

impl AesGcm {
    /// Whether the argument lengths are accepted by [`AesGcm::encrypt`].
    pub open spec fn encrypt_ok(key: Seq<u8>, iv: Seq<u8>, plaintext: Seq<u8>, aad: Seq<u8>) -> bool {
        key.len() == 32 && iv.len() == 12 && plaintext.len() <= AES_GCM_MAX_LEN && aad.len()
            <= AES_GCM_MAX_LEN
    }

    /// Encrypt `plaintext` under a 32-byte key and 12-byte nonce, binding
    /// `aad`; returns the ciphertext and the 16-byte authentication tag.
    pub fn encrypt(key: &[u8], iv: &[u8], plaintext: &[u8], aad: &[u8]) -> (r: EnclaveResult<
        (Vec<u8>, Vec<u8>),
    >)
        ensures
            !Self::encrypt_ok(key@, iv@, plaintext@, aad@) ==> (r matches Err(e) && e
                is InvalidParameter),
            Self::encrypt_ok(key@, iv@, plaintext@, aad@) ==> (r matches Ok(ct_tag) && (
            ct_tag.0@,
            ct_tag.1@,
            ) == aes_gcm_enc(key@, iv@, plaintext@, aad@) && ct_tag.0@.len() == plaintext@.len()
                && ct_tag.1@.len() == 16 && aes_gcm_dec(key@, iv@, ct_tag.0@, aad@, ct_tag.1@)
                == Some(plaintext@)),
    {
        if key.len() != 32 || iv.len() != 12 {
            return Err(EnclaveError::InvalidParameter);
        }
        if plaintext.len() as u64 > AES_GCM_MAX_LEN || aad.len() as u64 > AES_GCM_MAX_LEN {
            return Err(EnclaveError::InvalidParameter);
        }
        Ok(aes_gcm_encrypt_raw(key, iv, plaintext, aad))
    }

    /// Decrypt an AES-256-GCM ciphertext, failing with a crypto error if the
    /// tag does not authenticate; no partially decrypted data is returned.
    pub fn decrypt(key: &[u8], iv: &[u8], ciphertext: &[u8], aad: &[u8], tag: &[u8]) -> (r:
        EnclaveResult<Vec<u8>>)
        ensures
            key@.len() != 32 || iv@.len() != 12 || tag@.len() != 16 ==> (r matches Err(e) && e
                is InvalidParameter),
            key@.len() == 32 && iv@.len() == 12 && tag@.len() == 16 ==> match aes_gcm_dec(
                key@,
                iv@,
                ciphertext@,
                aad@,
                tag@,
            ) {
                Some(pt) => (r matches Ok(v) && v@ == pt),
                None => (r matches Err(e) && e is CryptoError),
            },
    {
        if key.len() != 32 || iv.len() != 12 || tag.len() != 16 {
            return Err(EnclaveError::InvalidParameter);
        }
        match aes_gcm_decrypt_raw(key, iv, ciphertext, aad, tag) {
            Ok(pt) => Ok(pt),
            Err(_) => Err(EnclaveError::CryptoError("authentication failed".to_owned())),
        }
    }
}

} // verus!
