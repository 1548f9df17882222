//! The attestation engine: local reports binding 64 bytes of caller data to
//! the compartment's identity, report verification, and the fixed-layout
//! quote and evidence structures for remote verification.
//!
//! A report's MAC is keyed by a digest of the target compartment's content
//! measurement, so a self-targeted report verifies under the identity that
//! produced it.

use vstd::prelude::*;

use crate::bytes::{
    append_bytes, bytes_eq, bytes_range, push_u16_le, push_u32_le, push_u64_le, u16_le, u32_le,
    u64_le,
};
use crate::crypto::{cmac_of, cmac_raw, sha256_of, sha256_raw};
use crate::types::{AttestationData, CompartmentIdentity, EnclaveError, EnclaveResult};

verus! {

/// The attribute flag that marks a debug-mode compartment.
pub const DEBUG_ATTRIBUTE_FLAG: u64 = 2;

/// Information about a target compartment for a cross-compartment report:
/// the report is MAC'd so that the target can verify it.
pub struct TargetInfo {
    mr_enclave: Vec<u8>,
}

impl TargetInfo {
    /// The target's 32-byte content measurement.
    pub closed spec fn mr_enclave_view(self) -> Seq<u8> {
        self.mr_enclave@
    }

    #[verifier::type_invariant]
    closed spec fn wf(self) -> bool {
        self.mr_enclave@.len() == 32
    }

    /// Build target information from a 32-byte content measurement.
    pub fn new(mr_enclave: Vec<u8>) -> (r: EnclaveResult<Self>)
        ensures
            mr_enclave@.len() != 32 ==> (r matches Err(e) && e is InvalidParameter),
            mr_enclave@.len() == 32 ==> (r matches Ok(t) && t.mr_enclave_view() == mr_enclave@),
    {
        if mr_enclave.len() != 32 {
            return Err(EnclaveError::InvalidParameter);
        }
        Ok(Self { mr_enclave })
    }

    /// The target's content measurement bytes.
    pub fn mr_enclave(&self) -> (r: &Vec<u8>)
        ensures
            r@ == self.mr_enclave_view(),
            r@.len() == 32,
    {
        proof {
            use_type_invariant(self);
        }
        &self.mr_enclave
    }
}

/// A local attestation report: the compartment's identity measurements, 64
/// bytes of caller data, and a MAC keyed to the target compartment.
#[derive(Clone)]
pub struct Report {
    /// CPU security version (16 bytes; zero without hardware).
    pub cpu_svn: Vec<u8>,
    /// Miscellaneous select bits.
    pub misc_select: u32,
    /// Attribute flags; bit 1 marks a debug compartment.
    pub attr_flags: u64,
    /// Attribute extended feature mask.
    pub attr_xfrm: u64,
    /// Content measurement (32 bytes).
    pub mr_enclave: Vec<u8>,
    /// Signer measurement (32 bytes).
    pub mr_signer: Vec<u8>,
    /// Product identifier.
    pub isv_prod_id: u16,
    /// Security version number.
    pub isv_svn: u16,
    /// Caller-provided report data (64 bytes).
    pub report_data: Vec<u8>,
    /// MAC over the report body, keyed to the target compartment (16
    /// bytes).
    pub mac: Vec<u8>,
}

impl Report {
    /// The field widths of a well-formed report.
    pub open spec fn wf(self) -> bool {
        &&& self.cpu_svn@.len() == 16
        &&& self.mr_enclave@.len() == 32
        &&& self.mr_signer@.len() == 32
        &&& self.report_data@.len() == 64
        &&& self.mac@.len() == 16
    }
}

/// The byte string a report's MAC covers: every body field in order.
pub open spec fn report_mac_input(r: Report) -> Seq<u8> {
    r.cpu_svn@ + u32_le(r.misc_select) + u64_le(r.attr_flags) + u64_le(r.attr_xfrm)
        + r.mr_enclave@ + r.mr_signer@ + u16_le(r.isv_prod_id) + u16_le(r.isv_svn)
        + r.report_data@
}

/// The 16-byte report key of the compartment whose content measurement is
/// `target_mr`: a tagged digest of the measurement, truncated.
pub open spec fn report_key_bytes(target_mr: Seq<u8>) -> Seq<u8> {
    sha256_of(seq![3u8] + target_mr).take(16)
}

/// The MAC a report carries when targeted at measurement `target_mr`.
pub open spec fn report_mac_of(target_mr: Seq<u8>, r: Report) -> Seq<u8> {
    cmac_of(report_key_bytes(target_mr), report_mac_input(r))
}

/// The 64 report-data bytes a report embeds for an input: the input
/// truncated to 64 bytes and zero-padded.
pub open spec fn embedded_report_data(input: Seq<u8>) -> Seq<u8> {
    Seq::<u8>::new(
        64,
        |i: int|
            if i < input.len() {
                input[i]
            } else {
                0u8
            },
    )
}

/// Whether `embedded` is `input` truncated to 64 bytes and zero-padded.
pub open spec fn report_data_embedded(input: Seq<u8>, embedded: Seq<u8>) -> bool {
    embedded == embedded_report_data(input)
}

/// The measurement a report is targeted at: the target's when given, the
/// generating compartment's own (a self-report) otherwise.
pub open spec fn report_target_mr(
    identity: CompartmentIdentity,
    target_info: Option<&TargetInfo>,
) -> Seq<u8> {
    match target_info {
        Some(t) => t.mr_enclave_view(),
        None => identity.mr_enclave_view(),
    }
}

/// Compute the 16-byte report key for a target measurement.
fn report_key(target_mr: &[u8]) -> (r: Vec<u8>)
    ensures
        r@ == report_key_bytes(target_mr@),
        r@.len() == 16,
{
    let mut msg: Vec<u8> = Vec::new();
    msg.push(3u8);
    append_bytes(&mut msg, target_mr);
    proof {
        assert(msg@ =~= seq![3u8] + target_mr@);
    }
    let digest = sha256_raw(msg.as_slice());
    bytes_range(digest.as_slice(), 0, 16)
}

/// Serialize the byte string a report's MAC covers.
fn report_mac_input_bytes(report: &Report) -> (r: Vec<u8>)
    ensures
        r@ == report_mac_input(*report),
{
    let mut r: Vec<u8> = Vec::new();
    append_bytes(&mut r, report.cpu_svn.as_slice());
    push_u32_le(&mut r, report.misc_select);
    push_u64_le(&mut r, report.attr_flags);
    push_u64_le(&mut r, report.attr_xfrm);
    append_bytes(&mut r, report.mr_enclave.as_slice());
    append_bytes(&mut r, report.mr_signer.as_slice());
    push_u16_le(&mut r, report.isv_prod_id);
    push_u16_le(&mut r, report.isv_svn);
    append_bytes(&mut r, report.report_data.as_slice());
    proof {
        assert(r@ =~= report_mac_input(*report));
    }
    r
}

/// Generate a report binding up to 64 bytes of caller data to the
/// compartment's identity: the data is silently truncated to 64 bytes and
/// zero-padded, and `target_info = None` produces a self-targeted report.
pub fn generate_report(
    identity: &CompartmentIdentity,
    target_info: Option<&TargetInfo>,
    report_data: &[u8],
) -> (r: EnclaveResult<Report>)
    ensures
        r matches Ok(rep) && rep.wf() && rep.mr_enclave@ == identity.mr_enclave_view()
            && rep.mr_signer@ == identity.mr_signer_view() && rep.isv_prod_id
            == identity.isv_prod_id_view() && rep.isv_svn == identity.isv_svn_view()
            && rep.attr_flags == (if identity.is_debug_view() {
            DEBUG_ATTRIBUTE_FLAG as int
        } else {
            0int
        }) && rep.attr_xfrm == 0 && rep.misc_select == 0 && rep.cpu_svn@ == Seq::<u8>::new(
            16,
            |i: int| 0u8,
        ) && report_data_embedded(report_data@, rep.report_data@) && rep.mac@ == report_mac_of(
            report_target_mr(*identity, target_info),
            rep,
        ),
{
    // Embed the caller data: truncate to 64 bytes, zero-pad the rest.
    let n: usize = if report_data.len() < 64 {
        report_data.len()
    } else {
        64
    };
    let mut rd: Vec<u8> = Vec::new();
    let mut i: usize = 0;
    while i < n
        invariant
            i <= n,
            n <= 64,
            n <= report_data@.len(),
            rd@ =~= report_data@.subrange(0, i as int),
        decreases n - i,
    {
        rd.push(report_data[i]);
        i = i + 1;
    }
    while i < 64
        invariant
            n <= i <= 64,
            n <= report_data@.len(),
            rd@.len() == i,
            rd@.subrange(0, n as int) =~= report_data@.subrange(0, n as int),
            forall|j: int| n <= j < i ==> rd@[j] == 0u8,
        decreases 64 - i,
    {
        rd.push(0u8);
        i = i + 1;
    }

    let flags: u64 = if identity.is_debug() {
        DEBUG_ATTRIBUTE_FLAG
    } else {
        0
    };
    let mut report = Report {
        cpu_svn: crate::bytes::zero_bytes(16),
        misc_select: 0,
        attr_flags: flags,
        attr_xfrm: 0,
        mr_enclave: crate::bytes::bytes_to_vec(identity.mr_enclave().as_slice()),
        mr_signer: crate::bytes::bytes_to_vec(identity.mr_signer().as_slice()),
        isv_prod_id: identity.isv_prod_id(),
        isv_svn: identity.isv_svn(),
        report_data: rd,
        mac: Vec::new(),
    };
    let target_mr = match target_info {
        Some(t) => crate::bytes::bytes_to_vec(t.mr_enclave().as_slice()),
        None => crate::bytes::bytes_to_vec(identity.mr_enclave().as_slice()),
    };
    let key = report_key(target_mr.as_slice());
    let input = report_mac_input_bytes(&report);
    let mac = cmac_raw(key.as_slice(), input.as_slice());
    report.mac = mac;
    proof {
        assert forall|j: int| 0 <= j < 64 && j < report_data@.len() implies report.report_data@[j]
            == report_data@[j] by {
            assert(report.report_data@.subrange(0, n as int)[j] == report_data@.subrange(
                0,
                n as int,
            )[j]);
        }
        assert(report.report_data@ =~= embedded_report_data(report_data@));
    }
    Ok(report)
}

/// Generate a self-targeted report.
pub fn generate_self_report(identity: &CompartmentIdentity, report_data: &[u8]) -> (r:
    EnclaveResult<Report>)
    ensures
        r matches Ok(rep) && rep.wf() && rep.mr_enclave@ == identity.mr_enclave_view()
            && rep.mr_signer@ == identity.mr_signer_view() && rep.isv_prod_id
            == identity.isv_prod_id_view() && rep.isv_svn == identity.isv_svn_view()
            && rep.attr_flags == (if identity.is_debug_view() {
            DEBUG_ATTRIBUTE_FLAG as int
        } else {
            0int
        }) && rep.attr_xfrm == 0 && rep.misc_select == 0 && rep.cpu_svn@ == Seq::<u8>::new(
            16,
            |i: int| 0u8,
        ) && report_data_embedded(report_data@, rep.report_data@) && rep.mac@ == report_mac_of(
            identity.mr_enclave_view(),
            rep,
        ),
{
    generate_report(identity, None, report_data)
}

/// Read the compartment's measurements and flags as attestation data.
pub fn get_enclave_measurements(identity: &CompartmentIdentity) -> (r: EnclaveResult<
    AttestationData,
>)
    ensures
        r matches Ok(d) && d.mr_enclave@ == identity.mr_enclave_view() && d.mr_signer@
            == identity.mr_signer_view() && d.isv_prod_id == identity.isv_prod_id_view()
            && d.isv_svn == identity.isv_svn_view() && d.is_debug == identity.is_debug_view()
            && d.report_data@ == Seq::<u8>::new(64, |i: int| 0u8),
{
    Ok(
        AttestationData {
            mr_enclave: crate::bytes::bytes_to_vec(identity.mr_enclave().as_slice()),
            mr_signer: crate::bytes::bytes_to_vec(identity.mr_signer().as_slice()),
            isv_prod_id: identity.isv_prod_id(),
            isv_svn: identity.isv_svn(),
            report_data: crate::bytes::zero_bytes(64),
            is_debug: identity.is_debug(),
        },
    )
}

/// Verify a report against this compartment's report key: true exactly when
/// the MAC matches a report targeted at this compartment's measurement. A
/// mismatch is reported as `false`, not as an error.
pub fn verify_report(identity: &CompartmentIdentity, report: &Report) -> (r: EnclaveResult<bool>)
    ensures
        r matches Ok(b) && b == (report.mac@ == report_mac_of(
            identity.mr_enclave_view(),
            *report,
        )),
{
    let key = report_key(identity.mr_enclave().as_slice());
    let input = report_mac_input_bytes(report);
    let expected = cmac_raw(key.as_slice(), input.as_slice());
    Ok(bytes_eq(report.mac.as_slice(), expected.as_slice()))
}

/// Compartment attributes inside a quote's report body.
#[derive(Clone, Copy)]
pub struct Attributes {
    /// Flags; bit 1 marks a debug compartment.
    pub flags: u64,
    /// Extended feature mask.
    pub xfrm: u64,
}

impl Default for Attributes {
    /// All-zero attributes.
    fn default() -> (r: Self)
        ensures
            r.flags == 0,
            r.xfrm == 0,
    {
        Self { flags: 0, xfrm: 0 }
    }
}

/// The report body carried inside a quote; reserved fields keep the wire
/// layout fixed.
#[derive(Clone)]
pub struct ReportBody {
    /// CPU security version (16 bytes).
    pub cpu_svn: Vec<u8>,
    /// Miscellaneous select bits.
    pub misc_select: u32,
    /// Reserved (28 bytes).
    pub reserved1: Vec<u8>,
    /// Compartment attributes.
    pub attributes: Attributes,
    /// Content measurement (32 bytes).
    pub mr_enclave: Vec<u8>,
    /// Reserved (32 bytes).
    pub reserved2: Vec<u8>,
    /// Signer measurement (32 bytes).
    pub mr_signer: Vec<u8>,
    /// Reserved (96 bytes).
    pub reserved3: Vec<u8>,
    /// Product identifier.
    pub isv_prod_id: u16,
    /// Security version number.
    pub isv_svn: u16,
    /// Reserved (60 bytes).
    pub reserved4: Vec<u8>,
    /// Caller-provided report data (64 bytes).
    pub report_data: Vec<u8>,
}

impl ReportBody {
    /// The field widths of a serializable report body.
    pub open spec fn wf(self) -> bool {
        &&& self.cpu_svn@.len() == 16
        &&& self.reserved1@.len() == 28
        &&& self.mr_enclave@.len() == 32
        &&& self.reserved2@.len() == 32
        &&& self.mr_signer@.len() == 32
        &&& self.reserved3@.len() == 96
        &&& self.reserved4@.len() == 60
        &&& self.report_data@.len() == 64
    }

    /// Whether every body field is zero.
    pub open spec fn is_zeroed(self) -> bool {
        &&& self.cpu_svn@ == Seq::<u8>::new(16, |i: int| 0u8)
        &&& self.misc_select == 0
        &&& self.reserved1@ == Seq::<u8>::new(28, |i: int| 0u8)
        &&& self.attributes.flags == 0
        &&& self.attributes.xfrm == 0
        &&& self.mr_enclave@ == Seq::<u8>::new(32, |i: int| 0u8)
        &&& self.reserved2@ == Seq::<u8>::new(32, |i: int| 0u8)
        &&& self.mr_signer@ == Seq::<u8>::new(32, |i: int| 0u8)
        &&& self.reserved3@ == Seq::<u8>::new(96, |i: int| 0u8)
        &&& self.isv_prod_id == 0
        &&& self.isv_svn == 0
        &&& self.reserved4@ == Seq::<u8>::new(60, |i: int| 0u8)
        &&& self.report_data@ == Seq::<u8>::new(64, |i: int| 0u8)
    }
}

impl Default for ReportBody {
    /// An all-zero report body with the fixed field widths.
    fn default() -> (r: Self)
        ensures
            r.wf(),
            r.is_zeroed(),
    {
        Self {
            cpu_svn: crate::bytes::zero_bytes(16),
            misc_select: 0,
            reserved1: crate::bytes::zero_bytes(28),
            attributes: Attributes { flags: 0, xfrm: 0 },
            mr_enclave: crate::bytes::zero_bytes(32),
            reserved2: crate::bytes::zero_bytes(32),
            mr_signer: crate::bytes::zero_bytes(32),
            reserved3: crate::bytes::zero_bytes(96),
            isv_prod_id: 0,
            isv_svn: 0,
            reserved4: crate::bytes::zero_bytes(60),
            report_data: crate::bytes::zero_bytes(64),
        }
    }
}

/// A quote: a versioned, fixed-layout serialization of a report plus
/// signature metadata, produced deterministically from the report. The
/// signature stays empty until an external quoting service fills it.
#[derive(Clone)]
pub struct Quote {
    /// Quote format version.
    pub version: u16,
    /// Signature scheme marker.
    pub sign_type: u16,
    /// Group identifier (4 bytes).
    pub epid_group_id: Vec<u8>,
    /// Quoting-service security version.
    pub qe_svn: u16,
    /// Provisioning-service security version.
    pub pce_svn: u16,
    /// Extended group identifier.
    pub xeid: u32,
    /// Basename (32 bytes).
    pub basename: Vec<u8>,
    /// The quoted report body.
    pub report_body: ReportBody,
    /// Signature length in bytes.
    pub signature_len: u32,
    /// Signature bytes.
    pub signature: Vec<u8>,
}

/// Size of a serialized quote with an empty signature.
pub const QUOTE_BASE_SIZE: usize = 436;

/// The serialized form of a quote: every field in order, multi-byte
/// integers little-endian.
pub open spec fn quote_bytes_spec(q: Quote) -> Seq<u8> {
    u16_le(q.version) + u16_le(q.sign_type) + q.epid_group_id@ + u16_le(q.qe_svn) + u16_le(
        q.pce_svn,
    ) + u32_le(q.xeid) + q.basename@ + q.report_body.cpu_svn@ + u32_le(q.report_body.misc_select)
        + q.report_body.reserved1@ + u64_le(q.report_body.attributes.flags) + u64_le(
        q.report_body.attributes.xfrm,
    ) + q.report_body.mr_enclave@ + q.report_body.reserved2@ + q.report_body.mr_signer@
        + q.report_body.reserved3@ + u16_le(q.report_body.isv_prod_id) + u16_le(
        q.report_body.isv_svn,
    ) + q.report_body.reserved4@ + q.report_body.report_data@ + u32_le(q.signature_len)
        + q.signature@
}

/// Whether a quote transcribes a report field by field, with the metadata a
/// freshly produced quote carries.
pub open spec fn quote_matches_report(q: Quote, r: Report) -> bool {
    &&& q.version == 3
    &&& q.sign_type == 0
    &&& q.epid_group_id@ == Seq::<u8>::new(4, |i: int| 0u8)
    &&& q.qe_svn == 0
    &&& q.pce_svn == 0
    &&& q.xeid == 0
    &&& q.basename@ == Seq::<u8>::new(32, |i: int| 0u8)
    &&& q.report_body.cpu_svn@ == r.cpu_svn@
    &&& q.report_body.misc_select == r.misc_select
    &&& q.report_body.attributes.flags == r.attr_flags
    &&& q.report_body.attributes.xfrm == r.attr_xfrm
    &&& q.report_body.mr_enclave@ == r.mr_enclave@
    &&& q.report_body.mr_signer@ == r.mr_signer@
    &&& q.report_body.isv_prod_id == r.isv_prod_id
    &&& q.report_body.isv_svn == r.isv_svn
    &&& q.report_body.report_data@ == r.report_data@
    &&& q.report_body.reserved1@ == Seq::<u8>::new(28, |i: int| 0u8)
    &&& q.report_body.reserved2@ == Seq::<u8>::new(32, |i: int| 0u8)
    &&& q.report_body.reserved3@ == Seq::<u8>::new(96, |i: int| 0u8)
    &&& q.report_body.reserved4@ == Seq::<u8>::new(60, |i: int| 0u8)
    &&& q.signature_len == 0
    &&& q.signature@.len() == 0
}

impl Quote {
    /// The field widths of a serializable quote.
    pub open spec fn wf(self) -> bool {
        &&& self.epid_group_id@.len() == 4
        &&& self.basename@.len() == 32
        &&& self.report_body.wf()
    }

    /// Transcribe a report into a quote, field by field; pure and
    /// deterministic, with an empty signature.
    pub fn from_report(report: &Report) -> (q: Quote)
        requires
            report.wf(),
        ensures
            q.wf(),
            quote_matches_report(q, *report),
    {
        let mut body = ReportBody::default();
        body.cpu_svn = crate::bytes::bytes_to_vec(report.cpu_svn.as_slice());
        body.misc_select = report.misc_select;
        body.attributes = Attributes { flags: report.attr_flags, xfrm: report.attr_xfrm };
        body.mr_enclave = crate::bytes::bytes_to_vec(report.mr_enclave.as_slice());
        body.mr_signer = crate::bytes::bytes_to_vec(report.mr_signer.as_slice());
        body.isv_prod_id = report.isv_prod_id;
        body.isv_svn = report.isv_svn;
        body.report_data = crate::bytes::bytes_to_vec(report.report_data.as_slice());
        Quote {
            version: 3,
            sign_type: 0,
            epid_group_id: crate::bytes::zero_bytes(4),
            qe_svn: 0,
            pce_svn: 0,
            xeid: 0,
            basename: crate::bytes::zero_bytes(32),
            report_body: body,
            signature_len: 0,
            signature: Vec::new(),
        }
    }

    /// Serialize the quote to its fixed little-endian wire form.
    pub fn to_bytes(&self) -> (r: Vec<u8>)
        requires
            self.wf(),
        ensures
            r@ == quote_bytes_spec(*self),
            r@.len() == QUOTE_BASE_SIZE + self.signature@.len(),
    {
        let mut r: Vec<u8> = Vec::new();
        push_u16_le(&mut r, self.version);
        push_u16_le(&mut r, self.sign_type);
        append_bytes(&mut r, self.epid_group_id.as_slice());
        push_u16_le(&mut r, self.qe_svn);
        push_u16_le(&mut r, self.pce_svn);
        push_u32_le(&mut r, self.xeid);
        append_bytes(&mut r, self.basename.as_slice());
        append_bytes(&mut r, self.report_body.cpu_svn.as_slice());
        push_u32_le(&mut r, self.report_body.misc_select);
        append_bytes(&mut r, self.report_body.reserved1.as_slice());
        push_u64_le(&mut r, self.report_body.attributes.flags);
        push_u64_le(&mut r, self.report_body.attributes.xfrm);
        append_bytes(&mut r, self.report_body.mr_enclave.as_slice());
        append_bytes(&mut r, self.report_body.reserved2.as_slice());
        append_bytes(&mut r, self.report_body.mr_signer.as_slice());
        append_bytes(&mut r, self.report_body.reserved3.as_slice());
        push_u16_le(&mut r, self.report_body.isv_prod_id);
        push_u16_le(&mut r, self.report_body.isv_svn);
        append_bytes(&mut r, self.report_body.reserved4.as_slice());
        append_bytes(&mut r, self.report_body.report_data.as_slice());
        push_u32_le(&mut r, self.signature_len);
        append_bytes(&mut r, self.signature.as_slice());
        proof {
            assert(r@ =~= quote_bytes_spec(*self));
        }
        r
    }
}

/// Attestation evidence for a remote verifier: a quote plus optional
/// certificate chain and collateral.
#[derive(Clone)]
pub struct AttestationEvidence {
    /// The quote.
    pub quote: Quote,
    /// Platform certificate chain, when available.
    pub cert_chain: Option<Vec<u8>>,
    /// Collateral data, when available.
    pub collateral: Option<Vec<u8>>,
}

impl AttestationEvidence {
    /// Build evidence from a report, with the optional fields empty.
    pub fn from_report(report: &Report) -> (r: Self)
        requires
            report.wf(),
        ensures
            r.quote.wf(),
            quote_matches_report(r.quote, *report),
            r.cert_chain is None,
            r.collateral is None,
    {
        Self { quote: Quote::from_report(report), cert_chain: None, collateral: None }
    }

    /// The serialized quote bytes.
    pub fn quote_bytes(&self) -> (r: Vec<u8>)
        requires
            self.quote.wf(),
        ensures
            r@ == quote_bytes_spec(self.quote),
    {
        self.quote.to_bytes()
    }
}

/// Channel-binding data tying an attestation to a secure-channel session,
/// serialized to exactly 64 bytes for embedding as report data.
#[derive(Clone)]
pub struct ChannelBinding {
    /// Hash of the channel session (32 bytes).
    pub session_hash: Vec<u8>,
    /// Timestamp; zero without a trusted time source.
    pub timestamp: u64,
    /// Nonce (32 bytes).
    pub nonce: Vec<u8>,
}

impl ChannelBinding {
    /// The field widths of a serializable binding.
    pub open spec fn wf(self) -> bool {
        self.session_hash@.len() == 32 && self.nonce@.len() == 32
    }

    /// Create channel-binding data; the timestamp stays zero until a
    /// trusted time source supplies it.
    pub fn new(session_hash: Vec<u8>, nonce: Vec<u8>) -> (r: Self)
        requires
            session_hash@.len() == 32,
            nonce@.len() == 32,
        ensures
            r.wf(),
            r.session_hash@ == session_hash@,
            r.nonce@ == nonce@,
            r.timestamp == 0,
    {
        Self { session_hash, timestamp: 0, nonce }
    }

    /// Serialize to the fixed 64-byte layout `session_hash || nonce`.
    pub fn to_bytes(&self) -> (r: Vec<u8>)
        requires
            self.wf(),
        ensures
            r@ == self.session_hash@ + self.nonce@,
            r@.len() == 64,
    {
        let mut r: Vec<u8> = Vec::new();
        append_bytes(&mut r, self.session_hash.as_slice());
        append_bytes(&mut r, self.nonce.as_slice());
        r
    }
}

} // verus!
