//! Discovery and trust validation: reading the certificates found on disk,
//! and judging for each node whether its certificates chain to a known CA
//! and how close they are to expiry.

use vstd::prelude::*;
use vstd::string::*;
use crate::cert_types::owned;
use crate::clock::utc_now;
use crate::error::{IoFailure, IoFailureView, IoKind};
use crate::steps::{Invocation, InvocationView};
use crate::text::{cat, clone_strings, str_eq, texts};
use crate::x509::{
    hex_encode, hex_text, parse_der, pem_der, pem_to_der, rfc3339_text, sha256, sha256_of,
    to_rfc3339, x509_fields, RawCertificate, RawCertificateView, PEM_LIMIT,
};

verus! {

/// Seconds in the thirty days before expiry during which a certificate
/// counts as expiring soon.
pub const EXPIRY_WINDOW: i64 = 2592000;

/// Seconds between two rounds of re-validation: one day.
pub const VERIFICATION_INTERVAL: i64 = 86400;

/// What is known of one certificate file. Times are whole seconds since the Unix epoch.
#[derive(Clone, Debug, PartialEq, Eq)]
pub struct CertificateInfo {
    pub path: String,
    pub subject: String,
    pub issuer: String,
    pub not_before: i64,
    pub not_after: i64,
    pub serial: String,
    pub fingerprint: String,
    pub is_ca: bool,
    pub last_verified: Option<i64>,
    pub verification_error: Option<String>,
}

/// The mathematical content of a certificate record.
pub struct InfoView {
    pub path: Seq<char>,
    pub subject: Seq<char>,
    pub issuer: Seq<char>,
    pub not_before: int,
    pub not_after: int,
    pub serial: Seq<char>,
    pub fingerprint: Seq<char>,
    pub is_ca: bool,
    pub last_verified: Option<int>,
    pub verification_error: Option<Seq<char>>,
}

impl View for CertificateInfo {
    type V = InfoView;

    open spec fn view(&self) -> InfoView {
        InfoView {
            path: self.path@,
            subject: self.subject@,
            issuer: self.issuer@,
            not_before: self.not_before as int,
            not_after: self.not_after as int,
            serial: self.serial@,
            fingerprint: self.fingerprint@,
            is_ca: self.is_ca,
            last_verified: crate::tracker::widen(self.last_verified),
            verification_error: crate::cert_types::opt_text(self.verification_error),
        }
    }
}

impl CertificateInfo {
    /// A copy with the same content.
    pub fn duplicate(&self) -> (r: Self)
        ensures
            r@ == self@,
    {
        CertificateInfo {
            path: self.path.clone(),
            subject: self.subject.clone(),
            issuer: self.issuer.clone(),
            not_before: self.not_before,
            not_after: self.not_after,
            serial: self.serial.clone(),
            fingerprint: self.fingerprint.clone(),
            is_ca: self.is_ca,
            last_verified: self.last_verified,
            verification_error: match &self.verification_error {
                Some(e) => Some(e.clone()),
                None => None,
            },
        }
    }
}

/// The views of a sequence of records.
pub open spec fn info_views(items: Seq<CertificateInfo>) -> Seq<InfoView> {
    Seq::new(items.len(), |i: int| items[i]@)
}

/// A copy of each certificate.
pub fn duplicate_all(items: &Vec<CertificateInfo>) -> (r: Vec<CertificateInfo>)
    ensures
        info_views(r@) == info_views(items@),
{
    let mut out: Vec<CertificateInfo> = Vec::new();
    let mut i: usize = 0;
    while i < items.len()
        invariant
            i <= items.len(),
            out.len() == i,
            forall|k: int| 0 <= k < i ==> out@[k]@ == items@[k]@,
        decreases items.len() - i,
    {
        out.push(items[i].duplicate());
        i += 1;
    }
    assert(info_views(out@) =~= info_views(items@));
    out
}

/// The trust verdict on one node. It is made anew on every validation.
#[derive(Clone, Debug, PartialEq, Eq)]
pub struct NodeTrustInfo {
    pub node_ip: String,
    pub certificates: Vec<CertificateInfo>,
    pub trust_chain_valid: bool,
    pub permissions_valid: bool,
    pub expiring_soon: Vec<String>,
    pub last_checked: i64,
}

/// The mathematical content of a node's verdict.
pub struct NodeTrustView {
    pub node_ip: Seq<char>,
    pub certificates: Seq<InfoView>,
    pub trust_chain_valid: bool,
    pub permissions_valid: bool,
    pub expiring_soon: Seq<Seq<char>>,
    pub last_checked: int,
}

impl View for NodeTrustInfo {
    type V = NodeTrustView;

    open spec fn view(&self) -> NodeTrustView {
        NodeTrustView {
            node_ip: self.node_ip@,
            certificates: info_views(self.certificates@),
            trust_chain_valid: self.trust_chain_valid,
            permissions_valid: self.permissions_valid,
            expiring_soon: texts(self.expiring_soon@),
            last_checked: self.last_checked as int,
        }
    }
}

impl NodeTrustInfo {
    /// A copy with the same content.
    pub fn duplicate(&self) -> (r: Self)
        ensures
            r@ == self@,
    {
        NodeTrustInfo {
            node_ip: self.node_ip.clone(),
            certificates: duplicate_all(&self.certificates),
            trust_chain_valid: self.trust_chain_valid,
            permissions_valid: self.permissions_valid,
            expiring_soon: clone_strings(&self.expiring_soon),
            last_checked: self.last_checked,
        }
    }
}

/// How a certificate stands to its expiry.
#[derive(Clone, Copy, Debug, PartialEq, Eq, Structural)]
pub enum Expiry {
    Expired,
    ExpiringSoon,
    Valid,
}

/// How a certificate that ends at `not_after` stands at `now`: expired once
/// its end is past, expiring soon while less than thirty days remain.
pub open spec fn expiry_at(not_after: int, now: int) -> Expiry {
    if not_after < now {
        Expiry::Expired
    } else if not_after - now < EXPIRY_WINDOW {
        Expiry::ExpiringSoon
    } else {
        Expiry::Valid
    }
}

/// The word written for a standing.
pub open spec fn expiry_word(e: Expiry) -> Seq<char> {
    match e {
        Expiry::Expired => "Expired"@,
        Expiry::ExpiringSoon => "ExpiringSoon"@,
        Expiry::Valid => "Valid"@,
    }
}

/// How a certificate that ends at `not_after` stands at `now`.
pub fn expiry(not_after: i64, now: i64) -> (r: Expiry)
    ensures
        r == expiry_at(not_after as int, now as int),
{
    if not_after < now {
        Expiry::Expired
    } else if (not_after as i128) - (now as i128) < (EXPIRY_WINDOW as i128) {
        Expiry::ExpiringSoon
    } else {
        Expiry::Valid
    }
}

/// A certificate counts as expiring soon exactly while it has not ended and
/// ends less than thirty days from now: with twenty-nine days left it does,
/// with thirty or thirty-one it does not.
pub proof fn lemma_expiry_boundary(now: int, remaining: int)
    ensures
        expiry_at(now + remaining, now) == Expiry::ExpiringSoon <==> 0 <= remaining < 30 * 86400,
        expiry_at(now + 29 * 86400, now) == Expiry::ExpiringSoon,
        expiry_at(now + 30 * 86400, now) == Expiry::Valid,
        expiry_at(now + 31 * 86400, now) == Expiry::Valid,
{
}

/// The state of one certificate as the monitoring surfaces show it.
#[derive(Clone, Debug, PartialEq, Eq)]
pub struct CertStatus {
    pub cert_type: String,
    pub status: String,
    pub last_updated: Option<String>,
}

/// The mathematical content of a shown state.
pub struct CertStatusView {
    pub cert_type: Seq<char>,
    pub status: Seq<char>,
    pub last_updated: Option<Seq<char>>,
}

impl View for CertStatus {
    type V = CertStatusView;

    open spec fn view(&self) -> CertStatusView {
        CertStatusView {
            cert_type: self.cert_type@,
            status: self.status@,
            last_updated: crate::cert_types::opt_text(self.last_updated),
        }
    }
}

/// The expiry report on a certificate at `now`: its subject, its standing,
/// and its end as RFC 3339 text where that can be written.
pub open spec fn expiry_report(info: InfoView, now: int) -> CertStatusView {
    CertStatusView {
        cert_type: info.subject,
        status: expiry_word(expiry_at(info.not_after, now)),
        last_updated: rfc3339_text(info.not_after),
    }
}

/// The CA flag of a certificate: that of its first basic-constraints
/// extension, and unset when it has none.
pub open spec fn ca_flag(constraints: Seq<Option<bool>>) -> bool
    decreases constraints.len(),
{
    if constraints.len() == 0 {
        false
    } else {
        match constraints[0] {
            Some(flag) => flag,
            None => ca_flag(constraints.skip(1)),
        }
    }
}

/// The CA flag of a certificate, from the flags of its extensions.
pub fn first_flag(constraints: &Vec<Option<bool>>) -> (r: bool)
    ensures
        r == ca_flag(constraints@),
{
    let mut i: usize = 0;
    assert(constraints@.skip(0) =~= constraints@);
    while i < constraints.len()
        invariant
            i <= constraints.len(),
            ca_flag(constraints@) == ca_flag(constraints@.skip(i as int)),
        decreases constraints.len() - i,
    {
        assert(constraints@.skip(i as int)[0] == constraints@[i as int]);
        assert(constraints@.skip(i as int).skip(1) =~= constraints@.skip(i + 1));
        match constraints[i] {
            Some(flag) => {
                return flag;
            },
            None => {},
        }
        i += 1;
    }
    false
}

/// The line that opens a PEM certificate.
pub open spec fn pem_marker() -> Seq<char> {
    "-----BEGIN CERTIFICATE-----"@
}

/// The bytes begin with the line that opens a PEM certificate.
pub open spec fn has_pem_header(bytes: Seq<u8>) -> bool {
    pem_marker().len() <= bytes.len() && forall|i: int|
        0 <= i < pem_marker().len() ==> bytes[i] == pem_marker()[i] as u8
}

/// Whether the bytes begin with the line that opens a PEM certificate.
pub fn starts_with_pem_header(bytes: &[u8]) -> (r: bool)
    ensures
        r == has_pem_header(bytes@),
{
    let marker = "-----BEGIN CERTIFICATE-----";
    let n = marker.unicode_len();
    if n > bytes.len() {
        return false;
    }
    let mut i: usize = 0;
    while i < n
        invariant
            i <= n,
            n == marker@.len(),
            marker@ == pem_marker(),
            n <= bytes@.len(),
            forall|k: int| 0 <= k < i ==> bytes@[k] == pem_marker()[k] as u8,
        decreases n - i,
    {
        let c = marker.get_char(i);
        if bytes[i] != c as u8 {
            return false;
        }
        i += 1;
    }
    true
}

/// The DER form of what a certificate file holds: decoded from PEM where
/// the file opens with the PEM line, the file itself otherwise. A PEM file
/// too long to be decoded has none.
pub open spec fn der_of(bytes: Seq<u8>) -> Option<Seq<u8>> {
    if !has_pem_header(bytes) {
        Some(bytes)
    } else if bytes.len() <= PEM_LIMIT {
        pem_der(bytes)
    } else {
        None
    }
}

/// Both ends of the validity are times that can be represented.
pub open spec fn validity_representable(raw: RawCertificateView) -> bool {
    rfc3339_text(raw.not_before) is Some && rfc3339_text(raw.not_after) is Some
}

/// What is recorded of the certificate parsed as `raw` from the file `path`
/// whose DER form has the SHA-256 digest `digest`, when it is read at `now`.
pub open spec fn recorded(
    path: Seq<char>,
    raw: RawCertificateView,
    digest: Seq<u8>,
    now: int,
) -> InfoView {
    InfoView {
        path,
        subject: raw.subject,
        issuer: raw.issuer,
        not_before: raw.not_before,
        not_after: raw.not_after,
        serial: hex_text(raw.serial),
        fingerprint: hex_text(digest),
        is_ca: ca_flag(raw.constraints),
        last_verified: Some(now),
        verification_error: None,
    }
}

/// The failure reported for a time stamp that cannot be represented.
pub open spec fn bad_timestamp(field: Seq<char>) -> IoFailureView {
    IoFailureView { kind: IoKind::InvalidData, message: "Invalid "@ + field + " timestamp"@ }
}

fn timestamp_message(field: &str) -> (r: String)
    ensures
        r@ == "Invalid "@ + field@ + " timestamp"@,
{
    crate::text::cat3("Invalid ", field, " timestamp")
}

/// What the record of a parsed certificate is, or why there is none.
pub open spec fn assembled(
    path: Seq<char>,
    raw: RawCertificateView,
    digest: Seq<u8>,
    now: int,
) -> Result<InfoView, IoFailureView> {
    if rfc3339_text(raw.not_before) is None {
        Err(bad_timestamp("not_before"@))
    } else if rfc3339_text(raw.not_after) is None {
        Err(bad_timestamp("not_after"@))
    } else {
        Ok(recorded(path, raw, digest, now))
    }
}

/// The view of the result of an analysis.
pub open spec fn result_view(r: Result<CertificateInfo, IoFailure>) -> Result<
    InfoView,
    IoFailureView,
> {
    match r {
        Ok(info) => Ok(info@),
        Err(f) => Err(f@),
    }
}

/// Makes the record of a parsed certificate: the serial and the digest are
/// written in hexadecimal, the CA flag is taken from the basic constraints.
/// A validity end that cannot be represented as a time is refused.
pub fn assemble(path: &str, raw: &RawCertificate, digest: &Vec<u8>, now: i64) -> (r: Result<
    CertificateInfo,
    IoFailure,
>)
    ensures
        result_view(r) == assembled(path@, raw@, digest@, now as int),
{
    if to_rfc3339(raw.not_before).is_none() {
        return Err(
            IoFailure::new(IoKind::InvalidData, timestamp_message("not_before")),
        );
    }
    if to_rfc3339(raw.not_after).is_none() {
        return Err(
            IoFailure::new(IoKind::InvalidData, timestamp_message("not_after")),
        );
    }
    Ok(
        CertificateInfo {
            path: String::from_str(path),
            subject: raw.subject.clone(),
            issuer: raw.issuer.clone(),
            not_before: raw.not_before,
            not_after: raw.not_after,
            serial: hex_encode(raw.serial.as_slice()),
            fingerprint: hex_encode(digest.as_slice()),
            is_ca: first_flag(&raw.constraints),
            last_verified: Some(now),
            verification_error: None,
        },
    )
}

/// What reading a certificate file may come to. A file that cannot be
/// brought into DER form or does not parse gives `InvalidData`; a file that
/// parses gives what `assembled` says, unless the digest could not be
/// computed, which gives `Other`.
pub open spec fn analysis_admits(
    path: Seq<char>,
    bytes: Seq<u8>,
    now: int,
    r: Result<InfoView, IoFailureView>,
) -> bool {
    match der_of(bytes) {
        None => r is Err && r->Err_0.kind == IoKind::InvalidData && (bytes.len() > PEM_LIMIT
            ==> r->Err_0 == oversized()),
        Some(der) => match x509_fields(der) {
            None => r is Err && r->Err_0.kind == IoKind::InvalidData,
            Some(raw) => r == assembled(path, raw, sha256_of(der), now) || (r is Err
                && r->Err_0.kind == IoKind::Other),
        },
    }
}

/// The failure reported for a PEM file too long to be decoded.
pub open spec fn oversized() -> IoFailureView {
    IoFailureView { kind: IoKind::InvalidData, message: "Certificate file is too large"@ }
}

fn too_long() -> (r: IoFailure)
    ensures
        r@ == oversized(),
{
    IoFailure::new(IoKind::InvalidData, String::from_str("Certificate file is too large"))
}

/// Reads the certificate held in `bytes`, the content of the file `path`, at time `now`.
pub fn analyze_certificate_at(path: &str, bytes: &Vec<u8>, now: i64) -> (r: Result<
    CertificateInfo,
    IoFailure,
>)
    ensures
        analysis_admits(path@, bytes@, now as int, result_view(r)),
{
    let decoded: Vec<u8>;
    let der: &Vec<u8> = if starts_with_pem_header(bytes.as_slice()) {
        if bytes.len() > PEM_LIMIT {
            return Err(too_long());
        }
        match pem_to_der(bytes.as_slice()) {
            Ok(d) => {
                decoded = d;
                &decoded
            },
            Err(text) => {
                return Err(IoFailure::new(IoKind::InvalidData, text));
            },
        }
    } else {
        bytes
    };
    let raw = match parse_der(der.as_slice()) {
        Ok(raw) => raw,
        Err(text) => {
            return Err(IoFailure::new(IoKind::InvalidData, text));
        },
    };
    let digest = match sha256(der.as_slice()) {
        Ok(digest) => digest,
        Err(text) => {
            return Err(IoFailure::new(IoKind::Other, text));
        },
    };
    assemble(path, &raw, &digest, now)
}

/// Reads the certificate held in `bytes`, the content of the file `path`, at the present time.
pub fn analyze_certificate(path: &str, bytes: &Vec<u8>) -> (r: Result<CertificateInfo, IoFailure>)
    ensures
        exists|now: int| analysis_admits(path@, bytes@, now, result_view(r)),
{
    let now = utc_now();
    let r = analyze_certificate_at(path, bytes, now);
    assert(analysis_admits(path@, bytes@, now as int, result_view(r)));
    r
}

/// The bytes are a PEM certificate that OpenSSL can decode: no longer
/// than it takes, and decoded by it.
pub open spec fn well_formed_pem(bytes: Seq<u8>) -> bool {
    has_pem_header(bytes) && bytes.len() <= PEM_LIMIT && pem_der(bytes) is Some
}

/// Checks that `cert_pem` is a PEM certificate: it must open with the PEM
/// line and decode.
pub fn verify_certificate(cert_pem: &[u8]) -> (r: Result<(), IoFailure>)
    ensures
        r is Ok <==> well_formed_pem(cert_pem@),
        r matches Err(f) ==> f.kind == IoKind::InvalidData,
        !has_pem_header(cert_pem@) ==> (r matches Err(f) && f.message@
            == "Invalid certificate format"@),
        has_pem_header(cert_pem@) && cert_pem@.len() > PEM_LIMIT ==> (r matches Err(f) && f@
            == oversized()),
{
    if starts_with_pem_header(cert_pem) {
        if cert_pem.len() > PEM_LIMIT {
            return Err(too_long());
        }
        match pem_to_der(cert_pem) {
            Ok(_) => Ok(()),
            Err(text) => Err(IoFailure::new(IoKind::InvalidData, text)),
        }
    } else {
        Err(IoFailure::new(IoKind::InvalidData, String::from_str("Invalid certificate format")))
    }
}

/// The first certificate of `certs` that is a CA with the subject `issuer`.
pub open spec fn ca_among(certs: Seq<InfoView>, issuer: Seq<char>) -> Option<InfoView>
    decreases certs.len(),
{
    if certs.len() == 0 {
        None
    } else if certs[0].is_ca && certs[0].subject == issuer {
        Some(certs[0])
    } else {
        ca_among(certs.skip(1), issuer)
    }
}

/// The CA that issued under the name `issuer`, looked up among the CA
/// certificates the store has seen: the first one, node by node, whose
/// subject is that name.
pub open spec fn issuing_ca(store: Seq<NodeTrustView>, issuer: Seq<char>) -> Option<InfoView>
    decreases store.len(),
{
    if store.len() == 0 {
        None
    } else {
        match ca_among(store[0].certificates, issuer) {
            Some(ca) => Some(ca),
            None => issuing_ca(store.skip(1), issuer),
        }
    }
}

/// A chain check to run: the certificate and the CA file to verify it against.
#[derive(Clone, Debug, PartialEq, Eq)]
pub struct ChainCheck {
    pub cert_path: String,
    pub ca_path: String,
}

/// The mathematical content of a chain check.
pub struct ChainCheckView {
    pub cert_path: Seq<char>,
    pub ca_path: Seq<char>,
}

impl View for ChainCheck {
    type V = ChainCheckView;

    open spec fn view(&self) -> ChainCheckView {
        ChainCheckView { cert_path: self.cert_path@, ca_path: self.ca_path@ }
    }
}

/// The chain check a certificate calls for: none for a CA, and none where
/// the store knows no CA under the issuer's name.
pub open spec fn check_for(store: Seq<NodeTrustView>, cert: InfoView) -> Option<ChainCheckView> {
    if cert.is_ca {
        None
    } else {
        match issuing_ca(store, cert.issuer) {
            Some(ca) => Some(ChainCheckView { cert_path: cert.path, ca_path: ca.path }),
            None => None,
        }
    }
}

/// The views of a sequence of chain checks.
pub open spec fn check_views(items: Seq<Option<ChainCheck>>) -> Seq<Option<ChainCheckView>> {
    Seq::new(
        items.len(),
        |i: int|
            match items[i] {
                Some(c) => Some(c@),
                None => None,
            },
    )
}

/// The verdict on the certificate at `i`; none where no check was run.
pub open spec fn verdict_at(verdicts: Seq<Option<bool>>, i: int) -> Option<bool> {
    if 0 <= i < verdicts.len() {
        verdicts[i]
    } else {
        None
    }
}

/// The certificate at `i` breaks the chain: it called for a check, and the check failed.
pub open spec fn breaks_chain(
    store: Seq<NodeTrustView>,
    certs: Seq<InfoView>,
    verdicts: Seq<Option<bool>>,
    i: int,
) -> bool {
    0 <= i < certs.len() && check_for(store, certs[i]) is Some && verdict_at(verdicts, i) == Some(
        false,
    )
}

/// No certificate of the node breaks the chain.
pub open spec fn chain_intact(
    store: Seq<NodeTrustView>,
    certs: Seq<InfoView>,
    verdicts: Seq<Option<bool>>,
) -> bool {
    forall|i: int| !breaks_chain(store, certs, verdicts, i)
}

/// The subjects of the certificates that expire within thirty days of
/// `now`, in order: certificate authorities as well as leaves.
pub open spec fn expiring(certs: Seq<InfoView>, now: int) -> Seq<Seq<char>>
    decreases certs.len(),
{
    if certs.len() == 0 {
        Seq::empty()
    } else if expiry_at(certs.last().not_after, now) == Expiry::ExpiringSoon {
        expiring(certs.drop_last(), now).push(certs.last().subject)
    } else {
        expiring(certs.drop_last(), now)
    }
}

/// The verdict on a node at `now`, given its certificates and the outcome
/// of the chain checks they called for.
pub open spec fn node_verdict(
    store: Seq<NodeTrustView>,
    node_ip: Seq<char>,
    certs: Seq<InfoView>,
    verdicts: Seq<Option<bool>>,
    now: int,
) -> NodeTrustView {
    NodeTrustView {
        node_ip,
        certificates: certs,
        trust_chain_valid: chain_intact(store, certs, verdicts),
        permissions_valid: true,
        expiring_soon: expiring(certs, now),
        last_checked: now,
    }
}

/// Index of the first entry of the store for the node `key`.
pub open spec fn node_index(store: Seq<NodeTrustView>, key: Seq<char>) -> Option<int>
    decreases store.len(),
{
    if store.len() == 0 {
        None
    } else if store[0].node_ip == key {
        Some(0)
    } else {
        match node_index(store.skip(1), key) {
            Some(i) => Some(i + 1),
            None => None,
        }
    }
}

/// What the store holds for the node `key`.
pub open spec fn entry_of(store: Seq<NodeTrustView>, key: Seq<char>) -> Option<NodeTrustView> {
    match node_index(store, key) {
        Some(i) => Some(store[i]),
        None => None,
    }
}

/// The store after `info` took the place of whatever it held for that node.
pub open spec fn put(store: Seq<NodeTrustView>, info: NodeTrustView) -> Seq<NodeTrustView> {
    match node_index(store, info.node_ip) {
        Some(i) => store.update(i, info),
        None => store.push(info),
    }
}

/// The views of a sequence of verdicts.
pub open spec fn store_views(items: Seq<NodeTrustInfo>) -> Seq<NodeTrustView> {
    Seq::new(items.len(), |i: int| items[i]@)
}

/// What `node_index` finds is an entry of that node, and none stands before it.
pub proof fn lemma_node_index(store: Seq<NodeTrustView>, key: Seq<char>)
    ensures
        match node_index(store, key) {
            Some(i) => 0 <= i < store.len() && store[i].node_ip == key && forall|j: int|
                0 <= j < i ==> store[j].node_ip != key,
            None => forall|j: int| 0 <= j < store.len() ==> store[j].node_ip != key,
        },
    decreases store.len(),
{
    if store.len() > 0 && store[0].node_ip != key {
        let rest = store.skip(1);
        lemma_node_index(rest, key);
        match node_index(rest, key) {
            Some(i) => {
                assert forall|j: int| 0 <= j < i + 1 implies store[j].node_ip != key by {
                    if j > 0 {
                        assert(store[j] == rest[j - 1]);
                    }
                }
            },
            None => {
                assert forall|j: int| 0 <= j < store.len() implies store[j].node_ip != key by {
                    if j > 0 {
                        assert(store[j] == rest[j - 1]);
                    }
                }
            },
        }
    }
}

/// An index at which the node stands, with no earlier one, is what `node_index`
/// finds.
pub proof fn lemma_node_index_at(store: Seq<NodeTrustView>, key: Seq<char>, i: int)
    requires
        0 <= i < store.len(),
        store[i].node_ip == key,
        forall|j: int| 0 <= j < i ==> store[j].node_ip != key,
    ensures
        node_index(store, key) == Some(i),
{
    lemma_node_index(store, key);
}

/// Putting a node's verdict into the store makes it the store's entry for
/// that node and leaves the entry of every other node as it was.
pub proof fn lemma_put_is_local(store: Seq<NodeTrustView>, info: NodeTrustView, other: Seq<char>)
    ensures
        entry_of(put(store, info), info.node_ip) == Some(info),
        other != info.node_ip ==> entry_of(put(store, info), other) == entry_of(store, other),
{
    let after = put(store, info);
    lemma_node_index(store, info.node_ip);
    lemma_node_index(store, other);
    match node_index(store, info.node_ip) {
        Some(i) => {
            lemma_node_index_at(after, info.node_ip, i);
        },
        None => {
            lemma_node_index_at(after, info.node_ip, store.len() as int);
        },
    }
    if other != info.node_ip {
        match node_index(store, other) {
            Some(j) => {
                lemma_node_index_at(after, other, j);
            },
            None => {
                lemma_node_index(after, other);
            },
        }
    }
}

/// No node stands twice in the store.
pub open spec fn distinct_nodes(store: Seq<NodeTrustView>) -> bool {
    forall|i: int, j: int|
        0 <= i < store.len() && 0 <= j < store.len() && store[i].node_ip == store[j].node_ip
            ==> i == j
}

/// Putting a node's verdict into the store keeps one entry for each node.
pub proof fn lemma_put_keeps_nodes_distinct(store: Seq<NodeTrustView>, info: NodeTrustView)
    requires
        distinct_nodes(store),
    ensures
        distinct_nodes(put(store, info)),
{
    lemma_node_index(store, info.node_ip);
}

/// Re-validating a node keeps one entry for each node.
pub proof fn lemma_revalidation_keeps_nodes_distinct(
    store: Seq<NodeTrustView>,
    key: Seq<char>,
    readings: Seq<Option<Vec<u8>>>,
    now: int,
)
    requires
        distinct_nodes(store),
    ensures
        distinct_nodes(after_revalidation(store, key, readings, now)),
{
    lemma_node_index(store, key);
}

/// When every chain check that was run succeeded, the node's chain is
/// valid; a single failed check that was called for makes it invalid.
pub proof fn lemma_chain_verdict(
    store: Seq<NodeTrustView>,
    certs: Seq<InfoView>,
    verdicts: Seq<Option<bool>>,
)
    ensures
        (forall|i: int| 0 <= i < verdicts.len() ==> verdicts[i] != Some(false)) ==> chain_intact(
            store,
            certs,
            verdicts,
        ),
        (exists|i: int| breaks_chain(store, certs, verdicts, i)) ==> !chain_intact(
            store,
            certs,
            verdicts,
        ),
{
}

/// A failed chain check on one node makes that node's verdict invalid and
/// changes nothing in the store for any other node.
pub proof fn lemma_tampering_is_local(
    store: Seq<NodeTrustView>,
    node_ip: Seq<char>,
    certs: Seq<InfoView>,
    verdicts: Seq<Option<bool>>,
    now: int,
    failing: int,
    other: Seq<char>,
)
    requires
        breaks_chain(store, certs, verdicts, failing),
        other != node_ip,
    ensures
        ({
            let after = put(store, node_verdict(store, node_ip, certs, verdicts, now));
            &&& entry_of(after, node_ip) matches Some(e) && !e.trust_chain_valid
            &&& entry_of(after, other) == entry_of(store, other)
        }),
{
    lemma_put_is_local(store, node_verdict(store, node_ip, certs, verdicts, now), other);
}

/// Whether a certificate is listed as expiring soon depends on nothing but
/// its end: every certificate that expires within thirty days of `now` is
/// listed, a certificate authority as well as a leaf, whatever the chain
/// checks found.
pub proof fn lemma_expiring_complete(certs: Seq<InfoView>, now: int, i: int)
    requires
        0 <= i < certs.len(),
        expiry_at(certs[i].not_after, now) == Expiry::ExpiringSoon,
    ensures
        expiring(certs, now).contains(certs[i].subject),
    decreases certs.len(),
{
    let rest = certs.drop_last();
    let all = expiring(certs, now);
    if i < rest.len() {
        assert(rest[i] == certs[i]);
        lemma_expiring_complete(rest, now, i);
        let some = expiring(rest, now);
        let w = choose|w: int| 0 <= w < some.len() && some[w] == rest[i].subject;
        assert(all[w] == certs[i].subject);
    } else {
        assert(all[all.len() - 1] == certs[i].subject);
    }
}

/// Nothing else is listed as expiring soon: each listed subject is that of
/// a certificate that expires within thirty days of `now`.
pub proof fn lemma_expiring_sound(certs: Seq<InfoView>, now: int, k: int) -> (i: int)
    requires
        0 <= k < expiring(certs, now).len(),
    ensures
        0 <= i < certs.len(),
        expiry_at(certs[i].not_after, now) == Expiry::ExpiringSoon,
        certs[i].subject == expiring(certs, now)[k],
    decreases certs.len(),
{
    let rest = certs.drop_last();
    if k < expiring(rest, now).len() {
        let i = lemma_expiring_sound(rest, now, k);
        assert(certs[i] == rest[i]);
        i
    } else {
        certs.len() - 1
    }
}

/// What was read of the certificate file at `i`; none where the file could not be read.
pub open spec fn reading_at(readings: Seq<Option<Vec<u8>>>, i: int) -> Option<Seq<u8>> {
    if 0 <= i < readings.len() {
        match readings[i] {
            Some(bytes) => Some(bytes@),
            None => None,
        }
    } else {
        None
    }
}

/// Every one of the first `n` files that could be read holds a PEM certificate.
pub open spec fn readings_sound(readings: Seq<Option<Vec<u8>>>, n: int) -> bool {
    forall|i: int|
        0 <= i < n ==> (#[trigger] reading_at(readings, i) matches Some(bytes) ==> well_formed_pem(
            bytes,
        ))
}

/// A node's verdict after a round of re-validation at `now`: a file that
/// could be read and holds no PEM certificate makes the chain invalid;
/// nothing makes an invalid chain valid again.
pub open spec fn revalidated(
    e: NodeTrustView,
    readings: Seq<Option<Vec<u8>>>,
    now: int,
) -> NodeTrustView {
    NodeTrustView {
        trust_chain_valid: e.trust_chain_valid && readings_sound(
            readings,
            e.certificates.len() as int,
        ),
        last_checked: now,
        ..e
    }
}

/// The store after the node `key` was re-validated; a node the store does
/// not know is passed over.
pub open spec fn after_revalidation(
    store: Seq<NodeTrustView>,
    key: Seq<char>,
    readings: Seq<Option<Vec<u8>>>,
    now: int,
) -> Seq<NodeTrustView> {
    match node_index(store, key) {
        Some(i) => store.update(i, revalidated(store[i], readings, now)),
        None => store,
    }
}

/// The command of a chain check.
pub open spec fn chain_command(cert_path: Seq<char>, ca_path: Seq<char>) -> InvocationView {
    InvocationView { program: "openssl"@, args: seq!["verify"@, "-CAfile"@, ca_path, cert_path] }
}

/// The directories that are searched for certificates, in order.
pub open spec fn candidate_directories() -> Seq<Seq<char>> {
    seq!["certs/kubernetes-ca"@, "certs/root-ca"@, "certs"@, "kubeconfig"@, "pki"@]
}

/// The directory that holds the certificates of the worker `worker`.
pub open spec fn worker_directory(worker: Seq<char>) -> Seq<char> {
    "certs/node-"@ + worker
}

/// The glob patterns under which certificate files are looked for below `base`.
pub open spec fn search_patterns(base: Seq<char>) -> Seq<Seq<char>> {
    seq![base + "/**/*.crt"@, base + "/**/*.pem"@, base + "/**/*.cert"@]
}

/// A file the search came upon: its path and its content, or why it could not be read.
#[derive(Debug, PartialEq, Eq)]
pub struct FoundFile {
    pub path: String,
    pub content: Result<Vec<u8>, IoFailure>,
}

/// What reading the file may come to: the failure to read it where it
/// could not be read, and otherwise what the analysis of its content admits.
pub open spec fn file_admits(
    file: FoundFile,
    now: int,
    outcome: Result<InfoView, IoFailureView>,
) -> bool {
    match file.content {
        Err(f) => outcome == Err::<InfoView, IoFailureView>(f@),
        Ok(bytes) => analysis_admits(file.path@, bytes@, now, outcome),
    }
}

/// The records among `outcomes`, in order.
pub open spec fn successes(outcomes: Seq<Result<InfoView, IoFailureView>>) -> Seq<InfoView>
    decreases outcomes.len(),
{
    if outcomes.len() == 0 {
        Seq::empty()
    } else {
        match outcomes.last() {
            Ok(info) => successes(outcomes.drop_last()).push(info),
            Err(_) => successes(outcomes.drop_last()),
        }
    }
}

/// What the operator is told of one file: that it could not be read; or
/// that it is looked at, and then what was found in it or why nothing was.
pub open spec fn file_lines(file: FoundFile, outcome: Result<InfoView, IoFailureView>) -> Seq<
    Seq<char>,
> {
    match file.content {
        Err(f) => seq!["Glob entry error: "@ + f.message@],
        Ok(_) => seq![
            "Processing potential certificate file: "@ + file.path@,
            match outcome {
                Ok(info) => "Discovered valid certificate: "@ + info.subject + " at "@
                    + file.path@,
                Err(f) => "Error analyzing certificate at "@ + file.path@ + ": "@ + f.message,
            },
        ],
    }
}

/// What the operator is told of the first `n` files, in order.
pub open spec fn discovery_log(
    files: Seq<FoundFile>,
    outcomes: Seq<Result<InfoView, IoFailureView>>,
    n: int,
) -> Seq<Seq<char>>
    decreases n,
{
    if n <= 0 {
        Seq::empty()
    } else {
        discovery_log(files, outcomes, n - 1) + file_lines(files[n - 1], outcomes[n - 1])
    }
}

/// The log of the first `n` files depends on their outcomes alone.
pub proof fn lemma_discovery_log_prefix(
    files: Seq<FoundFile>,
    a: Seq<Result<InfoView, IoFailureView>>,
    b: Seq<Result<InfoView, IoFailureView>>,
    n: int,
)
    requires
        n <= a.len(),
        n <= b.len(),
        forall|k: int| 0 <= k < n ==> a[k] == b[k],
    ensures
        discovery_log(files, a, n) == discovery_log(files, b, n),
    decreases n,
{
    if n > 0 {
        lemma_discovery_log_prefix(files, a, b, n - 1);
    }
}

/// What a search brought in.
#[derive(Clone, Debug, PartialEq, Eq)]
pub struct Discovery {
    /// The certificates that could be read, in the order the files came.
    pub certificates: Vec<CertificateInfo>,
    /// What there is to tell the operator.
    pub log: Vec<String>,
}

/// The trust store and the engine that fills it.
#[derive(Clone, Debug, PartialEq, Eq)]
pub struct CertificateDiscovery {
    /// One verdict for each node, in the order the nodes were first validated.
    pub trust_store: Vec<NodeTrustInfo>,
    /// Seconds between two rounds of re-validation.
    pub verification_interval: i64,
}

impl View for CertificateDiscovery {
    type V = Seq<NodeTrustView>;

    open spec fn view(&self) -> Seq<NodeTrustView> {
        store_views(self.trust_store@)
    }
}

impl CertificateDiscovery {
    /// The store holds one verdict for each node: no node stands twice.
    pub open spec fn wf(&self) -> bool {
        distinct_nodes(self@)
    }

    /// An empty trust store that is re-validated once a day.
    pub fn new() -> (r: Self)
        ensures
            r@ == Seq::<NodeTrustView>::empty(),
            r.wf(),
            r.verification_interval == VERIFICATION_INTERVAL,
    {
        let r = CertificateDiscovery {
            trust_store: Vec::new(),
            verification_interval: VERIFICATION_INTERVAL,
        };
        assert(r@ =~= Seq::<NodeTrustView>::empty());
        r
    }

    /// The directories that are searched for certificates, in order.
    pub fn candidate_directories() -> (r: Vec<String>)
        ensures
            texts(r@) == candidate_directories(),
    {
        let r = owned(vec!["certs/kubernetes-ca", "certs/root-ca", "certs", "kubeconfig", "pki"]);
        assert(texts(r@) =~= candidate_directories());
        r
    }

    /// The directory that holds the certificates of the worker `worker`.
    pub fn worker_directory(worker: &str) -> (r: String)
        ensures
            r@ == worker_directory(worker@),
    {
        cat("certs/node-", worker)
    }

    /// The glob patterns under which certificate files are looked for below `base_path`.
    pub fn search_patterns(base_path: &str) -> (r: Vec<String>)
        ensures
            texts(r@) == search_patterns(base_path@),
    {
        let r = vec![
            cat(base_path, "/**/*.crt"),
            cat(base_path, "/**/*.pem"),
            cat(base_path, "/**/*.cert"),
        ];
        assert(texts(r@) =~= search_patterns(base_path@));
        r
    }

    /// Reads every file the search came upon. A file that cannot be read or
    /// holds no certificate is reported in the log and passed over; it never
    /// keeps the files after it from being read.
    pub fn discover_certificates(&self, files: &Vec<FoundFile>, now: i64) -> (r: Discovery)
        ensures
            exists|outcomes: Seq<Result<InfoView, IoFailureView>>|
                outcomes.len() == files@.len() && (forall|i: int|
                    0 <= i < files@.len() ==> file_admits(
                        files@[i],
                        now as int,
                        #[trigger] outcomes[i],
                    )) && info_views(r.certificates@) == successes(outcomes) && texts(r.log@)
                    == discovery_log(files@, outcomes, files@.len() as int),
    {
        let mut certificates: Vec<CertificateInfo> = Vec::new();
        let mut log: Vec<String> = Vec::new();
        let ghost mut outcomes: Seq<Result<InfoView, IoFailureView>> = Seq::empty();
        let mut i: usize = 0;
        assert(info_views(certificates@) =~= successes(outcomes));
        assert(texts(log@) =~= discovery_log(files@, outcomes, 0));
        while i < files.len()
            invariant
                i <= files@.len(),
                outcomes.len() == i,
                forall|k: int|
                    0 <= k < i ==> file_admits(files@[k], now as int, #[trigger] outcomes[k]),
                info_views(certificates@) == successes(outcomes),
                texts(log@) == discovery_log(files@, outcomes, i as int),
            decreases files@.len() - i,
        {
            let file = &files[i];
            let ghost before = outcomes;
            let ghost kept = info_views(certificates@);
            let ghost told = texts(log@);
            match &file.content {
                Ok(bytes) => {
                    log.push(cat("Processing potential certificate file: ", file.path.as_str()));
                    match analyze_certificate_at(file.path.as_str(), bytes, now) {
                        Ok(info) => {
                            log.push(
                                crate::text::cat3(
                                    "Discovered valid certificate: ",
                                    info.subject.as_str(),
                                    " at ",
                                ).concat(file.path.as_str()),
                            );
                            proof {
                                outcomes = before.push(Ok(info@));
                            }
                            certificates.push(info);
                            assert(info_views(certificates@) =~= kept.push(info@));
                        },
                        Err(e) => {
                            log.push(
                                crate::text::cat3(
                                    "Error analyzing certificate at ",
                                    file.path.as_str(),
                                    ": ",
                                ).concat(e.message.as_str()),
                            );
                            proof {
                                outcomes = before.push(Err(e@));
                            }
                        },
                    }
                },
                Err(e) => {
                    log.push(cat("Glob entry error: ", e.message.as_str()));
                    proof {
                        outcomes = before.push(Err(e@));
                    }
                },
            }
            proof {
                assert(outcomes.drop_last() =~= before);
                lemma_discovery_log_prefix(files@, before, outcomes, i as int);
                assert(texts(log@) =~= told + file_lines(files@[i as int], outcomes[i as int]));
            }
            i += 1;
        }
        Discovery { certificates, log }
    }

    /// The CA that issued under the name `issuer`, among the CA certificates
    /// the store has seen.
    pub fn find_issuing_ca(&self, issuer: &str) -> (r: Option<CertificateInfo>)
        ensures
            match r {
                Some(ca) => issuing_ca(self@, issuer@) == Some(ca@),
                None => issuing_ca(self@, issuer@) is None,
            },
    {
        let mut n: usize = 0;
        assert(self@.skip(0) =~= self@);
        while n < self.trust_store.len()
            invariant
                n <= self.trust_store@.len(),
                issuing_ca(self@, issuer@) == issuing_ca(self@.skip(n as int), issuer@),
            decreases self.trust_store@.len() - n,
        {
            let node = &self.trust_store[n];
            let ghost certs = info_views(node.certificates@);
            proof {
                assert(self@.skip(n as int)[0] == node@);
                assert(self@.skip(n as int).skip(1) =~= self@.skip(n + 1));
                assert(certs.skip(0) =~= certs);
            }
            let mut c: usize = 0;
            while c < node.certificates.len()
                invariant
                    c <= node.certificates@.len(),
                    n < self.trust_store@.len(),
                    certs == info_views(node.certificates@),
                    self@.skip(n as int)[0].certificates == certs,
                    issuing_ca(self@, issuer@) == issuing_ca(self@.skip(n as int), issuer@),
                    ca_among(certs, issuer@) == ca_among(certs.skip(c as int), issuer@),
                decreases node.certificates@.len() - c,
            {
                let cert = &node.certificates[c];
                proof {
                    assert(certs.skip(c as int)[0] == cert@);
                    assert(certs.skip(c as int).skip(1) =~= certs.skip(c + 1));
                }
                if cert.is_ca && str_eq(cert.subject.as_str(), issuer) {
                    return Some(cert.duplicate());
                }
                c += 1;
            }
            n += 1;
        }
        None
    }

    /// The command of the chain check of `cert_path` against `ca_path`.
    pub fn validate_certificate_chain(cert_path: &str, ca_path: &str) -> (r: Invocation)
        ensures
            r@ == chain_command(cert_path@, ca_path@),
    {
        let args = owned(vec!["verify", "-CAfile", ca_path, cert_path]);
        assert(texts(args@) =~= seq!["verify"@, "-CAfile"@, ca_path@, cert_path@]);
        Invocation::new("openssl", args)
    }

    /// The chain checks that `certs` call for, one item for each certificate.
    pub fn chain_checks(&self, certs: &Vec<CertificateInfo>) -> (r: Vec<Option<ChainCheck>>)
        ensures
            r@.len() == certs@.len(),
            forall|i: int|
                0 <= i < certs@.len() ==> (#[trigger] check_views(r@)[i]) == check_for(
                    self@,
                    certs@[i]@,
                ),
    {
        let mut out: Vec<Option<ChainCheck>> = Vec::new();
        let mut i: usize = 0;
        while i < certs.len()
            invariant
                i <= certs@.len(),
                out@.len() == i,
                forall|k: int|
                    0 <= k < i ==> (#[trigger] check_views(out@)[k]) == check_for(
                        self@,
                        certs@[k]@,
                    ),
            decreases certs@.len() - i,
        {
            let cert = &certs[i];
            let item = if cert.is_ca {
                None
            } else {
                match self.find_issuing_ca(cert.issuer.as_str()) {
                    Some(ca) => Some(
                        ChainCheck { cert_path: cert.path.clone(), ca_path: ca.path.clone() },
                    ),
                    None => None,
                }
            };
            let ghost before = out@;
            out.push(item);
            proof {
                assert forall|k: int| 0 <= k < i + 1 implies (#[trigger] check_views(out@)[k])
                    == check_for(self@, certs@[k]@) by {
                    if k < i {
                        assert(check_views(before)[k] == check_for(self@, certs@[k]@));
                        assert(out@[k] == before[k]);
                    }
                }
            }
            i += 1;
        }
        out
    }

    /// The report on how `cert_info` stands to its expiry at `now`.
    pub fn check_certificate_expiration_at(cert_info: &CertificateInfo, now: i64) -> (r: CertStatus)
        ensures
            r@ == expiry_report(cert_info@, now as int),
    {
        let status = match expiry(cert_info.not_after, now) {
            Expiry::Expired => "Expired",
            Expiry::ExpiringSoon => "ExpiringSoon",
            Expiry::Valid => "Valid",
        };
        CertStatus {
            cert_type: cert_info.subject.clone(),
            status: String::from_str(status),
            last_updated: to_rfc3339(cert_info.not_after),
        }
    }

    /// The report on how `cert_info` stands to its expiry at the present time.
    pub fn check_certificate_expiration(cert_info: &CertificateInfo) -> (r: CertStatus)
        ensures
            exists|now: int| r@ == expiry_report(cert_info@, now),
    {
        let now = utc_now();
        let r = Self::check_certificate_expiration_at(cert_info, now);
        assert(r@ == expiry_report(cert_info@, now as int));
        r
    }

    fn position(&self, node_ip: &str) -> (r: Option<usize>)
        ensures
            match r {
                Some(i) => node_index(self@, node_ip@) == Some(i as int) && i
                    < self.trust_store@.len(),
                None => node_index(self@, node_ip@) is None,
            },
    {
        let mut i: usize = 0;
        while i < self.trust_store.len()
            invariant
                i <= self.trust_store@.len(),
                forall|j: int| 0 <= j < i ==> self@[j].node_ip != node_ip@,
            decreases self.trust_store@.len() - i,
        {
            if str_eq(self.trust_store[i].node_ip.as_str(), node_ip) {
                proof {
                    lemma_node_index_at(self@, node_ip@, i as int);
                }
                return Some(i);
            }
            i += 1;
        }
        proof {
            lemma_node_index(self@, node_ip@);
        }
        None
    }

    /// What the store holds for `node_ip`.
    pub fn get(&self, node_ip: &str) -> (r: Option<&NodeTrustInfo>)
        ensures
            match r {
                Some(info) => entry_of(self@, node_ip@) == Some(info@),
                None => entry_of(self@, node_ip@) is None,
            },
    {
        match self.position(node_ip) {
            Some(i) => Some(&self.trust_store[i]),
            None => None,
        }
    }

    /// Puts `info` into the store under the node it names, in place of
    /// whatever the store held for that node.
    pub fn update_trust_store(&mut self, info: NodeTrustInfo)
        ensures
            final(self)@ == put(old(self)@, info@),
            final(self).verification_interval == old(self).verification_interval,
            old(self).wf() ==> final(self).wf(),
    {
        let ghost before = self@;
        proof {
            if distinct_nodes(before) {
                lemma_put_keeps_nodes_distinct(before, info@);
            }
        }
        match self.position(info.node_ip.as_str()) {
            Some(i) => {
                self.trust_store.set(i, info);
            },
            None => {
                self.trust_store.push(info);
            },
        }
        assert(self@ =~= put(before, info@));
    }

    /// A copy of the store.
    pub fn get_trust_store_contents(&self) -> (r: Vec<NodeTrustInfo>)
        ensures
            store_views(r@) == self@,
    {
        let mut out: Vec<NodeTrustInfo> = Vec::new();
        let mut i: usize = 0;
        while i < self.trust_store.len()
            invariant
                i <= self.trust_store@.len(),
                out@.len() == i,
                forall|k: int| 0 <= k < i ==> out@[k]@ == self.trust_store@[k]@,
            decreases self.trust_store@.len() - i,
        {
            out.push(self.trust_store[i].duplicate());
            i += 1;
        }
        assert(store_views(out@) =~= self@);
        out
    }

    /// Judges the node `node_ip` at `now` from its certificates and from
    /// the outcome of the chain checks they called for, `verdicts[i]` being
    /// that of `certs[i]`, and puts the verdict into the store in place of
    /// the node's former one. The issuing CAs are those the store knew
    /// before this call.
    pub fn validate_node_trust_at(
        &mut self,
        node_ip: &str,
        certs: Vec<CertificateInfo>,
        verdicts: &Vec<Option<bool>>,
        now: i64,
    )
        ensures
            final(self)@ == put(
                old(self)@,
                node_verdict(old(self)@, node_ip@, info_views(certs@), verdicts@, now as int),
            ),
            final(self).verification_interval == old(self).verification_interval,
            old(self).wf() ==> final(self).wf(),
    {
        let ghost store = self@;
        let ghost views = info_views(certs@);
        let mut chain_valid = true;
        let mut expiring_soon: Vec<String> = Vec::new();
        let mut i: usize = 0;
        assert(texts(expiring_soon@) =~= expiring(views.take(0), now as int));
        while i < certs.len()
            invariant
                i <= certs@.len(),
                store == self@,
                views == info_views(certs@),
                chain_valid == (forall|k: int|
                    0 <= k < i ==> !breaks_chain(store, views, verdicts@, k)),
                texts(expiring_soon@) == expiring(views.take(i as int), now as int),
            decreases certs@.len() - i,
        {
            let cert = &certs[i];
            proof {
                let next = views.take(i + 1);
                assert(next.drop_last() =~= views.take(i as int));
                assert(next.last() == cert@);
            }
            let ghost listed = texts(expiring_soon@);
            if !cert.is_ca {
                let failed = i < verdicts.len() && match verdicts[i] {
                    Some(ok) => !ok,
                    None => false,
                };
                if failed {
                    match self.find_issuing_ca(cert.issuer.as_str()) {
                        Some(_) => {
                            chain_valid = false;
                            assert(breaks_chain(store, views, verdicts@, i as int));
                        },
                        None => {},
                    }
                }
            }
            match expiry(cert.not_after, now) {
                Expiry::ExpiringSoon => {
                    expiring_soon.push(cert.subject.clone());
                    assert(texts(expiring_soon@) =~= listed.push(cert.subject@));
                },
                _ => {},
            }
            i += 1;
        }
        proof {
            assert(views.take(certs@.len() as int) =~= views);
            assert(chain_valid == chain_intact(store, views, verdicts@));
        }
        let info = NodeTrustInfo {
            node_ip: String::from_str(node_ip),
            certificates: certs,
            trust_chain_valid: chain_valid,
            permissions_valid: true,
            expiring_soon,
            last_checked: now,
        };
        self.update_trust_store(info);
    }

    /// Judges the node `node_ip` at the present time.
    pub fn validate_node_trust(
        &mut self,
        node_ip: &str,
        certs: Vec<CertificateInfo>,
        verdicts: &Vec<Option<bool>>,
    )
        ensures
            exists|now: int|
                final(self)@ == put(
                    old(self)@,
                    node_verdict(old(self)@, node_ip@, info_views(certs@), verdicts@, now),
                ),
            final(self).verification_interval == old(self).verification_interval,
            old(self).wf() ==> final(self).wf(),
    {
        let now = utc_now();
        self.validate_node_trust_at(node_ip, certs, verdicts, now);
    }

    /// One round of re-validation of the node `node_ip` at `now`:
    /// `readings[i]` is what was read of the file of the node's certificate
    /// at `i`, or nothing where the file could not be read.
    pub fn revalidate_node_at(&mut self, node_ip: &str, readings: &Vec<Option<Vec<u8>>>, now: i64)
        ensures
            final(self)@ == after_revalidation(old(self)@, node_ip@, readings@, now as int),
            final(self).verification_interval == old(self).verification_interval,
            old(self).wf() ==> final(self).wf(),
    {
        let ghost before = self@;
        proof {
            if distinct_nodes(before) {
                lemma_revalidation_keeps_nodes_distinct(before, node_ip@, readings@, now as int);
            }
        }
        match self.position(node_ip) {
            Some(at) => {
                let count = self.trust_store[at].certificates.len();
                let mut sound = true;
                let mut i: usize = 0;
                while i < count
                    invariant
                        i <= count,
                        sound == readings_sound(readings@, i as int),
                    decreases count - i,
                {
                    if i < readings.len() {
                        match &readings[i] {
                            Some(bytes) => {
                                if verify_certificate(bytes.as_slice()).is_err() {
                                    sound = false;
                                    assert(reading_at(readings@, i as int) == Some(bytes@));
                                }
                            },
                            None => {},
                        }
                    }
                    i += 1;
                }
                self.trust_store[at].last_checked = now;
                if !sound {
                    self.trust_store[at].trust_chain_valid = false;
                }
                assert(self@ =~= after_revalidation(before, node_ip@, readings@, now as int));
            },
            None => {},
        }
    }

    /// One round of re-validation of the node `node_ip` at the present time.
    pub fn revalidate_node(&mut self, node_ip: &str, readings: &Vec<Option<Vec<u8>>>)
        ensures
            exists|now: int|
                final(self)@ == after_revalidation(old(self)@, node_ip@, readings@, now),
            final(self).verification_interval == old(self).verification_interval,
            old(self).wf() ==> final(self).wf(),
    {
        let now = utc_now();
        self.revalidate_node_at(node_ip, readings, now);
    }
}

} // verus!
