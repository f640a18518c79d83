//! Reading certificates: the parsers and digests the library borrows.

use vstd::prelude::*;
use vstd::string::*;
use x509_parser::prelude::{FromDer, ParsedExtension, X509Certificate};

verus! {

/// What the library reads from a parsed certificate.
#[derive(Clone, Debug, PartialEq, Eq)]
pub struct RawCertificate {
    /// The subject's distinguished name, written out.
    pub subject: String,
    /// The issuer's distinguished name, written out.
    pub issuer: String,
    /// Start of validity, in seconds since the Unix epoch.
    pub not_before: i64,
    /// End of validity, in seconds since the Unix epoch.
    pub not_after: i64,
    /// The serial number as it stands in the certificate.
    pub serial: Vec<u8>,
    /// One item for each extension, in order: the CA flag where the
    /// extension is a basic-constraints extension, nothing otherwise.
    pub constraints: Vec<Option<bool>>,
}

/// The mathematical content of what is read from a certificate.
pub struct RawCertificateView {
    pub subject: Seq<char>,
    pub issuer: Seq<char>,
    pub not_before: int,
    pub not_after: int,
    pub serial: Seq<u8>,
    pub constraints: Seq<Option<bool>>,
}

impl View for RawCertificate {
    type V = RawCertificateView;

    open spec fn view(&self) -> RawCertificateView {
        RawCertificateView {
            subject: self.subject@,
            issuer: self.issuer@,
            not_before: self.not_before as int,
            not_after: self.not_after as int,
            serial: self.serial@,
            constraints: self.constraints@,
        }
    }
}

/// The DER encoding of the first certificate in a PEM text, as OpenSSL
/// decodes it; none where OpenSSL finds no certificate in the text. The
/// name is used for texts of at most `PEM_LIMIT` bytes only.
pub uninterp spec fn pem_der(pem: Seq<u8>) -> Option<Seq<u8>>;

/// What `x509-parser` reads from a DER-encoded certificate; none where it
/// does not parse.
pub uninterp spec fn x509_fields(der: Seq<u8>) -> Option<RawCertificateView>;

/// The SHA-256 digest of a byte string.
pub uninterp spec fn sha256_of(data: Seq<u8>) -> Seq<u8>;

/// The RFC 3339 text of the UTC time `secs` seconds after the Unix epoch;
/// none where `chrono` cannot represent that time.
pub uninterp spec fn rfc3339_text(secs: int) -> Option<Seq<char>>;

/// The hexadecimal digit for `d`, which is below sixteen, in lower case.
pub open spec fn hex_digit(d: int) -> char {
    if d < 10 {
        crate::text::digit(d)
    } else if d == 10 {
        'a'
    } else if d == 11 {
        'b'
    } else if d == 12 {
        'c'
    } else if d == 13 {
        'd'
    } else if d == 14 {
        'e'
    } else {
        'f'
    }
}

/// The bytes written as hexadecimal digits, two for each byte, the high half first.
pub open spec fn hex_text(data: Seq<u8>) -> Seq<char>
    decreases data.len(),
{
    if data.len() == 0 {
        Seq::empty()
    } else {
        hex_text(data.drop_last()).push(hex_digit(data.last() as int / 16)).push(
            hex_digit(data.last() as int % 16),
        )
    }
}

/// The longest text OpenSSL takes as one memory buffer: the largest value
/// of a C `int`.
pub const PEM_LIMIT: usize = 2147483647;

/// Decodes a PEM certificate with `openssl::x509::X509::from_pem` and
/// encodes it again with `X509::to_der`. An error of either call comes back
/// as its text; the contract names the outcome and says nothing else of it.
/// `from_pem` panics on a text longer than `PEM_LIMIT`; such texts are left out.
#[verifier::external_body]
pub(crate) fn pem_to_der(pem: &[u8]) -> (r: Result<Vec<u8>, String>)
    requires
        pem@.len() <= PEM_LIMIT,
    ensures
        match r {
            Ok(der) => pem_der(pem@) == Some(der@),
            Err(_) => pem_der(pem@) is None,
        },
{
    match openssl::x509::X509::from_pem(pem).and_then(|cert| cert.to_der()) {
        Ok(der) => Ok(der),
        Err(e) => Err(e.to_string()),
    }
}

/// Parses a DER certificate with `x509_parser`'s `X509Certificate::from_der`
/// and copies out the subject and issuer as their `Display` writes them,
/// the two ends of the validity as Unix time stamps, the raw serial, and
/// the CA flag of every basic-constraints extension. A parse error comes
/// back as its text.
#[verifier::external_body]
pub(crate) fn parse_der(der: &[u8]) -> (r: Result<RawCertificate, String>)
    ensures
        match r {
            Ok(raw) => x509_fields(der@) == Some(raw@),
            Err(_) => x509_fields(der@) is None,
        },
{
    let (_, cert) = X509Certificate::from_der(der).map_err(|e| e.to_string())?;
    Ok(RawCertificate {
        subject: cert.subject().to_string(),
        issuer: cert.issuer().to_string(),
        not_before: cert.validity().not_before.timestamp(),
        not_after: cert.validity().not_after.timestamp(),
        serial: cert.raw_serial().to_vec(),
        constraints: cert.extensions().iter().map(|ext| match ext.parsed_extension() {
            ParsedExtension::BasicConstraints(bc) => Some(bc.ca),
            _ => None,
        }).collect(),
    })
}

/// The SHA-256 digest of `data`, computed by `openssl::hash::hash`. OpenSSL
/// may refuse; its error comes back as its text.
#[verifier::external_body]
pub(crate) fn sha256(data: &[u8]) -> (r: Result<Vec<u8>, String>)
    ensures
        r matches Ok(digest) ==> digest@ == sha256_of(data@),
{
    match openssl::hash::hash(openssl::hash::MessageDigest::sha256(), data) {
        Ok(digest) => Ok(digest.to_vec()),
        Err(e) => Err(e.to_string()),
    }
}

/// `hex::encode`: two lower-case hexadecimal digits for each byte.
#[verifier::external_body]
pub(crate) fn hex_encode(data: &[u8]) -> (r: String)
    ensures
        r@ == hex_text(data@),
{
    hex::encode(data)
}

/// The time `secs` seconds after the Unix epoch as `chrono` writes it with
/// `DateTime::to_rfc3339`; none where `DateTime::from_timestamp` finds the
/// time out of range.
#[verifier::external_body]
pub(crate) fn to_rfc3339(secs: i64) -> (r: Option<String>)
    ensures
        match r {
            Some(text) => rfc3339_text(secs as int) == Some(text@),
            None => rfc3339_text(secs as int) is None,
        },
{
    match chrono::DateTime::from_timestamp(secs, 0) {
        Some(time) => Some(time.to_rfc3339()),
        None => None,
    }
}

} // verus!
