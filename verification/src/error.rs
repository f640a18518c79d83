//! What can go wrong while certificates are made, copied and checked.

use vstd::prelude::*;
use vstd::string::*;

verus! {

/// The classes of operating-system failure the library tells apart.
#[derive(Clone, Copy, Debug, PartialEq, Eq, Structural)]
pub enum IoKind {
    NotFound,
    InvalidData,
    Other,
}

/// A failure of the file system or of starting a process.
#[derive(Clone, Debug, PartialEq, Eq)]
pub struct IoFailure {
    pub kind: IoKind,
    pub message: String,
}

/// The mathematical content of an I/O failure.
pub struct IoFailureView {
    pub kind: IoKind,
    pub message: Seq<char>,
}

impl View for IoFailure {
    type V = IoFailureView;

    open spec fn view(&self) -> IoFailureView {
        IoFailureView { kind: self.kind, message: self.message@ }
    }
}

impl IoFailure {
    /// A failure of the given kind.
    pub fn new(kind: IoKind, message: String) -> (r: Self)
        ensures
            r@ == (IoFailureView { kind, message: message@ }),
    {
        IoFailure { kind, message }
    }

    /// A failure to find something.
    pub fn not_found(message: String) -> (r: Self)
        ensures
            r@ == (IoFailureView { kind: IoKind::NotFound, message: message@ }),
    {
        IoFailure { kind: IoKind::NotFound, message }
    }

    /// A failure of no particular kind.
    pub fn other(message: String) -> (r: Self)
        ensures
            r@ == (IoFailureView { kind: IoKind::Other, message: message@ }),
    {
        IoFailure { kind: IoKind::Other, message }
    }

    /// A copy with the same content.
    pub fn duplicate(&self) -> (r: Self)
        ensures
            r@ == self@,
    {
        IoFailure { kind: self.kind, message: self.message.clone() }
    }
}

/// The failures of a certificate operation.
#[derive(Clone, Debug, PartialEq, Eq)]
pub enum CertOperationError {
    /// The file system refused, or a tool could not be started.
    IoError(IoFailure),
    /// Making a key, a signing request or a signature failed.
    CertGeneration(String),
    /// Copying to a host or placing the file there failed.
    Distribution(String),
    /// A certificate did not pass its check.
    Verification(String),
}

/// The mathematical content of an operation's error.
pub enum ErrorView {
    IoError(IoFailureView),
    CertGeneration(Seq<char>),
    Distribution(Seq<char>),
    Verification(Seq<char>),
}

impl View for CertOperationError {
    type V = ErrorView;

    open spec fn view(&self) -> ErrorView {
        match self {
            CertOperationError::IoError(f) => ErrorView::IoError(f@),
            CertOperationError::CertGeneration(s) => ErrorView::CertGeneration(s@),
            CertOperationError::Distribution(s) => ErrorView::Distribution(s@),
            CertOperationError::Verification(s) => ErrorView::Verification(s@),
        }
    }
}

/// The line shown to the operator for an error.
pub open spec fn description(e: ErrorView) -> Seq<char> {
    match e {
        ErrorView::IoError(f) => "IO Error: "@ + f.message,
        ErrorView::CertGeneration(s) => "Certificate Generation Error: "@ + s,
        ErrorView::Distribution(s) => "Distribution Error: "@ + s,
        ErrorView::Verification(s) => "Verification Error: "@ + s,
    }
}

/// The error as a plain I/O failure: an I/O failure keeps its kind, the
/// others become `Other`; the message says which operation failed.
pub open spec fn as_io(e: ErrorView) -> IoFailureView {
    match e {
        ErrorView::IoError(f) => IoFailureView {
            kind: f.kind,
            message: "Certificate operation IO error: "@ + f.message,
        },
        ErrorView::CertGeneration(s) => IoFailureView {
            kind: IoKind::Other,
            message: "Certificate generation error: "@ + s,
        },
        ErrorView::Distribution(s) => IoFailureView {
            kind: IoKind::Other,
            message: "Certificate distribution error: "@ + s,
        },
        ErrorView::Verification(s) => IoFailureView {
            kind: IoKind::Other,
            message: "Certificate verification error: "@ + s,
        },
    }
}

impl CertOperationError {
    /// A copy with the same content.
    pub fn duplicate(&self) -> (r: Self)
        ensures
            r@ == self@,
    {
        match self {
            CertOperationError::IoError(f) => CertOperationError::IoError(f.duplicate()),
            CertOperationError::CertGeneration(s) => CertOperationError::CertGeneration(s.clone()),
            CertOperationError::Distribution(s) => CertOperationError::Distribution(s.clone()),
            CertOperationError::Verification(s) => CertOperationError::Verification(s.clone()),
        }
    }

    /// The line shown to the operator for the error.
    pub fn describe(&self) -> (r: String)
        ensures
            r@ == description(self@),
    {
        match self {
            CertOperationError::IoError(f) => String::from_str("IO Error: ").concat(
                f.message.as_str(),
            ),
            CertOperationError::CertGeneration(s) => String::from_str(
                "Certificate Generation Error: ",
            ).concat(s.as_str()),
            CertOperationError::Distribution(s) => String::from_str("Distribution Error: ").concat(
                s.as_str(),
            ),
            CertOperationError::Verification(s) => String::from_str("Verification Error: ").concat(
                s.as_str(),
            ),
        }
    }

    /// The error as a plain I/O failure.
    pub fn into_io(self) -> (r: IoFailure)
        ensures
            r@ == as_io(self@),
    {
        match self {
            CertOperationError::IoError(f) => IoFailure {
                kind: f.kind,
                message: String::from_str("Certificate operation IO error: ").concat(
                    f.message.as_str(),
                ),
            },
            CertOperationError::CertGeneration(s) => IoFailure {
                kind: IoKind::Other,
                message: String::from_str("Certificate generation error: ").concat(s.as_str()),
            },
            CertOperationError::Distribution(s) => IoFailure {
                kind: IoKind::Other,
                message: String::from_str("Certificate distribution error: ").concat(s.as_str()),
            },
            CertOperationError::Verification(s) => IoFailure {
                kind: IoKind::Other,
                message: String::from_str("Certificate verification error: ").concat(s.as_str()),
            },
        }
    }

    /// The error that an I/O failure is.
    pub fn from_io(failure: IoFailure) -> (r: Self)
        ensures
            r@ == ErrorView::IoError(failure@),
    {
        CertOperationError::IoError(failure)
    }
}

/// The failures of making node certificates.
#[derive(Clone, Debug, PartialEq, Eq)]
pub enum NodeCertError {
    IoError(IoFailure),
    CertOperation(CertOperationError),
}

impl NodeCertError {
    /// The error that an I/O failure is.
    pub fn from_io(failure: IoFailure) -> (r: Self)
        ensures
            r matches NodeCertError::IoError(f) && f@ == failure@,
    {
        NodeCertError::IoError(failure)
    }

    /// The error that a failed operation is.
    pub fn from_operation(error: CertOperationError) -> (r: Self)
        ensures
            r matches NodeCertError::CertOperation(e) && e@ == error@,
    {
        NodeCertError::CertOperation(error)
    }
}

/// The failures of making the service-account key pair.
#[derive(Clone, Debug, PartialEq, Eq)]
pub enum ServiceAccountError {
    IoError(IoFailure),
    KeyGeneration(String),
}

impl ServiceAccountError {
    /// The error that an I/O failure is.
    pub fn from_io(failure: IoFailure) -> (r: Self)
        ensures
            r matches ServiceAccountError::IoError(f) && f@ == failure@,
    {
        ServiceAccountError::IoError(failure)
    }
}

/// What a failed run of the openssl tool left behind.
#[derive(Clone, Debug, PartialEq, Eq)]
pub struct OpenSSLError {
    pub message: String,
    pub stdout: String,
    pub stderr: String,
}

impl OpenSSLError {
    /// The line shown to the operator: the message alone.
    pub fn describe(&self) -> (r: String)
        ensures
            r@ == self.message@,
    {
        self.message.clone()
    }

    /// The tool's output, for the debug log.
    pub fn output_report(&self) -> (r: String)
        ensures
            r@ == "stdout: "@ + self.stdout@ + "\nstderr: "@ + self.stderr@,
    {
        String::from_str("stdout: ").concat(self.stdout.as_str()).concat("\nstderr: ").concat(
            self.stderr.as_str(),
        )
    }
}

} // verus!
