//! What a certificate request is made of.

use vstd::prelude::*;
use vstd::string::*;
use crate::text::texts;

verus! {

/// The kinds of certificate the cluster needs.
#[derive(Clone, Debug, PartialEq, Eq)]
pub enum CertificateType {
    RootCA,
    KubernetesCA,
    APIServer,
    KubeletClient,
    ServiceAccount,
    ControllerManager,
    Scheduler,
    Node(String),
    Admin,
}

/// The mathematical content of a `CertificateType`.
pub enum KindView {
    RootCA,
    KubernetesCA,
    APIServer,
    KubeletClient,
    ServiceAccount,
    ControllerManager,
    Scheduler,
    Node(Seq<char>),
    Admin,
}

impl View for CertificateType {
    type V = KindView;

    open spec fn view(&self) -> KindView {
        match self {
            CertificateType::RootCA => KindView::RootCA,
            CertificateType::KubernetesCA => KindView::KubernetesCA,
            CertificateType::APIServer => KindView::APIServer,
            CertificateType::KubeletClient => KindView::KubeletClient,
            CertificateType::ServiceAccount => KindView::ServiceAccount,
            CertificateType::ControllerManager => KindView::ControllerManager,
            CertificateType::Scheduler => KindView::Scheduler,
            CertificateType::Node(name) => KindView::Node(name@),
            CertificateType::Admin => KindView::Admin,
        }
    }
}

/// The kind signs itself: it has no parent CA.
pub open spec fn self_signed(kind: KindView) -> bool {
    kind is RootCA
}

/// The kind is a certificate authority.
pub open spec fn is_authority(kind: KindView) -> bool {
    kind is RootCA || kind is KubernetesCA
}

impl CertificateType {
    /// Whether the kind signs itself.
    pub fn is_root(&self) -> (r: bool)
        ensures
            r == self_signed(self@),
    {
        match self {
            CertificateType::RootCA => true,
            _ => false,
        }
    }

    /// Whether the kind is a certificate authority.
    pub fn is_ca(&self) -> (r: bool)
        ensures
            r == is_authority(self@),
    {
        match self {
            CertificateType::RootCA => true,
            CertificateType::KubernetesCA => true,
            _ => false,
        }
    }

    /// A copy with the same content.
    pub fn duplicate(&self) -> (r: Self)
        ensures
            r@ == self@,
    {
        match self {
            CertificateType::RootCA => CertificateType::RootCA,
            CertificateType::KubernetesCA => CertificateType::KubernetesCA,
            CertificateType::APIServer => CertificateType::APIServer,
            CertificateType::KubeletClient => CertificateType::KubeletClient,
            CertificateType::ServiceAccount => CertificateType::ServiceAccount,
            CertificateType::ControllerManager => CertificateType::ControllerManager,
            CertificateType::Scheduler => CertificateType::Scheduler,
            CertificateType::Node(name) => CertificateType::Node(name.clone()),
            CertificateType::Admin => CertificateType::Admin,
        }
    }
}

/// Whether a subject alternative name is a host name or an address.
#[derive(Clone, Copy, Debug, PartialEq, Eq, Structural)]
pub enum AltNameType {
    DNS,
    IP,
}

/// A subject alternative name.
#[derive(Clone, Debug, PartialEq, Eq)]
pub struct AltName {
    pub alt_type: AltNameType,
    pub value: String,
}

/// The mathematical content of an alternative name.
pub struct AltNameView {
    pub alt_type: AltNameType,
    pub value: Seq<char>,
}

impl View for AltName {
    type V = AltNameView;

    open spec fn view(&self) -> AltNameView {
        AltNameView { alt_type: self.alt_type, value: self.value@ }
    }
}

/// A host-name entry.
pub open spec fn dns_name(value: Seq<char>) -> AltNameView {
    AltNameView { alt_type: AltNameType::DNS, value }
}

/// An address entry.
pub open spec fn ip_name(value: Seq<char>) -> AltNameView {
    AltNameView { alt_type: AltNameType::IP, value }
}

/// The entry as OpenSSL writes it inline: the type, a colon, the value.
pub open spec fn inline_form(name: AltNameView) -> Seq<char> {
    match name.alt_type {
        AltNameType::DNS => "DNS:"@ + name.value,
        AltNameType::IP => "IP:"@ + name.value,
    }
}

impl AltName {
    /// A host-name entry.
    pub fn dns(value: String) -> (r: Self)
        ensures
            r@ == dns_name(value@),
    {
        AltName { alt_type: AltNameType::DNS, value }
    }

    /// An address entry.
    pub fn ip(value: String) -> (r: Self)
        ensures
            r@ == ip_name(value@),
    {
        AltName { alt_type: AltNameType::IP, value }
    }

    /// The entry as OpenSSL writes it inline.
    pub fn to_openssl_format(&self) -> (r: String)
        ensures
            r@ == inline_form(self@),
    {
        match self.alt_type {
            AltNameType::DNS => String::from_str("DNS:").concat(self.value.as_str()),
            AltNameType::IP => String::from_str("IP:").concat(self.value.as_str()),
        }
    }
}

/// The views of a sequence of alternative names.
pub open spec fn alt_views(names: Seq<AltName>) -> Seq<AltNameView> {
    Seq::new(names.len(), |i: int| names[i]@)
}

/// What one generation call is asked to produce.
#[derive(Clone, Debug, PartialEq, Eq)]
pub struct CertificateConfig {
    pub cert_type: CertificateType,
    pub common_name: String,
    pub organization: Option<String>,
    pub validity_days: u32,
    pub key_size: u32,
    pub output_dir: String,
    pub alt_names: Vec<AltName>,
    pub key_usage: Vec<String>,
    pub extended_key_usage: Vec<String>,
    pub country: Option<String>,
    pub state: Option<String>,
    pub locality: Option<String>,
}

/// The mathematical content of a request.
pub struct ConfigView {
    pub cert_type: KindView,
    pub common_name: Seq<char>,
    pub organization: Option<Seq<char>>,
    pub validity_days: u32,
    pub key_size: u32,
    pub output_dir: Seq<char>,
    pub alt_names: Seq<AltNameView>,
    pub key_usage: Seq<Seq<char>>,
    pub extended_key_usage: Seq<Seq<char>>,
    pub country: Option<Seq<char>>,
    pub state: Option<Seq<char>>,
    pub locality: Option<Seq<char>>,
}

/// The character sequence of an optional string.
pub open spec fn opt_text(s: Option<String>) -> Option<Seq<char>> {
    match s {
        Some(t) => Some(t@),
        None => None,
    }
}

impl View for CertificateConfig {
    type V = ConfigView;

    open spec fn view(&self) -> ConfigView {
        ConfigView {
            cert_type: self.cert_type@,
            common_name: self.common_name@,
            organization: opt_text(self.organization),
            validity_days: self.validity_days,
            key_size: self.key_size,
            output_dir: self.output_dir@,
            alt_names: alt_views(self.alt_names@),
            key_usage: texts(self.key_usage@),
            extended_key_usage: texts(self.extended_key_usage@),
            country: opt_text(self.country),
            state: opt_text(self.state),
            locality: opt_text(self.locality),
        }
    }
}

/// The hosts certificates are made for.
#[derive(Clone, Debug, PartialEq, Eq)]
pub struct ClusterEndpoints {
    pub control_plane: String,
    pub worker_nodes: Vec<String>,
}

/// An owned copy of each item.
pub fn owned(parts: Vec<&str>) -> (r: Vec<String>)
    ensures
        r.len() == parts.len(),
        forall|i: int| 0 <= i < r.len() ==> r@[i]@ == parts@[i]@,
{
    let mut out: Vec<String> = Vec::new();
    let mut i: usize = 0;
    while i < parts.len()
        invariant
            i <= parts.len(),
            out.len() == i,
            forall|k: int| 0 <= k < i ==> out@[k]@ == parts@[k]@,
        decreases parts.len() - i,
    {
        out.push(String::from_str(parts[i]));
        i += 1;
    }
    out
}

} // verus!
