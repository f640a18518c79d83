//! What the monitoring surfaces are told: the state of each node's
//! certificates, the reachability of the nodes, and the trust verdicts.

use vstd::prelude::*;
use vstd::string::*;
use crate::config::{all_hosts, ClusterConfig};
use crate::discovery::{
    CertStatus, CertStatusView, CertificateInfo, InfoView, NodeTrustInfo, NodeTrustView,
};
use crate::manager::listed;
use crate::ssh::{verified_at, ConnectionStatus, SSHConnectionCache};
use crate::text::{clone_strings, contains, has_infix, texts};
use crate::tracker::{root_marker, CertTracker, CertificateStatus, StatusView};
use crate::x509::{rfc3339_text, to_rfc3339};

verus! {

/// A time as it is shown: RFC 3339 text, and nothing for a time that cannot be written.
pub open spec fn shown_time(secs: int) -> Seq<char> {
    match rfc3339_text(secs) {
        Some(text) => text,
        None => Seq::empty(),
    }
}

/// The time `secs` seconds after the Unix epoch as it is shown.
pub fn time_text(secs: i64) -> (r: String)
    ensures
        r@ == shown_time(secs as int),
{
    match to_rfc3339(secs) {
        Some(text) => text,
        None => String::new(),
    }
}

/// A certificate record with its times written out.
#[derive(Clone, Debug, PartialEq, Eq)]
pub struct CertificateInfoSchema {
    pub path: String,
    pub subject: String,
    pub issuer: String,
    pub not_before: String,
    pub not_after: String,
    pub serial: String,
    pub fingerprint: String,
    pub is_ca: bool,
    pub last_verified: Option<String>,
    pub verification_error: Option<String>,
}

/// A record is written out faithfully.
pub open spec fn shows_info(s: CertificateInfoSchema, info: InfoView) -> bool {
    &&& s.path@ == info.path
    &&& s.subject@ == info.subject
    &&& s.issuer@ == info.issuer
    &&& s.not_before@ == shown_time(info.not_before)
    &&& s.not_after@ == shown_time(info.not_after)
    &&& s.serial@ == info.serial
    &&& s.fingerprint@ == info.fingerprint
    &&& s.is_ca == info.is_ca
    &&& crate::cert_types::opt_text(s.last_verified) == match info.last_verified {
        Some(t) => Some(shown_time(t)),
        None => None,
    }
    &&& crate::cert_types::opt_text(s.verification_error) == info.verification_error
}

/// A node's verdict with its times written out.
#[derive(Clone, Debug, PartialEq, Eq)]
pub struct NodeTrustInfoSchema {
    pub node_ip: String,
    pub certificates: Vec<CertificateInfoSchema>,
    pub trust_chain_valid: bool,
    pub permissions_valid: bool,
    pub expiring_soon: Vec<String>,
    pub last_checked: String,
}

/// A verdict is written out faithfully.
pub open spec fn shows_node(s: NodeTrustInfoSchema, node: NodeTrustView) -> bool {
    &&& s.node_ip@ == node.node_ip
    &&& s.certificates@.len() == node.certificates.len()
    &&& forall|i: int|
        0 <= i < node.certificates.len() ==> shows_info(
            #[trigger] s.certificates@[i],
            node.certificates[i],
        )
    &&& s.trust_chain_valid == node.trust_chain_valid
    &&& s.permissions_valid == node.permissions_valid
    &&& texts(s.expiring_soon@) == node.expiring_soon
    &&& s.last_checked@ == shown_time(node.last_checked)
}

/// The trust verdicts, node by node.
#[derive(Clone, Debug, PartialEq, Eq)]
pub struct TrustValidationResponse {
    pub nodes: Vec<(String, NodeTrustInfoSchema)>,
}

/// The record with its times written out.
pub fn info_schema(info: &CertificateInfo) -> (r: CertificateInfoSchema)
    ensures
        shows_info(r, info@),
{
    CertificateInfoSchema {
        path: info.path.clone(),
        subject: info.subject.clone(),
        issuer: info.issuer.clone(),
        not_before: time_text(info.not_before),
        not_after: time_text(info.not_after),
        serial: info.serial.clone(),
        fingerprint: info.fingerprint.clone(),
        is_ca: info.is_ca,
        last_verified: match info.last_verified {
            Some(t) => Some(time_text(t)),
            None => None,
        },
        verification_error: match &info.verification_error {
            Some(e) => Some(e.clone()),
            None => None,
        },
    }
}

/// The verdict with its times written out.
pub fn node_schema(node: &NodeTrustInfo) -> (r: NodeTrustInfoSchema)
    ensures
        shows_node(r, node@),
{
    let mut certificates: Vec<CertificateInfoSchema> = Vec::new();
    let mut i: usize = 0;
    while i < node.certificates.len()
        invariant
            i <= node.certificates@.len(),
            certificates@.len() == i,
            forall|k: int|
                0 <= k < i ==> shows_info(#[trigger] certificates@[k], node.certificates@[k]@),
        decreases node.certificates@.len() - i,
    {
        certificates.push(info_schema(&node.certificates[i]));
        i += 1;
    }
    NodeTrustInfoSchema {
        node_ip: node.node_ip.clone(),
        certificates,
        trust_chain_valid: node.trust_chain_valid,
        permissions_valid: node.permissions_valid,
        expiring_soon: clone_strings(&node.expiring_soon),
        last_checked: time_text(node.last_checked),
    }
}

/// The verdicts of the store, written out, in store order.
pub fn trust_response(store: &Vec<NodeTrustInfo>) -> (r: TrustValidationResponse)
    ensures
        r.nodes@.len() == store@.len(),
        forall|i: int|
            0 <= i < store@.len() ==> (#[trigger] r.nodes@[i]).0@ == store@[i].node_ip@
                && shows_node(r.nodes@[i].1, store@[i]@),
{
    let mut nodes: Vec<(String, NodeTrustInfoSchema)> = Vec::new();
    let mut i: usize = 0;
    while i < store.len()
        invariant
            i <= store@.len(),
            nodes@.len() == i,
            forall|k: int|
                0 <= k < i ==> (#[trigger] nodes@[k]).0@ == store@[k].node_ip@ && shows_node(
                    nodes@[k].1,
                    store@[k]@,
                ),
        decreases store@.len() - i,
    {
        nodes.push((store[i].node_ip.clone(), node_schema(&store[i])));
        i += 1;
    }
    TrustValidationResponse { nodes }
}

/// A node and the state of its certificates.
#[derive(Clone, Debug, PartialEq, Eq)]
pub struct NodeInfo {
    pub ip: String,
    pub certs: Vec<CertStatus>,
}

/// Which nodes answer.
#[derive(Clone, Debug, PartialEq, Eq)]
pub struct ConnectivityStatus {
    pub unreachable_nodes: Vec<String>,
    pub last_checked: String,
    pub total_nodes: usize,
    pub available_nodes: usize,
}

/// The cluster as the monitoring surfaces see it.
#[derive(Clone, Debug, PartialEq, Eq)]
pub struct ClusterInfo {
    pub control_plane: NodeInfo,
    pub workers: Vec<NodeInfo>,
    pub connectivity: ConnectivityStatus,
}

/// The entry is shown for the node `ip`: it is meant for that node and is
/// not the root CA.
pub open spec fn shown_for(e: StatusView, ip: Seq<char>) -> bool {
    e.hosts.contains(ip) && !has_infix(e.cert_type, root_marker())
}

/// How a ledger entry is shown: distributed with the time of its
/// distribution, or generated with the time of its generation.
pub open spec fn entry_status(e: StatusView) -> CertStatusView {
    CertStatusView {
        cert_type: e.cert_type,
        status: if e.distributed is Some {
            "Distributed"@
        } else {
            "Generated"@
        },
        last_updated: Some(
            shown_time(
                match e.distributed {
                    Some(t) => t,
                    None => e.generated,
                },
            ),
        ),
    }
}

/// The states shown for the node `ip`, in ledger order.
pub open spec fn node_statuses(ledger: Seq<StatusView>, ip: Seq<char>) -> Seq<CertStatusView>
    decreases ledger.len(),
{
    if ledger.len() == 0 {
        Seq::empty()
    } else if shown_for(ledger.last(), ip) {
        node_statuses(ledger.drop_last(), ip).push(entry_status(ledger.last()))
    } else {
        node_statuses(ledger.drop_last(), ip)
    }
}

/// The views of a sequence of shown states.
pub open spec fn status_views(items: Seq<CertStatus>) -> Seq<CertStatusView> {
    Seq::new(items.len(), |i: int| items[i]@)
}

/// The hosts among `hosts` that do not count as reachable at `now`, in order.
pub open spec fn unreachable(
    hosts: Seq<Seq<char>>,
    cache: Map<Seq<char>, ConnectionStatus>,
    now: u64,
) -> Seq<Seq<char>>
    decreases hosts.len(),
{
    if hosts.len() == 0 {
        Seq::empty()
    } else if !verified_at(cache, hosts.last(), now) {
        unreachable(hosts.drop_last(), cache, now).push(hosts.last())
    } else {
        unreachable(hosts.drop_last(), cache, now)
    }
}

/// No more hosts are unreachable than there are hosts.
pub proof fn lemma_unreachable_bound(
    hosts: Seq<Seq<char>>,
    cache: Map<Seq<char>, ConnectionStatus>,
    now: u64,
)
    ensures
        unreachable(hosts, cache, now).len() <= hosts.len(),
    decreases hosts.len(),
{
    if hosts.len() > 0 {
        lemma_unreachable_bound(hosts.drop_last(), cache, now);
    }
}

/// The states of the certificates of the node `ip`.
pub fn node_info(tracker: &CertTracker, ip: &str) -> (r: NodeInfo)
    ensures
        r.ip@ == ip@,
        status_views(r.certs@) == node_statuses(tracker@, ip@),
{
    let mut certs: Vec<CertStatus> = Vec::new();
    let mut i: usize = 0;
    assert(status_views(certs@) =~= node_statuses(tracker@.take(0), ip@));
    while i < tracker.certificates.len()
        invariant
            i <= tracker.certificates@.len(),
            status_views(certs@) == node_statuses(tracker@.take(i as int), ip@),
        decreases tracker.certificates@.len() - i,
    {
        let entry = &tracker.certificates[i];
        proof {
            let next = tracker@.take(i + 1);
            assert(next.drop_last() =~= tracker@.take(i as int));
            assert(next.last() == entry@);
        }
        let ghost before = status_views(certs@);
        if listed(&entry.hosts, ip) && !contains(entry.cert_type.as_str(), "root-ca") {
            let (status, time) = match entry.distributed {
                Some(t) => ("Distributed", t),
                None => ("Generated", entry.generated),
            };
            let shown = CertStatus {
                cert_type: entry.cert_type.clone(),
                status: String::from_str(status),
                last_updated: Some(time_text(time)),
            };
            certs.push(shown);
            assert(status_views(certs@) =~= before.push(entry_status(entry@)));
        }
        i += 1;
    }
    assert(tracker@.take(tracker.certificates@.len() as int) =~= tracker@);
    NodeInfo { ip: String::from_str(ip), certs }
}

/// The hosts among `hosts` that do not count as reachable at `now`.
pub fn unreachable_nodes(hosts: &Vec<String>, cache: &SSHConnectionCache, now: u64) -> (r: Vec<
    String,
>)
    ensures
        texts(r@) == unreachable(texts(hosts@), cache@, now),
{
    let mut out: Vec<String> = Vec::new();
    let mut i: usize = 0;
    assert(texts(out@) =~= unreachable(texts(hosts@).take(0), cache@, now));
    while i < hosts.len()
        invariant
            i <= hosts@.len(),
            texts(out@) == unreachable(texts(hosts@).take(i as int), cache@, now),
        decreases hosts@.len() - i,
    {
        proof {
            let next = texts(hosts@).take(i + 1);
            assert(next.drop_last() =~= texts(hosts@).take(i as int));
            assert(next.last() == hosts@[i as int]@);
        }
        let ghost before = texts(out@);
        if !cache.is_verified_at(hosts[i].as_str(), now) {
            out.push(hosts[i].clone());
            assert(texts(out@) =~= before.push(hosts@[i as int]@));
        }
        i += 1;
    }
    assert(texts(hosts@).take(hosts@.len() as int) =~= texts(hosts@));
    out
}

/// The cluster as it stands at `now`: each node with the certificates
/// meant for it, the root CA left out, and which nodes do not answer.
/// `checked` is the time of the report, written out.
pub fn cluster_info(
    config: &ClusterConfig,
    tracker: &CertTracker,
    cache: &SSHConnectionCache,
    now: u64,
    checked: String,
) -> (r: ClusterInfo)
    ensures
        r.control_plane.ip@ == config@.control_plane,
        status_views(r.control_plane.certs@) == node_statuses(tracker@, config@.control_plane),
        r.workers@.len() == config@.worker_nodes.len(),
        forall|i: int|
            0 <= i < r.workers@.len() ==> (#[trigger] r.workers@[i]).ip@ == config@.worker_nodes[i]
                && status_views(r.workers@[i].certs@) == node_statuses(
                tracker@,
                config@.worker_nodes[i],
            ),
        texts(r.connectivity.unreachable_nodes@) == unreachable(all_hosts(config@), cache@, now),
        r.connectivity.total_nodes == all_hosts(config@).len(),
        r.connectivity.available_nodes == r.connectivity.total_nodes
            - r.connectivity.unreachable_nodes@.len(),
        r.connectivity.last_checked == checked,
{
    let hosts = config.get_all_hosts();
    let unreachable_nodes = unreachable_nodes(&hosts, cache, now);
    proof {
        lemma_unreachable_bound(texts(hosts@), cache@, now);
    }
    let mut workers: Vec<NodeInfo> = Vec::new();
    let mut i: usize = 0;
    while i < config.worker_nodes.len()
        invariant
            i <= config.worker_nodes@.len(),
            workers@.len() == i,
            forall|k: int|
                0 <= k < i ==> (#[trigger] workers@[k]).ip@ == config@.worker_nodes[k]
                    && status_views(workers@[k].certs@) == node_statuses(
                    tracker@,
                    config@.worker_nodes[k],
                ),
        decreases config.worker_nodes@.len() - i,
    {
        workers.push(node_info(tracker, config.worker_nodes[i].as_str()));
        i += 1;
    }
    let total_nodes = hosts.len();
    let available_nodes = total_nodes - unreachable_nodes.len();
    ClusterInfo {
        control_plane: node_info(tracker, config.control_plane.as_str()),
        workers,
        connectivity: ConnectivityStatus {
            unreachable_nodes,
            last_checked: checked,
            total_nodes,
            available_nodes,
        },
    }
}

/// How far an entry has come on its way to the hosts: the root CA never
/// goes out, so it is neither pending nor distributed.
pub open spec fn distribution_word(e: StatusView) -> Seq<char> {
    if e.distributed is Some {
        "Distributed"@
    } else if e.cert_type == "root-ca"@ {
        "N/A"@
    } else {
        "Pending"@
    }
}

/// What the last verification of an entry found.
pub open spec fn verification_word(verified: Option<bool>) -> Seq<char> {
    match verified {
        Some(true) => "Verified"@,
        Some(false) => "Failed"@,
        None => "Not Verified"@,
    }
}

/// The role a certificate plays, as far as its name tells.
pub open spec fn role_word(cert_type: Seq<char>) -> Seq<char> {
    if has_infix(cert_type, "client"@) {
        "Client"@
    } else if has_infix(cert_type, "server"@) {
        "Server"@
    } else {
        "Peer"@
    }
}

/// The word shown for how far `entry` has come on its way to the hosts.
pub fn distribution_label(entry: &CertificateStatus) -> (r: String)
    ensures
        r@ == distribution_word(entry@),
{
    if entry.distributed.is_some() {
        String::from_str("Distributed")
    } else if crate::text::str_eq(entry.cert_type.as_str(), "root-ca") {
        String::from_str("N/A")
    } else {
        String::from_str("Pending")
    }
}

/// The word shown for what the last verification found.
pub fn verification_label(verified: Option<bool>) -> (r: String)
    ensures
        r@ == verification_word(verified),
{
    match verified {
        Some(true) => String::from_str("Verified"),
        Some(false) => String::from_str("Failed"),
        None => String::from_str("Not Verified"),
    }
}

/// The word shown for the role of the certificate filed under `cert_type`.
pub fn role_label(cert_type: &str) -> (r: String)
    ensures
        r@ == role_word(cert_type@),
{
    if contains(cert_type, "client") {
        String::from_str("Client")
    } else if contains(cert_type, "server") {
        String::from_str("Server")
    } else {
        String::from_str("Peer")
    }
}

} // verus!
