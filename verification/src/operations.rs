//! Certificate operations: making a certificate, building the CA chain, and
//! placing files on the hosts of the cluster.

use vstd::prelude::*;
use vstd::string::*;
use crate::cert_types::{
    owned, self_signed, CertificateConfig, CertificateType, ConfigView, KindView,
};
use crate::logging::{debug_prefix, Logger, OperationsLogger};
use crate::openssl::{
    chain_check, chain_check_step, csr_plan, generate_csr, generate_private_key, making,
    private_key_plan, sign_certificate, sign_plan,
};
use crate::steps::{FailureKind, Invocation, InvocationView, Plan, Step, StepView};
use crate::text::{
    base_name, cat, cat3, ends_with, file_name, has_prefix, has_suffix, skip_chars, starts_with,
    str_eq, texts,
};

verus! {

pub use crate::error::CertOperationError;

/// A file here and the place it is copied to on a host.
#[derive(Clone, Debug, PartialEq, Eq)]
pub struct Route {
    pub local: String,
    pub remote: String,
}

/// The mathematical content of a route.
pub struct RouteView {
    pub local: Seq<char>,
    pub remote: Seq<char>,
}

impl View for Route {
    type V = RouteView;

    open spec fn view(&self) -> RouteView {
        RouteView { local: self.local@, remote: self.remote@ }
    }
}

/// The views of a sequence of routes.
pub open spec fn route_views(routes: Seq<Route>) -> Seq<RouteView> {
    Seq::new(routes.len(), |i: int| routes[i]@)
}

/// The logical name of the CA chain.
pub open spec fn chain_name() -> Seq<char> {
    "kubernetes-ca"@
}

/// The name is that of a control-plane component with a certificate of its own.
pub open spec fn is_component(name: Seq<char>) -> bool {
    name == "kube-apiserver"@ || name == "controller-manager"@ || name == "scheduler"@ || name
        == "kube-apiserver-kubelet-client"@
}

/// The name is that of a worker node.
pub open spec fn is_node(name: Seq<char>) -> bool {
    has_prefix(name, "node-"@)
}

/// The name is the path of a client configuration.
pub open spec fn is_kubeconfig(name: Seq<char>) -> bool {
    has_prefix(name, "kubeconfig/"@)
}

/// The name is that of the encryption configuration.
pub open spec fn is_encryption_config(name: Seq<char>) -> bool {
    name == "encryption-config.yaml"@ || name == "encryption-config"@
}

/// The name is the path of a file under the certificate directory.
pub open spec fn is_cert_path(name: Seq<char>) -> bool {
    has_prefix(name, "certs/"@)
}

/// The local certificate directory of `name` holds `file`.
pub open spec fn local_file(name: Seq<char>, file: Seq<char>) -> Seq<char> {
    "certs/"@ + name + "/"@ + file
}

/// The file `file` in the remote directory.
pub open spec fn remote_file(remote_dir: Seq<char>, file: Seq<char>) -> Seq<char> {
    remote_dir + "/"@ + file
}

/// The certificate and key of `name`, each under its own file name on the host.
pub open spec fn pair_routes(remote_dir: Seq<char>, name: Seq<char>) -> Seq<RouteView> {
    seq![
        RouteView {
            local: local_file(name, name + ".crt"@),
            remote: remote_file(remote_dir, name + ".crt"@),
        },
        RouteView {
            local: local_file(name, name + ".key"@),
            remote: remote_file(remote_dir, name + ".key"@),
        },
    ]
}

/// The chain, the CA key and the CA certificate.
pub open spec fn chain_routes(remote_dir: Seq<char>) -> Seq<RouteView> {
    seq![
        RouteView {
            local: "certs/kubernetes-ca/ca-chain.crt"@,
            remote: remote_file(remote_dir, "ca-chain.crt"@),
        },
        RouteView {
            local: "certs/kubernetes-ca/ca.key"@,
            remote: remote_file(remote_dir, "ca.key"@),
        },
        RouteView {
            local: "certs/kubernetes-ca/ca.crt"@,
            remote: remote_file(remote_dir, "ca.crt"@),
        },
    ]
}

/// The routing table: the files that stand behind a logical name and where
/// each goes on a host. A name the table does not know has no files.
pub open spec fn routes(remote_dir: Seq<char>, name: Seq<char>) -> Seq<RouteView> {
    if name == chain_name() {
        chain_routes(remote_dir)
    } else if is_component(name) || is_node(name) {
        pair_routes(remote_dir, name)
    } else if is_kubeconfig(name) {
        seq![RouteView { local: name, remote: "/etc/kubernetes/"@ + name.skip(11) }]
    } else if is_encryption_config(name) {
        seq![
            RouteView {
                local: "encryption-config.yaml"@,
                remote: remote_file(remote_dir, "encryption-config.yaml"@),
            },
        ]
    } else if is_cert_path(name) {
        seq![RouteView { local: name, remote: remote_file(remote_dir, base_name(name)) }]
    } else {
        Seq::empty()
    }
}

/// The file is public: a certificate or a public key.
pub open spec fn is_public(path: Seq<char>) -> bool {
    has_suffix(path, ".crt"@) || has_suffix(path, ".pub"@)
}

/// The mode a placed file gets: readable by all when it is public, by root alone otherwise.
pub open spec fn mode_of(path: Seq<char>) -> Seq<char> {
    if is_public(path) {
        "644"@
    } else {
        "600"@
    }
}

/// The temporary place of a file on its way: `id` tells one transfer from another.
pub open spec fn temp_path(id: Seq<char>) -> Seq<char> {
    "/tmp/cert_"@ + id
}

/// The account on the host.
pub open spec fn login(user: Seq<char>, host: Seq<char>) -> Seq<char> {
    user + "@"@ + host
}

/// What is run on the host to put the file in place: the target's directory
/// is made, the file is moved there, given to root, closed to the mode of
/// its kind, and whatever is left at the temporary place is removed.
pub open spec fn placement(target: Seq<char>, temp: Seq<char>) -> Seq<char> {
    "sudo mkdir -p $(dirname "@ + target + ") && sudo mv "@ + temp + " "@ + target
        + " && sudo chown root:root "@ + target + " && sudo chmod "@ + mode_of(target) + " "@
        + target + " && rm -f "@ + temp
}

/// A remote session that runs `script` under `account`.
pub open spec fn ssh(key: Seq<char>, account: Seq<char>, script: Seq<char>) -> InvocationView {
    InvocationView { program: "ssh"@, args: seq!["-i"@, key, account, script] }
}

/// A copy of `from` to `to` over SSH.
pub open spec fn scp(key: Seq<char>, from: Seq<char>, to: Seq<char>) -> InvocationView {
    InvocationView { program: "scp"@, args: seq!["-i"@, key, from, to] }
}

/// A run of a remote tool on behalf of a distribution.
pub open spec fn shipping(command: InvocationView, context: Seq<char>) -> StepView {
    StepView::Run {
        command,
        capture: None,
        cleanup: None,
        kind: FailureKind::Distribution,
        context,
    }
}

/// The fixed settings of the operations.
pub struct OperationsView {
    pub remote_dir: Seq<char>,
    pub remote_user: Seq<char>,
    pub ssh_key_path: Seq<char>,
}

/// The runbook that makes sure the remote directory exists.
pub open spec fn remote_dir_plan(o: OperationsView, host: Seq<char>) -> Seq<StepView> {
    seq![
        StepView::DebugLog("Ensuring remote directory exists on "@ + host),
        shipping(
            ssh(
                o.ssh_key_path,
                login(o.remote_user, host),
                "sudo mkdir -p "@ + o.remote_dir + " && sudo chown root:root "@ + o.remote_dir,
            ),
            "Failed to create remote directory on "@ + host,
        ),
    ]
}

/// The runbook that copies `source` to the temporary place named by `id`
/// and from there, in one remote session, to `target`.
pub open spec fn transfer_plan(
    o: OperationsView,
    source: Seq<char>,
    target: Seq<char>,
    host: Seq<char>,
    id: Seq<char>,
) -> Seq<StepView> {
    seq![
        shipping(
            scp(o.ssh_key_path, source, login(o.remote_user, host) + ":"@ + temp_path(id)),
            "Failed to copy file to "@ + host,
        ),
        shipping(
            ssh(o.ssh_key_path, login(o.remote_user, host), placement(target, temp_path(id))),
            "Failed to execute sudo commands on "@ + host,
        ),
    ]
}

/// The part of a distribution that handles one file.
pub open spec fn route_plan(
    o: OperationsView,
    name: Seq<char>,
    host: Seq<char>,
    route: RouteView,
    id: Seq<char>,
) -> Seq<StepView> {
    seq![
        StepView::DebugLog("Source path: "@ + route.local),
        StepView::DebugLog("Remote path: "@ + route.remote),
    ] + transfer_plan(o, route.local, route.remote, host, id) + seq![
        StepView::Log(
            "Successfully copied "@ + name + " to "@ + host + ":"@ + route.remote,
        ),
    ]
}

/// The parts of a distribution for the first `n` of `table`, one after the other.
pub open spec fn routes_plan(
    o: OperationsView,
    name: Seq<char>,
    host: Seq<char>,
    table: Seq<RouteView>,
    ids: Seq<Seq<char>>,
    n: int,
) -> Seq<StepView>
    decreases n,
{
    if n <= 0 {
        Seq::empty()
    } else {
        routes_plan(o, name, host, table, ids, n - 1) + route_plan(
            o,
            name,
            host,
            table[n - 1],
            ids[n - 1],
        )
    }
}

/// The runbook that distributes what stands behind `name` to `host`,
/// the file at index `i` travelling under `ids[i]`. A name without files is
/// reported and nothing is run for it.
pub open spec fn copy_plan(
    o: OperationsView,
    name: Seq<char>,
    host: Seq<char>,
    ids: Seq<Seq<char>>,
) -> Seq<StepView> {
    let table = routes(o.remote_dir, name);
    let intro = seq![StepView::Log("Copying "@ + name + " to "@ + host)];
    if table.len() == 0 {
        intro.push(StepView::Log("No distribution route for "@ + name + ", skipping"@))
    } else {
        intro + remote_dir_plan(o, host) + routes_plan(
            o,
            name,
            host,
            table,
            ids,
            table.len() as int,
        )
    }
}

/// What becomes of one host of a distribution.
#[derive(Clone, Debug, PartialEq, Eq)]
pub enum Dispatch {
    /// The host does not answer; nothing is run for it.
    Unreachable,
    /// The routing table knows no file behind the name; nothing is copied.
    NoRoute,
    /// The host is tried with this runbook.
    Copy(Plan),
}

/// The decision on one host of a distribution of `name`: a host that does
/// not answer is not tried, a name without files is not copied, and
/// otherwise the host is tried with the runbook of the copy.
pub open spec fn dispatched(
    o: OperationsView,
    name: Seq<char>,
    host: Seq<char>,
    reachable: bool,
    d: Dispatch,
) -> bool {
    if !reachable {
        d is Unreachable
    } else if routes(o.remote_dir, name).len() == 0 {
        d is NoRoute
    } else {
        d matches Dispatch::Copy(plan) && exists|ids: Seq<Seq<char>>|
            ids.len() == routes(o.remote_dir, name).len() && (forall|i: int|
                0 <= i < ids.len() ==> plain_id(#[trigger] ids[i])) && plan@ == copy_plan(
                o,
                name,
                host,
                ids,
            )
    }
}

/// A host counts as reached only when it was tried and the copy ended well.
pub open spec fn reached(d: Dispatch, passed: bool) -> bool {
    d is Copy && passed
}

/// The private key of the certificate `name` kept in `dir`.
pub open spec fn key_file(dir: Seq<char>, name: Seq<char>) -> Seq<char> {
    dir + "/"@ + name + ".key"@
}

/// The signing request kept in `dir`.
pub open spec fn csr_file(dir: Seq<char>) -> Seq<char> {
    dir + "/csr"@
}

/// The certificate `name` kept in `dir`.
pub open spec fn cert_file(dir: Seq<char>, name: Seq<char>) -> Seq<char> {
    dir + "/"@ + name + ".crt"@
}

/// The certificate that signs: for a root its own key stands in, since no
/// CA certificate is read.
pub open spec fn signing_cert(c: ConfigView, ca_dir: Seq<char>, name: Seq<char>) -> Seq<char> {
    if self_signed(c.cert_type) {
        key_file(c.output_dir, name)
    } else {
        ca_dir + "/ca.crt"@
    }
}

/// The key that signs: its own for a root, the CA's otherwise.
pub open spec fn signing_key(c: ConfigView, ca_dir: Seq<char>, name: Seq<char>) -> Seq<char> {
    if self_signed(c.cert_type) {
        key_file(c.output_dir, name)
    } else {
        ca_dir + "/ca.key"@
    }
}

/// The runbook that makes the certificate `name` for `c`: the key, the
/// signing request, the signature, in that order.
pub open spec fn cert_plan(name: Seq<char>, ca_dir: Seq<char>, c: ConfigView) -> Seq<StepView> {
    let dir = c.output_dir;
    seq![
        StepView::Log("Generating certificate for "@ + name),
        StepView::CreateDir(dir),
        StepView::Log("Created directory: "@ + dir),
        StepView::Log("Generating private key"@),
    ] + private_key_plan(key_file(dir, name), c.key_size) + seq![
        StepView::Log("Generating CSR"@),
    ] + csr_plan(c, key_file(dir, name), csr_file(dir)) + seq![
        StepView::Log("Signing certificate"@),
    ] + sign_plan(
        c,
        csr_file(dir),
        cert_file(dir, name),
        signing_cert(c, ca_dir, name),
        signing_key(c, ca_dir, name),
    )
}

/// What a certificate authority may do with its key.
pub open spec fn authority_usage() -> Seq<Seq<char>> {
    seq!["critical"@, "keyCertSign"@, "cRLSign"@]
}

/// The request for the root CA: ten years, signed by itself.
pub open spec fn root_config() -> ConfigView {
    ConfigView {
        cert_type: KindView::RootCA,
        common_name: "Kubernetes Root CA"@,
        organization: Some("Kubernetes"@),
        validity_days: 3650,
        key_size: 2048,
        output_dir: "certs/root-ca"@,
        alt_names: Seq::empty(),
        key_usage: authority_usage(),
        extended_key_usage: Seq::empty(),
        country: None,
        state: None,
        locality: None,
    }
}

/// The request for the cluster CA: ten years, signed by the root.
pub open spec fn cluster_ca_config() -> ConfigView {
    ConfigView {
        cert_type: KindView::KubernetesCA,
        common_name: "kubernetes-ca"@,
        organization: Some("Kubernetes"@),
        validity_days: 3650,
        key_size: 2048,
        output_dir: "certs/kubernetes-ca"@,
        alt_names: Seq::empty(),
        key_usage: authority_usage(),
        extended_key_usage: Seq::empty(),
        country: None,
        state: None,
        locality: None,
    }
}

/// The chain file: the root's certificate, a line break, the cluster CA's.
pub open spec fn chain_text(root: Seq<char>, cluster: Seq<char>) -> Seq<char> {
    root + "\n"@ + cluster
}

/// The runbook that builds the chain file, root first, and verifies the
/// cluster CA against the root.
pub open spec fn chain_plan() -> Seq<StepView> {
    seq![
        StepView::Log("Creating CA chain"@),
        StepView::RequireFile {
            path: "certs/root-ca/ca.crt"@,
            missing: "Root CA certificate not found. Please generate root CA first."@,
        },
        StepView::RequireFile {
            path: "certs/kubernetes-ca/ca.crt"@,
            missing: "Kubernetes CA certificate not found"@,
        },
        StepView::JoinFiles {
            first: "certs/root-ca/ca.crt"@,
            second: "certs/kubernetes-ca/ca.crt"@,
            target: "certs/kubernetes-ca/ca-chain.crt"@,
        },
        chain_check(
            "certs/kubernetes-ca/ca.crt"@,
            "certs/root-ca/ca.crt"@,
            "CA chain verification failed"@,
        ),
        StepView::Log("CA chain created and verified successfully"@),
    ]
}

/// The bookkeeping files of the root CA: an empty index and a fresh serial.
pub open spec fn bookkeeping_plan() -> Seq<StepView> {
    seq![
        StepView::Log("Generating root CA certificate..."@),
        StepView::CreateDir("certs/root-ca"@),
        StepView::WriteFile { path: "certs/root-ca/index.txt"@, content: Seq::empty() },
        StepView::Run {
            command: InvocationView { program: "openssl"@, args: seq!["rand"@, "-hex"@, "16"@] },
            capture: Some("certs/root-ca/serial"@),
            cleanup: None,
            kind: FailureKind::CertGeneration,
            context: "Failed to create the CA serial"@,
        },
    ]
}

/// The test that lets an existing root CA stand: when its certificate and
/// key are there, the `skip` steps that would set up and make the root
/// are passed over.
pub open spec fn root_guard(skip: nat) -> StepView {
    StepView::SkipIfPresent {
        paths: seq!["certs/root-ca/ca.crt"@, "certs/root-ca/ca.key"@],
        skip,
        notice: "Certificate files already exist. Skipping creation."@,
    }
}

/// The steps that make the root CA.
pub open spec fn root_plan() -> Seq<StepView> {
    cert_plan("ca"@, "certs/root-ca"@, root_config())
}

/// The steps that make the cluster CA, signed by the root.
pub open spec fn cluster_ca_plan() -> Seq<StepView> {
    cert_plan("ca"@, "certs/root-ca"@, cluster_ca_config())
}

/// The runbook of the CA hierarchy. It opens with the test for an existing
/// root CA: where the root's certificate and key are found, nothing of the
/// root is touched, neither its bookkeeping files nor its key nor its
/// certificate. Then come the bookkeeping and the root, the cluster CA,
/// and the chain.
pub open spec fn ca_setup_plan() -> Seq<StepView> {
    seq![root_guard(bookkeeping_plan().len() + root_plan().len())] + bookkeeping_plan()
        + root_plan() + cluster_ca_plan() + chain_plan()
}

/// An identifier as `uuid` writes it: 36 characters, each a lower-case
/// hexadecimal digit or a hyphen.
pub open spec fn plain_id(id: Seq<char>) -> bool {
    id.len() == 36 && forall|i: int|
        0 <= i < id.len() ==> ('0' <= #[trigger] id[i] <= '9') || ('a' <= id[i] <= 'f') || id[i]
            == '-'
}

/// A fresh random identifier from `uuid::Uuid::new_v4`, written the way its
/// `Display` does: hyphenated, in lower case. Which identifier comes back is
/// left open; two calls are expected to differ but nothing here says so.
#[verifier::external_body]
fn fresh_id() -> (id: String)
    ensures
        plain_id(id@),
{
    uuid::Uuid::new_v4().to_string()
}

/// Carries out the certificate operations of one cluster.
#[derive(Clone, Debug, PartialEq, Eq)]
pub struct CertificateOperations {
    pub logger: OperationsLogger,
    pub remote_dir: String,
    pub remote_user: String,
    pub ssh_key_path: String,
}

impl View for CertificateOperations {
    type V = OperationsView;

    open spec fn view(&self) -> OperationsView {
        OperationsView {
            remote_dir: self.remote_dir@,
            remote_user: self.remote_user@,
            ssh_key_path: self.ssh_key_path@,
        }
    }
}

fn is_component_name(name: &str) -> (r: bool)
    ensures
        r == is_component(name@),
{
    str_eq(name, "kube-apiserver") || str_eq(name, "controller-manager") || str_eq(
        name,
        "scheduler",
    ) || str_eq(name, "kube-apiserver-kubelet-client")
}

fn ship_step(command: Invocation, context: String) -> (r: Step)
    ensures
        r@ == shipping(command@, context@),
{
    Step::Run { command, capture: None, cleanup: None, kind: FailureKind::Distribution, context }
}

impl CertificateOperations {
    /// The operations of the cluster reached as `remote_user` with
    /// `ssh_key_path`.
    pub fn new(
        logger: OperationsLogger,
        remote_dir: String,
        remote_user: String,
        ssh_key_path: String,
    ) -> (r: Self)
        ensures
            r@ == (OperationsView {
                remote_dir: remote_dir@,
                remote_user: remote_user@,
                ssh_key_path: ssh_key_path@,
            }),
            r.logger == logger,
    {
        CertificateOperations { logger, remote_dir, remote_user, ssh_key_path }
    }

    /// Adds a line to the log.
    pub fn log(&mut self, message: &str)
        ensures
            texts(final(self).logger.pending@) == texts(old(self).logger.pending@).push(message@),
            final(self)@ == old(self)@,
            final(self).logger.debug == old(self).logger.debug,
    {
        self.logger.log(message);
    }

    /// Adds a debug line to the log while debugging is on.
    pub fn debug_log(&mut self, message: &str)
        ensures
            texts(final(self).logger.pending@) == if old(self).logger.debug {
                texts(old(self).logger.pending@).push(debug_prefix() + message@)
            } else {
                texts(old(self).logger.pending@)
            },
            final(self)@ == old(self)@,
            final(self).logger.debug == old(self).logger.debug,
    {
        self.logger.debug_log(message);
    }

    fn account(&self, host: &str) -> (r: String)
        ensures
            r@ == login(self.remote_user@, host@),
    {
        cat3(self.remote_user.as_str(), "@", host)
    }

    fn ssh_command(&self, host: &str, script: &str) -> (r: Invocation)
        ensures
            r@ == ssh(self.ssh_key_path@, login(self.remote_user@, host@), script@),
    {
        let account = self.account(host);
        let args = owned(vec!["-i", self.ssh_key_path.as_str(), account.as_str(), script]);
        assert(texts(args@) =~= seq![
            "-i"@,
            self.ssh_key_path@,
            login(self.remote_user@, host@),
            script@,
        ]);
        Invocation::new("ssh", args)
    }

    /// The runbook that makes sure the remote directory exists on `host`.
    pub fn ensure_remote_directory(&self, host: &str) -> (plan: Plan)
        ensures
            plan@ == remote_dir_plan(self@, host@),
    {
        let mut plan = Plan::new();
        plan.push(Step::DebugLog(cat("Ensuring remote directory exists on ", host)));
        let script = String::from_str("sudo mkdir -p ").concat(self.remote_dir.as_str()).concat(
            " && sudo chown root:root ",
        ).concat(self.remote_dir.as_str());
        plan.push(
            ship_step(
                self.ssh_command(host, script.as_str()),
                cat("Failed to create remote directory on ", host),
            ),
        );
        assert(plan@ =~= remote_dir_plan(self@, host@));
        plan
    }

    /// The runbook that makes the certificate `cert_name` for `config`,
    /// signed by the CA kept in `ca_dir` unless the certificate is a root.
    pub fn generate_cert(
        &self,
        cert_name: &str,
        ca_dir: &str,
        config: &CertificateConfig,
        _hosts: &Vec<String>,
    ) -> (plan: Plan)
        ensures
            plan@ == cert_plan(cert_name@, ca_dir@, config@),
    {
        let dir = config.output_dir.as_str();
        let key_path = String::from_str(dir).concat("/").concat(cert_name).concat(".key");
        let csr_path = cat(dir, "/csr");
        let cert_path = String::from_str(dir).concat("/").concat(cert_name).concat(".crt");
        let root = config.cert_type.is_root();
        let ca_cert = if root {
            key_path.clone()
        } else {
            cat(ca_dir, "/ca.crt")
        };
        let ca_key = if root {
            key_path.clone()
        } else {
            cat(ca_dir, "/ca.key")
        };
        let mut plan = Plan::new();
        plan.push(Step::Log(cat("Generating certificate for ", cert_name)));
        plan.push(Step::CreateDir(String::from_str(dir)));
        plan.push(Step::Log(cat("Created directory: ", dir)));
        plan.push(Step::Log(String::from_str("Generating private key")));
        plan.extend(generate_private_key(key_path.as_str(), config.key_size));
        plan.push(Step::Log(String::from_str("Generating CSR")));
        plan.extend(generate_csr(config, key_path.as_str(), csr_path.as_str()));
        plan.push(Step::Log(String::from_str("Signing certificate")));
        plan.extend(
            sign_certificate(
                csr_path.as_str(),
                cert_path.as_str(),
                ca_cert.as_str(),
                ca_key.as_str(),
                config,
            ),
        );
        assert(plan@ =~= cert_plan(cert_name@, ca_dir@, config@));
        plan
    }

    /// The request for the root CA.
    pub fn root_ca_config() -> (c: CertificateConfig)
        ensures
            c@ == root_config(),
    {
        let key_usage = owned(vec!["critical", "keyCertSign", "cRLSign"]);
        assert(texts(key_usage@) =~= authority_usage());
        let c = CertificateConfig {
            cert_type: CertificateType::RootCA,
            common_name: String::from_str("Kubernetes Root CA"),
            organization: Some(String::from_str("Kubernetes")),
            validity_days: 3650,
            key_size: 2048,
            output_dir: String::from_str("certs/root-ca"),
            alt_names: Vec::new(),
            key_usage,
            extended_key_usage: Vec::new(),
            country: None,
            state: None,
            locality: None,
        };
        assert(c@.alt_names =~= Seq::empty());
        assert(c@.extended_key_usage =~= Seq::empty());
        c
    }

    /// The request for the cluster CA.
    pub fn kubernetes_ca_config() -> (c: CertificateConfig)
        ensures
            c@ == cluster_ca_config(),
    {
        let key_usage = owned(vec!["critical", "keyCertSign", "cRLSign"]);
        assert(texts(key_usage@) =~= authority_usage());
        let c = CertificateConfig {
            cert_type: CertificateType::KubernetesCA,
            common_name: String::from_str("kubernetes-ca"),
            organization: Some(String::from_str("Kubernetes")),
            validity_days: 3650,
            key_size: 2048,
            output_dir: String::from_str("certs/kubernetes-ca"),
            alt_names: Vec::new(),
            key_usage,
            extended_key_usage: Vec::new(),
            country: None,
            state: None,
            locality: None,
        };
        assert(c@.alt_names =~= Seq::empty());
        assert(c@.extended_key_usage =~= Seq::empty());
        c
    }

    /// The chain file made of the root's certificate and the cluster CA's.
    pub fn chain_content(root_pem: &str, cluster_pem: &str) -> (r: String)
        ensures
            r@ == chain_text(root_pem@, cluster_pem@),
    {
        cat3(root_pem, "\n", cluster_pem)
    }

    /// The runbook that builds and verifies the CA chain.
    pub fn create_ca_chain(&self) -> (plan: Plan)
        ensures
            plan@ == chain_plan(),
    {
        let root = "certs/root-ca/ca.crt";
        let cluster = "certs/kubernetes-ca/ca.crt";
        let mut plan = Plan::new();
        plan.push(Step::Log(String::from_str("Creating CA chain")));
        plan.push(
            Step::RequireFile {
                path: String::from_str(root),
                missing: String::from_str(
                    "Root CA certificate not found. Please generate root CA first.",
                ),
            },
        );
        plan.push(
            Step::RequireFile {
                path: String::from_str(cluster),
                missing: String::from_str("Kubernetes CA certificate not found"),
            },
        );
        plan.push(
            Step::JoinFiles {
                first: String::from_str(root),
                second: String::from_str(cluster),
                target: String::from_str("certs/kubernetes-ca/ca-chain.crt"),
            },
        );
        plan.push(
            chain_check_step(cluster, root, String::from_str("CA chain verification failed")),
        );
        plan.push(Step::Log(String::from_str("CA chain created and verified successfully")));
        assert(plan@ =~= chain_plan());
        plan
    }

    /// The runbook of the CA hierarchy. Each part rests on the files the one
    /// before it leaves behind.
    pub fn setup_ca_certificates(&self, hosts: &Vec<String>) -> (plan: Plan)
        ensures
            plan@ == ca_setup_plan(),
    {
        let root = self.generate_cert("ca", "certs/root-ca", &Self::root_ca_config(), hosts);
        assert(root@.len() <= 32) by {
            assert(crate::openssl::private_key_plan(
                key_file(root_config().output_dir, "ca"@),
                root_config().key_size,
            ).len() <= 5);
        }
        let paths = owned(vec!["certs/root-ca/ca.crt", "certs/root-ca/ca.key"]);
        assert(texts(paths@) =~= seq!["certs/root-ca/ca.crt"@, "certs/root-ca/ca.key"@]);
        let mut plan = Plan::new();
        plan.push(
            Step::SkipIfPresent {
                paths,
                skip: root.len() + 4,
                notice: String::from_str("Certificate files already exist. Skipping creation."),
            },
        );
        plan.push(Step::Log(String::from_str("Generating root CA certificate...")));
        plan.push(Step::CreateDir(String::from_str("certs/root-ca")));
        plan.push(
            Step::WriteFile {
                path: String::from_str("certs/root-ca/index.txt"),
                content: String::new(),
            },
        );
        let args = owned(vec!["rand", "-hex", "16"]);
        assert(texts(args@) =~= seq!["rand"@, "-hex"@, "16"@]);
        plan.push(
            Step::Run {
                command: Invocation::new("openssl", args),
                capture: Some(String::from_str("certs/root-ca/serial")),
                cleanup: None,
                kind: FailureKind::CertGeneration,
                context: String::from_str("Failed to create the CA serial"),
            },
        );
        assert(plan@ =~= seq![root_guard(bookkeeping_plan().len() + root_plan().len())]
            + bookkeeping_plan());
        plan.extend(root);
        plan.extend(
            self.generate_cert("ca", "certs/root-ca", &Self::kubernetes_ca_config(), hosts),
        );
        plan.extend(self.create_ca_chain());
        plan
    }

    /// The runbook that makes the service-account key pair. The keys stay
    /// on the control plane: nothing of them is copied to `hosts`.
    pub fn generate_service_account_keys(&self, hosts: &Vec<String>) -> (plan: Plan)
        ensures
            plan@ == seq![StepView::Log("Generating service account keys"@)]
                + crate::generators::sa_plan("certs/service-account"@),
    {
        let generator = crate::generators::ServiceAccountGenerator::new(
            String::from_str("certs/service-account"),
            self,
        );
        let mut plan = Plan::new();
        plan.push(Step::Log(String::from_str("Generating service account keys")));
        plan.extend(generator.generate_service_account_keys());
        plan
    }

    /// The files that stand behind `logical_name` and where each goes on a host.
    pub fn resolve_routes(&self, logical_name: &str) -> (r: Vec<Route>)
        ensures
            route_views(r@) == routes(self.remote_dir@, logical_name@),
    {
        let dir = self.remote_dir.as_str();
        let mut out: Vec<Route> = Vec::new();
        if str_eq(logical_name, "kubernetes-ca") {
            out.push(
                Route {
                    local: String::from_str("certs/kubernetes-ca/ca-chain.crt"),
                    remote: cat3(dir, "/", "ca-chain.crt"),
                },
            );
            out.push(
                Route {
                    local: String::from_str("certs/kubernetes-ca/ca.key"),
                    remote: cat3(dir, "/", "ca.key"),
                },
            );
            out.push(
                Route {
                    local: String::from_str("certs/kubernetes-ca/ca.crt"),
                    remote: cat3(dir, "/", "ca.crt"),
                },
            );
        } else if is_component_name(logical_name) || starts_with(logical_name, "node-") {
            let crt = cat(logical_name, ".crt");
            let key = cat(logical_name, ".key");
            out.push(
                Route {
                    local: String::from_str("certs/").concat(logical_name).concat("/").concat(
                        crt.as_str(),
                    ),
                    remote: cat3(dir, "/", crt.as_str()),
                },
            );
            out.push(
                Route {
                    local: String::from_str("certs/").concat(logical_name).concat("/").concat(
                        key.as_str(),
                    ),
                    remote: cat3(dir, "/", key.as_str()),
                },
            );
        } else if starts_with(logical_name, "kubeconfig/") {
            proof {
                reveal_strlit("kubeconfig/");
            }
            let rest = skip_chars(logical_name, 11);
            out.push(
                Route {
                    local: String::from_str(logical_name),
                    remote: cat("/etc/kubernetes/", rest.as_str()),
                },
            );
        } else if str_eq(logical_name, "encryption-config.yaml") || str_eq(
            logical_name,
            "encryption-config",
        ) {
            out.push(
                Route {
                    local: String::from_str("encryption-config.yaml"),
                    remote: cat3(dir, "/", "encryption-config.yaml"),
                },
            );
        } else if starts_with(logical_name, "certs/") {
            let base = file_name(logical_name);
            out.push(
                Route {
                    local: String::from_str(logical_name),
                    remote: cat3(dir, "/", base.as_str()),
                },
            );
        }
        assert(route_views(out@) =~= routes(self.remote_dir@, logical_name@));
        out
    }

    /// Decides what becomes of `remote_host` in a distribution of
    /// `cert_name`, `reachable` being the answer of the connectivity cache
    /// for that host.
    pub fn dispatch(&self, cert_name: &str, remote_host: &str, reachable: bool) -> (d: Dispatch)
        ensures
            dispatched(self@, cert_name@, remote_host@, reachable, d),
    {
        if !reachable {
            Dispatch::Unreachable
        } else if self.resolve_routes(cert_name).len() == 0 {
            Dispatch::NoRoute
        } else {
            Dispatch::Copy(self.copy_to_k8s_paths(cert_name, remote_host))
        }
    }

    /// Whether a host counts as reached, `passed` saying whether the
    /// runbook of its copy ended well: a host that was not tried does not.
    pub fn delivered(d: &Dispatch, passed: bool) -> (r: bool)
        ensures
            r == reached(*d, passed),
    {
        match d {
            Dispatch::Copy(_) => passed,
            _ => false,
        }
    }

    /// The runbook that copies `source` to `host` under a temporary name
    /// made of `id` and then puts it in place at `target`.
    pub fn copy_with_sudo_as(&self, source: &str, target: &str, host: &str, id: &str) -> (plan:
        Plan)
        ensures
            plan@ == transfer_plan(self@, source@, target@, host@, id@),
    {
        let temp = cat("/tmp/cert_", id);
        let account = self.account(host);
        let destination = cat3(account.as_str(), ":", temp.as_str());
        let args = owned(vec!["-i", self.ssh_key_path.as_str(), source, destination.as_str()]);
        assert(texts(args@) =~= seq![
            "-i"@,
            self.ssh_key_path@,
            source@,
            login(self.remote_user@, host@) + ":"@ + temp_path(id@),
        ]);
        let mode = if ends_with(target, ".crt") || ends_with(target, ".pub") {
            "644"
        } else {
            "600"
        };
        let script = String::from_str("sudo mkdir -p $(dirname ").concat(target).concat(
            ") && sudo mv ",
        ).concat(temp.as_str()).concat(" ").concat(target).concat(
            " && sudo chown root:root ",
        ).concat(target).concat(" && sudo chmod ").concat(mode).concat(" ").concat(target).concat(
            " && rm -f ",
        ).concat(temp.as_str());
        let mut plan = Plan::new();
        plan.push(ship_step(Invocation::new("scp", args), cat("Failed to copy file to ", host)));
        plan.push(
            ship_step(
                self.ssh_command(host, script.as_str()),
                cat("Failed to execute sudo commands on ", host),
            ),
        );
        assert(plan@ =~= transfer_plan(self@, source@, target@, host@, id@));
        plan
    }

    /// The runbook that copies `source` to `host` and puts it in place at
    /// `target`, under a temporary name drawn at random.
    pub fn copy_with_sudo(&self, source: &str, target: &str, host: &str) -> (plan: Plan)
        ensures
            exists|id: Seq<char>|
                plain_id(id) && plan@ == transfer_plan(self@, source@, target@, host@, id),
    {
        let id = fresh_id();
        self.copy_with_sudo_as(source, target, host, id.as_str())
    }

    /// The runbook that distributes what stands behind `cert_name` to
    /// `remote_host`, each file under a temporary name drawn at random. A name
    /// the routing table does not know yields a runbook that only says so.
    pub fn copy_to_k8s_paths(&self, cert_name: &str, remote_host: &str) -> (plan: Plan)
        ensures
            exists|ids: Seq<Seq<char>>|
                ids.len() == routes(self.remote_dir@, cert_name@).len() && (forall|i: int|
                    0 <= i < ids.len() ==> plain_id(#[trigger] ids[i])) && plan@ == copy_plan(
                    self@,
                    cert_name@,
                    remote_host@,
                    ids,
                ),
    {
        let table = self.resolve_routes(cert_name);
        let mut plan = Plan::new();
        plan.push(
            Step::Log(
                String::from_str("Copying ").concat(cert_name).concat(" to ").concat(remote_host),
            ),
        );
        if table.len() == 0 {
            plan.push(Step::Log(cat3("No distribution route for ", cert_name, ", skipping")));
            assert(plan@ =~= copy_plan(self@, cert_name@, remote_host@, Seq::empty()));
            return plan;
        }
        plan.extend(self.ensure_remote_directory(remote_host));
        let ghost head = plan@;
        let ghost views = routes(self.remote_dir@, cert_name@);
        let ghost mut ids: Seq<Seq<char>> = Seq::empty();
        let mut i: usize = 0;
        assert(plan@ =~= head + routes_plan(self@, cert_name@, remote_host@, views, ids, 0));
        while i < table.len()
            invariant
                i <= table.len(),
                views == route_views(table@),
                views == routes(self.remote_dir@, cert_name@),
                ids.len() == i,
                forall|k: int| 0 <= k < ids.len() ==> plain_id(#[trigger] ids[k]),
                plan@ == head + routes_plan(self@, cert_name@, remote_host@, views, ids, i as int),
            decreases table.len() - i,
        {
            let route = &table[i];
            let id = fresh_id();
            let ghost before = ids;
            proof {
                ids = ids.push(id@);
                lemma_routes_plan_ids(
                    self@,
                    cert_name@,
                    remote_host@,
                    views,
                    before,
                    ids,
                    i as int,
                );
                assert(views[i as int] == route@);
            }
            plan.push(Step::DebugLog(cat("Source path: ", route.local.as_str())));
            plan.push(Step::DebugLog(cat("Remote path: ", route.remote.as_str())));
            plan.extend(
                self.copy_with_sudo_as(
                    route.local.as_str(),
                    route.remote.as_str(),
                    remote_host,
                    id.as_str(),
                ),
            );
            plan.push(
                Step::Log(
                    String::from_str("Successfully copied ").concat(cert_name).concat(
                        " to ",
                    ).concat(remote_host).concat(":").concat(route.remote.as_str()),
                ),
            );
            assert(plan@ =~= head + routes_plan(
                self@,
                cert_name@,
                remote_host@,
                views,
                ids,
                i + 1,
            ));
            i += 1;
        }
        assert(plan@ =~= copy_plan(self@, cert_name@, remote_host@, ids));
        plan
    }
}

/// The parts for the first `n` files depend on the first `n` identifiers alone.
pub proof fn lemma_routes_plan_ids(
    o: OperationsView,
    name: Seq<char>,
    host: Seq<char>,
    table: Seq<RouteView>,
    ids1: Seq<Seq<char>>,
    ids2: Seq<Seq<char>>,
    n: int,
)
    requires
        n <= ids1.len(),
        n <= ids2.len(),
        forall|k: int| 0 <= k < n ==> ids1[k] == ids2[k],
    ensures
        routes_plan(o, name, host, table, ids1, n) == routes_plan(o, name, host, table, ids2, n),
    decreases n,
{
    if n > 0 {
        lemma_routes_plan_ids(o, name, host, table, ids1, ids2, n - 1);
    }
}

} // verus!
