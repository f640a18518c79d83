//! The orchestration state: the settings, the ledger, the log, and what
//! each answer of the operator sets off.

use vstd::prelude::*;
use vstd::string::*;
use crate::cert_types::{owned, ClusterEndpoints};
use crate::clock::local_time_text;
use crate::config::{all_hosts, ClusterConfig, ClusterView, ConfigEditor};
use crate::discovery::{CertificateInfo, InfoView, NodeTrustInfo};
use crate::kubeconfig::{EncryptionConfigGenerator, KubeConfigGenerator};
use crate::logging::OperationsLogger;
use crate::metrics::MetricsCollector;
use crate::operations::CertificateOperations;
use crate::text::{
    base_name, cat, cat3, clone_strings, contains, file_name, has_infix, has_prefix, lowercased,
    starts_with, str_eq, take_chars, texts, to_lowercase,
};
use crate::generators::{
    controller_client_plan, kubelet_client_config, node_name, node_name_of, node_plans, plan_views,
    sa_plan, signing_ca_dir, ControllerCertGenerator, ControllerManagerGenerator,
    KubeletClientCertGenerator, NodeCertGenerator, ServiceAccountGenerator,
};
use crate::operations::{ca_setup_plan, cert_plan, chain_plan, cluster_ca_plan};
use crate::steps::{Plan, Step, StepView};
use crate::tracker::{
    distribution_all, filed_all, pending, upsert, verdict_all, with_distribution, with_verdict,
    CertTracker, CertificateStatus, Filing, StatusView,
};
use crate::ui_state::{
    ActiveSection, AppMode, ConfirmationCallback, ConfirmationDialog, ScrollDirection,
};

verus! {

/// The lines of the log pane.
pub const LOG_WINDOW: usize = 18;

/// The lines a page key moves the log.
pub const LOG_PAGE: usize = 10;

/// The entries of the menu, in order.
pub open spec fn menu() -> Seq<Seq<char>> {
    seq![
        "Generate Root CA"@,
        "Generate Kubernetes CA"@,
        "Generate API Server Cert"@,
        "Generate Node Certs"@,
        "Generate Service Account Keys"@,
        "Generate Controller Manager Cert"@,
        "Generate Kubeconfigs"@,
        "Generate Encryption Config"@,
        "Edit Configuration"@,
        "Save Configuration"@,
        "Verify Certificates"@,
        "Exit"@,
        "Distribute Pending Certificates"@,
        "Save Certificate Status"@,
        "Import Existing Certificates"@,
        "Automate all"@,
    ]
}

/// The name under which a discovered certificate is filed. The rules are
/// tried in order and the first that applies decides: the file name first,
/// then the subject, then the CA flag; a certificate that nothing else
/// names is called after the first eight characters of its fingerprint.
/// The result is a best guess from names, not an identity.
pub open spec fn classification(
    file: Seq<char>,
    subject: Seq<char>,
    lower: Seq<char>,
    is_ca: bool,
    fingerprint: Seq<char>,
) -> Seq<char> {
    if has_infix(file, "ca-chain"@) {
        "ca-chain"@
    } else if has_infix(file, "sa.pub"@) {
        "sa-public-key"@
    } else if has_infix(file, "sa.key"@) {
        "sa-private-key"@
    } else if has_infix(file, "encryption-config"@) {
        "encryption-config"@
    } else if has_infix(file, "ca.crt"@) {
        if has_infix(lower, "root"@) {
            "root-ca"@
        } else {
            "ca.crt"@
        }
    } else if has_infix(file, "ca.key"@) {
        "ca.key"@
    } else if has_infix(lower, "service account"@) && has_infix(file, ".key"@) {
        "sa-private-key"@
    } else if has_infix(lower, "service account"@) && has_infix(file, ".pub"@) {
        "sa-public-key"@
    } else if has_infix(lower, "system:kube-controller-manager"@) {
        "controller-manager"@
    } else if has_infix(subject, "Root CA"@) {
        "root-ca"@
    } else if is_ca {
        "ca"@
    } else {
        "cert-"@ + fingerprint.take(
            if fingerprint.len() >= 8 {
                8
            } else {
                fingerprint.len() as int
            },
        )
    }
}

/// Files a certificate under a name, given its file name, its subject, the
/// subject in lower case, its CA flag and its fingerprint.
pub fn classify(file: &str, subject: &str, lower: &str, is_ca: bool, fingerprint: &str) -> (r:
    String)
    ensures
        r@ == classification(file@, subject@, lower@, is_ca, fingerprint@),
{
    if contains(file, "ca-chain") {
        String::from_str("ca-chain")
    } else if contains(file, "sa.pub") {
        String::from_str("sa-public-key")
    } else if contains(file, "sa.key") {
        String::from_str("sa-private-key")
    } else if contains(file, "encryption-config") {
        String::from_str("encryption-config")
    } else if contains(file, "ca.crt") {
        if contains(lower, "root") {
            String::from_str("root-ca")
        } else {
            String::from_str("ca.crt")
        }
    } else if contains(file, "ca.key") {
        String::from_str("ca.key")
    } else if contains(lower, "service account") && contains(file, ".key") {
        String::from_str("sa-private-key")
    } else if contains(lower, "service account") && contains(file, ".pub") {
        String::from_str("sa-public-key")
    } else if contains(lower, "system:kube-controller-manager") {
        String::from_str("controller-manager")
    } else if contains(subject, "Root CA") {
        String::from_str("root-ca")
    } else if is_ca {
        String::from_str("ca")
    } else {
        let head = take_chars(fingerprint, 8);
        cat("cert-", head.as_str())
    }
}

/// The name under which the certificate `info` is filed.
pub open spec fn cert_type_of(info: InfoView) -> Seq<char> {
    classification(
        base_name(info.path),
        info.subject,
        lowercased(info.subject),
        info.is_ca,
        info.fingerprint,
    )
}

/// A line of the log pane: the time of day, a colon and a space, the message.
pub open spec fn log_line(stamp: Seq<char>, message: Seq<char>) -> Seq<char> {
    stamp + ": "@ + message
}

/// The first line shown when the log pane shows the end of `count` lines.
pub open spec fn bottom_of(count: nat) -> nat {
    if count > LOG_WINDOW {
        (count - LOG_WINDOW) as nat
    } else {
        0
    }
}

/// The last line a log of `count` lines can be scrolled to.
pub open spec fn last_line(count: nat) -> nat {
    if count > 0 {
        (count - 1) as nat
    } else {
        0
    }
}

/// Where the log pane stands after a movement from `at` in a log of `count` lines.
pub open spec fn scrolled(at: nat, count: nat, direction: ScrollDirection) -> nat {
    match direction {
        ScrollDirection::Up => if at > 0 {
            (at - 1) as nat
        } else {
            at
        },
        ScrollDirection::Down => if at < last_line(count) {
            at + 1
        } else {
            at
        },
        ScrollDirection::PageUp => if at > LOG_PAGE {
            (at - LOG_PAGE) as nat
        } else {
            0
        },
        ScrollDirection::PageDown => if at + LOG_PAGE < last_line(count) {
            (at + LOG_PAGE) as nat
        } else {
            last_line(count)
        },
        ScrollDirection::Bottom => last_line(count),
        ScrollDirection::Top => 0,
    }
}

/// What the ledger is told once the CA hierarchy is made. Each part is
/// filed under the path of its file, which the routing table knows.
pub open spec fn ca_filings() -> Seq<Filing> {
    seq![
        Filing { cert_type: "root-ca"@, path: "certs/root-ca/ca.crt"@ },
        Filing { cert_type: "ca.crt"@, path: "certs/kubernetes-ca/ca.crt"@ },
        Filing { cert_type: "ca.key"@, path: "certs/kubernetes-ca/ca.key"@ },
        Filing { cert_type: "ca-chain"@, path: "certs/kubernetes-ca/ca-chain.crt"@ },
    ]
}

/// The names under which the CA hierarchy is filed.
pub open spec fn ca_names() -> Seq<Seq<char>> {
    seq!["root-ca"@, "ca.crt"@, "ca.key"@, "ca-chain"@]
}

/// The ledger once the CA hierarchy was made at `now`: each part is filed
/// for every host and counts as verified.
pub open spec fn after_ca_setup(ledger: Seq<StatusView>, c: ClusterView, now: int) -> Seq<
    StatusView,
> {
    verdict_all(filed_all(ledger, ca_filings(), all_hosts(c), now), ca_names(), true)
}

/// What the ledger is told once the cluster CA is made.
pub open spec fn cluster_ca_filings() -> Seq<Filing> {
    seq![
        Filing { cert_type: "ca.crt"@, path: "certs/kubernetes-ca/ca.crt"@ },
        Filing { cert_type: "ca.key"@, path: "certs/kubernetes-ca/ca.key"@ },
    ]
}

/// What the ledger is told once the service-account keys are made.
pub open spec fn sa_filings() -> Seq<Filing> {
    seq![
        Filing { cert_type: "SA Public Key"@, path: "certs/service-account/sa.pub"@ },
        Filing { cert_type: "SA Private Key"@, path: "certs/service-account/sa.key"@ },
    ]
}

/// The names under which the service-account keys are filed.
pub open spec fn sa_names() -> Seq<Seq<char>> {
    seq!["SA Public Key"@, "SA Private Key"@]
}

/// The ledger once the service-account keys were made at `now`. They stay
/// on the control plane and need no chain, so they count as verified and
/// as distributed at once.
pub open spec fn after_sa_keys(ledger: Seq<StatusView>, c: ClusterView, now: int) -> Seq<
    StatusView,
> {
    distribution_all(
        verdict_all(filed_all(ledger, sa_filings(), seq![c.control_plane], now), sa_names(), true),
        sa_names(),
        now,
    )
}

/// The ledger once the controller manager's certificate was made at `now`.
pub open spec fn after_controller_manager(ledger: Seq<StatusView>, c: ClusterView, now: int) -> Seq<
    StatusView,
> {
    with_verdict(
        upsert(
            ledger,
            "Controller Manager"@,
            "certs/controller-manager/controller-manager.crt"@,
            seq![c.control_plane],
            now,
        ),
        "Controller Manager"@,
        true,
    )
}

/// The ledger once the client configuration `name` was made for `node` at `now`.
pub open spec fn after_kubeconfig(
    ledger: Seq<StatusView>,
    name: Seq<char>,
    node: Seq<char>,
    now: int,
) -> Seq<StatusView> {
    upsert(ledger, "kubeconfig-"@ + name, "kubeconfig/"@ + name + ".conf"@, seq![node], now)
}

/// The ledger once the configurations of the first `n` workers were made.
pub open spec fn after_worker_kubeconfigs(
    ledger: Seq<StatusView>,
    workers: Seq<Seq<char>>,
    n: int,
    now: int,
) -> Seq<StatusView>
    decreases n,
{
    if n <= 0 {
        ledger
    } else {
        after_kubeconfig(
            after_worker_kubeconfigs(ledger, workers, n - 1, now),
            node_name((n - 1) as nat),
            workers[n - 1],
            now,
        )
    }
}

/// The ledger once every client configuration was made at `now`: those of
/// the administrator, the controller manager and the scheduler for the
/// control plane, and one for each worker.
pub open spec fn after_all_kubeconfigs(ledger: Seq<StatusView>, c: ClusterView, now: int) -> Seq<
    StatusView,
> {
    let admin = after_kubeconfig(ledger, "admin"@, c.control_plane, now);
    let manager = after_kubeconfig(admin, "controller-manager"@, c.control_plane, now);
    let scheduler = after_kubeconfig(manager, "scheduler"@, c.control_plane, now);
    after_worker_kubeconfigs(scheduler, c.worker_nodes, c.worker_nodes.len() as int, now)
}

/// The ledger once the encryption configuration was made at `now`.
pub open spec fn after_encryption_config(ledger: Seq<StatusView>, c: ClusterView, now: int) -> Seq<
    StatusView,
> {
    upsert(ledger, "encryption-config"@, "encryption-config.yaml"@, seq![c.control_plane], now)
}

/// The ledger once the first `n` of the discovered certificates were
/// imported at `now`, each under the name it is filed under, for the
/// control plane.
pub open spec fn after_import(
    ledger: Seq<StatusView>,
    certs: Seq<InfoView>,
    control_plane: Seq<char>,
    n: int,
    now: int,
) -> Seq<StatusView>
    decreases n,
{
    if n <= 0 {
        ledger
    } else {
        upsert(
            after_import(ledger, certs, control_plane, n - 1, now),
            cert_type_of(certs[n - 1]),
            certs[n - 1].path,
            seq![control_plane],
            now,
        )
    }
}

/// Every one of `hosts` is among those that `succeeded`.
pub open spec fn delivered(hosts: Seq<Seq<char>>, succeeded: Seq<Seq<char>>) -> bool {
    forall|i: int| 0 <= i < hosts.len() ==> succeeded.contains(#[trigger] hosts[i])
}

/// The ledger after a distribution of `cert_type` to `hosts` at `now`, of
/// which the copies to `succeeded` went through: the entry is marked as
/// distributed only when every host was reached.
pub open spec fn after_distribution(
    ledger: Seq<StatusView>,
    cert_type: Seq<char>,
    hosts: Seq<Seq<char>>,
    succeeded: Seq<Seq<char>>,
    now: int,
) -> Seq<StatusView> {
    if delivered(hosts, succeeded) {
        with_distribution(ledger, cert_type, now)
    } else {
        ledger
    }
}

/// A piece of work for the distribution: what to copy, under which name
/// the ledger knows it, and to which hosts.
#[derive(Clone, Debug, PartialEq, Eq)]
pub struct DistributionJob {
    pub cert_type: String,
    pub source: String,
    pub hosts: Vec<String>,
}

/// The mathematical content of a piece of distribution work.
pub struct JobView {
    pub cert_type: Seq<char>,
    pub source: Seq<char>,
    pub hosts: Seq<Seq<char>>,
}

impl View for DistributionJob {
    type V = JobView;

    open spec fn view(&self) -> JobView {
        JobView { cert_type: self.cert_type@, source: self.source@, hosts: texts(self.hosts@) }
    }
}

/// The views of a sequence of pieces of work.
pub open spec fn job_views(jobs: Seq<DistributionJob>) -> Seq<JobView> {
    Seq::new(jobs.len(), |i: int| jobs[i]@)
}

/// What is copied for a ledger entry: the encryption configuration under
/// its fixed name, anything else from the path the ledger holds.
pub open spec fn job_of(e: StatusView) -> JobView {
    JobView {
        cert_type: e.cert_type,
        source: if e.cert_type == "encryption-config"@ {
            "encryption-config.yaml"@
        } else {
            e.path
        },
        hosts: e.hosts,
    }
}

/// The work for the entries that await distribution, in ledger order.
pub open spec fn pending_jobs(ledger: Seq<StatusView>) -> Seq<JobView> {
    Seq::new(pending(ledger).len(), |i: int| job_of(pending(ledger)[i]))
}

/// How a ledger entry is verified on this machine.
#[derive(Clone, Copy, Debug, PartialEq, Eq, Structural)]
pub enum CheckKind {
    /// A configuration file: it counts as verified as it is.
    Trusted,
    /// A CA certificate: it is checked on its own.
    Alone,
    /// Any other certificate: it is checked against the CA chain.
    Chained,
}

/// How the entry filed under `cert_type` is verified.
pub open spec fn check_kind(cert_type: Seq<char>) -> CheckKind {
    if has_prefix(cert_type, "kubeconfig-"@) || cert_type == "encryption-config"@ {
        CheckKind::Trusted
    } else if cert_type == "root-ca"@ || cert_type == "kubernetes-ca"@ {
        CheckKind::Alone
    } else {
        CheckKind::Chained
    }
}

/// The CA chain that certificates are checked against.
pub open spec fn local_chain() -> Seq<char> {
    "certs/kubernetes-ca/ca-chain.crt"@
}

/// A key of the configuration form.
#[derive(Clone, Copy, Debug, PartialEq, Eq, Structural)]
pub enum EditKey {
    Tab,
    Enter,
    Esc,
    Up,
    Down,
    Char(char),
    Backspace,
    Other,
}

/// What an answer of the operator leaves to be done outside.
#[derive(Clone, Debug, PartialEq, Eq)]
pub enum Errand {
    /// Nothing.
    Nothing,
    /// Copy these out, and report for each which hosts were reached.
    Distribute(Vec<DistributionJob>),
    /// Run the whole generation.
    Automate,
    /// Verify every certificate.
    Verify,
}

/// The single piece of work of a distribution that was asked for by name.
pub open spec fn single_job(cert_type: Seq<char>, source: Seq<char>, hosts: Seq<Seq<char>>) -> Seq<
    JobView,
> {
    seq![JobView { cert_type, source, hosts }]
}

/// The work a confirmed answer sets off, where it sets off a distribution.
pub open spec fn answer_jobs(
    callback: ConfirmationCallback,
    c: ClusterView,
    ledger: Seq<StatusView>,
) -> Option<Seq<JobView>> {
    match callback {
        ConfirmationCallback::RootCA => Some(
            single_job("Root CA"@, "certs/root-ca/ca.crt"@, seq![c.control_plane]),
        ),
        ConfirmationCallback::KubernetesCA => Some(
            single_job("Kubernetes CA"@, "certs/kubernetes-ca/ca.crt"@, all_hosts(c)),
        ),
        ConfirmationCallback::CAChain => Some(
            single_job("ca-chain"@, "certs/kubernetes-ca/ca-chain.crt"@, all_hosts(c)),
        ),
        ConfirmationCallback::DistributePending => Some(pending_jobs(ledger)),
        ConfirmationCallback::AutomateAll => None,
        ConfirmationCallback::VerifyChains => None,
    }
}

/// The ledger after a confirmed answer: the cluster CA loses its verdict
/// until its distribution is through; nothing else changes.
pub open spec fn answer_ledger(callback: ConfirmationCallback, ledger: Seq<StatusView>) -> Seq<
    StatusView,
> {
    match callback {
        ConfirmationCallback::KubernetesCA => with_verdict(ledger, "Kubernetes CA"@, false),
        _ => ledger,
    }
}

/// The ledger after the distribution set off by an answer is through.
pub open spec fn settled_ledger(
    callback: ConfirmationCallback,
    ledger: Seq<StatusView>,
    job: JobView,
    succeeded: Seq<Seq<char>>,
    now: int,
) -> Seq<StatusView> {
    let marked = after_distribution(ledger, job.cert_type, job.hosts, succeeded, now);
    if callback == ConfirmationCallback::KubernetesCA && delivered(job.hosts, succeeded) {
        with_verdict(marked, job.cert_type, true)
    } else {
        marked
    }
}

/// The parts of the whole generation, in the order they are run.
#[derive(Clone, Copy, Debug, PartialEq, Eq, Structural)]
pub enum Stage {
    CleanUp,
    RootCA,
    KubernetesCA,
    ControlPlane,
    WorkerNodes,
    ServiceAccount,
    Kubeconfigs,
    EncryptionConfig,
}

/// The order of the whole generation: every CA before what it signs.
pub open spec fn automation() -> Seq<Stage> {
    seq![
        Stage::CleanUp,
        Stage::RootCA,
        Stage::KubernetesCA,
        Stage::ControlPlane,
        Stage::WorkerNodes,
        Stage::ServiceAccount,
        Stage::Kubeconfigs,
        Stage::EncryptionConfig,
    ]
}

/// The runbook that resets the bookkeeping of the CA kept in `dir`.
pub open spec fn clean_plan(dir: Seq<char>) -> Seq<StepView> {
    seq![
        StepView::DebugLog("Cleaning directory: "@ + dir),
        StepView::WriteFile { path: dir + "/serial"@, content: "01"@ },
        StepView::WriteFile { path: dir + "/index.txt"@, content: Seq::empty() },
        StepView::RemoveFile(dir + "/index.txt.old"@),
        StepView::RemoveFile(dir + "/serial.old"@),
    ]
}

/// The glob patterns of the files a clean-up of `dir` removes.
pub open spec fn clean_patterns(dir: Seq<char>) -> Seq<Seq<char>> {
    seq![dir + "/**/*.pem"@, dir + "/**/*.key"@, dir + "/**/*.crt"@, dir + "/**/*.csr"@]
}

/// The runbook of the control plane's certificates and keys.
pub open spec fn control_plane_plan(c: ClusterView) -> Seq<StepView> {
    seq![StepView::Log("Generating API Server Certificate"@)] + cert_plan(
        "kube-apiserver"@,
        signing_ca_dir(),
        crate::generators::apiserver_config(c.control_plane),
    ) + cert_plan("controller-manager"@, signing_ca_dir(), crate::generators::controller_config())
        + cert_plan("scheduler"@, signing_ca_dir(), crate::generators::scheduler_config())
        + cert_plan(
        "kube-apiserver-kubelet-client"@,
        signing_ca_dir(),
        kubelet_client_config(true),
    ) + sa_plan("certs/service-account"@)
}

/// The workers with their positions.
pub open spec fn numbered_workers(nodes: Seq<(usize, String)>, workers: Seq<Seq<char>>) -> bool {
    nodes.len() == workers.len() && forall|i: int|
        0 <= i < nodes.len() ==> (#[trigger] nodes[i]).0 == i && nodes[i].1@ == workers[i]
}

/// The form after the value being edited was taken over into its field.
pub open spec fn field_confirmed(before: ConfigEditor, after: ConfigEditor) -> bool {
    &&& !after.is_editing
    &&& after.editing_value@.len() == 0
    &&& after.completions@.len() == 0
    &&& after.current_field == before.current_field
    &&& texts(after.fields@) == texts(before.fields@).update(
        before.current_field as int,
        before.editing_value@,
    )
}

/// The form after editing was opened or given up.
pub open spec fn editing_set(
    before: ConfigEditor,
    after: ConfigEditor,
    value: Seq<char>,
    on: bool,
) -> bool {
    &&& after.is_editing == on
    &&& after.editing_value@ == value
    &&& after.fields == before.fields
    &&& after.current_field == before.current_field
}

/// The form after the cursor moved to the field `to`.
pub open spec fn cursor_moved(before: ConfigEditor, after: ConfigEditor, to: int) -> bool {
    &&& after.current_field == to
    &&& after.completions@.len() == 0
    &&& after.fields == before.fields
    &&& after.editing_value == before.editing_value
    &&& after.is_editing == before.is_editing
}

/// The form after the value being edited became `value`.
pub open spec fn value_typed(before: ConfigEditor, after: ConfigEditor, value: Seq<char>) -> bool {
    &&& after.editing_value@ == value
    &&& after.completions@.len() == 0
    &&& after.fields == before.fields
    &&& after.current_field == before.current_field
    &&& after.is_editing
}

/// What a key does in the configuration form. While a field is edited,
/// `Enter` takes the value over and writes the form into the settings,
/// `Esc` gives the value up, the tab key completes, and characters and
/// the backspace key change the value. Otherwise `Enter` opens the field
/// under the cursor, `Esc` leaves the form, and the arrows move the
/// cursor round. Every other key changes nothing.
pub open spec fn form_edited(
    key: EditKey,
    before: CertManager,
    after: CertManager,
    found: Vec<String>,
) -> bool {
    let form = before.config_editor;
    let editing = form.is_editing;
    &&& logged(texts(before.logs@), texts(after.logs@), form_lines(key, editing))
    &&& after.mode == if key is Esc && !editing {
        AppMode::Normal
    } else {
        before.mode
    }
    &&& after.config@ == if key is Enter && editing {
        crate::config::settings_of(texts(after.config_editor.fields@))
    } else {
        before.config@
    }
    &&& match key {
        EditKey::Tab => if editing {
            crate::config::tabbed(form, after.config_editor, found)
        } else {
            after.config_editor == form
        },
        EditKey::Enter => if editing {
            field_confirmed(form, after.config_editor)
        } else {
            editing_set(form, after.config_editor, form.fields@[form.current_field as int]@, true)
        },
        EditKey::Esc => if editing {
            editing_set(form, after.config_editor, Seq::empty(), false)
        } else {
            after.config_editor == form
        },
        EditKey::Up => if editing {
            after.config_editor == form
        } else {
            cursor_moved(form, after.config_editor, (form.current_field + 4) % 5)
        },
        EditKey::Down => if editing {
            after.config_editor == form
        } else {
            cursor_moved(form, after.config_editor, (form.current_field + 1) % 5)
        },
        EditKey::Char(c) => if editing {
            value_typed(form, after.config_editor, form.editing_value@.push(c))
        } else {
            after.config_editor == form
        },
        EditKey::Backspace => if editing {
            value_typed(
                form,
                after.config_editor,
                if form.editing_value@.len() > 0 {
                    form.editing_value@.drop_last()
                } else {
                    form.editing_value@
                },
            )
        } else {
            after.config_editor == form
        },
        EditKey::Other => after.config_editor == form,
    }
}

/// The question put once the root CA has gone out.
pub open spec fn chain_question() -> Seq<char> {
    "Do you want to create and distribute CA chain certificates?"@
}

/// The operations are those for the cluster `c`, with an empty log.
pub open spec fn operations_for(ops: CertificateOperations, c: ClusterView, debug: bool) -> bool {
    &&& ops.remote_dir@ == c.remote_dir
    &&& ops.remote_user@ == c.remote_user
    &&& ops.ssh_key_path@ == c.ssh_key_path
    &&& ops.logger.debug == debug
    &&& ops.logger.pending@.len() == 0
}

/// The lines of the menu pane.
pub const MENU_WINDOW: usize = 16;

/// The lines of the certificate pane.
pub const CERT_WINDOW: usize = 10;

/// The lines of the trust pane.
pub const TRUST_WINDOW: usize = 8;

/// A key that moves about the main screen.
#[derive(Clone, Copy, Debug, PartialEq, Eq, Structural)]
pub enum NavKey {
    Up,
    Down,
    Left,
    Right,
    PageUp,
    PageDown,
}

/// `a` less `b`, and nothing where `b` is the larger.
pub open spec fn less(a: int, b: int) -> int {
    if a > b {
        a - b
    } else {
        0
    }
}

/// The smaller of the two.
pub open spec fn at_most(a: int, b: int) -> int {
    if a < b {
        a
    } else {
        b
    }
}

/// The menu entry above `selected` in a menu of `count`, the last above the first.
pub open spec fn entry_above(selected: int, count: int) -> int {
    if selected == 0 || selected >= count {
        count - 1
    } else {
        selected - 1
    }
}

/// The menu entry below `selected` in a menu of `count`, the first below the last.
pub open spec fn entry_below(selected: int, count: int) -> int {
    if selected + 1 >= count {
        0
    } else {
        selected + 1
    }
}

/// Where the menu pane stands after the cursor went up to `selected`.
pub open spec fn menu_scroll_up(scroll: int, selected: int, count: int) -> int {
    if selected == count - 1 {
        less(count, MENU_WINDOW as int)
    } else if selected < scroll {
        selected
    } else {
        scroll
    }
}

/// Where the menu pane stands after the cursor went down from `previous` to `selected`.
pub open spec fn menu_scroll_down(scroll: int, previous: int, selected: int) -> int {
    if previous > selected {
        0
    } else if selected >= scroll + MENU_WINDOW {
        less(selected, MENU_WINDOW - 1)
    } else {
        scroll
    }
}

/// The number of nodes the trust pane has to show.
pub open spec fn trust_count(m: CertManager) -> int {
    match m.trust_store {
        Some(store) => store@.len() as int,
        None => 0,
    }
}

/// How a key moves the pane that is active. In the menu the cursor goes
/// round and the pane follows it; the other panes scroll within what they
/// have to show; the page keys move ten lines.
pub open spec fn pane_moved(before: CertManager, after: CertManager, key: NavKey) -> bool {
    let count = before.menu_items@.len() as int;
    let certs = before.cert_tracker.certificates@.len() as int;
    let selected = before.selected_menu as int;
    let menu = before.menu_scroll as int;
    let cert = before.cert_status_scroll as int;
    let trust = before.trust_info_scroll as int;
    let log = before.log_scroll as nat;
    let lines = before.logs@.len();
    let in_menu = before.active_section == ActiveSection::Menu && count > 0;
    let in_certs = before.active_section == ActiveSection::CertStatus;
    let in_logs = before.active_section == ActiveSection::Logs;
    let in_trust = before.active_section == ActiveSection::TrustInfo;
    &&& after.selected_menu == if !in_menu {
        selected
    } else {
        match key {
            NavKey::Up => entry_above(selected, count),
            NavKey::Down => entry_below(selected, count),
            NavKey::PageUp => less(selected, 10),
            NavKey::PageDown => at_most(selected + 10, count - 1),
            _ => selected,
        }
    }
    &&& after.menu_scroll == if !in_menu {
        menu
    } else {
        match key {
            NavKey::Up => menu_scroll_up(menu, entry_above(selected, count), count),
            NavKey::Down => menu_scroll_down(menu, selected, entry_below(selected, count)),
            NavKey::PageUp => less(menu, 10),
            NavKey::PageDown => at_most(menu + 10, less(count, MENU_WINDOW as int)),
            _ => menu,
        }
    }
    &&& after.cert_status_scroll == if !in_certs {
        cert
    } else {
        match key {
            NavKey::Up => less(cert, 1),
            NavKey::Down => if cert < less(certs, CERT_WINDOW as int) {
                cert + 1
            } else {
                cert
            },
            NavKey::PageUp => less(cert, 10),
            NavKey::PageDown => at_most(cert + 10, less(certs, CERT_WINDOW as int)),
            _ => cert,
        }
    }
    &&& after.trust_info_scroll == if !in_trust {
        trust
    } else {
        match key {
            NavKey::Up => less(trust, 1),
            NavKey::Down => if trust < less(trust_count(before), TRUST_WINDOW as int) {
                trust + 1
            } else {
                trust
            },
            NavKey::PageUp => less(trust, 10),
            NavKey::PageDown => at_most(trust + 10, less(trust_count(before), TRUST_WINDOW as int)),
            _ => trust,
        }
    }
    &&& after.log_scroll == if !in_logs {
        log
    } else {
        match key {
            NavKey::Up => scrolled(log, lines, ScrollDirection::Up),
            NavKey::Down => scrolled(log, lines, ScrollDirection::Down),
            NavKey::PageUp => scrolled(log, lines, ScrollDirection::PageUp),
            NavKey::PageDown => scrolled(log, lines, ScrollDirection::PageDown),
            _ => log,
        }
    }
    &&& after.active_section == match key {
        NavKey::Left => match before.active_section {
            ActiveSection::Menu => ActiveSection::TrustInfo,
            ActiveSection::CertStatus => ActiveSection::Menu,
            ActiveSection::Logs => ActiveSection::CertStatus,
            ActiveSection::TrustInfo => ActiveSection::Logs,
        },
        NavKey::Right => match before.active_section {
            ActiveSection::Menu => ActiveSection::CertStatus,
            ActiveSection::CertStatus => ActiveSection::Logs,
            ActiveSection::Logs => ActiveSection::TrustInfo,
            ActiveSection::TrustInfo => ActiveSection::Menu,
        },
        _ => before.active_section,
    }
}

/// What choosing a menu entry asks for.
#[derive(Clone, Copy, Debug, PartialEq, Eq, Structural)]
pub enum MenuAction {
    GenerateRootCA,
    GenerateKubernetesCA,
    GenerateKubeletClientCert,
    GenerateNodeCerts,
    GenerateServiceAccountKeys,
    GenerateControllerManagerCert,
    GenerateKubeconfigs,
    GenerateEncryptionConfig,
    EditConfiguration,
    SaveConfiguration,
    VerifyCertificates,
    Exit,
    DistributePending,
    SaveCertificateStatus,
    ImportExistingCertificates,
    AutomateAll,
    NotImplemented,
}

/// What the menu entry at `index` asks for; the entries stand in the order of `menu`.
pub open spec fn action_at(index: int) -> MenuAction {
    if index == 0 {
        MenuAction::GenerateRootCA
    } else if index == 1 {
        MenuAction::GenerateKubernetesCA
    } else if index == 2 {
        MenuAction::GenerateKubeletClientCert
    } else if index == 3 {
        MenuAction::GenerateNodeCerts
    } else if index == 4 {
        MenuAction::GenerateServiceAccountKeys
    } else if index == 5 {
        MenuAction::GenerateControllerManagerCert
    } else if index == 6 {
        MenuAction::GenerateKubeconfigs
    } else if index == 7 {
        MenuAction::GenerateEncryptionConfig
    } else if index == 8 {
        MenuAction::EditConfiguration
    } else if index == 9 {
        MenuAction::SaveConfiguration
    } else if index == 10 {
        MenuAction::VerifyCertificates
    } else if index == 11 {
        MenuAction::Exit
    } else if index == 12 {
        MenuAction::DistributePending
    } else if index == 13 {
        MenuAction::SaveCertificateStatus
    } else if index == 14 {
        MenuAction::ImportExistingCertificates
    } else if index == 15 {
        MenuAction::AutomateAll
    } else {
        MenuAction::NotImplemented
    }
}

/// The log after the first `n` of `lines` were added under the time `stamp`.
pub open spec fn logged_all(log: Seq<Seq<char>>, stamp: Seq<char>, lines: Seq<Seq<char>>, n: int) -> Seq<
    Seq<char>,
>
    decreases n,
{
    if n <= 0 {
        log
    } else {
        logged_all(log, stamp, lines, n - 1).push(log_line(stamp, lines[n - 1]))
    }
}

/// The ledger after the local check of the entry filed under `cert_type`:
/// untouched where the file was not there, and otherwise with the verdict
/// of the check, which is good for an entry that counts as verified as it is.
pub open spec fn verification_recorded(
    ledger: Seq<StatusView>,
    cert_type: Seq<char>,
    kind: CheckKind,
    present: bool,
    passed: bool,
) -> Seq<StatusView> {
    if !present {
        ledger
    } else {
        with_verdict(ledger, cert_type, kind is Trusted || passed)
    }
}

/// A local check to run for a ledger entry.
#[derive(Clone, Debug, PartialEq, Eq)]
pub struct VerificationTask {
    pub cert_type: String,
    pub path: String,
    pub kind: CheckKind,
    /// What to run; nothing for an entry that counts as verified as it is.
    pub plan: Plan,
}

/// The runbook of the local check of an entry.
pub open spec fn task_plan(e: StatusView) -> Seq<StepView> {
    match check_kind(e.cert_type) {
        CheckKind::Trusted => Seq::empty(),
        CheckKind::Alone => crate::verification::check_plan(e.path, None),
        CheckKind::Chained => crate::verification::check_plan(e.path, Some(local_chain())),
    }
}

/// The task is the local check of the entry.
pub open spec fn task_for(t: VerificationTask, e: StatusView) -> bool {
    &&& t.cert_type@ == e.cert_type
    &&& t.path@ == e.path
    &&& t.kind == check_kind(e.cert_type)
    &&& t.plan@ == task_plan(e)
}

/// The generator of client configurations the manager works with: its
/// own, or the one for the present settings where it has none yet.
pub open spec fn kubeconfig_settings(m: CertManager) -> crate::kubeconfig::KubeConfigView {
    match m.kubeconfig_generator {
        Some(g) => g@,
        None => crate::kubeconfig::KubeConfigView {
            control_plane_ip: m.config.control_plane@,
            output_dir: "kubeconfig"@,
            ca_path: "certs/kubernetes-ca/ca-chain.crt"@,
        },
    }
}

/// The line stands for `message`, written under some time of day.
pub open spec fn stamped_as(line: Seq<char>, message: Seq<char>) -> bool {
    exists|stamp: Seq<char>| line == log_line(stamp, message)
}

/// The log `after` is the log `before` followed by `messages`, in order,
/// each written under the time of day at which it was logged.
pub open spec fn logged(
    before: Seq<Seq<char>>,
    after: Seq<Seq<char>>,
    messages: Seq<Seq<char>>,
) -> bool {
    &&& after.len() == before.len() + messages.len()
    &&& forall|i: int| 0 <= i < before.len() ==> #[trigger] after[i] == before[i]
    &&& forall|i: int|
        0 <= i < messages.len() ==> stamped_as(after[before.len() + i], #[trigger] messages[i])
}

/// Logging nothing leaves the log as it is.
pub proof fn lemma_logged_nothing(log: Seq<Seq<char>>)
    ensures
        logged(log, log, Seq::empty()),
{
}

/// One line logged under `stamp`.
pub proof fn lemma_logged_line(before: Seq<Seq<char>>, stamp: Seq<char>, message: Seq<char>)
    ensures
        logged(before, before.push(log_line(stamp, message)), seq![message]),
{
    let after = before.push(log_line(stamp, message));
    assert forall|i: int| 0 <= i < seq![message].len() implies stamped_as(
        after[before.len() + i],
        #[trigger] seq![message][i],
    ) by {
        assert(after[before.len() + i] == log_line(stamp, message));
    }
}

/// What is logged first and what is logged next are logged in a row.
pub proof fn lemma_logged_then(
    first: Seq<Seq<char>>,
    second: Seq<Seq<char>>,
    third: Seq<Seq<char>>,
    earlier: Seq<Seq<char>>,
    later: Seq<Seq<char>>,
)
    requires
        logged(first, second, earlier),
        logged(second, third, later),
    ensures
        logged(first, third, earlier + later),
{
    let all = earlier + later;
    assert forall|i: int| 0 <= i < first.len() implies #[trigger] third[i] == first[i] by {
        assert(second[i] == first[i]);
    }
    assert forall|i: int| 0 <= i < all.len() implies stamped_as(
        third[first.len() + i],
        #[trigger] all[i],
    ) by {
        if i < earlier.len() {
            assert(all[i] == earlier[i]);
            assert(stamped_as(second[first.len() + i], earlier[i]));
            assert(third[first.len() + i] == second[first.len() + i]);
        } else {
            let k = i - earlier.len();
            assert(all[i] == later[k]);
            assert(stamped_as(third[second.len() + k], later[k]));
        }
    }
}

/// What an answer to the open question tells the operator at once: that
/// the work was called off, that the verification starts, or that nothing
/// awaits distribution.
pub open spec fn answer_lines(
    dialog: Option<ConfirmationDialog>,
    confirmed: bool,
    ledger: Seq<StatusView>,
) -> Seq<Seq<char>> {
    match dialog {
        None => Seq::empty(),
        Some(d) => if !confirmed {
            seq![
                match d.callback {
                    ConfirmationCallback::RootCA => "Distribution of Root CA certificates was canceled by the user."@,
                    ConfirmationCallback::KubernetesCA => "Distribution of Kubernetes CA certificates was canceled by the user."@,
                    ConfirmationCallback::CAChain => "CA chain certificate distribution was canceled by the user."@,
                    ConfirmationCallback::AutomateAll => "Automation cancelled by user"@,
                    ConfirmationCallback::VerifyChains => "Verification cancelled by user"@,
                    ConfirmationCallback::DistributePending => "Distribution of pending certificates cancelled by user"@,
                },
            ]
        } else if d.callback == ConfirmationCallback::VerifyChains {
            seq!["Starting verification of distributed certificates..."@]
        } else if d.callback == ConfirmationCallback::DistributePending && pending(ledger).len()
            == 0 {
            seq!["No certificates pending distribution"@]
        } else {
            Seq::empty()
        },
    }
}

/// What the operator is told of a distribution that is through.
pub open spec fn distribution_line(cert_type: Seq<char>, done: bool) -> Seq<char> {
    if done {
        "Successfully distributed "@ + cert_type + " certificates"@
    } else {
        "Failed to distribute "@ + cert_type + " to every host"@
    }
}

/// What the operator is told of the import of one certificate.
pub open spec fn import_line(info: InfoView) -> Seq<char> {
    "Importing certificate: "@ + cert_type_of(info) + " (subject: "@ + info.subject + ")"@
}

/// What the operator is told of the import of the first `n` certificates.
pub open spec fn import_lines(certs: Seq<InfoView>, n: int) -> Seq<Seq<char>>
    decreases n,
{
    if n <= 0 {
        Seq::empty()
    } else {
        import_lines(certs, n - 1).push(import_line(certs[n - 1]))
    }
}

/// The line that opens an operation.
pub open spec fn operation_line(operation: Seq<char>) -> Seq<char> {
    "Starting operation: "@ + operation
}

/// What a key in the configuration form tells the operator.
pub open spec fn form_lines(key: EditKey, editing: bool) -> Seq<Seq<char>> {
    match key {
        EditKey::Enter => if editing {
            seq!["Configuration field updated"@]
        } else {
            Seq::empty()
        },
        EditKey::Esc => if editing {
            seq!["Edit cancelled"@]
        } else {
            seq!["Exited configuration mode"@]
        },
        _ => Seq::empty(),
    }
}

/// The state of the certificate manager.
#[derive(Clone, Debug, PartialEq, Eq)]
pub struct CertManager {
    pub config: ClusterConfig,
    pub current_operation: String,
    pub logs: Vec<String>,
    pub selected_menu: usize,
    pub menu_items: Vec<String>,
    pub mode: AppMode,
    pub config_editor: ConfigEditor,
    pub debug: bool,
    pub log_scroll: usize,
    pub menu_scroll: usize,
    pub cert_status_scroll: usize,
    pub trust_info_scroll: usize,
    pub active_section: ActiveSection,
    pub confirmation_dialog: Option<ConfirmationDialog>,
    pub cert_tracker: CertTracker,
    pub cert_ops: Option<CertificateOperations>,
    pub metrics_collector: Option<MetricsCollector>,
    pub metrics_enabled: bool,
    pub kubeconfig_generator: Option<KubeConfigGenerator>,
    pub encryption_generator: Option<EncryptionConfigGenerator>,
    pub trust_store: Option<Vec<NodeTrustInfo>>,
}

impl CertManager {
    /// A manager for the cluster of `config`, with an empty ledger and an empty log.
    pub fn new(config: ClusterConfig, debug: bool) -> (r: Self)
        ensures
            r.config@ == config@,
            r.debug == debug,
            texts(r.menu_items@) == menu(),
            r.logs@.len() == 0,
            r.cert_tracker@.len() == 0,
            r.mode == AppMode::Normal,
            r.active_section == ActiveSection::Menu,
            r.confirmation_dialog is None,
            r.selected_menu == 0 && r.log_scroll == 0 && r.menu_scroll == 0
                && r.cert_status_scroll == 0 && r.trust_info_scroll == 0,
            !r.metrics_enabled,
            r.cert_ops matches Some(ops) && operations_for(ops, config@, debug),
            texts(r.config_editor.fields@) == crate::config::form_fields(config@),
            r.config_editor.wf() && !r.config_editor.is_editing,
            r.current_operation@.len() == 0,
            r.kubeconfig_generator is None && r.encryption_generator is None,
            r.metrics_collector is None && r.trust_store is None,
    {
        let menu_items = owned(
            vec![
                "Generate Root CA",
                "Generate Kubernetes CA",
                "Generate API Server Cert",
                "Generate Node Certs",
                "Generate Service Account Keys",
                "Generate Controller Manager Cert",
                "Generate Kubeconfigs",
                "Generate Encryption Config",
                "Edit Configuration",
                "Save Configuration",
                "Verify Certificates",
                "Exit",
                "Distribute Pending Certificates",
                "Save Certificate Status",
                "Import Existing Certificates",
                "Automate all",
            ],
        );
        assert(texts(menu_items@) =~= menu());
        let cert_ops = CertificateOperations::new(
            OperationsLogger::new(debug),
            config.remote_dir.clone(),
            config.remote_user.clone(),
            config.ssh_key_path.clone(),
        );
        CertManager {
            config_editor: ConfigEditor::new(&config),
            config,
            current_operation: String::new(),
            logs: Vec::new(),
            selected_menu: 0,
            menu_items,
            mode: AppMode::Normal,
            debug,
            log_scroll: 0,
            menu_scroll: 0,
            cert_status_scroll: 0,
            trust_info_scroll: 0,
            active_section: ActiveSection::Menu,
            confirmation_dialog: None,
            cert_tracker: CertTracker::new(),
            cert_ops: Some(cert_ops),
            metrics_collector: None,
            metrics_enabled: false,
            kubeconfig_generator: None,
            encryption_generator: None,
            trust_store: None,
        }
    }

    /// Sets up the operations for the present settings.
    pub fn init_cert_ops(&mut self)
        ensures
            final(self).cert_ops matches Some(ops) && operations_for(
                ops,
                old(self).config@,
                old(self).debug,
            ),
            final(self).config == old(self).config,
            final(self).logs == old(self).logs,
            final(self).cert_tracker == old(self).cert_tracker,
            final(self).mode == old(self).mode,
            final(self).confirmation_dialog == old(self).confirmation_dialog,
            final(self).menu_items == old(self).menu_items,
            final(self).debug == old(self).debug,
            final(self).active_section == old(self).active_section,
            final(self).selected_menu == old(self).selected_menu,
            final(self).log_scroll == old(self).log_scroll,
            final(self).menu_scroll == old(self).menu_scroll,
            final(self).cert_status_scroll == old(self).cert_status_scroll,
            final(self).trust_info_scroll == old(self).trust_info_scroll,
            final(self).metrics_enabled == old(self).metrics_enabled,
    {
        self.cert_ops = Some(
            CertificateOperations::new(
                OperationsLogger::new(self.debug),
                self.config.remote_dir.clone(),
                self.config.remote_user.clone(),
                self.config.ssh_key_path.clone(),
            ),
        );
    }

    /// Sets up the generators of client and encryption configurations.
    pub fn init_generators(&mut self)
        ensures
            final(self).logs == old(self).logs,
            final(self).kubeconfig_generator matches Some(g) && g@ == (
            crate::kubeconfig::KubeConfigView {
                control_plane_ip: old(self).config.control_plane@,
                output_dir: "kubeconfig"@,
                ca_path: "certs/kubernetes-ca/ca-chain.crt"@,
            }),
            final(self).encryption_generator matches Some(g) && g.output_path@
                == "encryption-config.yaml"@,
            final(self).cert_tracker == old(self).cert_tracker,
            final(self).config == old(self).config,
    {
        self.kubeconfig_generator = Some(
            KubeConfigGenerator::new(
                self.config.control_plane.clone(),
                String::from_str("kubeconfig"),
                String::from_str("certs/kubernetes-ca/ca-chain.crt"),
            ),
        );
        self.encryption_generator = Some(
            EncryptionConfigGenerator::new(String::from_str("encryption-config.yaml")),
        );
    }

    /// Switches the collecting of figures on, with the configuration at
    /// `kubeconfig_path`.
    pub fn enable_metrics(&mut self, kubeconfig_path: String)
        ensures
            final(self).logs == old(self).logs,
            final(self).metrics_enabled,
            final(self).metrics_collector matches Some(m) && m.enabled && m.kubeconfig_path@
                == kubeconfig_path@,
            final(self).cert_tracker == old(self).cert_tracker,
    {
        self.metrics_enabled = true;
        self.metrics_collector = Some(MetricsCollector::new(true, kubeconfig_path));
    }

    /// Switches the collecting of figures off.
    pub fn disable_metrics(&mut self)
        ensures
            final(self).logs == old(self).logs,
            !final(self).metrics_enabled,
            final(self).metrics_collector is None,
            final(self).cert_tracker == old(self).cert_tracker,
    {
        self.metrics_enabled = false;
        self.metrics_collector = None;
    }

    /// Every host of the cluster, the control plane first.
    pub fn get_all_hosts(&self) -> (r: Vec<String>)
        ensures
            texts(r@) == all_hosts(self.config@),
    {
        self.config.get_all_hosts()
    }

    /// The hosts certificates are made for.
    pub fn get_cluster_endpoints(&self) -> (r: ClusterEndpoints)
        ensures
            r.control_plane@ == self.config.control_plane@,
            texts(r.worker_nodes@) == texts(self.config.worker_nodes@),
    {
        ClusterEndpoints {
            control_plane: self.config.control_plane.clone(),
            worker_nodes: clone_strings(&self.config.worker_nodes),
        }
    }

    /// Shows the end of the log.
    pub fn scroll_to_bottom(&mut self)
        ensures
            final(self).log_scroll == bottom_of(old(self).logs@.len()),
            final(self).logs == old(self).logs,
            final(self).cert_tracker == old(self).cert_tracker,
            final(self).mode == old(self).mode,
            final(self).confirmation_dialog == old(self).confirmation_dialog,
            final(self).config == old(self).config,
            final(self).debug == old(self).debug,
            final(self).current_operation == old(self).current_operation,
            final(self).config_editor == old(self).config_editor,
            final(self).cert_ops == old(self).cert_ops,
            final(self).kubeconfig_generator == old(self).kubeconfig_generator,
            final(self).encryption_generator == old(self).encryption_generator,
    {
        if self.logs.len() > LOG_WINDOW {
            self.log_scroll = self.logs.len() - LOG_WINDOW;
        } else {
            self.log_scroll = 0;
        }
    }

    /// Adds a line to the log under the time written as `stamp` and shows the end of the log.
    pub fn log_at(&mut self, stamp: &str, message: &str)
        ensures
            logged(texts(old(self).logs@), texts(final(self).logs@), seq![message@]),
            texts(final(self).logs@) == texts(old(self).logs@).push(log_line(stamp@, message@)),
            final(self).log_scroll == bottom_of(final(self).logs@.len()),
            final(self).cert_tracker == old(self).cert_tracker,
            final(self).mode == old(self).mode,
            final(self).confirmation_dialog == old(self).confirmation_dialog,
            final(self).config == old(self).config,
            final(self).debug == old(self).debug,
            final(self).current_operation == old(self).current_operation,
            final(self).config_editor == old(self).config_editor,
            final(self).cert_ops == old(self).cert_ops,
            final(self).kubeconfig_generator == old(self).kubeconfig_generator,
            final(self).encryption_generator == old(self).encryption_generator,
    {
        self.logs.push(cat3(stamp, ": ", message));
        assert(texts(self.logs@) =~= texts(old(self).logs@).push(log_line(stamp@, message@)));
        proof {
            lemma_logged_line(texts(old(self).logs@), stamp@, message@);
        }
        self.scroll_to_bottom();
    }

    /// Adds a line to the log under the present time of day.
    pub fn log(&mut self, message: &str)
        ensures
            logged(texts(old(self).logs@), texts(final(self).logs@), seq![message@]),
            exists|stamp: Seq<char>|
                texts(final(self).logs@) == texts(old(self).logs@).push(log_line(stamp, message@)),
            final(self).log_scroll == bottom_of(final(self).logs@.len()),
            final(self).cert_tracker == old(self).cert_tracker,
            final(self).mode == old(self).mode,
            final(self).confirmation_dialog == old(self).confirmation_dialog,
            final(self).config == old(self).config,
            final(self).debug == old(self).debug,
            final(self).current_operation == old(self).current_operation,
            final(self).config_editor == old(self).config_editor,
            final(self).cert_ops == old(self).cert_ops,
            final(self).kubeconfig_generator == old(self).kubeconfig_generator,
            final(self).encryption_generator == old(self).encryption_generator,
    {
        let stamp = local_time_text();
        self.log_at(stamp.as_str(), message);
        assert(texts(self.logs@) == texts(old(self).logs@).push(log_line(stamp@, message@)));
    }

    /// Adds a debug line to the log while debugging is on.
    pub fn debug_log(&mut self, message: &str)
        ensures
            logged(
                texts(old(self).logs@),
                texts(final(self).logs@),
                if old(self).debug {
                    seq!["[DEBUG] "@ + message@]
                } else {
                    Seq::empty()
                },
            ),
            !old(self).debug ==> final(self).logs == old(self).logs && final(self).log_scroll
                == old(self).log_scroll,
            old(self).debug ==> exists|stamp: Seq<char>|
                texts(final(self).logs@) == texts(old(self).logs@).push(
                    log_line(stamp, "[DEBUG] "@ + message@),
                ),
            final(self).cert_tracker == old(self).cert_tracker,
            final(self).mode == old(self).mode,
            final(self).confirmation_dialog == old(self).confirmation_dialog,
            final(self).config == old(self).config,
            final(self).debug == old(self).debug,
            final(self).current_operation == old(self).current_operation,
            final(self).config_editor == old(self).config_editor,
            final(self).cert_ops == old(self).cert_ops,
            final(self).kubeconfig_generator == old(self).kubeconfig_generator,
            final(self).encryption_generator == old(self).encryption_generator,
    {
        if self.debug {
            let tagged = cat("[DEBUG] ", message);
            self.log(tagged.as_str());
        }
    }

    /// Names the operation under way and logs its start.
    pub fn set_current_operation(&mut self, operation: &str)
        ensures
            logged(
                texts(old(self).logs@),
                texts(final(self).logs@),
                seq![operation_line(operation@)],
            ),
            final(self).current_operation@ == operation@,
            exists|stamp: Seq<char>|
                texts(final(self).logs@) == texts(old(self).logs@).push(
                    log_line(stamp, "Starting operation: "@ + operation@),
                ),
            final(self).cert_tracker == old(self).cert_tracker,
            final(self).mode == old(self).mode,
            final(self).confirmation_dialog == old(self).confirmation_dialog,
            final(self).config == old(self).config,
            final(self).debug == old(self).debug,
            final(self).cert_ops == old(self).cert_ops,
            final(self).kubeconfig_generator == old(self).kubeconfig_generator,
            final(self).encryption_generator == old(self).encryption_generator,
    {
        self.current_operation = String::from_str(operation);
        let line = cat("Starting operation: ", operation);
        self.log(line.as_str());
    }

    /// Moves the log pane.
    pub fn scroll_logs(&mut self, direction: ScrollDirection)
        ensures
            final(self).log_scroll == scrolled(
                old(self).log_scroll as nat,
                old(self).logs@.len(),
                direction,
            ),
            final(self).logs == old(self).logs,
            final(self).cert_tracker == old(self).cert_tracker,
            final(self).mode == old(self).mode,
            final(self).config == old(self).config,
            final(self).confirmation_dialog == old(self).confirmation_dialog,
            final(self).active_section == old(self).active_section,
            final(self).menu_items == old(self).menu_items,
            final(self).trust_store == old(self).trust_store,
            final(self).selected_menu == old(self).selected_menu,
            final(self).menu_scroll == old(self).menu_scroll,
            final(self).cert_status_scroll == old(self).cert_status_scroll,
            final(self).trust_info_scroll == old(self).trust_info_scroll,
    {
        let max_scroll = if self.logs.len() > 0 {
            self.logs.len() - 1
        } else {
            0
        };
        match direction {
            ScrollDirection::Up => {
                if self.log_scroll > 0 {
                    self.log_scroll = self.log_scroll - 1;
                }
            },
            ScrollDirection::Down => {
                if self.log_scroll < max_scroll {
                    self.log_scroll = self.log_scroll + 1;
                }
            },
            ScrollDirection::PageUp => {
                if self.log_scroll > LOG_PAGE {
                    self.log_scroll = self.log_scroll - LOG_PAGE;
                } else {
                    self.log_scroll = 0;
                }
            },
            ScrollDirection::PageDown => {
                if self.log_scroll < max_scroll && max_scroll - self.log_scroll > LOG_PAGE {
                    self.log_scroll = self.log_scroll + LOG_PAGE;
                } else {
                    self.log_scroll = max_scroll;
                }
            },
            ScrollDirection::Bottom => {
                self.log_scroll = max_scroll;
            },
            ScrollDirection::Top => {
                self.log_scroll = 0;
            },
        }
    }

    /// The name under which the discovered certificate `cert_info` is filed.
    pub fn determine_cert_type(&self, cert_info: &CertificateInfo) -> (r: String)
        ensures
            r@ == cert_type_of(cert_info@),
    {
        let file = file_name(cert_info.path.as_str());
        let lower = to_lowercase(cert_info.subject.as_str());
        classify(
            file.as_str(),
            cert_info.subject.as_str(),
            lower.as_str(),
            cert_info.is_ca,
            cert_info.fingerprint.as_str(),
        )
    }

    /// The operations; they are there once `init_cert_ops` has run.
    pub fn get_cert_ops(&self) -> (r: &CertificateOperations)
        requires
            self.cert_ops is Some,
        ensures
            Some(*r) == self.cert_ops,
    {
        match &self.cert_ops {
            Some(ops) => ops,
            None => vstd::pervasive::unreached(),
        }
    }

    /// Files the CA hierarchy, made at `now`, and asks whether to distribute it.
    pub fn record_ca_setup(&mut self, now: i64)
        ensures
            logged(
                texts(old(self).logs@),
                texts(final(self).logs@),
                seq!["Root CA and Kubernetes CA certificates generated successfully"@],
            ),
            old(self).cert_tracker.wf() ==> final(self).cert_tracker.wf(),
            final(self).cert_tracker@ == after_ca_setup(
                old(self).cert_tracker@,
                old(self).config@,
                now as int,
            ),
            final(self).confirmation_dialog matches Some(d) && d.callback
                == ConfirmationCallback::DistributePending && d.message@
                == "Do you want to distribute the generated CA certificates?"@,
            final(self).mode == AppMode::Confirmation,
            final(self).config == old(self).config,
    {
        let hosts = self.get_all_hosts();
        let entries = vec![
            (String::from_str("root-ca"), String::from_str("certs/root-ca/ca.crt")),
            (String::from_str("ca.crt"), String::from_str("certs/kubernetes-ca/ca.crt")),
            (String::from_str("ca.key"), String::from_str("certs/kubernetes-ca/ca.key")),
            (String::from_str("ca-chain"), String::from_str("certs/kubernetes-ca/ca-chain.crt")),
        ];
        assert(crate::tracker::filings_of(entries@) =~= ca_filings());
        self.cert_tracker.add_all(&entries, &hosts, now);
        let names = owned(vec!["root-ca", "ca.crt", "ca.key", "ca-chain"]);
        assert(texts(names@) =~= ca_names());
        self.cert_tracker.mark_all_verified(&names, true);
        self.log("Root CA and Kubernetes CA certificates generated successfully");
        self.offer(
            "Do you want to distribute the generated CA certificates?",
            ConfirmationCallback::DistributePending,
        );
    }

    /// Files the cluster CA, made at `now`.
    pub fn record_kubernetes_ca(&mut self, now: i64)
        ensures
            final(self).logs == old(self).logs,
            old(self).cert_tracker.wf() ==> final(self).cert_tracker.wf(),
            final(self).cert_tracker@ == filed_all(
                old(self).cert_tracker@,
                cluster_ca_filings(),
                seq![old(self).config.control_plane@],
                now as int,
            ),
            final(self).config == old(self).config,
    {
        let hosts = vec![self.config.control_plane.clone()];
        assert(texts(hosts@) =~= seq![self.config.control_plane@]);
        let entries = vec![
            (String::from_str("ca.crt"), String::from_str("certs/kubernetes-ca/ca.crt")),
            (String::from_str("ca.key"), String::from_str("certs/kubernetes-ca/ca.key")),
        ];
        assert(crate::tracker::filings_of(entries@) =~= cluster_ca_filings());
        self.cert_tracker.add_all(&entries, &hosts, now);
    }

    /// Files the controller manager's certificate, made at `now`.
    pub fn record_controller_manager(&mut self, now: i64)
        ensures
            final(self).logs == old(self).logs,
            old(self).cert_tracker.wf() ==> final(self).cert_tracker.wf(),
            final(self).cert_tracker@ == after_controller_manager(
                old(self).cert_tracker@,
                old(self).config@,
                now as int,
            ),
            final(self).config == old(self).config,
    {
        let hosts = vec![self.config.control_plane.clone()];
        assert(texts(hosts@) =~= seq![self.config.control_plane@]);
        self.cert_tracker.add_certificate_at(
            "Controller Manager",
            "certs/controller-manager/controller-manager.crt",
            hosts,
            now,
        );
        self.cert_tracker.mark_verified("Controller Manager", true);
    }

    /// Files the service-account keys, made at `now`.
    pub fn record_service_account_keys(&mut self, now: i64)
        ensures
            final(self).logs == old(self).logs,
            old(self).cert_tracker.wf() ==> final(self).cert_tracker.wf(),
            final(self).cert_tracker@ == after_sa_keys(
                old(self).cert_tracker@,
                old(self).config@,
                now as int,
            ),
            final(self).config == old(self).config,
    {
        let hosts = vec![self.config.control_plane.clone()];
        assert(texts(hosts@) =~= seq![self.config.control_plane@]);
        let entries = vec![
            (String::from_str("SA Public Key"), String::from_str("certs/service-account/sa.pub")),
            (String::from_str("SA Private Key"), String::from_str("certs/service-account/sa.key")),
        ];
        assert(crate::tracker::filings_of(entries@) =~= sa_filings());
        self.cert_tracker.add_all(&entries, &hosts, now);
        let names = owned(vec!["SA Public Key", "SA Private Key"]);
        assert(texts(names@) =~= sa_names());
        self.cert_tracker.mark_all_verified(&names, true);
        self.cert_tracker.mark_all_distributed(&names, now);
    }

    /// Files the client configuration `config_name`, made for `node` at `now`.
    pub fn track_kubeconfig(&mut self, config_name: &str, node: &str, now: i64)
        ensures
            final(self).logs == old(self).logs,
            old(self).cert_tracker.wf() ==> final(self).cert_tracker.wf(),
            final(self).cert_tracker@ == after_kubeconfig(
                old(self).cert_tracker@,
                config_name@,
                node@,
                now as int,
            ),
            final(self).config == old(self).config,
    {
        let hosts = vec![String::from_str(node)];
        assert(texts(hosts@) =~= seq![node@]);
        let name = cat("kubeconfig-", config_name);
        let path = cat3("kubeconfig/", config_name, ".conf");
        self.cert_tracker.add_certificate_at(name.as_str(), path.as_str(), hosts, now);
    }

    /// Files every client configuration, made at `now`.
    pub fn record_kubeconfigs(&mut self, now: i64)
        ensures
            final(self).logs == old(self).logs,
            old(self).cert_tracker.wf() ==> final(self).cert_tracker.wf(),
            final(self).cert_tracker@ == after_all_kubeconfigs(
                old(self).cert_tracker@,
                old(self).config@,
                now as int,
            ),
            final(self).config == old(self).config,
    {
        let control_plane = self.config.control_plane.clone();
        let workers = clone_strings(&self.config.worker_nodes);
        self.track_kubeconfig("admin", control_plane.as_str(), now);
        self.track_kubeconfig("controller-manager", control_plane.as_str(), now);
        self.track_kubeconfig("scheduler", control_plane.as_str(), now);
        let ghost start = self.cert_tracker@;
        let mut i: usize = 0;
        while i < workers.len()
            invariant
                i <= workers@.len(),
                texts(workers@) == old(self).config@.worker_nodes,
                self.config == old(self).config,
                self.logs == old(self).logs,
                old(self).cert_tracker.wf() ==> self.cert_tracker.wf(),
                self.cert_tracker@ == after_worker_kubeconfigs(
                    start,
                    texts(workers@),
                    i as int,
                    now as int,
                ),
            decreases workers@.len() - i,
        {
            let name = node_name_of(i);
            self.track_kubeconfig(name.as_str(), workers[i].as_str(), now);
            i += 1;
        }
    }

    /// Files the encryption configuration, made at `now`.
    pub fn record_encryption_config(&mut self, now: i64)
        ensures
            final(self).logs == old(self).logs,
            old(self).cert_tracker.wf() ==> final(self).cert_tracker.wf(),
            final(self).cert_tracker@ == after_encryption_config(
                old(self).cert_tracker@,
                old(self).config@,
                now as int,
            ),
            final(self).config == old(self).config,
    {
        let hosts = vec![self.config.control_plane.clone()];
        assert(texts(hosts@) =~= seq![self.config.control_plane@]);
        self.cert_tracker.add_certificate_at(
            "encryption-config",
            "encryption-config.yaml",
            hosts,
            now,
        );
    }

    /// Files the discovered certificates at `now`, each under the name it
    /// is filed under, for the control plane.
    pub fn import_certificates(&mut self, certs: &Vec<CertificateInfo>, now: i64)
        ensures
            logged(
                texts(old(self).logs@),
                texts(final(self).logs@),
                import_lines(crate::discovery::info_views(certs@), certs@.len() as int),
            ),
            old(self).cert_tracker.wf() ==> final(self).cert_tracker.wf(),
            final(self).cert_tracker@ == after_import(
                old(self).cert_tracker@,
                crate::discovery::info_views(certs@),
                old(self).config.control_plane@,
                certs@.len() as int,
                now as int,
            ),
            final(self).config == old(self).config,
    {
        let ghost views = crate::discovery::info_views(certs@);
        let mut i: usize = 0;
        proof {
            lemma_logged_nothing(texts(self.logs@));
        }
        while i < certs.len()
            invariant
                i <= certs@.len(),
                views == crate::discovery::info_views(certs@),
                self.config == old(self).config,
                logged(texts(old(self).logs@), texts(self.logs@), import_lines(views, i as int)),
                old(self).cert_tracker.wf() ==> self.cert_tracker.wf(),
                self.cert_tracker@ == after_import(
                    old(self).cert_tracker@,
                    views,
                    old(self).config.control_plane@,
                    i as int,
                    now as int,
                ),
            decreases certs@.len() - i,
        {
            let cert = &certs[i];
            assert(views[i as int] == cert@);
            let cert_type = self.determine_cert_type(cert);
            let line = String::from_str("Importing certificate: ").concat(
                cert_type.as_str(),
            ).concat(" (subject: ").concat(cert.subject.as_str()).concat(")");
            let ghost so_far = texts(self.logs@);
            self.log(line.as_str());
            proof {
                assert(line@ == import_line(cert@));
                lemma_logged_then(
                    texts(old(self).logs@),
                    so_far,
                    texts(self.logs@),
                    import_lines(views, i as int),
                    seq![line@],
                );
                assert(import_lines(views, i as int) + seq![line@] =~= import_lines(
                    views,
                    i + 1,
                ));
            }
            let hosts = vec![self.config.control_plane.clone()];
            assert(texts(hosts@) =~= seq![self.config.control_plane@]);
            self.cert_tracker.add_certificate_at(
                cert_type.as_str(),
                cert.path.as_str(),
                hosts,
                now,
            );
            i += 1;
        }
    }

    /// The work for the ledger entries that await distribution. The root CA
    /// is never part of it.
    pub fn pending_jobs(&self) -> (r: Vec<DistributionJob>)
        ensures
            job_views(r@) == pending_jobs(self.cert_tracker@),
    {
        let entries = self.cert_tracker.get_undistributed();
        let mut jobs: Vec<DistributionJob> = Vec::new();
        let mut i: usize = 0;
        while i < entries.len()
            invariant
                i <= entries@.len(),
                crate::tracker::entry_views(entries@) == pending(self.cert_tracker@),
                jobs@.len() == i,
                forall|k: int| 0 <= k < i ==> (#[trigger] jobs@[k])@ == job_of(entries@[k]@),
            decreases entries@.len() - i,
        {
            let entry = entries[i];
            let source = if str_eq(entry.cert_type.as_str(), "encryption-config") {
                String::from_str("encryption-config.yaml")
            } else {
                entry.path.clone()
            };
            jobs.push(
                DistributionJob {
                    cert_type: entry.cert_type.clone(),
                    source,
                    hosts: clone_strings(&entry.hosts),
                },
            );
            i += 1;
        }
        proof {
            assert forall|k: int| 0 <= k < jobs@.len() implies job_views(jobs@)[k] == pending_jobs(
                self.cert_tracker@,
            )[k] by {
                assert(crate::tracker::entry_views(entries@)[k] == entries@[k]@);
            }
            assert(job_views(jobs@) =~= pending_jobs(self.cert_tracker@));
        }
        jobs
    }

    /// Records at `now` how the distribution of `cert_type` to `hosts`
    /// went, `succeeded` being the hosts that were reached. The entry is
    /// marked as distributed only when every host was reached; otherwise
    /// it stays as it is and awaits the next try. Says whether it was marked.
    pub fn record_distribution(
        &mut self,
        cert_type: &str,
        hosts: &Vec<String>,
        succeeded: &Vec<String>,
        now: i64,
    ) -> (done: bool)
        ensures
            final(self).logs == old(self).logs,
            old(self).cert_tracker.wf() ==> final(self).cert_tracker.wf(),
            done == delivered(texts(hosts@), texts(succeeded@)),
            final(self).cert_tracker@ == after_distribution(
                old(self).cert_tracker@,
                cert_type@,
                texts(hosts@),
                texts(succeeded@),
                now as int,
            ),
            final(self).config == old(self).config,
            final(self).mode == old(self).mode,
            final(self).confirmation_dialog == old(self).confirmation_dialog,
    {
        let mut all = true;
        let mut i: usize = 0;
        while i < hosts.len()
            invariant
                i <= hosts@.len(),
                all == (forall|k: int|
                    0 <= k < i ==> texts(succeeded@).contains(#[trigger] texts(hosts@)[k])),
            decreases hosts@.len() - i,
        {
            if !listed(succeeded, hosts[i].as_str()) {
                all = false;
                assert(!texts(succeeded@).contains(texts(hosts@)[i as int]));
            }
            i += 1;
        }
        if all {
            self.cert_tracker.mark_distributed_at(cert_type, now);
        }
        all
    }

    /// How the ledger entry `entry` is verified on this machine.
    pub fn local_check(entry: &CertificateStatus) -> (r: CheckKind)
        ensures
            r == check_kind(entry.cert_type@),
    {
        let name = entry.cert_type.as_str();
        if starts_with(name, "kubeconfig-") || str_eq(name, "encryption-config") {
            CheckKind::Trusted
        } else if str_eq(name, "root-ca") || str_eq(name, "kubernetes-ca") {
            CheckKind::Alone
        } else {
            CheckKind::Chained
        }
    }

    /// A key pressed in the configuration form. `found` is the list of
    /// paths that complete the value being edited; it is looked at only on
    /// a first press of the tab key on the key-path field.
    pub fn handle_config_edit(&mut self, key: EditKey, found: Vec<String>)
        requires
            old(self).config_editor.wf(),
        ensures
            final(self).config_editor.wf(),
            final(self).cert_tracker == old(self).cert_tracker,
            form_edited(key, *old(self), *final(self), found),
    {
        match key {
            EditKey::Tab => {
                if self.config_editor.is_editing {
                    self.config_editor.handle_tab(found);
                }
            },
            EditKey::Enter => {
                if self.config_editor.is_editing {
                    let at = self.config_editor.current_field;
                    let value = self.config_editor.editing_value.clone();
                    let ghost before = texts(self.config_editor.fields@);
                    self.config_editor.fields.set(at, value);
                    assert(texts(self.config_editor.fields@) =~= before.update(
                        at as int,
                        old(self).config_editor.editing_value@,
                    ));
                    self.config_editor.is_editing = false;
                    self.config_editor.reset_completions();
                    self.config_editor.editing_value = String::new();
                    let editor = &self.config_editor;
                    editor.apply_to_config(&mut self.config);
                    self.log("Configuration field updated");
                } else {
                    self.config_editor.is_editing = true;
                    let at = self.config_editor.current_field;
                    self.config_editor.editing_value = self.config_editor.fields[at].clone();
                }
            },
            EditKey::Esc => {
                if self.config_editor.is_editing {
                    self.config_editor.is_editing = false;
                    self.config_editor.reset_completions();
                    self.config_editor.editing_value = String::new();
                    self.log("Edit cancelled");
                } else {
                    self.mode = AppMode::Normal;
                    self.log("Exited configuration mode");
                }
            },
            EditKey::Up => {
                if !self.config_editor.is_editing {
                    let at = self.config_editor.current_field;
                    self.config_editor.current_field = if at == 0 {
                        4
                    } else {
                        at - 1
                    };
                    self.config_editor.reset_completions();
                }
            },
            EditKey::Down => {
                if !self.config_editor.is_editing {
                    let at = self.config_editor.current_field;
                    self.config_editor.current_field = (at + 1) % 5;
                    self.config_editor.reset_completions();
                }
            },
            EditKey::Char(c) => {
                if self.config_editor.is_editing {
                    crate::text::push_char(&mut self.config_editor.editing_value, c);
                    self.config_editor.reset_completions();
                }
            },
            EditKey::Backspace => {
                if self.config_editor.is_editing {
                    crate::text::pop_char(&mut self.config_editor.editing_value);
                    self.config_editor.reset_completions();
                }
            },
            EditKey::Other => {},
        }
    }

    /// What an answer to the open question sets off. The question is
    /// closed either way. A confirmed answer that asks for a distribution
    /// yields the work to do; how it went is reported with
    /// `finish_distribution`.
    pub fn handle_confirmation(&mut self, confirmed: bool) -> (r: Errand)
        ensures
            logged(
                texts(old(self).logs@),
                texts(final(self).logs@),
                answer_lines(old(self).confirmation_dialog, confirmed, old(self).cert_tracker@),
            ),
            old(self).cert_tracker.wf() ==> final(self).cert_tracker.wf(),
            final(self).confirmation_dialog is None,
            final(self).mode == AppMode::Normal,
            final(self).config == old(self).config,
            old(self).confirmation_dialog is None || !confirmed ==> r is Nothing
                && final(self).cert_tracker@ == old(self).cert_tracker@,
            confirmed && old(self).confirmation_dialog is Some ==> {
                let callback = old(self).confirmation_dialog->Some_0.callback;
                &&& final(self).cert_tracker@ == answer_ledger(callback, old(self).cert_tracker@)
                &&& callback == ConfirmationCallback::AutomateAll ==> r is Automate
                &&& callback == ConfirmationCallback::VerifyChains ==> r is Verify
                &&& answer_jobs(callback, old(self).config@, old(self).cert_tracker@) matches Some(
                    jobs,
                ) ==> (r matches Errand::Distribute(work) && job_views(work@) == jobs)
            },
    {
        proof {
            lemma_logged_nothing(texts(self.logs@));
        }
        let dialog = self.confirmation_dialog.take();
        self.mode = AppMode::Normal;
        let callback = match dialog {
            Some(d) => d.callback,
            None => {
                return Errand::Nothing;
            },
        };
        if !confirmed {
            let line = match callback {
                ConfirmationCallback::RootCA => {
                    "Distribution of Root CA certificates was canceled by the user."
                },
                ConfirmationCallback::KubernetesCA => {
                    "Distribution of Kubernetes CA certificates was canceled by the user."
                },
                ConfirmationCallback::CAChain => {
                    "CA chain certificate distribution was canceled by the user."
                },
                ConfirmationCallback::AutomateAll => "Automation cancelled by user",
                ConfirmationCallback::VerifyChains => "Verification cancelled by user",
                ConfirmationCallback::DistributePending => {
                    "Distribution of pending certificates cancelled by user"
                },
            };
            self.log(line);
            return Errand::Nothing;
        }
        match callback {
            ConfirmationCallback::RootCA => {
                let hosts = vec![self.config.control_plane.clone()];
                assert(texts(hosts@) =~= seq![self.config.control_plane@]);
                let jobs = vec![
                    DistributionJob {
                        cert_type: String::from_str("Root CA"),
                        source: String::from_str("certs/root-ca/ca.crt"),
                        hosts,
                    },
                ];
                assert(job_views(jobs@) =~= single_job(
                    "Root CA"@,
                    "certs/root-ca/ca.crt"@,
                    seq![self.config.control_plane@],
                ));
                Errand::Distribute(jobs)
            },
            ConfirmationCallback::KubernetesCA => {
                self.cert_tracker.mark_verified("Kubernetes CA", false);
                let jobs = vec![
                    DistributionJob {
                        cert_type: String::from_str("Kubernetes CA"),
                        source: String::from_str("certs/kubernetes-ca/ca.crt"),
                        hosts: self.get_all_hosts(),
                    },
                ];
                assert(job_views(jobs@) =~= single_job(
                    "Kubernetes CA"@,
                    "certs/kubernetes-ca/ca.crt"@,
                    all_hosts(self.config@),
                ));
                Errand::Distribute(jobs)
            },
            ConfirmationCallback::CAChain => {
                let jobs = vec![
                    DistributionJob {
                        cert_type: String::from_str("ca-chain"),
                        source: String::from_str("certs/kubernetes-ca/ca-chain.crt"),
                        hosts: self.get_all_hosts(),
                    },
                ];
                assert(job_views(jobs@) =~= single_job(
                    "ca-chain"@,
                    "certs/kubernetes-ca/ca-chain.crt"@,
                    all_hosts(self.config@),
                ));
                Errand::Distribute(jobs)
            },
            ConfirmationCallback::AutomateAll => Errand::Automate,
            ConfirmationCallback::VerifyChains => {
                self.log("Starting verification of distributed certificates...");
                Errand::Verify
            },
            ConfirmationCallback::DistributePending => {
                let jobs = self.pending_jobs();
                assert(job_views(jobs@).len() == pending(self.cert_tracker@).len());
                if jobs.len() == 0 {
                    self.log("No certificates pending distribution");
                }
                Errand::Distribute(jobs)
            },
        }
    }

    /// Settles at `now` one piece of the work an answer set off:
    /// `succeeded` are the hosts of `job` that were reached. The ledger
    /// entry is marked as distributed only when every host was reached.
    /// After the root CA went out, the chain is offered next.
    pub fn finish_distribution(
        &mut self,
        callback: ConfirmationCallback,
        job: &DistributionJob,
        succeeded: &Vec<String>,
        now: i64,
    ) -> (done: bool)
        ensures
            logged(
                texts(old(self).logs@),
                texts(final(self).logs@),
                seq![distribution_line(job.cert_type@, done)],
            ),
            old(self).cert_tracker.wf() ==> final(self).cert_tracker.wf(),
            done == delivered(job@.hosts, texts(succeeded@)),
            final(self).cert_tracker@ == settled_ledger(
                callback,
                old(self).cert_tracker@,
                job@,
                texts(succeeded@),
                now as int,
            ),
            final(self).config == old(self).config,
            final(self).mode == old(self).mode,
            callback == ConfirmationCallback::RootCA && done ==> (final(
                self
            ).confirmation_dialog matches Some(d) && d.callback == ConfirmationCallback::CAChain
                && d.message@ == chain_question()),
            !(callback == ConfirmationCallback::RootCA && done) ==> final(
                self
            ).confirmation_dialog == old(self).confirmation_dialog,
    {
        let done = self.record_distribution(job.cert_type.as_str(), &job.hosts, succeeded, now);
        if done {
            match callback {
                ConfirmationCallback::KubernetesCA => {
                    self.cert_tracker.mark_verified(job.cert_type.as_str(), true);
                },
                ConfirmationCallback::RootCA => {
                    self.confirmation_dialog = Some(
                        ConfirmationDialog {
                            message: String::from_str(
                                "Do you want to create and distribute CA chain certificates?",
                            ),
                            callback: ConfirmationCallback::CAChain,
                        },
                    );
                },
                _ => {},
            }
            let line = cat3("Successfully distributed ", job.cert_type.as_str(), " certificates");
            self.log(line.as_str());
        } else {
            let line = cat3("Failed to distribute ", job.cert_type.as_str(), " to every host");
            self.log(line.as_str());
        }
        done
    }

    /// The order of the whole generation.
    pub fn automation_stages() -> (r: Vec<Stage>)
        ensures
            r@ == automation(),
    {
        let r = vec![
            Stage::CleanUp,
            Stage::RootCA,
            Stage::KubernetesCA,
            Stage::ControlPlane,
            Stage::WorkerNodes,
            Stage::ServiceAccount,
            Stage::Kubeconfigs,
            Stage::EncryptionConfig,
        ];
        assert(r@ =~= automation());
        r
    }

    /// Closes the whole generation: everything that was made is offered for distribution.
    pub fn automate_all(&mut self)
        ensures
            final(self).confirmation_dialog matches Some(d) && d.callback
                == ConfirmationCallback::DistributePending && d.message@
                == "Do you want to distribute all generated certificates and configs?"@,
            final(self).mode == AppMode::Confirmation,
            final(self).cert_tracker == old(self).cert_tracker,
            final(self).config == old(self).config,
    {
        self.offer(
            "Do you want to distribute all generated certificates and configs?",
            ConfirmationCallback::DistributePending,
        );
    }

    /// The glob patterns that find the bookkeeping files of the CAs to clean.
    pub fn clean_up() -> (r: Vec<String>)
        ensures
            texts(r@) == seq!["./*/serial"@, "./*/index.txt"@],
    {
        let r = owned(vec!["./*/serial", "./*/index.txt"]);
        assert(texts(r@) =~= seq!["./*/serial"@, "./*/index.txt"@]);
        r
    }

    /// The runbook that resets the bookkeeping of the CA kept in `dir`.
    pub fn clean_directory(dir: &str) -> (plan: Plan)
        ensures
            plan@ == clean_plan(dir@),
    {
        let mut plan = Plan::new();
        plan.push(Step::DebugLog(cat("Cleaning directory: ", dir)));
        plan.push(Step::WriteFile { path: cat(dir, "/serial"), content: String::from_str("01") });
        plan.push(Step::WriteFile { path: cat(dir, "/index.txt"), content: String::new() });
        plan.push(Step::RemoveFile(cat(dir, "/index.txt.old")));
        plan.push(Step::RemoveFile(cat(dir, "/serial.old")));
        assert(plan@ =~= clean_plan(dir@));
        plan
    }

    /// The glob patterns of the files a clean-up of `dir` removes.
    pub fn clean_patterns(dir: &str) -> (r: Vec<String>)
        ensures
            texts(r@) == clean_patterns(dir@),
    {
        let r = vec![
            cat(dir, "/**/*.pem"),
            cat(dir, "/**/*.key"),
            cat(dir, "/**/*.crt"),
            cat(dir, "/**/*.csr"),
        ];
        assert(texts(r@) =~= clean_patterns(dir@));
        r
    }

    /// The runbook of the CA hierarchy.
    pub fn generate_root_ca(&mut self) -> (plan: Plan)
        requires
            old(self).cert_ops is Some,
        ensures
            logged(
                texts(old(self).logs@),
                texts(final(self).logs@),
                seq![operation_line("Generating Root CA"@)],
            ),
            plan@ == ca_setup_plan(),
            final(self).current_operation@ == "Generating Root CA"@,
            final(self).cert_tracker == old(self).cert_tracker,
            final(self).config == old(self).config,
    {
        self.set_current_operation("Generating Root CA");
        let hosts = self.get_all_hosts();
        self.get_cert_ops().setup_ca_certificates(&hosts)
    }

    /// The runbook of the cluster CA and its chain.
    pub fn generate_kubernetes_cert(&mut self) -> (plan: Plan)
        requires
            old(self).cert_ops is Some,
        ensures
            logged(
                texts(old(self).logs@),
                texts(final(self).logs@),
                seq![operation_line("Generating Kubernetes CA"@)],
            ),
            plan@ == cluster_ca_plan() + chain_plan(),
            final(self).cert_tracker == old(self).cert_tracker,
            final(self).config == old(self).config,
    {
        self.set_current_operation("Generating Kubernetes CA");
        let hosts = vec![self.config.control_plane.clone()];
        let ops = self.get_cert_ops();
        let mut plan = ops.generate_cert(
            "ca",
            "certs/root-ca",
            &CertificateOperations::kubernetes_ca_config(),
            &hosts,
        );
        plan.extend(ops.create_ca_chain());
        plan
    }

    /// The runbook of the chain file of the cluster CA.
    pub fn create_kubernetes_ca_chain(&self) -> (plan: Plan)
        requires
            self.cert_ops is Some,
        ensures
            plan@ == chain_plan(),
    {
        self.get_cert_ops().create_ca_chain()
    }

    /// The runbook of the kubelet client's certificate.
    pub fn generate_kubelet_client_cert(&mut self) -> (plan: Plan)
        requires
            old(self).cert_ops is Some,
        ensures
            logged(
                texts(old(self).logs@),
                texts(final(self).logs@),
                seq![operation_line("Generating Kubelet Client Certificate"@)],
            ),
            plan@ == cert_plan(
                "kube-apiserver-kubelet-client"@,
                signing_ca_dir(),
                kubelet_client_config(true),
            ),
            final(self).cert_tracker == old(self).cert_tracker,
            final(self).config == old(self).config,
    {
        self.set_current_operation("Generating Kubelet Client Certificate");
        let hosts = vec![self.config.control_plane.clone()];
        let config = KubeletClientCertGenerator::config(true);
        self.get_cert_ops().generate_cert(
            "kube-apiserver-kubelet-client",
            "certs/kubernetes-ca",
            &config,
            &hosts,
        )
    }

    /// The runbook of the controller manager's client certificate.
    pub fn generate_controller_manager_cert(&mut self) -> (plan: Plan)
        requires
            old(self).cert_ops is Some,
        ensures
            logged(
                texts(old(self).logs@),
                texts(final(self).logs@),
                seq![operation_line("Generating Controller Manager Certificate"@)],
            ),
            plan@ == controller_client_plan(),
            final(self).cert_tracker == old(self).cert_tracker,
            final(self).config == old(self).config,
    {
        self.set_current_operation("Generating Controller Manager Certificate");
        let control_plane = self.config.control_plane.clone();
        let generator = ControllerManagerGenerator::new(self.get_cert_ops());
        generator.generate_certificate(control_plane.as_str())
    }

    /// The runbook of the service-account key pair.
    pub fn generate_service_account_keys(&mut self) -> (plan: Plan)
        requires
            old(self).cert_ops is Some,
        ensures
            logged(
                texts(old(self).logs@),
                texts(final(self).logs@),
                seq![operation_line("Generating Service Account Keys"@)],
            ),
            plan@ == sa_plan("certs/service-account"@),
            final(self).cert_tracker == old(self).cert_tracker,
            final(self).config == old(self).config,
    {
        self.set_current_operation("Generating Service Account Keys");
        let generator = ServiceAccountGenerator::new(
            String::from_str("certs/service-account"),
            self.get_cert_ops(),
        );
        generator.generate_service_account_keys()
    }

    /// The runbook of the control plane's certificates and keys: the API
    /// server, the controller manager, the scheduler, the kubelet client,
    /// the service-account keys.
    pub fn generate_control_plane_certs(&mut self) -> (plan: Plan)
        requires
            old(self).cert_ops is Some,
        ensures
            logged(
                texts(old(self).logs@),
                texts(final(self).logs@),
                seq!["Generating control plane certificates..."@],
            ),
            plan@ == control_plane_plan(old(self).config@),
            final(self).cert_tracker == old(self).cert_tracker,
            final(self).config == old(self).config,
    {
        self.log("Generating control plane certificates...");
        let endpoints = self.get_cluster_endpoints();
        let hosts = vec![self.config.control_plane.clone()];
        let ops = self.get_cert_ops();
        let generator = ControllerCertGenerator::new(endpoints, ops);
        let mut plan = generator.generate_api_server_cert();
        plan.extend(generator.generate_controller_manager_cert());
        plan.extend(generator.generate_scheduler_cert());
        plan.extend(
            ops.generate_cert(
                "kube-apiserver-kubelet-client",
                "certs/kubernetes-ca",
                &KubeletClientCertGenerator::config(true),
                &hosts,
            ),
        );
        let sa = ServiceAccountGenerator::new(String::from_str("certs/service-account"), ops);
        plan.extend(sa.generate_service_account_keys());
        plan
    }

    /// The workers of the cluster with their positions.
    pub fn worker_positions(&self) -> (nodes: Vec<(usize, String)>)
        ensures
            numbered_workers(nodes@, self.config@.worker_nodes),
    {
        let mut nodes: Vec<(usize, String)> = Vec::new();
        let mut i: usize = 0;
        while i < self.config.worker_nodes.len()
            invariant
                i <= self.config.worker_nodes@.len(),
                nodes@.len() == i,
                forall|k: int|
                    0 <= k < i ==> (#[trigger] nodes@[k]).0 == k && nodes@[k].1@
                        == self.config.worker_nodes@[k]@,
            decreases self.config.worker_nodes@.len() - i,
        {
            nodes.push((i, self.config.worker_nodes[i].clone()));
            i += 1;
        }
        nodes
    }

    /// One runbook for each worker node's certificate.
    pub fn generate_worker_node_certs(&mut self) -> (plans: Vec<Plan>)
        requires
            old(self).cert_ops is Some,
        ensures
            logged(
                texts(old(self).logs@),
                texts(final(self).logs@),
                seq![operation_line("Generating Worker node certificates."@)],
            ),
            exists|nodes: Seq<(usize, String)>|
                numbered_workers(nodes, old(self).config@.worker_nodes) && plan_views(plans@)
                    == node_plans(nodes),
            final(self).cert_tracker == old(self).cert_tracker,
            final(self).config == old(self).config,
    {
        self.set_current_operation("Generating Worker node certificates.");
        let nodes = self.worker_positions();
        let generator = NodeCertGenerator::new(self.get_cert_ops());
        let plans = generator.generate_node_certificates(&nodes);
        assert(numbered_workers(nodes@, old(self).config@.worker_nodes));
        plans
    }

    /// Puts a question to the operator.
    pub fn offer(&mut self, message: &str, callback: ConfirmationCallback)
        ensures
            final(self).confirmation_dialog matches Some(d) && d.message@ == message@ && d.callback
                == callback,
            final(self).mode == AppMode::Confirmation,
            final(self).cert_tracker == old(self).cert_tracker,
            final(self).config == old(self).config,
            final(self).logs == old(self).logs,
    {
        self.confirmation_dialog = Some(
            ConfirmationDialog { message: String::from_str(message), callback },
        );
        self.mode = AppMode::Confirmation;
    }

    /// Offers the distribution of what awaits it; with nothing waiting, it
    /// only says so. Tells whether the question was put.
    pub fn offer_pending_distribution(&mut self) -> (asked: bool)
        ensures
            logged(
                texts(old(self).logs@),
                texts(final(self).logs@),
                if asked {
                    Seq::empty()
                } else {
                    seq!["No pending certificates to distribute"@]
                },
            ),
            asked == (pending(old(self).cert_tracker@).len() > 0),
            asked ==> (final(self).confirmation_dialog matches Some(d) && d.callback
                == ConfirmationCallback::DistributePending && d.message@ == "Distribute "@
                + crate::text::decimal_digits(pending(old(self).cert_tracker@).len())
                + " pending certificates?"@) && final(self).mode == AppMode::Confirmation,
            !asked ==> final(self).confirmation_dialog == old(self).confirmation_dialog && final(
                self
            ).mode == old(self).mode,
            final(self).cert_tracker == old(self).cert_tracker,
            final(self).config == old(self).config,
    {
        proof {
            lemma_logged_nothing(texts(self.logs@));
        }
        let waiting = self.cert_tracker.get_undistributed();
        let count = waiting.len();
        assert(count == crate::tracker::entry_views(waiting@).len());
        if count == 0 {
            self.log("No pending certificates to distribute");
            false
        } else {
            let number = crate::text::decimal(count as u128);
            let message = cat3("Distribute ", number.as_str(), " pending certificates?");
            self.offer(message.as_str(), ConfirmationCallback::DistributePending);
            true
        }
    }

    /// What the menu entry at `index` asks for.
    pub fn menu_action(index: usize) -> (r: MenuAction)
        ensures
            r == action_at(index as int),
    {
        if index == 0 {
            MenuAction::GenerateRootCA
        } else if index == 1 {
            MenuAction::GenerateKubernetesCA
        } else if index == 2 {
            MenuAction::GenerateKubeletClientCert
        } else if index == 3 {
            MenuAction::GenerateNodeCerts
        } else if index == 4 {
            MenuAction::GenerateServiceAccountKeys
        } else if index == 5 {
            MenuAction::GenerateControllerManagerCert
        } else if index == 6 {
            MenuAction::GenerateKubeconfigs
        } else if index == 7 {
            MenuAction::GenerateEncryptionConfig
        } else if index == 8 {
            MenuAction::EditConfiguration
        } else if index == 9 {
            MenuAction::SaveConfiguration
        } else if index == 10 {
            MenuAction::VerifyCertificates
        } else if index == 11 {
            MenuAction::Exit
        } else if index == 12 {
            MenuAction::DistributePending
        } else if index == 13 {
            MenuAction::SaveCertificateStatus
        } else if index == 14 {
            MenuAction::ImportExistingCertificates
        } else if index == 15 {
            MenuAction::AutomateAll
        } else {
            MenuAction::NotImplemented
        }
    }

    /// Moves about the main screen.
    pub fn navigate(&mut self, key: NavKey)
        ensures
            pane_moved(*old(self), *final(self), key),
            final(self).logs == old(self).logs,
            final(self).cert_tracker == old(self).cert_tracker,
            final(self).mode == old(self).mode,
            final(self).config == old(self).config,
            final(self).confirmation_dialog == old(self).confirmation_dialog,
    {
        let count = self.menu_items.len();
        let certs = self.cert_tracker.certificates.len();
        let nodes = match &self.trust_store {
            Some(store) => store.len(),
            None => 0,
        };
        match key {
            NavKey::Left => {
                self.active_section = self.active_section.prev();
            },
            NavKey::Right => {
                self.active_section = self.active_section.next();
            },
            _ => match self.active_section {
                ActiveSection::Menu => {
                    if count > 0 {
                        self.move_in_menu(key, count);
                    }
                },
                ActiveSection::CertStatus => {
                    self.cert_status_scroll = moved_within(
                        self.cert_status_scroll,
                        certs,
                        CERT_WINDOW,
                        key,
                    );
                },
                ActiveSection::Logs => {
                    match key {
                        NavKey::Up => self.scroll_logs(ScrollDirection::Up),
                        NavKey::Down => self.scroll_logs(ScrollDirection::Down),
                        NavKey::PageUp => self.scroll_logs(ScrollDirection::PageUp),
                        NavKey::PageDown => self.scroll_logs(ScrollDirection::PageDown),
                        _ => {},
                    }
                },
                ActiveSection::TrustInfo => {
                    self.trust_info_scroll = moved_within(
                        self.trust_info_scroll,
                        nodes,
                        TRUST_WINDOW,
                        key,
                    );
                },
            },
        }
    }

    fn move_in_menu(&mut self, key: NavKey, count: usize)
        requires
            count == old(self).menu_items@.len(),
            count > 0,
            old(self).active_section == ActiveSection::Menu,
            !(key is Left) && !(key is Right),
        ensures
            pane_moved(*old(self), *final(self), key),
            final(self).logs == old(self).logs,
            final(self).cert_tracker == old(self).cert_tracker,
            final(self).mode == old(self).mode,
            final(self).config == old(self).config,
            final(self).confirmation_dialog == old(self).confirmation_dialog,
            final(self).trust_store == old(self).trust_store,
            final(self).menu_items == old(self).menu_items,
    {
        let selected = self.selected_menu;
        let scroll = self.menu_scroll;
        let window_start = if count > MENU_WINDOW {
            count - MENU_WINDOW
        } else {
            0
        };
        match key {
            NavKey::Up => {
                let to = if selected == 0 || selected >= count {
                    count - 1
                } else {
                    selected - 1
                };
                self.selected_menu = to;
                if to == count - 1 {
                    self.menu_scroll = window_start;
                } else if to < scroll {
                    self.menu_scroll = to;
                }
            },
            NavKey::Down => {
                let to = if selected >= count - 1 {
                    0
                } else {
                    selected + 1
                };
                self.selected_menu = to;
                if selected > to {
                    self.menu_scroll = 0;
                } else if to >= MENU_WINDOW && to - MENU_WINDOW >= scroll {
                    self.menu_scroll = to - (MENU_WINDOW - 1);
                }
            },
            NavKey::PageUp => {
                self.menu_scroll = if scroll > 10 {
                    scroll - 10
                } else {
                    0
                };
                self.selected_menu = if selected > 10 {
                    selected - 10
                } else {
                    0
                };
            },
            NavKey::PageDown => {
                self.menu_scroll = if scroll < window_start && window_start - scroll > 10 {
                    scroll + 10
                } else {
                    window_start
                };
                self.selected_menu = if selected < count - 1 && count - 1 - selected > 10 {
                    selected + 10
                } else {
                    count - 1
                };
            },
            _ => {},
        }
    }

    /// Moves what the operations logged into the log pane, oldest first,
    /// all under the present time of day.
    pub fn process_pending_logs(&mut self)
        ensures
            old(self).cert_ops is None ==> final(self).logs == old(self).logs,
            old(self).cert_ops matches Some(ops) ==> exists|stamp: Seq<char>|
                texts(final(self).logs@) == logged_all(
                    texts(old(self).logs@),
                    stamp,
                    texts(ops.logger.pending@),
                    ops.logger.pending@.len() as int,
                ),
            final(self).cert_ops matches Some(ops) ==> ops.logger.pending@.len() == 0,
            final(self).cert_tracker == old(self).cert_tracker,
            final(self).config == old(self).config,
            final(self).mode == old(self).mode,
    {
        let lines = match &mut self.cert_ops {
            Some(ops) => ops.logger.drain(),
            None => {
                return ;
            },
        };
        let stamp = local_time_text();
        let ghost start = texts(self.logs@);
        let ghost waiting = texts(old(self).cert_ops->Some_0.logger.pending@);
        assert(texts(lines@).len() == waiting.len());
        let mut i: usize = 0;
        while i < lines.len()
            invariant
                i <= lines@.len(),
                texts(self.logs@) == logged_all(start, stamp@, texts(lines@), i as int),
                self.cert_tracker == old(self).cert_tracker,
                self.config == old(self).config,
                self.mode == old(self).mode,
                self.cert_ops matches Some(ops) && ops.logger.pending@.len() == 0,
            decreases lines@.len() - i,
        {
            self.log_at(stamp.as_str(), lines[i].as_str());
            i += 1;
        }
        assert(texts(self.logs@) == logged_all(start, stamp@, waiting, waiting.len() as int));
    }

    /// Records how the local check `task` went: `present` says whether the
    /// file was there, `passed` whether its runbook ended well. A file that
    /// is not there leaves the ledger as it is. An entry that counts as
    /// verified as it is gets a good verdict; any other gets the verdict
    /// of its check.
    pub fn record_verification(&mut self, task: &VerificationTask, present: bool, passed: bool)
        ensures
            final(self).cert_tracker@ == verification_recorded(
                old(self).cert_tracker@,
                task.cert_type@,
                task.kind,
                present,
                passed,
            ),
            old(self).cert_tracker.wf() ==> final(self).cert_tracker.wf(),
            final(self).config == old(self).config,
            final(self).mode == old(self).mode,
            final(self).confirmation_dialog == old(self).confirmation_dialog,
            final(self).logs == old(self).logs,
    {
        if present {
            let verdict = match task.kind {
                CheckKind::Trusted => true,
                _ => passed,
            };
            self.cert_tracker.mark_verified(task.cert_type.as_str(), verdict);
        }
    }

    /// Records how the check of the service-account key pair went: both
    /// keys get its verdict.
    pub fn record_service_account_check(&mut self, passed: bool)
        ensures
            final(self).cert_tracker@ == verdict_all(old(self).cert_tracker@, sa_names(), passed),
            old(self).cert_tracker.wf() ==> final(self).cert_tracker.wf(),
            final(self).config == old(self).config,
            final(self).logs == old(self).logs,
    {
        let names = owned(vec!["SA Public Key", "SA Private Key"]);
        assert(texts(names@) =~= sa_names());
        self.cert_tracker.mark_all_verified(&names, passed);
    }

    /// The local checks of the ledger's entries, one for each entry, in order.
    pub fn verify_certificates(&self) -> (tasks: Vec<VerificationTask>)
        ensures
            tasks@.len() == self.cert_tracker@.len(),
            forall|i: int|
                0 <= i < tasks@.len() ==> task_for(#[trigger] tasks@[i], self.cert_tracker@[i]),
    {
        let verifier = crate::verification::CertificateVerifier::new(
            OperationsLogger::new(self.debug),
            self.config.remote_user.clone(),
            self.config.remote_dir.clone(),
            self.config.ssh_key_path.clone(),
        );
        let mut tasks: Vec<VerificationTask> = Vec::new();
        let mut i: usize = 0;
        while i < self.cert_tracker.certificates.len()
            invariant
                i <= self.cert_tracker.certificates@.len(),
                tasks@.len() == i,
                forall|k: int|
                    0 <= k < i ==> task_for(#[trigger] tasks@[k], self.cert_tracker@[k]),
            decreases self.cert_tracker.certificates@.len() - i,
        {
            let entry = &self.cert_tracker.certificates[i];
            assert(self.cert_tracker@[i as int] == entry@);
            let kind = Self::local_check(entry);
            let plan = match kind {
                CheckKind::Trusted => Plan::new(),
                CheckKind::Alone => verifier.verify_certificate(entry.path.as_str(), None),
                CheckKind::Chained => verifier.verify_certificate(
                    entry.path.as_str(),
                    Some("certs/kubernetes-ca/ca-chain.crt"),
                ),
            };
            tasks.push(
                VerificationTask {
                    cert_type: entry.cert_type.clone(),
                    path: entry.path.clone(),
                    kind,
                    plan,
                },
            );
            i += 1;
        }
        tasks
    }

    /// The runbook of every client configuration: those of the control
    /// plane, then one for each worker.
    pub fn generate_all_kubeconfigs(&mut self) -> (plan: Plan)
        ensures
            logged(
                texts(old(self).logs@),
                texts(final(self).logs@),
                seq![operation_line("Generating Kubeconfigs"@)],
            ),
            exists|nodes: Seq<(usize, String)>|
                numbered_workers(nodes, old(self).config@.worker_nodes) && plan@
                    == crate::kubeconfig::control_plane_plan(kubeconfig_settings(*old(self)))
                    + crate::kubeconfig::nodes_plan(
                    kubeconfig_settings(*old(self)),
                    nodes,
                    nodes.len() as int,
                ),
            final(self).kubeconfig_generator matches Some(g) && g@ == kubeconfig_settings(
                *old(self),
            ),
            final(self).cert_tracker == old(self).cert_tracker,
            final(self).config == old(self).config,
    {
        if self.kubeconfig_generator.is_none() {
            self.init_generators();
        }
        self.set_current_operation("Generating Kubeconfigs");
        let nodes = self.worker_positions();
        let mut plan = Plan::new();
        match &self.kubeconfig_generator {
            Some(generator) => {
                plan.extend(generator.generate_all_kubeconfigs());
                plan.extend(generator.generate_node_kubeconfigs(&nodes));
            },
            None => {},
        }
        assert(numbered_workers(nodes@, old(self).config@.worker_nodes));
        plan
    }

    /// The encryption configuration for the key `random`, which must be
    /// the thirty-two bytes that were asked for. Once it is made, it is
    /// filed at `now`; a key of another length is refused and nothing is filed.
    pub fn generate_encryption_config(&mut self, random: &Vec<u8>, now: i64) -> (r: Result<
        crate::kubeconfig::EncryptionConfig,
        crate::error::IoFailure,
    >)
        ensures
            logged(
                texts(old(self).logs@),
                texts(final(self).logs@),
                if random@.len() == crate::kubeconfig::KEY_BYTES {
                    seq![
                        operation_line("Generating Encryption Config"@),
                        "Encryption config generated successfully"@,
                    ]
                } else {
                    seq![operation_line("Generating Encryption Config"@)]
                },
            ),
            random@.len() == crate::kubeconfig::KEY_BYTES ==> (r matches Ok(c)
                && crate::kubeconfig::encrypts_secrets_with(
                c,
                crate::kubeconfig::base64_standard(random@),
            )) && final(self).cert_tracker@ == after_encryption_config(
                old(self).cert_tracker@,
                old(self).config@,
                now as int,
            ),
            random@.len() != crate::kubeconfig::KEY_BYTES ==> (r matches Err(f) && f@
                == crate::kubeconfig::no_key()) && final(self).cert_tracker == old(self).cert_tracker,
            final(self).config == old(self).config,
    {
        if self.encryption_generator.is_none() {
            self.init_generators();
        }
        self.set_current_operation("Generating Encryption Config");
        let ghost opened = texts(self.logs@);
        let made = match &self.encryption_generator {
            Some(generator) => generator.generate_config(random),
            None => Err(
                crate::error::IoFailure::other(String::from_str("Failed to generate random key")),
            ),
        };
        match made {
            Ok(config) => {
                self.record_encryption_config(now);
                self.log("Encryption config generated successfully");
                proof {
                    lemma_logged_then(
                        texts(old(self).logs@),
                        opened,
                        texts(self.logs@),
                        seq![operation_line("Generating Encryption Config"@)],
                        seq!["Encryption config generated successfully"@],
                    );
                    assert(seq![operation_line("Generating Encryption Config"@)] + seq![
                        "Encryption config generated successfully"@,
                    ] =~= seq![
                        operation_line("Generating Encryption Config"@),
                        "Encryption config generated successfully"@,
                    ]);
                }
                Ok(config)
            },
            Err(failure) => Err(failure),
        }
    }
}

/// Where a pane that shows `count` lines in a window of `window` stands
/// after a key, when it stood at `scroll`.
pub open spec fn pane_after(scroll: int, count: int, window: int, key: NavKey) -> int {
    match key {
        NavKey::Up => less(scroll, 1),
        NavKey::Down => if scroll < less(count, window) {
            scroll + 1
        } else {
            scroll
        },
        NavKey::PageUp => less(scroll, 10),
        NavKey::PageDown => at_most(scroll + 10, less(count, window)),
        _ => scroll,
    }
}

fn moved_within(scroll: usize, count: usize, window: usize, key: NavKey) -> (r: usize)
    ensures
        r == pane_after(scroll as int, count as int, window as int, key),
{
    let last = if count > window {
        count - window
    } else {
        0
    };
    match key {
        NavKey::Up => if scroll > 1 {
            scroll - 1
        } else {
            0
        },
        NavKey::Down => if scroll < last {
            scroll + 1
        } else {
            scroll
        },
        NavKey::PageUp => if scroll > 10 {
            scroll - 10
        } else {
            0
        },
        NavKey::PageDown => if scroll < last && last - scroll > 10 {
            scroll + 10
        } else {
            last
        },
        _ => scroll,
    }
}

/// Whether `name` is among `items`.
pub fn listed(items: &Vec<String>, name: &str) -> (r: bool)
    ensures
        r == texts(items@).contains(name@),
{
    let mut i: usize = 0;
    while i < items.len()
        invariant
            i <= items@.len(),
            forall|k: int| 0 <= k < i ==> texts(items@)[k] != name@,
        decreases items@.len() - i,
    {
        if str_eq(items[i].as_str(), name) {
            assert(texts(items@)[i as int] == name@);
            return true;
        }
        i += 1;
    }
    false
}

} // verus!
