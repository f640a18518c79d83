//! The certificates of the cluster's components: what each one asks for.

use vstd::prelude::*;
use vstd::string::*;
use crate::cert_types::{
    alt_views, dns_name, ip_name, owned, AltName, AltNameView, CertificateConfig, CertificateType,
    ClusterEndpoints, ConfigView, KindView,
};
use crate::openssl::making;
use crate::error::{CertOperationError, ErrorView};
use crate::operations::{cert_plan, CertificateOperations};
use crate::steps::{FailureKind, Invocation, Plan, Step, StepView};
use crate::text::{cat, decimal, decimal_digits, texts};

verus! {

/// The days a leaf certificate is valid: a year and ten days of slack.
pub const LEAF_VALIDITY_DAYS: u32 = 375;

/// The size of every RSA key, in bits.
pub const KEY_SIZE: u32 = 2048;

/// The directory of the CA that signs the components' certificates.
pub open spec fn signing_ca_dir() -> Seq<char> {
    "certs/kubernetes-ca"@
}

/// What a leaf certificate may do with its key.
pub open spec fn leaf_usage() -> Seq<Seq<char>> {
    seq!["critical"@, "digitalSignature"@, "keyEncipherment"@]
}

/// The place written into a subject, where one is written.
pub open spec fn place(located: bool) -> Option<Seq<char>> {
    if located {
        Some("Columbia"@)
    } else {
        None
    }
}

/// The country written into a subject, where one is written.
pub open spec fn nation(located: bool) -> Option<Seq<char>> {
    if located {
        Some("US"@)
    } else {
        None
    }
}

/// The request for a leaf certificate.
pub open spec fn leaf(
    kind: KindView,
    common_name: Seq<char>,
    organization: Seq<char>,
    output_dir: Seq<char>,
    alt_names: Seq<AltNameView>,
    extended_key_usage: Seq<Seq<char>>,
    located: bool,
) -> ConfigView {
    ConfigView {
        cert_type: kind,
        common_name,
        organization: Some(organization),
        validity_days: LEAF_VALIDITY_DAYS,
        key_size: KEY_SIZE,
        output_dir,
        alt_names,
        key_usage: leaf_usage(),
        extended_key_usage,
        country: nation(located),
        state: place(located),
        locality: place(located),
    }
}

fn make_leaf(
    kind: CertificateType,
    common_name: String,
    organization: &str,
    output_dir: String,
    alt_names: Vec<AltName>,
    extended_key_usage: Vec<String>,
    located: bool,
) -> (c: CertificateConfig)
    ensures
        c@ == leaf(
            kind@,
            common_name@,
            organization@,
            output_dir@,
            alt_views(alt_names@),
            texts(extended_key_usage@),
            located,
        ),
{
    let key_usage = owned(vec!["critical", "digitalSignature", "keyEncipherment"]);
    assert(texts(key_usage@) =~= leaf_usage());
    CertificateConfig {
        cert_type: kind,
        common_name,
        organization: Some(String::from_str(organization)),
        validity_days: LEAF_VALIDITY_DAYS,
        key_size: KEY_SIZE,
        output_dir,
        alt_names,
        key_usage,
        extended_key_usage,
        country: if located {
            Some(String::from_str("US"))
        } else {
            None
        },
        state: if located {
            Some(String::from_str("Columbia"))
        } else {
            None
        },
        locality: if located {
            Some(String::from_str("Columbia"))
        } else {
            None
        },
    }
}

fn dns(value: &str) -> (r: AltName)
    ensures
        r@ == dns_name(value@),
{
    AltName::dns(String::from_str(value))
}

fn ip(value: &str) -> (r: AltName)
    ensures
        r@ == ip_name(value@),
{
    AltName::ip(String::from_str(value))
}

/// The usage of a certificate that only calls.
pub open spec fn client_only() -> Seq<Seq<char>> {
    seq!["clientAuth"@]
}

/// The usage of a certificate that only serves.
pub open spec fn server_only() -> Seq<Seq<char>> {
    seq!["serverAuth"@]
}

/// The usage of a certificate that calls and serves.
pub open spec fn client_and_server() -> Seq<Seq<char>> {
    seq!["clientAuth"@, "serverAuth"@]
}

/// The usage of a certificate that serves and calls.
pub open spec fn server_and_client() -> Seq<Seq<char>> {
    seq!["serverAuth"@, "clientAuth"@]
}

fn usages(items: Vec<&str>) -> (r: Vec<String>)
    ensures
        texts(r@) == Seq::new(items@.len(), |i: int| items@[i]@),
{
    let r = owned(items);
    assert(texts(r@) =~= Seq::new(items@.len(), |i: int| items@[i]@));
    r
}

/// The API server's request, with the service names of the cluster and the
/// control plane's address.
pub open spec fn api_server_config(control_plane: Seq<char>) -> ConfigView {
    leaf(
        KindView::APIServer,
        "kube-apiserver"@,
        "Kubernetes"@,
        "certs/kube-apiserver"@,
        seq![
            dns_name("kubernetes"@),
            dns_name("kubernetes.default"@),
            dns_name("kubernetes.default.svc"@),
            dns_name("kubernetes.default.svc.cluster.local"@),
            ip_name(control_plane),
        ],
        server_only(),
        false,
    )
}

/// Makes the API server's request.
#[derive(Clone, Debug, PartialEq, Eq)]
pub struct ApiServerCertGenerator {
    pub control_plane: String,
}

impl ApiServerCertGenerator {
    /// A generator for the API server reached at `control_plane`.
    pub fn new(control_plane: String) -> (r: Self)
        ensures
            r.control_plane@ == control_plane@,
    {
        ApiServerCertGenerator { control_plane }
    }

    /// The API server's request.
    pub fn get_config(&self) -> (c: CertificateConfig)
        ensures
            c@ == api_server_config(self.control_plane@),
    {
        let alt_names = vec![
            dns("kubernetes"),
            dns("kubernetes.default"),
            dns("kubernetes.default.svc"),
            dns("kubernetes.default.svc.cluster.local"),
            ip(self.control_plane.as_str()),
        ];
        assert(alt_views(alt_names@) =~= api_server_config(self.control_plane@).alt_names);
        let eku = usages(vec!["serverAuth"]);
        assert(texts(eku@) =~= server_only());
        make_leaf(
            CertificateType::APIServer,
            String::from_str("kube-apiserver"),
            "Kubernetes",
            String::from_str("certs/kube-apiserver"),
            alt_names,
            eku,
            false,
        )
    }
}

/// The kubelet client's request.
pub open spec fn kubelet_client_config(located: bool) -> ConfigView {
    leaf(
        KindView::KubeletClient,
        "kube-apiserver-kubelet-client"@,
        "system:masters"@,
        "certs/kube-apiserver-kubelet-client"@,
        Seq::empty(),
        client_only(),
        located,
    )
}

/// Makes the kubelet client's request.
pub struct KubeletClientCertGenerator;

impl KubeletClientCertGenerator {
    /// The kubelet client's request, without a place in its subject.
    pub fn get_config() -> (c: CertificateConfig)
        ensures
            c@ == kubelet_client_config(false),
    {
        Self::config(false)
    }

    /// The request, with or without a place in its subject.
    pub fn config(located: bool) -> (c: CertificateConfig)
        ensures
            c@ == kubelet_client_config(located),
    {
        let alt_names: Vec<AltName> = Vec::new();
        assert(alt_views(alt_names@) =~= Seq::empty());
        let eku = usages(vec!["clientAuth"]);
        assert(texts(eku@) =~= client_only());
        make_leaf(
            CertificateType::KubeletClient,
            String::from_str("kube-apiserver-kubelet-client"),
            "system:masters",
            String::from_str("certs/kube-apiserver-kubelet-client"),
            alt_names,
            eku,
            located,
        )
    }
}

/// The scheduler's request as a client of the API server.
pub open spec fn scheduler_client_config() -> ConfigView {
    leaf(
        KindView::Scheduler,
        "system:kube-scheduler"@,
        "system:kube-scheduler"@,
        "certs/scheduler"@,
        Seq::empty(),
        client_only(),
        false,
    )
}

/// Makes the scheduler's request.
pub struct SchedulerCertGenerator;

impl SchedulerCertGenerator {
    /// The scheduler's request as a client of the API server.
    pub fn get_config() -> (c: CertificateConfig)
        ensures
            c@ == scheduler_client_config(),
    {
        let alt_names: Vec<AltName> = Vec::new();
        assert(alt_views(alt_names@) =~= Seq::empty());
        let eku = usages(vec!["clientAuth"]);
        assert(texts(eku@) =~= client_only());
        make_leaf(
            CertificateType::Scheduler,
            String::from_str("system:kube-scheduler"),
            "system:kube-scheduler",
            String::from_str("certs/scheduler"),
            alt_names,
            eku,
            false,
        )
    }
}

/// The controller manager's request, for serving and calling.
pub open spec fn controller_config() -> ConfigView {
    leaf(
        KindView::ControllerManager,
        "system:kube-controller-manager"@,
        "system:kube-controller-manager"@,
        "certs/controller-manager"@,
        seq![dns_name("kube-proxy"@), ip_name("127.0.0.1"@)],
        client_and_server(),
        true,
    )
}

/// The scheduler's request, for serving and calling.
pub open spec fn scheduler_config() -> ConfigView {
    leaf(
        KindView::Scheduler,
        "system:kube-scheduler"@,
        "system:kube-scheduler"@,
        "certs/scheduler"@,
        seq![dns_name("kube-scheduler"@), ip_name("127.0.0.1"@)],
        client_and_server(),
        true,
    )
}

/// The API server's request on the control plane: every name and address
/// under which the server is reached.
pub open spec fn apiserver_config(control_plane: Seq<char>) -> ConfigView {
    leaf(
        KindView::APIServer,
        "kube-apiserver"@,
        "kubernetes"@,
        "certs/kube-apiserver"@,
        seq![
            dns_name("localhost"@),
            ip_name("127.0.0.1"@),
            dns_name("control-plane-0"@),
            ip_name(control_plane),
            ip_name("10.96.0.1"@),
            dns_name("kubernetes"@),
            dns_name("kubernetes.default"@),
            dns_name("kubernetes.default.svc"@),
            dns_name("kubernetes.default.svc.cluster"@),
            dns_name("kubernetes.default.svc.cluster.local"@),
        ],
        server_only(),
        true,
    )
}

/// Makes the certificates of the control plane.
pub struct ControllerCertGenerator<'a> {
    pub endpoints: ClusterEndpoints,
    pub cert_ops: &'a CertificateOperations,
}

impl<'a> ControllerCertGenerator<'a> {
    /// A generator for the control plane of `endpoints`.
    pub fn new(endpoints: ClusterEndpoints, cert_ops: &'a CertificateOperations) -> (r: Self)
        ensures
            r.endpoints == endpoints,
            r.cert_ops == cert_ops,
    {
        ControllerCertGenerator { endpoints, cert_ops }
    }

    /// The hosts the control plane's certificates are made for: the
    /// control plane alone.
    fn hosts(&self) -> (r: Vec<String>)
        ensures
            texts(r@) == seq![self.endpoints.control_plane@],
    {
        let r = vec![self.endpoints.control_plane.clone()];
        assert(texts(r@) =~= seq![self.endpoints.control_plane@]);
        r
    }

    /// The runbook that makes the API server's certificate.
    pub fn generate_api_server_cert(&self) -> (plan: Plan)
        ensures
            plan@ == seq![StepView::Log("Generating API Server Certificate"@)] + cert_plan(
                "kube-apiserver"@,
                signing_ca_dir(),
                apiserver_config(self.endpoints.control_plane@),
            ),
    {
        let mut plan = Plan::new();
        plan.push(Step::Log(String::from_str("Generating API Server Certificate")));
        let config = self.get_apiserver_config();
        plan.extend(
            self.cert_ops.generate_cert(
                "kube-apiserver",
                "certs/kubernetes-ca",
                &config,
                &self.hosts(),
            ),
        );
        plan
    }

    /// The runbook that makes the controller manager's certificate.
    pub fn generate_controller_manager_cert(&self) -> (plan: Plan)
        ensures
            plan@ == cert_plan("controller-manager"@, signing_ca_dir(), controller_config()),
    {
        let config = self.get_controller_config();
        self.cert_ops.generate_cert(
            "controller-manager",
            "certs/kubernetes-ca",
            &config,
            &self.hosts(),
        )
    }

    /// The runbook that makes the scheduler's certificate.
    pub fn generate_scheduler_cert(&self) -> (plan: Plan)
        ensures
            plan@ == cert_plan("scheduler"@, signing_ca_dir(), scheduler_config()),
    {
        let config = self.get_scheduler_config();
        self.cert_ops.generate_cert("scheduler", "certs/kubernetes-ca", &config, &self.hosts())
    }

    /// The controller manager's request.
    pub fn get_controller_config(&self) -> (c: CertificateConfig)
        ensures
            c@ == controller_config(),
    {
        let alt_names = vec![dns("kube-proxy"), ip("127.0.0.1")];
        assert(alt_views(alt_names@) =~= controller_config().alt_names);
        let eku = usages(vec!["clientAuth", "serverAuth"]);
        assert(texts(eku@) =~= client_and_server());
        make_leaf(
            CertificateType::ControllerManager,
            String::from_str("system:kube-controller-manager"),
            "system:kube-controller-manager",
            String::from_str("certs/controller-manager"),
            alt_names,
            eku,
            true,
        )
    }

    /// The scheduler's request.
    pub fn get_scheduler_config(&self) -> (c: CertificateConfig)
        ensures
            c@ == scheduler_config(),
    {
        let alt_names = vec![dns("kube-scheduler"), ip("127.0.0.1")];
        assert(alt_views(alt_names@) =~= scheduler_config().alt_names);
        let eku = usages(vec!["clientAuth", "serverAuth"]);
        assert(texts(eku@) =~= client_and_server());
        make_leaf(
            CertificateType::Scheduler,
            String::from_str("system:kube-scheduler"),
            "system:kube-scheduler",
            String::from_str("certs/scheduler"),
            alt_names,
            eku,
            true,
        )
    }

    /// The API server's request on the control plane.
    pub fn get_apiserver_config(&self) -> (c: CertificateConfig)
        ensures
            c@ == apiserver_config(self.endpoints.control_plane@),
    {
        let alt_names = vec![
            dns("localhost"),
            ip("127.0.0.1"),
            dns("control-plane-0"),
            ip(self.endpoints.control_plane.as_str()),
            ip("10.96.0.1"),
            dns("kubernetes"),
            dns("kubernetes.default"),
            dns("kubernetes.default.svc"),
            dns("kubernetes.default.svc.cluster"),
            dns("kubernetes.default.svc.cluster.local"),
        ];
        assert(alt_views(alt_names@) =~= apiserver_config(
            self.endpoints.control_plane@,
        ).alt_names);
        let eku = usages(vec!["serverAuth"]);
        assert(texts(eku@) =~= server_only());
        make_leaf(
            CertificateType::APIServer,
            String::from_str("kube-apiserver"),
            "kubernetes",
            String::from_str("certs/kube-apiserver"),
            alt_names,
            eku,
            true,
        )
    }
}

/// The controller manager's request as a client of the API server.
pub open spec fn controller_client_config() -> ConfigView {
    leaf(
        KindView::ControllerManager,
        "system:kube-controller-manager"@,
        "system:kube-controller-manager"@,
        "certs/controller-manager"@,
        Seq::empty(),
        client_only(),
        true,
    )
}

/// The runbook that makes the controller manager's client certificate.
pub open spec fn controller_client_plan() -> Seq<StepView> {
    seq![StepView::Log("Generating Controller Manager certificate"@)] + cert_plan(
        "controller-manager"@,
        signing_ca_dir(),
        controller_client_config(),
    ) + seq![StepView::Log("Controller Manager certificate generated successfully"@)]
}

/// Makes the controller manager's client certificate.
pub struct ControllerManagerGenerator<'a> {
    pub cert_ops: &'a CertificateOperations,
}

impl<'a> ControllerManagerGenerator<'a> {
    /// A generator that works through `cert_ops`.
    pub fn new(cert_ops: &'a CertificateOperations) -> (r: Self)
        ensures
            r.cert_ops == cert_ops,
    {
        ControllerManagerGenerator { cert_ops }
    }

    /// The runbook that makes the controller manager's client certificate.
    pub fn generate_certificate(&self, control_plane: &str) -> (plan: Plan)
        ensures
            plan@ == controller_client_plan(),
    {
        let alt_names: Vec<AltName> = Vec::new();
        assert(alt_views(alt_names@) =~= Seq::empty());
        let eku = usages(vec!["clientAuth"]);
        assert(texts(eku@) =~= client_only());
        let config = make_leaf(
            CertificateType::ControllerManager,
            String::from_str("system:kube-controller-manager"),
            "system:kube-controller-manager",
            String::from_str("certs/controller-manager"),
            alt_names,
            eku,
            true,
        );
        let mut plan = Plan::new();
        plan.push(Step::Log(String::from_str("Generating Controller Manager certificate")));
        plan.extend(
            self.cert_ops.generate_cert(
                "controller-manager",
                "certs/kubernetes-ca",
                &config,
                &vec![String::from_str(control_plane)],
            ),
        );
        plan.push(
            Step::Log(String::from_str("Controller Manager certificate generated successfully")),
        );
        plan
    }
}

/// The name of the worker node at position `index`, counted from 0: nodes
/// are numbered from 1.
pub open spec fn node_name(index: nat) -> Seq<char> {
    "node-"@ + decimal_digits(index + 1)
}

/// A worker node's request: its address as a name and as an address, its
/// numbered name alone and inside the cluster domain, and the loopback.
pub open spec fn node_config(name: Seq<char>, address: Seq<char>, index: nat) -> ConfigView {
    leaf(
        KindView::Node(name),
        "system:node:"@ + name,
        "system:nodes"@,
        "certs/"@ + name,
        seq![
            dns_name(address),
            ip_name(address),
            dns_name(node_name(index)),
            dns_name(node_name(index) + ".cluster.local"@),
            ip_name("127.0.0.1"@),
        ],
        server_and_client(),
        true,
    )
}

/// The runbook that makes one worker node's certificate.
pub open spec fn node_plan(name: Seq<char>, address: Seq<char>, index: nat) -> Seq<StepView> {
    seq![StepView::Log("Generating certificate for "@ + name)] + cert_plan(
        name,
        signing_ca_dir(),
        node_config(name, address, index),
    )
}

/// The runbooks of the worker nodes' certificates, one for each node.
pub open spec fn node_plans(nodes: Seq<(usize, String)>) -> Seq<Seq<StepView>> {
    Seq::new(
        nodes.len(),
        |i: int| node_plan(node_name(nodes[i].0 as nat), nodes[i].1@, nodes[i].0 as nat),
    )
}

/// The views of a sequence of runbooks.
pub open spec fn plan_views(plans: Seq<Plan>) -> Seq<Seq<StepView>> {
    Seq::new(plans.len(), |i: int| plans[i]@)
}

/// The views of the outcomes of a sequence of runbooks.
pub open spec fn outcome_views(outcomes: Seq<Result<(), CertOperationError>>) -> Seq<
    Option<ErrorView>,
> {
    Seq::new(
        outcomes.len(),
        |i: int|
            match outcomes[i] {
                Ok(_) => None,
                Err(e) => Some(e@),
            },
    )
}

/// The first failure among the outcomes, if there is one.
pub open spec fn first_failure(outcomes: Seq<Option<ErrorView>>) -> Option<ErrorView>
    decreases outcomes.len(),
{
    if outcomes.len() == 0 {
        None
    } else {
        match outcomes[0] {
            Some(e) => Some(e),
            None => first_failure(outcomes.skip(1)),
        }
    }
}

/// The error reported when a node's runbook was not run.
pub open spec fn not_generated() -> ErrorView {
    ErrorView::CertGeneration("A node certificate was not generated"@)
}

/// The result of making the certificates of `count` nodes, given the
/// outcomes of their runbooks: the first failure, if any runbook failed;
/// an error too where a runbook was not run; success only when every node
/// has its certificate.
pub open spec fn nodes_result(count: nat, outcomes: Seq<Option<ErrorView>>) -> Result<
    (),
    ErrorView,
> {
    match first_failure(outcomes) {
        Some(e) => Err(e),
        None => if outcomes.len() < count {
            Err(not_generated())
        } else {
            Ok(())
        },
    }
}

/// The result is good only when a runbook was run for every node and none failed.
pub proof fn lemma_nodes_result(count: nat, outcomes: Seq<Option<ErrorView>>)
    ensures
        nodes_result(count, outcomes) is Ok <==> outcomes.len() >= count && forall|i: int|
            0 <= i < outcomes.len() ==> outcomes[i] is None,
{
    lemma_first_failure(outcomes);
}

/// There is no first failure exactly when nothing failed.
pub proof fn lemma_first_failure(outcomes: Seq<Option<ErrorView>>)
    ensures
        first_failure(outcomes) is None <==> forall|i: int|
            0 <= i < outcomes.len() ==> outcomes[i] is None,
    decreases outcomes.len(),
{
    if outcomes.len() > 0 {
        let rest = outcomes.skip(1);
        lemma_first_failure(rest);
        if outcomes[0] is None {
            if first_failure(rest) is None {
                assert forall|i: int| 0 <= i < outcomes.len() implies outcomes[i] is None by {
                    if i > 0 {
                        assert(outcomes[i] == rest[i - 1]);
                    }
                }
            } else {
                let w = choose|w: int| 0 <= w < rest.len() && !(rest[w] is None);
                assert(outcomes[w + 1] == rest[w]);
            }
        }
    }
}

/// Makes the certificates of the worker nodes.
pub struct NodeCertGenerator<'a> {
    pub cert_ops: &'a CertificateOperations,
}

/// The name of the worker node at position `index`.
pub fn node_name_of(index: usize) -> (r: String)
    ensures
        r@ == node_name(index as nat),
{
    let number = decimal(index as u128 + 1);
    cat("node-", number.as_str())
}

impl<'a> NodeCertGenerator<'a> {
    /// A generator that works through `cert_ops`.
    pub fn new(cert_ops: &'a CertificateOperations) -> (r: Self)
        ensures
            r.cert_ops == cert_ops,
    {
        NodeCertGenerator { cert_ops }
    }

    /// One runbook for each of `nodes`, given as position and address. Each
    /// runbook is run on its own; `settle` combines their outcomes.
    pub fn generate_node_certificates(&self, nodes: &Vec<(usize, String)>) -> (plans: Vec<Plan>)
        ensures
            plan_views(plans@) == node_plans(nodes@),
    {
        let mut plans: Vec<Plan> = Vec::new();
        let mut i: usize = 0;
        while i < nodes.len()
            invariant
                i <= nodes.len(),
                plans.len() == i,
                forall|k: int|
                    0 <= k < i ==> (#[trigger] plans@[k])@ == node_plan(
                        node_name(nodes@[k].0 as nat),
                        nodes@[k].1@,
                        nodes@[k].0 as nat,
                    ),
            decreases nodes.len() - i,
        {
            let name = node_name_of(nodes[i].0);
            let address = nodes[i].1.as_str();
            plans.push(self.generate_node_certificate(name.as_str(), address, nodes[i].0));
            i += 1;
        }
        assert(plan_views(plans@) =~= node_plans(nodes@));
        plans
    }

    /// The result of making the certificates of `count` nodes from the
    /// outcomes of their runbooks, in order: the first failure where a
    /// runbook failed, and success only when every node has its certificate.
    pub fn settle(count: usize, outcomes: &Vec<Result<(), CertOperationError>>) -> (r: Result<
        (),
        CertOperationError,
    >)
        ensures
            match r {
                Ok(_) => nodes_result(count as nat, outcome_views(outcomes@)) is Ok,
                Err(e) => nodes_result(count as nat, outcome_views(outcomes@)) == Err::<
                    (),
                    ErrorView,
                >(e@),
            },
    {
        let ghost views = outcome_views(outcomes@);
        let mut i: usize = 0;
        assert(views.skip(0) =~= views);
        while i < outcomes.len()
            invariant
                i <= outcomes@.len(),
                views == outcome_views(outcomes@),
                first_failure(views) == first_failure(views.skip(i as int)),
            decreases outcomes@.len() - i,
        {
            proof {
                assert(views.skip(i as int)[0] == views[i as int]);
                assert(views.skip(i as int).skip(1) =~= views.skip(i + 1));
            }
            match &outcomes[i] {
                Ok(_) => {},
                Err(e) => {
                    return Err(e.duplicate());
                },
            }
            i += 1;
        }
        if outcomes.len() < count {
            Err(
                CertOperationError::CertGeneration(
                    String::from_str("A node certificate was not generated"),
                ),
            )
        } else {
            Ok(())
        }
    }

    /// The runbook that makes the certificate of the node `node_name`,
    /// reached at `node`, which stands at position `index`.
    pub fn generate_node_certificate(&self, node_name: &str, node: &str, index: usize) -> (plan:
        Plan)
        ensures
            plan@ == node_plan(node_name@, node@, index as nat),
    {
        let numbered = node_name_of(index);
        let alt_names = vec![
            dns(node),
            ip(node),
            dns(numbered.as_str()),
            AltName::dns(cat(numbered.as_str(), ".cluster.local")),
            ip("127.0.0.1"),
        ];
        assert(alt_views(alt_names@) =~= node_config(node_name@, node@, index as nat).alt_names);
        let eku = usages(vec!["serverAuth", "clientAuth"]);
        assert(texts(eku@) =~= server_and_client());
        let config = make_leaf(
            CertificateType::Node(String::from_str(node_name)),
            cat("system:node:", node_name),
            "system:nodes",
            cat("certs/", node_name),
            alt_names,
            eku,
            true,
        );
        let mut plan = Plan::new();
        plan.push(Step::Log(cat("Generating certificate for ", node_name)));
        plan.extend(
            self.cert_ops.generate_cert(
                node_name,
                "certs/kubernetes-ca",
                &config,
                &vec![String::from_str(node)],
            ),
        );
        plan
    }
}

/// The private key of the service account kept in `dir`.
pub open spec fn sa_key(dir: Seq<char>) -> Seq<char> {
    dir + "/sa.key"@
}

/// The public key of the service account kept in `dir`.
pub open spec fn sa_pub(dir: Seq<char>) -> Seq<char> {
    dir + "/sa.pub"@
}

/// The run that makes the private key.
pub open spec fn sa_private_step(dir: Seq<char>) -> StepView {
    making(
        seq![
            "genpkey"@,
            "-algorithm"@,
            "RSA"@,
            "-out"@,
            sa_key(dir),
            "-pkeyopt"@,
            "rsa_keygen_bits:2048"@,
        ],
        None,
        "Failed to generate SA private key"@,
    )
}

/// The run that derives the public key from the private one.
pub open spec fn sa_public_step(dir: Seq<char>) -> StepView {
    making(
        seq!["rsa"@, "-in"@, sa_key(dir), "-pubout"@, "-out"@, sa_pub(dir)],
        None,
        "Failed to generate SA public key"@,
    )
}

/// The runbook of the service-account key pair: a key pair and nothing
/// else, with no request and no signature.
pub open spec fn sa_plan(dir: Seq<char>) -> Seq<StepView> {
    seq![
        StepView::Log("Generating service account key pair"@),
        StepView::CreateDir(dir),
        sa_private_step(dir),
        sa_public_step(dir),
        StepView::Log("Service account keys generated successfully"@),
    ]
}

/// The runbook that checks the private key and that a public key can be derived from it.
pub open spec fn sa_check_plan(dir: Seq<char>) -> Seq<StepView> {
    seq![
        StepView::Run {
            command: crate::openssl::openssl(seq!["rsa"@, "-check"@, "-in"@, sa_key(dir)]),
            capture: None,
            cleanup: None,
            kind: FailureKind::Verification,
            context: "Service account private key verification failed"@,
        },
        StepView::Run {
            command: crate::openssl::openssl(
                seq!["rsa"@, "-in"@, sa_key(dir), "-pubout"@, "-outform"@, "PEM"@],
            ),
            capture: None,
            cleanup: None,
            kind: FailureKind::Verification,
            context: "Service account key pair verification failed"@,
        },
    ]
}

/// Makes the key pair that signs service-account tokens.
pub struct ServiceAccountGenerator<'a> {
    pub output_dir: String,
    pub cert_ops: &'a CertificateOperations,
}

fn tool_step(args: Vec<String>, kind: FailureKind, context: &str) -> (r: Step)
    ensures
        r@ == (StepView::Run {
            command: crate::openssl::openssl(texts(args@)),
            capture: None,
            cleanup: None,
            kind,
            context: context@,
        }),
{
    Step::Run {
        command: Invocation::new("openssl", args),
        capture: None,
        cleanup: None,
        kind,
        context: String::from_str(context),
    }
}

impl<'a> ServiceAccountGenerator<'a> {
    /// A generator for the key pair kept in `output_dir`.
    pub fn new(output_dir: String, cert_ops: &'a CertificateOperations) -> (r: Self)
        ensures
            r.output_dir@ == output_dir@,
            r.cert_ops == cert_ops,
    {
        ServiceAccountGenerator { output_dir, cert_ops }
    }

    /// The runbook that makes the key pair.
    pub fn generate_service_account_keys(&self) -> (plan: Plan)
        ensures
            plan@ == sa_plan(self.output_dir@),
    {
        let mut plan = Plan::new();
        plan.push(Step::Log(String::from_str("Generating service account key pair")));
        plan.push(Step::CreateDir(self.output_dir.clone()));
        plan.push(self.generate_private_key());
        plan.push(self.generate_public_key());
        plan.push(Step::Log(String::from_str("Service account keys generated successfully")));
        assert(plan@ =~= sa_plan(self.output_dir@));
        plan
    }

    /// The run that makes the private key.
    pub fn generate_private_key(&self) -> (step: Step)
        ensures
            step@ == sa_private_step(self.output_dir@),
    {
        let key = cat(self.output_dir.as_str(), "/sa.key");
        let args = owned(
            vec![
                "genpkey",
                "-algorithm",
                "RSA",
                "-out",
                key.as_str(),
                "-pkeyopt",
                "rsa_keygen_bits:2048",
            ],
        );
        assert(texts(args@) =~= seq![
            "genpkey"@,
            "-algorithm"@,
            "RSA"@,
            "-out"@,
            sa_key(self.output_dir@),
            "-pkeyopt"@,
            "rsa_keygen_bits:2048"@,
        ]);
        tool_step(args, FailureKind::CertGeneration, "Failed to generate SA private key")
    }

    /// The run that derives the public key from the private one.
    pub fn generate_public_key(&self) -> (step: Step)
        ensures
            step@ == sa_public_step(self.output_dir@),
    {
        let key = cat(self.output_dir.as_str(), "/sa.key");
        let public = cat(self.output_dir.as_str(), "/sa.pub");
        let args = owned(vec!["rsa", "-in", key.as_str(), "-pubout", "-out", public.as_str()]);
        assert(texts(args@) =~= seq![
            "rsa"@,
            "-in"@,
            sa_key(self.output_dir@),
            "-pubout"@,
            "-out"@,
            sa_pub(self.output_dir@),
        ]);
        tool_step(args, FailureKind::CertGeneration, "Failed to generate SA public key")
    }

    /// The runbook that checks the key pair.
    pub fn verify_keypair(&self) -> (plan: Plan)
        ensures
            plan@ == sa_check_plan(self.output_dir@),
    {
        let key = cat(self.output_dir.as_str(), "/sa.key");
        let check = owned(vec!["rsa", "-check", "-in", key.as_str()]);
        assert(texts(check@) =~= seq!["rsa"@, "-check"@, "-in"@, sa_key(self.output_dir@)]);
        let derive = owned(vec!["rsa", "-in", key.as_str(), "-pubout", "-outform", "PEM"]);
        assert(texts(derive@) =~= seq![
            "rsa"@,
            "-in"@,
            sa_key(self.output_dir@),
            "-pubout"@,
            "-outform"@,
            "PEM"@,
        ]);
        let mut plan = Plan::new();
        plan.push(
            tool_step(
                check,
                FailureKind::Verification,
                "Service account private key verification failed",
            ),
        );
        plan.push(
            tool_step(
                derive,
                FailureKind::Verification,
                "Service account key pair verification failed",
            ),
        );
        assert(plan@ =~= sa_check_plan(self.output_dir@));
        plan
    }
}

} // verus!
