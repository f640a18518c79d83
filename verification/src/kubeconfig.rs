//! Client configurations and the encryption configuration of the API server.

use vstd::prelude::*;
use vstd::string::*;
use crate::cert_types::owned;
use crate::error::{IoFailure, IoFailureView, IoKind};
use crate::generators::{node_name, node_name_of};
use crate::steps::{Invocation, InvocationView, Plan, Step, StepView};
use crate::text::{cat, cat3, decimal, decimal_digits, texts};

verus! {

/// Makes client configurations with kubectl.
#[derive(Clone, Debug, PartialEq, Eq)]
pub struct KubeConfigGenerator {
    pub control_plane_ip: String,
    pub output_dir: String,
    pub ca_path: String,
}

/// The fixed settings of the generator.
pub struct KubeConfigView {
    pub control_plane_ip: Seq<char>,
    pub output_dir: Seq<char>,
    pub ca_path: Seq<char>,
}

impl View for KubeConfigGenerator {
    type V = KubeConfigView;

    open spec fn view(&self) -> KubeConfigView {
        KubeConfigView {
            control_plane_ip: self.control_plane_ip@,
            output_dir: self.output_dir@,
            ca_path: self.ca_path@,
        }
    }
}

/// The file of the configuration called `name`.
pub open spec fn config_file(g: KubeConfigView, name: Seq<char>) -> Seq<char> {
    g.output_dir + "/"@ + name + ".conf"@
}

/// The address of the API server.
pub open spec fn api_server(g: KubeConfigView) -> Seq<char> {
    "https://"@ + g.control_plane_ip + ":6443"@
}

/// A run of kubectl whose refusal is passed over.
pub open spec fn kubectl(args: Seq<Seq<char>>) -> StepView {
    StepView::Attempt {
        command: InvocationView { program: "kubectl"@, args },
        skip: 0,
        notice: "kubectl reported a failure"@,
    }
}

/// The runbook that writes the configuration `name` for the credential
/// `credential`: the cluster, the credential, the context, and the choice
/// of that context.
pub open spec fn kubeconfig_plan(g: KubeConfigView, name: Seq<char>, credential: Seq<char>) -> Seq<
    StepView,
> {
    let file = "--kubeconfig="@ + config_file(g, name);
    seq![
        kubectl(
            seq![
                "config"@,
                "set-cluster"@,
                "default-cluster"@,
                file,
                "--server="@ + api_server(g),
                "--certificate-authority="@ + g.ca_path,
                "--embed-certs=true"@,
            ],
        ),
        kubectl(
            seq![
                "config"@,
                "set-credentials"@,
                credential,
                file,
                "--client-certificate="@ + name + "/"@ + name + ".crt"@,
                "--client-key="@ + name + "/"@ + name + ".key"@,
                "--embed-certs=true"@,
            ],
        ),
        kubectl(
            seq![
                "config"@,
                "set-context"@,
                "default-system"@,
                file,
                "--cluster=default-cluster"@,
                "--user="@ + credential,
            ],
        ),
        kubectl(seq!["config"@, "use-context"@, "default-system"@, file]),
    ]
}

/// The runbook of the three configurations of the control plane.
pub open spec fn control_plane_plan(g: KubeConfigView) -> Seq<StepView> {
    seq![StepView::CreateDir(g.output_dir)] + kubeconfig_plan(g, "admin"@, "default-admin"@)
        + kubeconfig_plan(g, "controller-manager"@, "system:kube-controller-manager"@)
        + kubeconfig_plan(g, "scheduler"@, "system:kube-scheduler"@)
}

/// The credential of the worker node at position `index`.
pub open spec fn node_credential(index: nat) -> Seq<char> {
    "system:node:worker-node-"@ + decimal_digits(index + 1)
}

/// The runbook of the configurations of the first `n` of `nodes`.
pub open spec fn nodes_plan(g: KubeConfigView, nodes: Seq<(usize, String)>, n: int) -> Seq<StepView>
    decreases n,
{
    if n <= 0 {
        Seq::empty()
    } else {
        nodes_plan(g, nodes, n - 1) + kubeconfig_plan(
            g,
            node_name(nodes[n - 1].0 as nat),
            node_credential(nodes[n - 1].0 as nat),
        )
    }
}

fn kubectl_step(args: Vec<String>) -> (r: Step)
    ensures
        r@ == kubectl(texts(args@)),
{
    Step::Attempt {
        command: Invocation::new("kubectl", args),
        skip: 0,
        notice: String::from_str("kubectl reported a failure"),
    }
}

impl KubeConfigGenerator {
    /// A generator for the cluster whose API server is reached at
    /// `control_plane_ip`.
    pub fn new(control_plane_ip: String, output_dir: String, ca_path: String) -> (r: Self)
        ensures
            r@ == (KubeConfigView {
                control_plane_ip: control_plane_ip@,
                output_dir: output_dir@,
                ca_path: ca_path@,
            }),
    {
        KubeConfigGenerator { control_plane_ip, output_dir, ca_path }
    }

    /// The runbook of the configurations of the control plane.
    pub fn generate_all_kubeconfigs(&self) -> (plan: Plan)
        ensures
            plan@ == control_plane_plan(self@),
    {
        let mut plan = Plan::new();
        plan.push(Step::CreateDir(self.output_dir.clone()));
        plan.extend(self.generate_kubeconfig("admin", "default-admin"));
        plan.extend(
            self.generate_kubeconfig("controller-manager", "system:kube-controller-manager"),
        );
        plan.extend(self.generate_kubeconfig("scheduler", "system:kube-scheduler"));
        plan
    }

    /// The runbook of the worker nodes' configurations, the nodes given as
    /// position and address.
    pub fn generate_node_kubeconfigs(&self, node_indices: &Vec<(usize, String)>) -> (plan: Plan)
        ensures
            plan@ == nodes_plan(self@, node_indices@, node_indices@.len() as int),
    {
        let mut plan = Plan::new();
        let mut i: usize = 0;
        while i < node_indices.len()
            invariant
                i <= node_indices@.len(),
                plan@ == nodes_plan(self@, node_indices@, i as int),
            decreases node_indices@.len() - i,
        {
            let index = node_indices[i].0;
            let name = node_name_of(index);
            let number = decimal(index as u128 + 1);
            let credential = cat("system:node:worker-node-", number.as_str());
            plan.extend(self.generate_kubeconfig(name.as_str(), credential.as_str()));
            i += 1;
        }
        plan
    }

    /// The runbook that writes the configuration `config_name` for
    /// `credential_name`.
    pub fn generate_kubeconfig(&self, config_name: &str, credential_name: &str) -> (plan: Plan)
        ensures
            plan@ == kubeconfig_plan(self@, config_name@, credential_name@),
    {
        let path = String::from_str(self.output_dir.as_str()).concat("/").concat(
            config_name,
        ).concat(".conf");
        let file = cat("--kubeconfig=", path.as_str());
        let address = cat3("https://", self.control_plane_ip.as_str(), ":6443");
        let server = cat("--server=", address.as_str());
        let authority = cat("--certificate-authority=", self.ca_path.as_str());
        let certificate = String::from_str("--client-certificate=").concat(config_name).concat(
            "/",
        ).concat(config_name).concat(".crt");
        let key = String::from_str("--client-key=").concat(config_name).concat("/").concat(
            config_name,
        ).concat(".key");
        let user = cat("--user=", credential_name);
        let ghost want = kubeconfig_plan(self@, config_name@, credential_name@);
        let cluster = owned(
            vec![
                "config",
                "set-cluster",
                "default-cluster",
                file.as_str(),
                server.as_str(),
                authority.as_str(),
                "--embed-certs=true",
            ],
        );
        assert(texts(cluster@) =~= want[0]->Attempt_command.args);
        let credentials = owned(
            vec![
                "config",
                "set-credentials",
                credential_name,
                file.as_str(),
                certificate.as_str(),
                key.as_str(),
                "--embed-certs=true",
            ],
        );
        assert(texts(credentials@) =~= want[1]->Attempt_command.args);
        let context = owned(
            vec![
                "config",
                "set-context",
                "default-system",
                file.as_str(),
                "--cluster=default-cluster",
                user.as_str(),
            ],
        );
        assert(texts(context@) =~= want[2]->Attempt_command.args);
        let choice = owned(vec!["config", "use-context", "default-system", file.as_str()]);
        assert(texts(choice@) =~= want[3]->Attempt_command.args);
        let mut plan = Plan::new();
        plan.push(kubectl_step(cluster));
        plan.push(kubectl_step(credentials));
        plan.push(kubectl_step(context));
        plan.push(kubectl_step(choice));
        assert(plan@ =~= want);
        plan
    }
}

/// A named secret.
#[derive(Clone, Debug, PartialEq, Eq)]
pub struct Key {
    pub name: String,
    pub secret: String,
}

/// The keys of the AES-CBC provider.
#[derive(Clone, Debug, PartialEq, Eq)]
pub struct AESCBCConfig {
    pub keys: Vec<Key>,
}

/// The provider that stores as is.
#[derive(Clone, Copy, Debug, PartialEq, Eq, Structural)]
pub struct IdentityConfig;

/// One way of storing a resource.
#[derive(Clone, Debug, PartialEq, Eq)]
pub struct Provider {
    pub aescbc: Option<AESCBCConfig>,
    pub identity: Option<IdentityConfig>,
}

/// The resources and the providers that store them, the first provider writing.
#[derive(Clone, Debug, PartialEq, Eq)]
pub struct ResourceConfig {
    pub resources: Vec<String>,
    pub providers: Vec<Provider>,
}

/// The encryption configuration of the API server.
#[derive(Clone, Debug, PartialEq, Eq)]
pub struct EncryptionConfig {
    pub kind: String,
    pub api_version: String,
    pub resources: Vec<ResourceConfig>,
}

/// The configuration encrypts secrets with the one key `secret`, which is
/// called `key1`, and reads what was stored before encryption as it is.
pub open spec fn encrypts_secrets_with(c: EncryptionConfig, secret: Seq<char>) -> bool {
    &&& c.kind@ == "EncryptionConfig"@
    &&& c.api_version@ == "v1"@
    &&& c.resources@.len() == 1
    &&& texts(c.resources@[0].resources@) == seq!["secrets"@]
    &&& c.resources@[0].providers@.len() == 2
    &&& c.resources@[0].providers@[0].identity is None
    &&& c.resources@[0].providers@[0].aescbc matches Some(aes) && aes.keys@.len() == 1
        && aes.keys@[0].name@ == "key1"@ && aes.keys@[0].secret@ == secret
    &&& c.resources@[0].providers@[1].aescbc is None
    &&& c.resources@[0].providers@[1].identity is Some
}

/// The base64 text of a byte string in the standard alphabet with padding.
pub uninterp spec fn base64_standard(data: Seq<u8>) -> Seq<char>;

/// The number of bytes of the encryption key.
pub const KEY_BYTES: usize = 32;

/// `base64::engine::general_purpose::STANDARD.encode`. The call panics when
/// the length of its result does not fit the machine's word; such inputs
/// are left out.
#[verifier::external_body]
fn base64_encode(data: &[u8]) -> (r: String)
    requires
        data@.len() / 3 * 4 + 4 <= usize::MAX,
    ensures
        r@ == base64_standard(data@),
{
    base64::Engine::encode(&base64::engine::general_purpose::STANDARD, data)
}

/// Makes the encryption configuration.
#[derive(Clone, Debug, PartialEq, Eq)]
pub struct EncryptionConfigGenerator {
    pub output_path: String,
}

/// The command that draws `length` random bytes.
pub open spec fn random_command(length: nat) -> InvocationView {
    InvocationView {
        program: "head"@,
        args: seq!["-c"@, decimal_digits(length), "/dev/urandom"@],
    }
}

/// The failure reported when no key could be drawn.
pub open spec fn no_key() -> IoFailureView {
    IoFailureView { kind: IoKind::Other, message: "Failed to generate random key"@ }
}

impl EncryptionConfigGenerator {
    /// A generator that writes to `output_path`.
    pub fn new(output_path: String) -> (r: Self)
        ensures
            r.output_path@ == output_path@,
    {
        EncryptionConfigGenerator { output_path }
    }

    /// The command that draws the random bytes of a key.
    pub fn generate_random_key(&self, length: usize) -> (r: Invocation)
        ensures
            r@ == random_command(length as nat),
    {
        let count = decimal(length as u128);
        let args = owned(vec!["-c", count.as_str(), "/dev/urandom"]);
        assert(texts(args@) =~= random_command(length as nat).args);
        Invocation::new("head", args)
    }

    /// The encryption configuration whose key is `random`, which must be
    /// the thirty-two bytes that were asked for; anything else is refused.
    pub fn generate_config(&self, random: &Vec<u8>) -> (r: Result<EncryptionConfig, IoFailure>)
        ensures
            random@.len() == KEY_BYTES ==> (r matches Ok(c) && encrypts_secrets_with(
                c,
                base64_standard(random@),
            )),
            random@.len() != KEY_BYTES ==> (r matches Err(f) && f@ == no_key()),
    {
        if random.len() != KEY_BYTES {
            return Err(IoFailure::other(String::from_str("Failed to generate random key")));
        }
        let secret = base64_encode(random.as_slice());
        let resources = vec![String::from_str("secrets")];
        assert(texts(resources@) =~= seq!["secrets"@]);
        Ok(
            EncryptionConfig {
                kind: String::from_str("EncryptionConfig"),
                api_version: String::from_str("v1"),
                resources: vec![
                    ResourceConfig {
                        resources,
                        providers: vec![
                            Provider {
                                aescbc: Some(
                                    AESCBCConfig {
                                        keys: vec![Key { name: String::from_str("key1"), secret }],
                                    },
                                ),
                                identity: None,
                            },
                            Provider { aescbc: None, identity: Some(IdentityConfig) },
                        ],
                    },
                ],
            },
        )
    }
}

/// A cluster named in a client configuration.
#[derive(Clone, Debug, PartialEq, Eq)]
pub struct ClusterConfig {
    pub name: String,
    pub server: String,
    pub certificate_authority: Option<String>,
}

/// A user named in a client configuration.
#[derive(Clone, Debug, PartialEq, Eq)]
pub struct UserConfig {
    pub name: String,
    pub client_certificate: Option<String>,
    pub client_key: Option<String>,
}

/// A context named in a client configuration.
#[derive(Clone, Debug, PartialEq, Eq)]
pub struct ContextConfig {
    pub name: String,
    pub cluster: String,
    pub user: String,
}

/// What an imported client configuration names.
#[derive(Clone, Debug, PartialEq, Eq)]
pub struct KubeConfig {
    pub clusters: Vec<ClusterConfig>,
    pub users: Vec<UserConfig>,
    pub contexts: Vec<ContextConfig>,
}

/// A cluster entry as it stands in the file, each field there or not.
#[derive(Clone, Debug, PartialEq, Eq)]
pub struct RawCluster {
    pub name: Option<String>,
    pub server: Option<String>,
    pub certificate_authority: Option<String>,
}

/// A user entry as it stands in the file.
#[derive(Clone, Debug, PartialEq, Eq)]
pub struct RawUser {
    pub name: Option<String>,
    pub client_certificate: Option<String>,
    pub client_key: Option<String>,
}

/// A context entry as it stands in the file.
#[derive(Clone, Debug, PartialEq, Eq)]
pub struct RawContext {
    pub name: Option<String>,
    pub cluster: Option<String>,
    pub user: Option<String>,
}

/// The cluster entry has what a cluster must have: a name and a server.
pub open spec fn cluster_complete(c: RawCluster) -> bool {
    c.name is Some && c.server is Some
}

/// The user entry has a name.
pub open spec fn user_complete(u: RawUser) -> bool {
    u.name is Some
}

/// The context entry has a name, a cluster and a user.
pub open spec fn context_complete(c: RawContext) -> bool {
    c.name is Some && c.cluster is Some && c.user is Some
}

/// The complete entries among `raw`, in order.
pub open spec fn complete_clusters(raw: Seq<RawCluster>) -> Seq<RawCluster> {
    raw.filter(|c: RawCluster| cluster_complete(c))
}

/// The user entries that have a name, in order.
pub open spec fn complete_users(raw: Seq<RawUser>) -> Seq<RawUser> {
    raw.filter(|u: RawUser| user_complete(u))
}

/// The complete context entries, in order.
pub open spec fn complete_contexts(raw: Seq<RawContext>) -> Seq<RawContext> {
    raw.filter(|c: RawContext| context_complete(c))
}

/// The cluster is what the entry says.
pub open spec fn same_cluster(c: ClusterConfig, raw: RawCluster) -> bool {
    raw.name == Some(c.name) && raw.server == Some(c.server) && raw.certificate_authority
        == c.certificate_authority
}

/// The user is what the entry says.
pub open spec fn same_user(u: UserConfig, raw: RawUser) -> bool {
    raw.name == Some(u.name) && raw.client_certificate == u.client_certificate && raw.client_key
        == u.client_key
}

/// The context is what the entry says.
pub open spec fn same_context(c: ContextConfig, raw: RawContext) -> bool {
    raw.name == Some(c.name) && raw.cluster == Some(c.cluster) && raw.user == Some(c.user)
}

fn clone_opt(o: &Option<String>) -> (r: Option<String>)
    ensures
        r == *o,
{
    match o {
        Some(s) => Some(s.clone()),
        None => None,
    }
}

/// The clusters among the entries of a file: an entry without a name or
/// without a server is passed over.
pub fn extract_clusters(raw: &Vec<RawCluster>) -> (r: Vec<ClusterConfig>)
    ensures
        r@.len() == complete_clusters(raw@).len(),
        forall|i: int|
            0 <= i < r@.len() ==> same_cluster(#[trigger] r@[i], complete_clusters(raw@)[i]),
{
    let mut out: Vec<ClusterConfig> = Vec::new();
    let mut n: usize = 0;
    assert(complete_clusters(raw@.take(0)) =~= Seq::empty());
    while n < raw.len()
        invariant
            n <= raw@.len(),
            out@.len() == complete_clusters(raw@.take(n as int)).len(),
            forall|i: int|
                0 <= i < out@.len() ==> same_cluster(
                    #[trigger] out@[i],
                    complete_clusters(raw@.take(n as int))[i],
                ),
        decreases raw@.len() - n,
    {
        let entry = &raw[n];
        proof {
            assert(raw@.take(n + 1) =~= raw@.take(n as int).push(*entry));
            lemma_filter_push(raw@.take(n as int), *entry, |c: RawCluster| cluster_complete(c));
        }
        match (&entry.name, &entry.server) {
            (Some(name), Some(server)) => {
                out.push(
                    ClusterConfig {
                        name: name.clone(),
                        server: server.clone(),
                        certificate_authority: clone_opt(&entry.certificate_authority),
                    },
                );
            },
            _ => {},
        }
        n += 1;
    }
    assert(raw@.take(raw@.len() as int) =~= raw@);
    out
}

/// The users among the entries of a file: an entry without a name is passed over.
pub fn extract_users(raw: &Vec<RawUser>) -> (r: Vec<UserConfig>)
    ensures
        r@.len() == complete_users(raw@).len(),
        forall|i: int| 0 <= i < r@.len() ==> same_user(#[trigger] r@[i], complete_users(raw@)[i]),
{
    let mut out: Vec<UserConfig> = Vec::new();
    let mut n: usize = 0;
    assert(complete_users(raw@.take(0)) =~= Seq::empty());
    while n < raw.len()
        invariant
            n <= raw@.len(),
            out@.len() == complete_users(raw@.take(n as int)).len(),
            forall|i: int|
                0 <= i < out@.len() ==> same_user(
                    #[trigger] out@[i],
                    complete_users(raw@.take(n as int))[i],
                ),
        decreases raw@.len() - n,
    {
        let entry = &raw[n];
        proof {
            assert(raw@.take(n + 1) =~= raw@.take(n as int).push(*entry));
            lemma_filter_push(raw@.take(n as int), *entry, |u: RawUser| user_complete(u));
        }
        match &entry.name {
            Some(name) => {
                out.push(
                    UserConfig {
                        name: name.clone(),
                        client_certificate: clone_opt(&entry.client_certificate),
                        client_key: clone_opt(&entry.client_key),
                    },
                );
            },
            None => {},
        }
        n += 1;
    }
    assert(raw@.take(raw@.len() as int) =~= raw@);
    out
}

/// The contexts among the entries of a file: an entry without a name, a
/// cluster or a user is passed over.
pub fn extract_contexts(raw: &Vec<RawContext>) -> (r: Vec<ContextConfig>)
    ensures
        r@.len() == complete_contexts(raw@).len(),
        forall|i: int|
            0 <= i < r@.len() ==> same_context(#[trigger] r@[i], complete_contexts(raw@)[i]),
{
    let mut out: Vec<ContextConfig> = Vec::new();
    let mut n: usize = 0;
    assert(complete_contexts(raw@.take(0)) =~= Seq::empty());
    while n < raw.len()
        invariant
            n <= raw@.len(),
            out@.len() == complete_contexts(raw@.take(n as int)).len(),
            forall|i: int|
                0 <= i < out@.len() ==> same_context(
                    #[trigger] out@[i],
                    complete_contexts(raw@.take(n as int))[i],
                ),
        decreases raw@.len() - n,
    {
        let entry = &raw[n];
        proof {
            assert(raw@.take(n + 1) =~= raw@.take(n as int).push(*entry));
            lemma_filter_push(raw@.take(n as int), *entry, |c: RawContext| context_complete(c));
        }
        match (&entry.name, &entry.cluster, &entry.user) {
            (Some(name), Some(cluster), Some(user)) => {
                out.push(
                    ContextConfig {
                        name: name.clone(),
                        cluster: cluster.clone(),
                        user: user.clone(),
                    },
                );
            },
            _ => {},
        }
        n += 1;
    }
    assert(raw@.take(raw@.len() as int) =~= raw@);
    out
}

/// Filtering a sequence with one more item at its end filters the item.
pub proof fn lemma_filter_push<T>(s: Seq<T>, item: T, keep: spec_fn(T) -> bool)
    ensures
        s.push(item).filter(keep) == if keep(item) {
            s.filter(keep).push(item)
        } else {
            s.filter(keep)
        },
{
    reveal(Seq::filter);
    assert(s.push(item).drop_last() =~= s);
}

/// What an imported client configuration names, from the entries of its file.
pub fn import_kubeconfig(
    clusters: &Vec<RawCluster>,
    users: &Vec<RawUser>,
    contexts: &Vec<RawContext>,
) -> (r: KubeConfig)
    ensures
        r.clusters@.len() == complete_clusters(clusters@).len(),
        forall|i: int|
            0 <= i < r.clusters@.len() ==> same_cluster(
                #[trigger] r.clusters@[i],
                complete_clusters(clusters@)[i],
            ),
        r.users@.len() == complete_users(users@).len(),
        forall|i: int|
            0 <= i < r.users@.len() ==> same_user(
                #[trigger] r.users@[i],
                complete_users(users@)[i],
            ),
        r.contexts@.len() == complete_contexts(contexts@).len(),
        forall|i: int|
            0 <= i < r.contexts@.len() ==> same_context(
                #[trigger] r.contexts@[i],
                complete_contexts(contexts@)[i],
            ),
{
    KubeConfig {
        clusters: extract_clusters(clusters),
        users: extract_users(users),
        contexts: extract_contexts(contexts),
    }
}

} // verus!
