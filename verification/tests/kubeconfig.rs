use kube_certs::error::{IoFailure};
use kube_certs::kubeconfig::{
    extract_clusters, extract_contexts, extract_users, import_kubeconfig, ClusterConfig,
    ContextConfig, EncryptionConfigGenerator, KubeConfigGenerator, RawCluster, RawContext,
    RawUser, UserConfig, KEY_BYTES,
};
use kube_certs::steps::{Invocation, Step};

fn generator() -> KubeConfigGenerator {
    KubeConfigGenerator::new(
        "10.0.0.1".to_string(),
        "kubeconfig".to_string(),
        "certs/kubernetes-ca/ca-chain.crt".to_string(),
    )
}

fn kubectl(args: &[&str]) -> Step {
    Step::Attempt {
        command: Invocation { program: "kubectl".to_string(), args: args.iter().map(|s| s.to_string()).collect() },
        skip: 0,
        notice: "kubectl reported a failure".to_string(),
    }
}

#[test]
fn one_configuration_takes_four_runs() {
    assert_eq!(
        generator().generate_kubeconfig("admin", "default-admin").steps,
        vec![
            kubectl(&[
                "config",
                "set-cluster",
                "default-cluster",
                "--kubeconfig=kubeconfig/admin.conf",
                "--server=https://10.0.0.1:6443",
                "--certificate-authority=certs/kubernetes-ca/ca-chain.crt",
                "--embed-certs=true",
            ]),
            kubectl(&[
                "config",
                "set-credentials",
                "default-admin",
                "--kubeconfig=kubeconfig/admin.conf",
                "--client-certificate=admin/admin.crt",
                "--client-key=admin/admin.key",
                "--embed-certs=true",
            ]),
            kubectl(&[
                "config",
                "set-context",
                "default-system",
                "--kubeconfig=kubeconfig/admin.conf",
                "--cluster=default-cluster",
                "--user=default-admin",
            ]),
            kubectl(&["config", "use-context", "default-system", "--kubeconfig=kubeconfig/admin.conf"]),
        ]
    );
}

#[test]
fn control_plane_and_node_configurations() {
    let g = generator();
    let all = g.generate_all_kubeconfigs();
    assert_eq!(all.steps.len(), 13);
    assert_eq!(all.steps[0], Step::CreateDir("kubeconfig".to_string()));
    assert_eq!(&all.steps[1..5], &g.generate_kubeconfig("admin", "default-admin").steps[..]);
    assert_eq!(
        &all.steps[5..9],
        &g.generate_kubeconfig("controller-manager", "system:kube-controller-manager").steps[..]
    );
    assert_eq!(&all.steps[9..13], &g.generate_kubeconfig("scheduler", "system:kube-scheduler").steps[..]);
    let nodes = g.generate_node_kubeconfigs(&vec![(0, "a".to_string()), (9, "b".to_string())]);
    assert_eq!(nodes.steps.len(), 8);
    assert_eq!(&nodes.steps[..4], &g.generate_kubeconfig("node-1", "system:node:worker-node-1").steps[..]);
    assert_eq!(&nodes.steps[4..], &g.generate_kubeconfig("node-10", "system:node:worker-node-10").steps[..]);
    assert!(g.generate_node_kubeconfigs(&vec![]).steps.is_empty());
}

#[test]
fn encryption_config_holds_the_encoded_key() {
    let g = EncryptionConfigGenerator::new("encryption-config.yaml".to_string());
    assert_eq!(g.output_path, "encryption-config.yaml");
    assert_eq!(KEY_BYTES, 32);
    let cmd = g.generate_random_key(32);
    assert_eq!(cmd.program, "head");
    assert_eq!(cmd.args, vec!["-c", "32", "/dev/urandom"]);
    let c = g.generate_config(&vec![0u8; 32]).unwrap();
    assert_eq!(c.kind, "EncryptionConfig");
    assert_eq!(c.api_version, "v1");
    assert_eq!(c.resources.len(), 1);
    assert_eq!(c.resources[0].resources, vec!["secrets".to_string()]);
    assert_eq!(c.resources[0].providers.len(), 2);
    let aes = c.resources[0].providers[0].aescbc.clone().unwrap();
    assert!(c.resources[0].providers[0].identity.is_none());
    assert_eq!(aes.keys.len(), 1);
    assert_eq!(aes.keys[0].name, "key1");
    assert_eq!(aes.keys[0].secret, "AAAAAAAAAAAAAAAAAAAAAAAAAAAAAAAAAAAAAAAAAAA=");
    assert!(c.resources[0].providers[1].aescbc.is_none());
    assert!(c.resources[0].providers[1].identity.is_some());
    let bytes: Vec<u8> = (0u8..32).collect();
    let d = g.generate_config(&bytes).unwrap();
    assert_eq!(
        d.resources[0].providers[0].aescbc.clone().unwrap().keys[0].secret,
        "AAECAwQFBgcICQoLDA0ODxAREhMUFRYXGBkaGxwdHh8="
    );
}

#[test]
fn a_key_of_the_wrong_length_is_refused() {
    let g = EncryptionConfigGenerator::new("e.yaml".to_string());
    for n in [0usize, 1, 31, 33, 64] {
        assert_eq!(
            g.generate_config(&vec![7u8; n]),
            Err(IoFailure::other("Failed to generate random key".to_string()))
        );
    }
}

fn some(s: &str) -> Option<String> {
    Some(s.to_string())
}

#[test]
fn incomplete_entries_are_passed_over() {
    let clusters = vec![
        RawCluster { name: some("a"), server: some("https://a"), certificate_authority: some("ca") },
        RawCluster { name: None, server: some("https://b"), certificate_authority: None },
        RawCluster { name: some("c"), server: None, certificate_authority: None },
        RawCluster { name: some("d"), server: some("https://d"), certificate_authority: None },
    ];
    assert_eq!(
        extract_clusters(&clusters),
        vec![
            ClusterConfig { name: "a".to_string(), server: "https://a".to_string(), certificate_authority: some("ca") },
            ClusterConfig { name: "d".to_string(), server: "https://d".to_string(), certificate_authority: None },
        ]
    );
    let users = vec![
        RawUser { name: None, client_certificate: some("c"), client_key: some("k") },
        RawUser { name: some("u"), client_certificate: None, client_key: some("k") },
    ];
    assert_eq!(
        extract_users(&users),
        vec![UserConfig { name: "u".to_string(), client_certificate: None, client_key: some("k") }]
    );
    let contexts = vec![
        RawContext { name: some("x"), cluster: some("a"), user: some("u") },
        RawContext { name: some("y"), cluster: None, user: some("u") },
        RawContext { name: some("z"), cluster: some("a"), user: None },
        RawContext { name: None, cluster: some("a"), user: some("u") },
    ];
    assert_eq!(
        extract_contexts(&contexts),
        vec![ContextConfig { name: "x".to_string(), cluster: "a".to_string(), user: "u".to_string() }]
    );
    let k = import_kubeconfig(&clusters, &users, &contexts);
    assert_eq!((k.clusters.len(), k.users.len(), k.contexts.len()), (2, 1, 1));
    let empty = import_kubeconfig(&vec![], &vec![], &vec![]);
    assert!(empty.clusters.is_empty() && empty.users.is_empty() && empty.contexts.is_empty());
}
