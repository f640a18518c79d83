use kube_certs::cert_types::{AltName, CertificateType, ClusterEndpoints};
use kube_certs::generators::{
    node_name_of, ApiServerCertGenerator, ControllerCertGenerator, ControllerManagerGenerator,
    KubeletClientCertGenerator, NodeCertGenerator, SchedulerCertGenerator,
    ServiceAccountGenerator, KEY_SIZE, LEAF_VALIDITY_DAYS,
};
use kube_certs::logging::OperationsLogger;
use kube_certs::operations::CertificateOperations;
use kube_certs::steps::{FailureKind, Invocation, Step};

fn ops() -> CertificateOperations {
    CertificateOperations::new(
        OperationsLogger::new(false),
        "/etc/kubernetes/pki".to_string(),
        "admin".to_string(),
        "key".to_string(),
    )
}

fn strings(items: &[&str]) -> Vec<String> {
    items.iter().map(|s| s.to_string()).collect()
}

fn dns(s: &str) -> AltName {
    AltName::dns(s.to_string())
}

fn ip(s: &str) -> AltName {
    AltName::ip(s.to_string())
}

#[test]
fn leaf_constants() {
    assert_eq!(LEAF_VALIDITY_DAYS, 375);
    assert_eq!(KEY_SIZE, 2048);
}

#[test]
fn api_server_generator_config() {
    let g = ApiServerCertGenerator::new("10.0.0.1".to_string());
    let c = g.get_config();
    assert_eq!(c.cert_type, CertificateType::APIServer);
    assert_eq!(c.common_name, "kube-apiserver");
    assert_eq!(c.organization, Some("Kubernetes".to_string()));
    assert_eq!(c.validity_days, 375);
    assert_eq!(c.key_size, 2048);
    assert_eq!(c.output_dir, "certs/kube-apiserver");
    assert_eq!(
        c.alt_names,
        vec![
            dns("kubernetes"),
            dns("kubernetes.default"),
            dns("kubernetes.default.svc"),
            dns("kubernetes.default.svc.cluster.local"),
            ip("10.0.0.1"),
        ]
    );
    assert_eq!(c.key_usage, strings(&["critical", "digitalSignature", "keyEncipherment"]));
    assert_eq!(c.extended_key_usage, strings(&["serverAuth"]));
    assert_eq!((c.country, c.state, c.locality), (None, None, None));
}

#[test]
fn kubelet_and_scheduler_client_configs() {
    let k = KubeletClientCertGenerator::get_config();
    assert_eq!(k.cert_type, CertificateType::KubeletClient);
    assert_eq!(k.common_name, "kube-apiserver-kubelet-client");
    assert_eq!(k.organization, Some("system:masters".to_string()));
    assert_eq!(k.output_dir, "certs/kube-apiserver-kubelet-client");
    assert!(k.alt_names.is_empty());
    assert_eq!(k.extended_key_usage, strings(&["clientAuth"]));
    assert_eq!(k.country, None);
    let located = KubeletClientCertGenerator::config(true);
    assert_eq!(located.country, Some("US".to_string()));
    assert_eq!(located.state, Some("Columbia".to_string()));
    assert_eq!(located.locality, Some("Columbia".to_string()));
    let s = SchedulerCertGenerator::get_config();
    assert_eq!(s.cert_type, CertificateType::Scheduler);
    assert_eq!(s.common_name, "system:kube-scheduler");
    assert_eq!(s.organization, Some("system:kube-scheduler".to_string()));
    assert_eq!(s.output_dir, "certs/scheduler");
    assert_eq!(s.validity_days, 375);
    assert_eq!(s.extended_key_usage, strings(&["clientAuth"]));
}

#[test]
fn control_plane_configs() {
    let o = ops();
    let g = ControllerCertGenerator::new(
        ClusterEndpoints { control_plane: "10.0.0.1".to_string(), worker_nodes: vec![] },
        &o,
    );
    let c = g.get_controller_config();
    assert_eq!(c.cert_type, CertificateType::ControllerManager);
    assert_eq!(c.common_name, "system:kube-controller-manager");
    assert_eq!(c.alt_names, vec![dns("kube-proxy"), ip("127.0.0.1")]);
    assert_eq!(c.extended_key_usage, strings(&["clientAuth", "serverAuth"]));
    assert_eq!(c.country, Some("US".to_string()));
    let s = g.get_scheduler_config();
    assert_eq!(s.alt_names, vec![dns("kube-scheduler"), ip("127.0.0.1")]);
    assert_eq!(s.output_dir, "certs/scheduler");
    let a = g.get_apiserver_config();
    assert_eq!(a.organization, Some("kubernetes".to_string()));
    assert_eq!(
        a.alt_names,
        vec![
            dns("localhost"),
            ip("127.0.0.1"),
            dns("control-plane-0"),
            ip("10.0.0.1"),
            ip("10.96.0.1"),
            dns("kubernetes"),
            dns("kubernetes.default"),
            dns("kubernetes.default.svc"),
            dns("kubernetes.default.svc.cluster"),
            dns("kubernetes.default.svc.cluster.local"),
        ]
    );
    assert_eq!(a.extended_key_usage, strings(&["serverAuth"]));
}

#[test]
fn control_plane_runbooks() {
    let o = ops();
    let g = ControllerCertGenerator::new(
        ClusterEndpoints { control_plane: "10.0.0.1".to_string(), worker_nodes: vec![] },
        &o,
    );
    let api = g.generate_api_server_cert();
    assert_eq!(api.steps[0], Step::Log("Generating API Server Certificate".to_string()));
    let expected = o.generate_cert("kube-apiserver", "certs/kubernetes-ca", &g.get_apiserver_config(), &vec![]);
    assert_eq!(&api.steps[1..], &expected.steps[..]);
    assert_eq!(
        g.generate_controller_manager_cert(),
        o.generate_cert("controller-manager", "certs/kubernetes-ca", &g.get_controller_config(), &vec![])
    );
    assert_eq!(
        g.generate_scheduler_cert(),
        o.generate_cert("scheduler", "certs/kubernetes-ca", &g.get_scheduler_config(), &vec![])
    );
}

#[test]
fn controller_manager_client_runbook() {
    let o = ops();
    let g = ControllerManagerGenerator::new(&o);
    let plan = g.generate_certificate("10.0.0.1");
    assert_eq!(plan.steps[0], Step::Log("Generating Controller Manager certificate".to_string()));
    assert_eq!(
        plan.steps[plan.steps.len() - 1],
        Step::Log("Controller Manager certificate generated successfully".to_string())
    );
    assert!(plan.steps.contains(&Step::CreateDir("certs/controller-manager".to_string())));
    assert!(plan.steps.contains(&Step::RequireFile {
        path: "certs/kubernetes-ca/ca.crt".to_string(),
        missing: "CA certificate not found: certs/kubernetes-ca/ca.crt".to_string()
    }));
}

#[test]
fn node_names_count_from_one() {
    assert_eq!(node_name_of(0), "node-1");
    assert_eq!(node_name_of(9), "node-10");
    assert_eq!(node_name_of(usize::MAX), format!("node-{}", usize::MAX as u128 + 1));
}

#[test]
fn node_certificates_carry_their_number_and_address() {
    let o = ops();
    let g = NodeCertGenerator::new(&o);
    let nodes = vec![(0usize, "10.0.0.11".to_string()), (4usize, "10.0.0.15".to_string())];
    let plans = g.generate_node_certificates(&nodes);
    assert_eq!(plans.len(), 2);
    assert_eq!(plans[0], g.generate_node_certificate("node-1", "10.0.0.11", 0));
    assert_eq!(plans[1], g.generate_node_certificate("node-5", "10.0.0.15", 4));
    assert_eq!(plans[1].steps[0], Step::Log("Generating certificate for node-5".to_string()));
    assert!(plans[1].steps.contains(&Step::CreateDir("certs/node-5".to_string())));
    let csr = plans[1]
        .steps
        .iter()
        .find_map(|s| match s {
            Step::WriteFile { path, content } if path == "certs/node-5/csr.cnf" => Some(content.clone()),
            _ => None,
        })
        .unwrap();
    assert!(csr.contains("CN = system:node:node-5\nO = system:nodes\n"));
    assert!(csr.ends_with(
        "[alt_names]\nDNS.1 = 10.0.0.15\nDNS.2 = node-5\nDNS.3 = node-5.cluster.local\nIP.1 = 10.0.0.15\nIP.2 = 127.0.0.1\n"
    ));
    let ext = plans[1]
        .steps
        .iter()
        .find_map(|s| match s {
            Step::WriteFile { path, content } if path == "certs/node-5/node-5.crt.ext" => Some(content.clone()),
            _ => None,
        })
        .unwrap();
    assert!(ext.contains("extendedKeyUsage = serverAuth, clientAuth\n"));
    assert!(g.generate_node_certificates(&vec![]).is_empty());
}

fn tool(args: &[&str], kind: FailureKind, context: &str) -> Step {
    Step::Run {
        command: Invocation { program: "openssl".to_string(), args: strings(args) },
        capture: None,
        cleanup: None,
        kind,
        context: context.to_string(),
    }
}

#[test]
fn service_account_runbooks() {
    let o = ops();
    let g = ServiceAccountGenerator::new("certs/service-account".to_string(), &o);
    assert_eq!(
        g.generate_service_account_keys().steps,
        vec![
            Step::Log("Generating service account key pair".to_string()),
            Step::CreateDir("certs/service-account".to_string()),
            tool(
                &["genpkey", "-algorithm", "RSA", "-out", "certs/service-account/sa.key", "-pkeyopt", "rsa_keygen_bits:2048"],
                FailureKind::CertGeneration,
                "Failed to generate SA private key"
            ),
            tool(
                &["rsa", "-in", "certs/service-account/sa.key", "-pubout", "-out", "certs/service-account/sa.pub"],
                FailureKind::CertGeneration,
                "Failed to generate SA public key"
            ),
            Step::Log("Service account keys generated successfully".to_string()),
        ]
    );
    assert_eq!(
        g.verify_keypair().steps,
        vec![
            tool(
                &["rsa", "-check", "-in", "certs/service-account/sa.key"],
                FailureKind::Verification,
                "Service account private key verification failed"
            ),
            tool(
                &["rsa", "-in", "certs/service-account/sa.key", "-pubout", "-outform", "PEM"],
                FailureKind::Verification,
                "Service account key pair verification failed"
            ),
        ]
    );
    assert_eq!(g.generate_private_key(), g.generate_service_account_keys().steps[2]);
    assert_eq!(g.generate_public_key(), g.generate_service_account_keys().steps[3]);
}

#[test]
fn kinds_know_their_role() {
    assert!(CertificateType::RootCA.is_root());
    assert!(!CertificateType::KubernetesCA.is_root());
    assert!(CertificateType::RootCA.is_ca());
    assert!(CertificateType::KubernetesCA.is_ca());
    for k in [
        CertificateType::APIServer,
        CertificateType::KubeletClient,
        CertificateType::ServiceAccount,
        CertificateType::ControllerManager,
        CertificateType::Scheduler,
        CertificateType::Node("n".to_string()),
        CertificateType::Admin,
    ] {
        assert!(!k.is_ca());
        assert!(!k.is_root());
        assert_eq!(k.duplicate(), k);
    }
}

#[test]
fn node_certificates_fail_with_the_first_failure() {
    let missing = kube_certs::error::CertOperationError::IoError(kube_certs::error::IoFailure::not_found(
        "CA certificate not found: certs/kubernetes-ca/ca.crt".to_string(),
    ));
    let refused = kube_certs::error::CertOperationError::CertGeneration("Failed to sign".to_string());
    assert_eq!(NodeCertGenerator::settle(0, &vec![]), Ok(()));
    assert_eq!(NodeCertGenerator::settle(2, &vec![Ok(()), Ok(())]), Ok(()));
    assert_eq!(NodeCertGenerator::settle(3, &vec![Ok(()), Err(missing.clone()), Err(refused.clone())]), Err(missing.clone()));
    assert_eq!(NodeCertGenerator::settle(2, &vec![Err(refused.clone()), Ok(())]), Err(refused.clone()));
    assert_eq!(NodeCertGenerator::settle(1, &vec![Err(refused.clone())]), Err(refused));
    assert_eq!(
        NodeCertGenerator::settle(3, &vec![Ok(()), Ok(())]),
        Err(kube_certs::error::CertOperationError::CertGeneration("A node certificate was not generated".to_string()))
    );
    assert_eq!(missing.duplicate(), missing);
}
