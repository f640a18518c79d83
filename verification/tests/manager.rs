use kube_certs::config::ClusterConfig;
use kube_certs::discovery::CertificateInfo;
use kube_certs::manager::{
    classify, listed, CertManager, CheckKind, DistributionJob, EditKey, Errand, MenuAction,
    NavKey, Stage,
};
use kube_certs::steps::Step;
use kube_certs::tracker::CertificateStatus;
use kube_certs::ui_state::{ActiveSection, AppMode, ConfirmationCallback, ConfirmationDialog, ScrollDirection};

fn cluster() -> ClusterConfig {
    ClusterConfig {
        control_plane: "10.0.0.1".to_string(),
        worker_nodes: vec!["10.0.0.11".to_string(), "10.0.0.12".to_string()],
        remote_user: "admin".to_string(),
        ssh_key_path: "~/.ssh/id_rsa".to_string(),
        remote_dir: "/etc/kubernetes/pki".to_string(),
    }
}

fn manager() -> CertManager {
    CertManager::new(cluster(), false)
}

fn names(items: &[&str]) -> Vec<String> {
    items.iter().map(|s| s.to_string()).collect()
}

fn cert(path: &str, subject: &str, is_ca: bool, fingerprint: &str) -> CertificateInfo {
    CertificateInfo {
        path: path.to_string(),
        subject: subject.to_string(),
        issuer: "CN=i".to_string(),
        not_before: 0,
        not_after: 1,
        serial: "01".to_string(),
        fingerprint: fingerprint.to_string(),
        is_ca,
        last_verified: None,
        verification_error: None,
    }
}

fn ask(m: &mut CertManager, callback: ConfirmationCallback) {
    m.confirmation_dialog = Some(ConfirmationDialog { message: "?".to_string(), callback });
    m.mode = AppMode::Confirmation;
}

#[test]
fn new_manager_state() {
    let m = manager();
    assert_eq!(m.config, cluster());
    assert_eq!(m.menu_items.len(), 16);
    assert_eq!(m.menu_items[0], "Generate Root CA");
    assert_eq!(m.menu_items[14], "Import Existing Certificates");
    assert_eq!(m.menu_items[15], "Automate all");
    assert_eq!(m.mode, AppMode::Normal);
    assert_eq!(m.active_section, ActiveSection::Menu);
    assert!(m.logs.is_empty());
    assert!(m.cert_tracker.certificates.is_empty());
    assert!(m.confirmation_dialog.is_none());
    let ops = m.get_cert_ops();
    assert_eq!(ops.remote_dir, "/etc/kubernetes/pki");
    assert_eq!(ops.remote_user, "admin");
    assert_eq!(ops.ssh_key_path, "~/.ssh/id_rsa");
    assert_eq!(m.get_all_hosts(), names(&["10.0.0.1", "10.0.0.11", "10.0.0.12"]));
    let e = m.get_cluster_endpoints();
    assert_eq!(e.control_plane, "10.0.0.1");
    assert_eq!(e.worker_nodes, names(&["10.0.0.11", "10.0.0.12"]));
}

#[test]
fn classification_follows_the_order_of_the_rules() {
    let fp = "0123456789abcdef";
    assert_eq!(classify("ca-chain.crt", "CN=Root CA", "cn=root ca", true, fp), "ca-chain");
    assert_eq!(classify("sa.pub", "x", "x", false, fp), "sa-public-key");
    assert_eq!(classify("sa.key", "x", "x", false, fp), "sa-private-key");
    assert_eq!(classify("encryption-config.yaml", "x", "x", false, fp), "encryption-config");
    assert_eq!(classify("ca.crt", "CN=Kubernetes ROOT CA", "cn=kubernetes root ca", true, fp), "root-ca");
    assert_eq!(classify("ca.crt", "CN=kubernetes-ca", "cn=kubernetes-ca", true, fp), "ca.crt");
    assert_eq!(classify("ca.key", "CN=root", "cn=root", true, fp), "ca.key");
    assert_eq!(classify("x.key", "CN=Service Account", "cn=service account", false, fp), "sa-private-key");
    assert_eq!(classify("x.pub", "CN=Service Account", "cn=service account", false, fp), "sa-public-key");
    assert_eq!(classify("x.crt", "CN=Service Account", "cn=service account", false, fp), "cert-01234567");
    assert_eq!(
        classify("cm.crt", "CN=system:kube-controller-manager", "cn=system:kube-controller-manager", false, fp),
        "controller-manager"
    );
    assert_eq!(classify("x.crt", "CN=My Root CA", "cn=my root ca", false, fp), "root-ca");
    assert_eq!(classify("x.crt", "CN=my root ca", "cn=my root ca", true, fp), "ca");
    assert_eq!(classify("x.crt", "CN=leaf", "cn=leaf", false, fp), "cert-01234567");
    assert_eq!(classify("x.crt", "CN=leaf", "cn=leaf", false, "abc"), "cert-abc");
    assert_eq!(classify("x.crt", "CN=leaf", "cn=leaf", false, ""), "cert-");
    assert_eq!(classify("my-ca-chain-sa.pub", "x", "x", false, fp), "ca-chain");
}

#[test]
fn determine_cert_type_uses_the_file_name_and_the_lowered_subject() {
    let m = manager();
    assert_eq!(m.determine_cert_type(&cert("certs/root-ca/ca.crt", "CN=Kubernetes ROOT CA", true, "ff")), "root-ca");
    assert_eq!(m.determine_cert_type(&cert("certs/ca-chain/leaf.crt", "CN=leaf", false, "0011223344556677")), "cert-00112233");
    assert_eq!(m.determine_cert_type(&cert("certs/kubernetes-ca/ca-chain.crt", "CN=x", true, "ff")), "ca-chain");
    assert_eq!(
        m.determine_cert_type(&cert("certs/cm/cm.crt", "CN=SYSTEM:KUBE-CONTROLLER-MANAGER", false, "ff")),
        "controller-manager"
    );
    assert_eq!(m.determine_cert_type(&cert("a/b/c.crt", "CN=Intermediate", true, "ff")), "ca");
}

#[test]
fn log_lines_and_scrolling() {
    let mut m = manager();
    m.log_at("12:00:00", "hello");
    assert_eq!(m.logs, names(&["12:00:00: hello"]));
    assert_eq!(m.log_scroll, 0);
    for i in 0..20 {
        m.log_at("t", &format!("{}", i));
    }
    assert_eq!(m.logs.len(), 21);
    assert_eq!(m.log_scroll, 3);
    m.debug_log("hidden");
    assert_eq!(m.logs.len(), 21);
    m.log("now");
    assert!(m.logs[21].ends_with(": now"));
    assert_eq!(m.logs[21].len(), "00:00:00: now".len());
    assert_eq!(m.log_scroll, 4);
    let mut d = CertManager::new(cluster(), true);
    d.debug_log("seen");
    assert!(d.logs[0].ends_with(": [DEBUG] seen"));
    d.set_current_operation("Generating Root CA");
    assert_eq!(d.current_operation, "Generating Root CA");
    assert!(d.logs[1].ends_with(": Starting operation: Generating Root CA"));
}

#[test]
fn scroll_movements() {
    let mut m = manager();
    for i in 0..50 {
        m.log_at("t", &format!("{}", i));
    }
    assert_eq!(m.log_scroll, 32);
    m.scroll_logs(ScrollDirection::Up);
    assert_eq!(m.log_scroll, 31);
    m.scroll_logs(ScrollDirection::PageUp);
    assert_eq!(m.log_scroll, 21);
    m.scroll_logs(ScrollDirection::Top);
    assert_eq!(m.log_scroll, 0);
    m.scroll_logs(ScrollDirection::Up);
    assert_eq!(m.log_scroll, 0);
    m.scroll_logs(ScrollDirection::PageUp);
    assert_eq!(m.log_scroll, 0);
    m.scroll_logs(ScrollDirection::Down);
    assert_eq!(m.log_scroll, 1);
    m.scroll_logs(ScrollDirection::PageDown);
    assert_eq!(m.log_scroll, 11);
    m.log_scroll = 38;
    m.scroll_logs(ScrollDirection::PageDown);
    assert_eq!(m.log_scroll, 48);
    m.scroll_logs(ScrollDirection::PageDown);
    assert_eq!(m.log_scroll, 49);
    m.scroll_logs(ScrollDirection::Down);
    assert_eq!(m.log_scroll, 49);
    m.log_scroll = 10;
    m.scroll_logs(ScrollDirection::PageUp);
    assert_eq!(m.log_scroll, 0);
    m.scroll_logs(ScrollDirection::Bottom);
    assert_eq!(m.log_scroll, 49);
    m.scroll_to_bottom();
    assert_eq!(m.log_scroll, 32);
    let mut empty = manager();
    empty.scroll_logs(ScrollDirection::Bottom);
    assert_eq!(empty.log_scroll, 0);
    empty.scroll_logs(ScrollDirection::Down);
    assert_eq!(empty.log_scroll, 0);
}

fn entry<'a>(m: &'a CertManager, name: &str) -> &'a CertificateStatus {
    m.cert_tracker.certificates.iter().find(|c| c.cert_type == name).unwrap()
}

#[test]
fn ca_setup_files_four_entries_verified_for_all_hosts() {
    let mut m = manager();
    m.record_ca_setup(500);
    let all = names(&["10.0.0.1", "10.0.0.11", "10.0.0.12"]);
    let filed: Vec<(&str, &str)> =
        m.cert_tracker.certificates.iter().map(|c| (c.cert_type.as_str(), c.path.as_str())).collect();
    assert_eq!(
        filed,
        vec![
            ("root-ca", "certs/root-ca/ca.crt"),
            ("ca.crt", "certs/kubernetes-ca/ca.crt"),
            ("ca.key", "certs/kubernetes-ca/ca.key"),
            ("ca-chain", "certs/kubernetes-ca/ca-chain.crt"),
        ]
    );
    for c in &m.cert_tracker.certificates {
        assert_eq!(c.hosts, all);
        assert_eq!(c.verified, Some(true));
        assert_eq!(c.generated, 500);
        assert_eq!(c.distributed, None);
    }
    assert_eq!(m.mode, AppMode::Confirmation);
    let d = m.confirmation_dialog.clone().unwrap();
    assert_eq!(d.callback, ConfirmationCallback::DistributePending);
    assert_eq!(d.message, "Do you want to distribute the generated CA certificates?");
    let pending: Vec<String> = m.pending_jobs().iter().map(|j| j.cert_type.clone()).collect();
    assert_eq!(pending, names(&["ca.crt", "ca.key", "ca-chain"]));
    let ops = m.get_cert_ops();
    for job in m.pending_jobs() {
        assert_eq!(ops.resolve_routes(&job.source).len(), 1, "{}", job.source);
    }
    assert!(m.logs[0].ends_with(": Root CA and Kubernetes CA certificates generated successfully"));
}

#[test]
fn other_generations_are_filed() {
    let mut m = manager();
    m.record_kubernetes_ca(1);
    assert_eq!(entry(&m, "ca.crt").hosts, names(&["10.0.0.1"]));
    assert_eq!(entry(&m, "ca.key").path, "certs/kubernetes-ca/ca.key");
    m.record_controller_manager(2);
    let cm = entry(&m, "Controller Manager");
    assert_eq!(cm.path, "certs/controller-manager/controller-manager.crt");
    assert_eq!(cm.verified, Some(true));
    assert_eq!(cm.distributed, None);
    m.record_service_account_keys(3);
    for (name, path) in [("SA Public Key", "certs/service-account/sa.pub"), ("SA Private Key", "certs/service-account/sa.key")] {
        let e = entry(&m, name);
        assert_eq!(e.path, path);
        assert_eq!(e.verified, Some(true));
        assert_eq!(e.distributed, Some(3));
        assert_eq!(e.generated, 3);
    }
    m.record_encryption_config(4);
    assert_eq!(entry(&m, "encryption-config").path, "encryption-config.yaml");
    m.record_kubeconfigs(5);
    for (name, host) in [
        ("kubeconfig-admin", "10.0.0.1"),
        ("kubeconfig-controller-manager", "10.0.0.1"),
        ("kubeconfig-scheduler", "10.0.0.1"),
        ("kubeconfig-node-1", "10.0.0.11"),
        ("kubeconfig-node-2", "10.0.0.12"),
    ] {
        let e = entry(&m, name);
        assert_eq!(e.hosts, names(&[host]));
        assert_eq!(e.path, format!("kubeconfig/{}.conf", &name["kubeconfig-".len()..]));
    }
    m.track_kubeconfig("extra", "h", 6);
    assert_eq!(entry(&m, "kubeconfig-extra").path, "kubeconfig/extra.conf");
    let jobs = m.pending_jobs();
    let enc = jobs.iter().find(|j| j.cert_type == "encryption-config").unwrap();
    assert_eq!(enc.source, "encryption-config.yaml");
    assert!(jobs.iter().all(|j| !j.cert_type.starts_with("SA ")));
}

#[test]
fn import_files_each_certificate_under_its_name() {
    let mut m = manager();
    let certs = vec![
        cert("certs/root-ca/ca.crt", "CN=Kubernetes Root CA", true, "aa"),
        cert("certs/kubernetes-ca/ca.crt", "CN=kubernetes-ca", true, "bb"),
        cert("certs/x/leaf.crt", "CN=leaf", false, "0123456789"),
        cert("certs/y/leaf.crt", "CN=leaf", false, "0123456799"),
    ];
    m.import_certificates(&certs, 9);
    let filed: Vec<(&str, &str)> =
        m.cert_tracker.certificates.iter().map(|c| (c.cert_type.as_str(), c.path.as_str())).collect();
    assert_eq!(
        filed,
        vec![
            ("root-ca", "certs/root-ca/ca.crt"),
            ("ca.crt", "certs/kubernetes-ca/ca.crt"),
            ("cert-01234567", "certs/y/leaf.crt"),
        ]
    );
    assert!(m.cert_tracker.certificates.iter().all(|c| c.hosts == names(&["10.0.0.1"]) && c.generated == 9));
    assert_eq!(m.logs.len(), 4);
    assert!(m.logs[0].ends_with(": Importing certificate: root-ca (subject: CN=Kubernetes Root CA)"));
}

#[test]
fn distribution_is_recorded_only_when_every_host_was_reached() {
    let mut m = manager();
    m.cert_tracker.add_certificate_at("ca.crt", "kubernetes-ca/ca.crt", names(&["a", "b", "c"]), 1);
    let hosts = names(&["a", "b", "c"]);
    assert!(!m.record_distribution("ca.crt", &hosts, &names(&["a", "c"]), 10));
    assert_eq!(m.cert_tracker.certificates[0].distributed, None);
    assert_eq!(m.pending_jobs().len(), 1);
    assert!(!m.record_distribution("ca.crt", &hosts, &names(&[]), 10));
    assert!(m.record_distribution("ca.crt", &hosts, &names(&["c", "b", "x", "a"]), 11));
    assert_eq!(m.cert_tracker.certificates[0].distributed, Some(11));
    assert!(m.pending_jobs().is_empty());
    assert!(m.record_distribution("unknown", &names(&[]), &names(&[]), 12));
    assert_eq!(m.cert_tracker.certificates.len(), 1);
    assert!(listed(&hosts, "b"));
    assert!(!listed(&hosts, "d"));
}

#[test]
fn answers_without_question_or_consent_do_nothing() {
    let mut m = manager();
    m.mode = AppMode::Confirmation;
    assert_eq!(m.handle_confirmation(true), Errand::Nothing);
    assert_eq!(m.mode, AppMode::Normal);
    for callback in [
        ConfirmationCallback::RootCA,
        ConfirmationCallback::KubernetesCA,
        ConfirmationCallback::CAChain,
        ConfirmationCallback::AutomateAll,
        ConfirmationCallback::VerifyChains,
        ConfirmationCallback::DistributePending,
    ] {
        let mut m = manager();
        m.record_kubernetes_ca(1);
        let before = m.cert_tracker.clone();
        ask(&mut m, callback);
        assert_eq!(m.handle_confirmation(false), Errand::Nothing);
        assert_eq!(m.cert_tracker, before);
        assert!(m.confirmation_dialog.is_none());
        assert_eq!(m.mode, AppMode::Normal);
    }
}

#[test]
fn confirmed_answers_set_off_their_work() {
    let all = names(&["10.0.0.1", "10.0.0.11", "10.0.0.12"]);
    let mut m = manager();
    ask(&mut m, ConfirmationCallback::RootCA);
    assert_eq!(
        m.handle_confirmation(true),
        Errand::Distribute(vec![DistributionJob {
            cert_type: "Root CA".to_string(),
            source: "certs/root-ca/ca.crt".to_string(),
            hosts: names(&["10.0.0.1"]),
        }])
    );
    assert!(m.confirmation_dialog.is_none());
    assert_eq!(m.mode, AppMode::Normal);

    m.cert_tracker.add_certificate_at("Kubernetes CA", "p", all.clone(), 1);
    m.cert_tracker.mark_verified("Kubernetes CA", true);
    ask(&mut m, ConfirmationCallback::KubernetesCA);
    assert_eq!(
        m.handle_confirmation(true),
        Errand::Distribute(vec![DistributionJob {
            cert_type: "Kubernetes CA".to_string(),
            source: "certs/kubernetes-ca/ca.crt".to_string(),
            hosts: all.clone(),
        }])
    );
    assert_eq!(m.cert_tracker.certificates[0].verified, Some(false));

    ask(&mut m, ConfirmationCallback::CAChain);
    assert_eq!(
        m.handle_confirmation(true),
        Errand::Distribute(vec![DistributionJob {
            cert_type: "ca-chain".to_string(),
            source: "certs/kubernetes-ca/ca-chain.crt".to_string(),
            hosts: all.clone(),
        }])
    );
    ask(&mut m, ConfirmationCallback::AutomateAll);
    assert_eq!(m.handle_confirmation(true), Errand::Automate);
    ask(&mut m, ConfirmationCallback::VerifyChains);
    assert_eq!(m.handle_confirmation(true), Errand::Verify);

    let mut p = manager();
    p.record_ca_setup(1);
    p.record_encryption_config(1);
    assert_eq!(p.handle_confirmation(true), Errand::Distribute(p.pending_jobs()));
    let jobs = p.pending_jobs();
    assert_eq!(jobs.len(), 4);
    assert!(jobs.iter().all(|j| !j.cert_type.contains("root-ca")));
}

#[test]
fn finishing_a_distribution() {
    let all = names(&["10.0.0.1", "10.0.0.11", "10.0.0.12"]);
    let mut m = manager();
    m.cert_tracker.add_certificate_at("Kubernetes CA", "p", all.clone(), 1);
    m.cert_tracker.mark_verified("Kubernetes CA", false);
    let job = DistributionJob { cert_type: "Kubernetes CA".to_string(), source: "s".to_string(), hosts: all.clone() };
    assert!(!m.finish_distribution(ConfirmationCallback::KubernetesCA, &job, &names(&["10.0.0.1"]), 5));
    assert_eq!(m.cert_tracker.certificates[0].distributed, None);
    assert_eq!(m.cert_tracker.certificates[0].verified, Some(false));
    assert!(m.finish_distribution(ConfirmationCallback::KubernetesCA, &job, &all, 6));
    assert_eq!(m.cert_tracker.certificates[0].distributed, Some(6));
    assert_eq!(m.cert_tracker.certificates[0].verified, Some(true));
    assert!(m.confirmation_dialog.is_none());

    let root = DistributionJob { cert_type: "Root CA".to_string(), source: "s".to_string(), hosts: names(&["10.0.0.1"]) };
    assert!(!m.finish_distribution(ConfirmationCallback::RootCA, &root, &names(&[]), 7));
    assert!(m.confirmation_dialog.is_none());
    assert!(m.finish_distribution(ConfirmationCallback::RootCA, &root, &names(&["10.0.0.1"]), 7));
    assert_eq!(m.confirmation_dialog.clone().unwrap().callback, ConfirmationCallback::CAChain);

    let mut d = manager();
    d.cert_tracker.add_certificate_at("scheduler", "certs/scheduler", names(&["a"]), 1);
    let sched = DistributionJob { cert_type: "scheduler".to_string(), source: "s".to_string(), hosts: names(&["a"]) };
    assert!(d.finish_distribution(ConfirmationCallback::DistributePending, &sched, &names(&["a"]), 8));
    assert_eq!(d.cert_tracker.certificates[0].distributed, Some(8));
    assert_eq!(d.cert_tracker.certificates[0].verified, None);
}

fn status(cert_type: &str) -> CertificateStatus {
    CertificateStatus {
        cert_type: cert_type.to_string(),
        generated: 0,
        distributed: None,
        path: "p".to_string(),
        hosts: vec![],
        verified: None,
        last_verified: None,
    }
}

#[test]
fn local_checks_by_kind() {
    assert_eq!(CertManager::local_check(&status("kubeconfig-admin")), CheckKind::Trusted);
    assert_eq!(CertManager::local_check(&status("encryption-config")), CheckKind::Trusted);
    assert_eq!(CertManager::local_check(&status("root-ca")), CheckKind::Alone);
    assert_eq!(CertManager::local_check(&status("kubernetes-ca")), CheckKind::Alone);
    assert_eq!(CertManager::local_check(&status("ca.crt")), CheckKind::Chained);
    assert_eq!(CertManager::local_check(&status("kubeconfig")), CheckKind::Chained);
    assert_eq!(CertManager::local_check(&status("Controller Manager")), CheckKind::Chained);
}

#[test]
fn automation_runs_every_ca_before_what_it_signs() {
    assert_eq!(
        CertManager::automation_stages(),
        vec![
            Stage::CleanUp,
            Stage::RootCA,
            Stage::KubernetesCA,
            Stage::ControlPlane,
            Stage::WorkerNodes,
            Stage::ServiceAccount,
            Stage::Kubeconfigs,
            Stage::EncryptionConfig,
        ]
    );
    let mut m = manager();
    m.automate_all();
    assert_eq!(m.mode, AppMode::Confirmation);
    let d = m.confirmation_dialog.unwrap();
    assert_eq!(d.callback, ConfirmationCallback::DistributePending);
    assert_eq!(d.message, "Do you want to distribute all generated certificates and configs?");
}

#[test]
fn clean_up_runbook() {
    assert_eq!(CertManager::clean_up(), names(&["./*/serial", "./*/index.txt"]));
    assert_eq!(
        CertManager::clean_directory("./ca").steps,
        vec![
            Step::DebugLog("Cleaning directory: ./ca".to_string()),
            Step::WriteFile { path: "./ca/serial".to_string(), content: "01".to_string() },
            Step::WriteFile { path: "./ca/index.txt".to_string(), content: String::new() },
            Step::RemoveFile("./ca/index.txt.old".to_string()),
            Step::RemoveFile("./ca/serial.old".to_string()),
        ]
    );
    assert_eq!(
        CertManager::clean_patterns("./ca"),
        names(&["./ca/**/*.pem", "./ca/**/*.key", "./ca/**/*.crt", "./ca/**/*.csr"])
    );
}

#[test]
fn manager_runbooks_come_from_the_operations() {
    let mut m = manager();
    let ops = m.get_cert_ops().clone();
    assert_eq!(m.generate_root_ca(), ops.setup_ca_certificates(&vec![]));
    assert_eq!(m.current_operation, "Generating Root CA");
    let mut cluster_ca = ops.generate_cert(
        "ca",
        "certs/root-ca",
        &kube_certs::operations::CertificateOperations::kubernetes_ca_config(),
        &vec![],
    );
    cluster_ca.extend(ops.create_ca_chain());
    assert_eq!(m.generate_kubernetes_cert(), cluster_ca);
    assert_eq!(m.create_kubernetes_ca_chain(), ops.create_ca_chain());
    assert_eq!(
        m.generate_kubelet_client_cert(),
        ops.generate_cert(
            "kube-apiserver-kubelet-client",
            "certs/kubernetes-ca",
            &kube_certs::generators::KubeletClientCertGenerator::config(true),
            &vec![]
        )
    );
    assert_eq!(
        m.generate_controller_manager_cert(),
        kube_certs::generators::ControllerManagerGenerator::new(&ops).generate_certificate("10.0.0.1")
    );
    let sa = kube_certs::generators::ServiceAccountGenerator::new("certs/service-account".to_string(), &ops)
        .generate_service_account_keys();
    assert_eq!(m.generate_service_account_keys(), sa);
    let control = m.generate_control_plane_certs();
    assert_eq!(control.steps[0], Step::Log("Generating API Server Certificate".to_string()));
    assert_eq!(&control.steps[control.steps.len() - sa.steps.len()..], &sa.steps[..]);
    assert_eq!(m.worker_positions(), vec![(0, "10.0.0.11".to_string()), (1, "10.0.0.12".to_string())]);
    let nodes = m.generate_worker_node_certs();
    let g = kube_certs::generators::NodeCertGenerator::new(&ops);
    assert_eq!(nodes, vec![
        g.generate_node_certificate("node-1", "10.0.0.11", 0),
        g.generate_node_certificate("node-2", "10.0.0.12", 1),
    ]);
    assert!(m.cert_tracker.certificates.is_empty());
}

#[test]
fn generators_and_metrics_switches() {
    let mut m = manager();
    m.init_generators();
    let k = m.kubeconfig_generator.clone().unwrap();
    assert_eq!(k.control_plane_ip, "10.0.0.1");
    assert_eq!(k.output_dir, "kubeconfig");
    assert_eq!(k.ca_path, "certs/kubernetes-ca/ca-chain.crt");
    assert_eq!(m.encryption_generator.clone().unwrap().output_path, "encryption-config.yaml");
    m.enable_metrics("kubeconfig/admin.conf".to_string());
    assert!(m.metrics_enabled);
    assert_eq!(m.metrics_collector.clone().unwrap().kubeconfig_path, "kubeconfig/admin.conf");
    assert!(m.metrics_collector.clone().unwrap().enabled);
    m.disable_metrics();
    assert!(!m.metrics_enabled);
    assert!(m.metrics_collector.is_none());
}

#[test]
fn editing_the_configuration_form() {
    let mut m = manager();
    m.mode = AppMode::EditConfig;
    m.handle_config_edit(EditKey::Down, vec![]);
    assert_eq!(m.config_editor.current_field, 1);
    m.handle_config_edit(EditKey::Up, vec![]);
    m.handle_config_edit(EditKey::Up, vec![]);
    assert_eq!(m.config_editor.current_field, 4);
    m.handle_config_edit(EditKey::Down, vec![]);
    assert_eq!(m.config_editor.current_field, 0);
    m.handle_config_edit(EditKey::Down, vec![]);
    m.handle_config_edit(EditKey::Down, vec![]);
    assert_eq!(m.config_editor.current_field, 2);
    m.handle_config_edit(EditKey::Char('x'), vec![]);
    assert_eq!(m.config_editor.editing_value, "");
    m.handle_config_edit(EditKey::Enter, vec![]);
    assert!(m.config_editor.is_editing);
    assert_eq!(m.config_editor.editing_value, "10.0.0.11,10.0.0.12");
    m.handle_config_edit(EditKey::Up, vec![]);
    assert_eq!(m.config_editor.current_field, 2);
    m.handle_config_edit(EditKey::Backspace, vec![]);
    m.handle_config_edit(EditKey::Char('9'), vec![]);
    m.handle_config_edit(EditKey::Char(','), vec![]);
    m.handle_config_edit(EditKey::Char(' '), vec![]);
    m.handle_config_edit(EditKey::Char('n'), vec![]);
    assert_eq!(m.config_editor.editing_value, "10.0.0.11,10.0.0.19, n");
    m.handle_config_edit(EditKey::Other, vec![]);
    m.handle_config_edit(EditKey::Enter, vec![]);
    assert!(!m.config_editor.is_editing);
    assert_eq!(m.config_editor.editing_value, "");
    assert_eq!(m.config_editor.fields[2], "10.0.0.11,10.0.0.19, n");
    assert_eq!(m.config.worker_nodes, names(&["10.0.0.11", "10.0.0.19", "n"]));
    assert_eq!(m.config.control_plane, "10.0.0.1");
    assert!(m.logs[0].ends_with(": Configuration field updated"));
    m.handle_config_edit(EditKey::Enter, vec![]);
    m.handle_config_edit(EditKey::Char('z'), vec![]);
    m.handle_config_edit(EditKey::Esc, vec![]);
    assert!(!m.config_editor.is_editing);
    assert_eq!(m.config_editor.fields[2], "10.0.0.11,10.0.0.19, n");
    assert_eq!(m.mode, AppMode::EditConfig);
    m.handle_config_edit(EditKey::Esc, vec![]);
    assert_eq!(m.mode, AppMode::Normal);
    let mut b = manager();
    b.handle_config_edit(EditKey::Enter, vec![]);
    for _ in 0..20 {
        b.handle_config_edit(EditKey::Backspace, vec![]);
    }
    assert_eq!(b.config_editor.editing_value, "");
}

#[test]
fn tab_completion_in_the_form() {
    let mut m = manager();
    m.config_editor.current_field = 4;
    m.handle_config_edit(EditKey::Tab, names(&["a"]));
    assert_eq!(m.config_editor.editing_value, "");
    m.handle_config_edit(EditKey::Enter, vec![]);
    assert_eq!(m.config_editor.editing_value, "~/.ssh/id_rsa");
    assert!(m.config_editor.wants_completions());
    m.handle_config_edit(EditKey::Tab, names(&["/k/a", "/k/b"]));
    assert_eq!(m.config_editor.editing_value, "/k/a");
    assert!(!m.config_editor.wants_completions());
    m.handle_config_edit(EditKey::Tab, names(&["ignored"]));
    assert_eq!(m.config_editor.editing_value, "/k/b");
    m.handle_config_edit(EditKey::Tab, vec![]);
    assert_eq!(m.config_editor.editing_value, "/k/a");
    m.handle_config_edit(EditKey::Char('x'), vec![]);
    assert_eq!(m.config_editor.editing_value, "/k/ax");
    assert!(m.config_editor.completions.is_empty());
    m.handle_config_edit(EditKey::Tab, vec![]);
    assert_eq!(m.config_editor.editing_value, "/k/ax");
}

#[test]
fn menu_entries_and_their_actions() {
    let expected = [
        MenuAction::GenerateRootCA,
        MenuAction::GenerateKubernetesCA,
        MenuAction::GenerateKubeletClientCert,
        MenuAction::GenerateNodeCerts,
        MenuAction::GenerateServiceAccountKeys,
        MenuAction::GenerateControllerManagerCert,
        MenuAction::GenerateKubeconfigs,
        MenuAction::GenerateEncryptionConfig,
        MenuAction::EditConfiguration,
        MenuAction::SaveConfiguration,
        MenuAction::VerifyCertificates,
        MenuAction::Exit,
        MenuAction::DistributePending,
        MenuAction::SaveCertificateStatus,
        MenuAction::ImportExistingCertificates,
        MenuAction::AutomateAll,
    ];
    for (i, action) in expected.iter().enumerate() {
        assert_eq!(CertManager::menu_action(i), *action);
    }
    assert_eq!(CertManager::menu_action(16), MenuAction::NotImplemented);
    assert_eq!(CertManager::menu_action(usize::MAX), MenuAction::NotImplemented);
    let m = manager();
    assert_eq!(m.menu_items[11], "Exit");
    assert_eq!(m.menu_items[12], "Distribute Pending Certificates");
}

#[test]
fn menu_navigation_goes_round_and_scrolls() {
    let mut m = manager();
    m.navigate(NavKey::Up);
    assert_eq!((m.selected_menu, m.menu_scroll), (15, 0));
    m.navigate(NavKey::Down);
    assert_eq!((m.selected_menu, m.menu_scroll), (0, 0));
    m.menu_items.push("seventeen".to_string());
    m.menu_items.push("eighteen".to_string());
    m.navigate(NavKey::Up);
    assert_eq!((m.selected_menu, m.menu_scroll), (17, 2));
    m.navigate(NavKey::Up);
    assert_eq!((m.selected_menu, m.menu_scroll), (16, 2));
    m.selected_menu = 1;
    m.navigate(NavKey::Up);
    assert_eq!((m.selected_menu, m.menu_scroll), (0, 0));
    for _ in 0..15 {
        m.navigate(NavKey::Down);
    }
    assert_eq!((m.selected_menu, m.menu_scroll), (15, 0));
    m.navigate(NavKey::Down);
    assert_eq!((m.selected_menu, m.menu_scroll), (16, 1));
    m.navigate(NavKey::Down);
    assert_eq!((m.selected_menu, m.menu_scroll), (17, 2));
    m.navigate(NavKey::Down);
    assert_eq!((m.selected_menu, m.menu_scroll), (0, 0));
    m.navigate(NavKey::PageDown);
    assert_eq!((m.selected_menu, m.menu_scroll), (10, 2));
    m.navigate(NavKey::PageDown);
    assert_eq!((m.selected_menu, m.menu_scroll), (17, 2));
    m.navigate(NavKey::PageUp);
    assert_eq!((m.selected_menu, m.menu_scroll), (7, 0));
    m.navigate(NavKey::PageUp);
    assert_eq!((m.selected_menu, m.menu_scroll), (0, 0));
    m.selected_menu = usize::MAX;
    m.navigate(NavKey::Down);
    assert_eq!(m.selected_menu, 0);
    m.selected_menu = usize::MAX;
    m.navigate(NavKey::Up);
    assert_eq!(m.selected_menu, 17);
    let mut empty = manager();
    empty.menu_items.clear();
    empty.navigate(NavKey::Down);
    empty.navigate(NavKey::PageDown);
    assert_eq!((empty.selected_menu, empty.menu_scroll), (0, 0));
}

#[test]
fn pane_navigation() {
    let mut m = manager();
    m.navigate(NavKey::Right);
    assert_eq!(m.active_section, ActiveSection::CertStatus);
    for i in 0..25 {
        m.cert_tracker.add_certificate_at(&format!("c{}", i), "p", vec![], 0);
    }
    m.navigate(NavKey::Up);
    assert_eq!(m.cert_status_scroll, 0);
    m.navigate(NavKey::Down);
    assert_eq!(m.cert_status_scroll, 1);
    m.navigate(NavKey::PageDown);
    assert_eq!(m.cert_status_scroll, 11);
    m.navigate(NavKey::PageDown);
    assert_eq!(m.cert_status_scroll, 15);
    m.navigate(NavKey::Down);
    assert_eq!(m.cert_status_scroll, 15);
    m.navigate(NavKey::PageUp);
    assert_eq!(m.cert_status_scroll, 5);
    m.navigate(NavKey::PageUp);
    assert_eq!(m.cert_status_scroll, 0);
    assert_eq!(m.selected_menu, 0);
    m.navigate(NavKey::Right);
    assert_eq!(m.active_section, ActiveSection::Logs);
    for i in 0..30 {
        m.log_at("t", &format!("{}", i));
    }
    assert_eq!(m.log_scroll, 12);
    m.navigate(NavKey::Up);
    assert_eq!(m.log_scroll, 11);
    m.navigate(NavKey::PageDown);
    assert_eq!(m.log_scroll, 21);
    m.navigate(NavKey::Right);
    assert_eq!(m.active_section, ActiveSection::TrustInfo);
    m.navigate(NavKey::Down);
    assert_eq!(m.trust_info_scroll, 0);
    m.trust_store = Some(
        (0..12)
            .map(|i| kube_certs::discovery::NodeTrustInfo {
                node_ip: format!("n{}", i),
                certificates: vec![],
                trust_chain_valid: true,
                permissions_valid: true,
                expiring_soon: vec![],
                last_checked: 0,
            })
            .collect(),
    );
    m.navigate(NavKey::Down);
    assert_eq!(m.trust_info_scroll, 1);
    m.navigate(NavKey::PageDown);
    assert_eq!(m.trust_info_scroll, 4);
    m.navigate(NavKey::Down);
    assert_eq!(m.trust_info_scroll, 4);
    m.navigate(NavKey::PageUp);
    assert_eq!(m.trust_info_scroll, 0);
    m.navigate(NavKey::Right);
    assert_eq!(m.active_section, ActiveSection::Menu);
    m.navigate(NavKey::Left);
    assert_eq!(m.active_section, ActiveSection::TrustInfo);
    assert_eq!((m.log_scroll, m.cert_status_scroll), (21, 0));
}

#[test]
fn offering_pending_distribution() {
    let mut m = manager();
    assert!(!m.offer_pending_distribution());
    assert!(m.confirmation_dialog.is_none());
    assert_eq!(m.mode, AppMode::Normal);
    assert!(m.logs[0].ends_with(": No pending certificates to distribute"));
    m.record_ca_setup(1);
    m.confirmation_dialog = None;
    m.mode = AppMode::Normal;
    for i in 0..9 {
        m.cert_tracker.add_certificate_at(&format!("c{}", i), "p", vec![], 0);
    }
    assert!(m.offer_pending_distribution());
    let d = m.confirmation_dialog.clone().unwrap();
    assert_eq!(d.message, "Distribute 12 pending certificates?");
    assert_eq!(d.callback, ConfirmationCallback::DistributePending);
    assert_eq!(m.mode, AppMode::Confirmation);
    m.offer("Sure?", ConfirmationCallback::AutomateAll);
    assert_eq!(
        m.confirmation_dialog,
        Some(ConfirmationDialog { message: "Sure?".to_string(), callback: ConfirmationCallback::AutomateAll })
    );
}

#[test]
fn pending_operation_logs_move_into_the_log_pane() {
    let mut m = CertManager::new(cluster(), true);
    m.log_at("t", "first");
    let ops = m.cert_ops.as_mut().unwrap();
    ops.log("one");
    ops.debug_log("two");
    m.process_pending_logs();
    assert_eq!(m.logs.len(), 3);
    assert!(m.logs[1].ends_with(": one"));
    assert!(m.logs[2].ends_with(": [DEBUG] two"));
    assert_eq!(m.logs[1][..8], m.logs[2][..8]);
    assert!(m.cert_ops.as_ref().unwrap().logger.pending.is_empty());
    m.process_pending_logs();
    assert_eq!(m.logs.len(), 3);
    m.cert_ops = None;
    m.process_pending_logs();
    assert_eq!(m.logs.len(), 3);
}

#[test]
fn verification_tasks_follow_the_ledger() {
    let mut m = manager();
    m.cert_tracker.add_certificate_at("kubeconfig-admin", "kubeconfig/admin.conf", vec![], 0);
    m.cert_tracker.add_certificate_at("root-ca", "certs/root-ca/ca.crt", vec![], 0);
    m.cert_tracker.add_certificate_at("scheduler", "certs/scheduler/scheduler.crt", vec![], 0);
    let tasks = m.verify_certificates();
    assert_eq!(tasks.len(), 3);
    assert_eq!(tasks[0].kind, CheckKind::Trusted);
    assert!(tasks[0].plan.steps.is_empty());
    assert_eq!((tasks[1].cert_type.as_str(), tasks[1].path.as_str()), ("root-ca", "certs/root-ca/ca.crt"));
    assert_eq!(tasks[1].kind, CheckKind::Alone);
    assert_eq!(tasks[1].plan.steps.len(), 1);
    assert_eq!(tasks[2].kind, CheckKind::Chained);
    assert_eq!(tasks[2].plan.steps.len(), 2);
    match &tasks[2].plan.steps[1] {
        Step::Run { command, .. } => assert_eq!(
            command.args,
            names(&["verify", "-CAfile", "certs/kubernetes-ca/ca-chain.crt", "certs/scheduler/scheduler.crt"])
        ),
        _ => panic!("not a run"),
    }
    assert!(manager().verify_certificates().is_empty());
}

#[test]
fn kubeconfigs_and_encryption_config_through_the_manager() {
    let mut m = manager();
    let plan = m.generate_all_kubeconfigs();
    let g = m.kubeconfig_generator.clone().unwrap();
    let mut expected = g.generate_all_kubeconfigs();
    expected.extend(g.generate_node_kubeconfigs(&m.worker_positions()));
    assert_eq!(plan, expected);
    assert_eq!(plan.steps.len(), 1 + 3 * 4 + 2 * 4);
    assert_eq!(m.current_operation, "Generating Kubeconfigs");
    assert!(m.cert_tracker.certificates.is_empty());

    let refused = m.generate_encryption_config(&vec![1u8; 31], 5);
    assert_eq!(refused, Err(kube_certs::error::IoFailure::other("Failed to generate random key".to_string())));
    assert!(m.cert_tracker.certificates.is_empty());
    let made = m.generate_encryption_config(&vec![0u8; 32], 5).unwrap();
    assert_eq!(
        made.resources[0].providers[0].aescbc.clone().unwrap().keys[0].secret,
        "AAAAAAAAAAAAAAAAAAAAAAAAAAAAAAAAAAAAAAAAAAA="
    );
    let e = entry(&m, "encryption-config");
    assert_eq!((e.path.as_str(), e.generated), ("encryption-config.yaml", 5));
    assert_eq!(e.hosts, names(&["10.0.0.1"]));
}

#[test]
fn verification_outcomes_reach_the_ledger() {
    let mut m = manager();
    m.cert_tracker.add_certificate_at("kubeconfig-admin", "kubeconfig/admin.conf", vec![], 0);
    m.cert_tracker.add_certificate_at("scheduler", "certs/scheduler/scheduler.crt", vec![], 0);
    m.cert_tracker.add_certificate_at("root-ca", "certs/root-ca/ca.crt", vec![], 0);
    let tasks = m.verify_certificates();
    m.record_verification(&tasks[0], false, true);
    m.record_verification(&tasks[1], false, true);
    assert!(m.cert_tracker.certificates.iter().all(|c| c.verified.is_none()));
    m.record_verification(&tasks[0], true, false);
    m.record_verification(&tasks[1], true, false);
    m.record_verification(&tasks[2], true, true);
    let verdicts: Vec<Option<bool>> = m.cert_tracker.certificates.iter().map(|c| c.verified).collect();
    assert_eq!(verdicts, vec![Some(true), Some(false), Some(true)]);
    m.record_verification(&tasks[1], true, true);
    assert_eq!(m.cert_tracker.certificates[1].verified, Some(true));
    m.record_service_account_keys(1);
    m.record_service_account_check(false);
    assert_eq!(entry(&m, "SA Public Key").verified, Some(false));
    assert_eq!(entry(&m, "SA Private Key").verified, Some(false));
    m.record_service_account_check(true);
    assert_eq!(entry(&m, "SA Private Key").verified, Some(true));
    assert!(m.logs.is_empty());
}

#[test]
fn answers_tell_the_operator_what_they_set_off() {
    let last = |m: &CertManager| m.logs.last().cloned().unwrap_or_default();
    for (callback, line) in [
        (ConfirmationCallback::RootCA, "Distribution of Root CA certificates was canceled by the user."),
        (ConfirmationCallback::KubernetesCA, "Distribution of Kubernetes CA certificates was canceled by the user."),
        (ConfirmationCallback::CAChain, "CA chain certificate distribution was canceled by the user."),
        (ConfirmationCallback::AutomateAll, "Automation cancelled by user"),
        (ConfirmationCallback::VerifyChains, "Verification cancelled by user"),
        (ConfirmationCallback::DistributePending, "Distribution of pending certificates cancelled by user"),
    ] {
        let mut m = manager();
        ask(&mut m, callback);
        m.handle_confirmation(false);
        assert_eq!(m.logs.len(), 1);
        assert!(last(&m).ends_with(&format!(": {}", line)));
    }
    let mut m = manager();
    m.handle_confirmation(true);
    assert!(m.logs.is_empty());
    ask(&mut m, ConfirmationCallback::VerifyChains);
    m.handle_confirmation(true);
    assert!(last(&m).ends_with(": Starting verification of distributed certificates..."));
    ask(&mut m, ConfirmationCallback::DistributePending);
    m.handle_confirmation(true);
    assert_eq!(m.logs.len(), 2);
    assert!(last(&m).ends_with(": No certificates pending distribution"));
    m.record_kubernetes_ca(1);
    ask(&mut m, ConfirmationCallback::DistributePending);
    m.handle_confirmation(true);
    assert_eq!(m.logs.len(), 2);
    ask(&mut m, ConfirmationCallback::CAChain);
    m.handle_confirmation(true);
    assert_eq!(m.logs.len(), 2);
    let job = DistributionJob { cert_type: "ca.crt".to_string(), source: "s".to_string(), hosts: names(&["a"]) };
    m.finish_distribution(ConfirmationCallback::DistributePending, &job, &names(&[]), 5);
    assert!(last(&m).ends_with(": Failed to distribute ca.crt to every host"));
    m.finish_distribution(ConfirmationCallback::DistributePending, &job, &names(&["a"]), 5);
    assert!(last(&m).ends_with(": Successfully distributed ca.crt certificates"));
    assert_eq!(m.logs.len(), 4);
}
