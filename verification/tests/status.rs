use kube_certs::config::ClusterConfig;
use kube_certs::discovery::{CertStatus, CertificateInfo, NodeTrustInfo};
use kube_certs::logging::{FileLogger, Logger, MultiLogger, OperationsLogger};
use kube_certs::metrics::{create_component_metrics, MetricsCollector};
use kube_certs::ssh::SSHConnectionCache;
use kube_certs::status::{
    cluster_info, distribution_label, info_schema, node_info, node_schema, role_label,
    time_text, trust_response, unreachable_nodes, verification_label,
};
use kube_certs::tracker::CertTracker;
use kube_certs::ui_state::{
    ActiveSection, LoadingState, OnboardingState, StepStatus, WebServerState, DEFAULT_PORT,
};
use kube_certs::verification::CertificateVerifier;
use kube_certs::steps::{FailureKind, Invocation, Step};

fn names(items: &[&str]) -> Vec<String> {
    items.iter().map(|s| s.to_string()).collect()
}

#[test]
fn times_are_written_as_rfc3339() {
    assert_eq!(time_text(0), "1970-01-01T00:00:00+00:00");
    assert_eq!(time_text(1_704_067_200), "2024-01-01T00:00:00+00:00");
    assert_eq!(time_text(-1), "1969-12-31T23:59:59+00:00");
    assert_eq!(time_text(i64::MAX), "");
    assert_eq!(time_text(i64::MIN), "");
}

fn sample_info() -> CertificateInfo {
    CertificateInfo {
        path: "p".to_string(),
        subject: "CN=s".to_string(),
        issuer: "CN=i".to_string(),
        not_before: 0,
        not_after: 86400,
        serial: "01".to_string(),
        fingerprint: "ff".to_string(),
        is_ca: true,
        last_verified: Some(60),
        verification_error: Some("bad".to_string()),
    }
}

#[test]
fn schemas_write_records_out() {
    let s = info_schema(&sample_info());
    assert_eq!(s.path, "p");
    assert_eq!(s.subject, "CN=s");
    assert_eq!(s.issuer, "CN=i");
    assert_eq!(s.not_before, "1970-01-01T00:00:00+00:00");
    assert_eq!(s.not_after, "1970-01-02T00:00:00+00:00");
    assert_eq!(s.serial, "01");
    assert_eq!(s.fingerprint, "ff");
    assert!(s.is_ca);
    assert_eq!(s.last_verified, Some("1970-01-01T00:01:00+00:00".to_string()));
    assert_eq!(s.verification_error, Some("bad".to_string()));
    let node = NodeTrustInfo {
        node_ip: "n".to_string(),
        certificates: vec![sample_info(), sample_info()],
        trust_chain_valid: false,
        permissions_valid: true,
        expiring_soon: names(&["CN=s"]),
        last_checked: 120,
    };
    let n = node_schema(&node);
    assert_eq!(n.node_ip, "n");
    assert_eq!(n.certificates, vec![s.clone(), s]);
    assert!(!n.trust_chain_valid);
    assert!(n.permissions_valid);
    assert_eq!(n.expiring_soon, names(&["CN=s"]));
    assert_eq!(n.last_checked, "1970-01-01T00:02:00+00:00");
    let r = trust_response(&vec![node.clone(), node]);
    assert_eq!(r.nodes.len(), 2);
    assert_eq!(r.nodes[0], ("n".to_string(), n));
}

#[test]
fn cluster_report() {
    let config = ClusterConfig {
        control_plane: "cp".to_string(),
        worker_nodes: names(&["w1", "w2"]),
        remote_user: "u".to_string(),
        ssh_key_path: "k".to_string(),
        remote_dir: "d".to_string(),
    };
    let mut t = CertTracker::new();
    t.add_certificate_at("root-ca", "r", names(&["cp", "w1", "w2"]), 0);
    t.add_certificate_at("ca.crt", "c", names(&["cp", "w1"]), 60);
    t.add_certificate_at("kubeconfig-node-2", "k", names(&["w2"]), 120);
    t.mark_distributed_at("ca.crt", 180);
    let mut cache = SSHConnectionCache::new();
    cache.update_status_at("cp", true, 1000);
    cache.update_status_at("w1", false, 1000);
    let info = cluster_info(&config, &t, &cache, 1100, "checked".to_string());
    let ca = CertStatus {
        cert_type: "ca.crt".to_string(),
        status: "Distributed".to_string(),
        last_updated: Some("1970-01-01T00:03:00+00:00".to_string()),
    };
    assert_eq!(info.control_plane.ip, "cp");
    assert_eq!(info.control_plane.certs, vec![ca.clone()]);
    assert_eq!(info.workers.len(), 2);
    assert_eq!(info.workers[0].ip, "w1");
    assert_eq!(info.workers[0].certs, vec![ca]);
    assert_eq!(
        info.workers[1].certs,
        vec![CertStatus {
            cert_type: "kubeconfig-node-2".to_string(),
            status: "Generated".to_string(),
            last_updated: Some("1970-01-01T00:02:00+00:00".to_string()),
        }]
    );
    assert_eq!(info.connectivity.unreachable_nodes, names(&["w1", "w2"]));
    assert_eq!(info.connectivity.total_nodes, 3);
    assert_eq!(info.connectivity.available_nodes, 1);
    assert_eq!(info.connectivity.last_checked, "checked");
    assert_eq!(node_info(&t, "nobody").certs, vec![]);
    assert_eq!(unreachable_nodes(&names(&["cp", "w1"]), &cache, 1300), names(&["cp", "w1"]));
    assert_eq!(unreachable_nodes(&names(&["cp"]), &cache, 1299), names(&[]));
}

#[test]
fn sections_go_round() {
    let (menu, certs, logs, trust) = (ActiveSection::Menu, ActiveSection::CertStatus, ActiveSection::Logs, ActiveSection::TrustInfo);
    assert_eq!(menu.next(), certs);
    assert_eq!(certs.next(), logs);
    assert_eq!(logs.next(), trust);
    assert_eq!(trust.next(), menu);
    assert_eq!(menu.prev(), trust);
    assert_eq!(certs.prev(), menu);
    assert_eq!(logs.prev(), certs);
    assert_eq!(trust.prev(), logs);
    for s in [menu, certs, logs, trust] {
        assert_eq!(s.next().prev(), s);
        assert_eq!(s.prev().next(), s);
    }
}

#[test]
fn loading_steps_advance_one_by_one() {
    let mut l = LoadingState::new();
    let labels: Vec<&str> = l.steps.iter().map(|s| s.0.as_str()).collect();
    assert_eq!(
        labels,
        vec![
            "Loading configuration...",
            "Initializing web server...",
            "Verifying SSH connections...",
            "Initializing certificate manager...",
        ]
    );
    assert!(l.steps.iter().all(|s| s.1 == StepStatus::Pending));
    l.next_step();
    assert_eq!(l.current_step, 1);
    assert_eq!(l.steps[0].1, StepStatus::Complete);
    assert_eq!(l.steps[1].1, StepStatus::InProgress);
    assert_eq!(l.steps[2].1, StepStatus::Pending);
    l.steps[1].1 = StepStatus::Warning("w".to_string());
    l.next_step();
    l.next_step();
    l.next_step();
    assert_eq!(l.current_step, 4);
    assert!(l.steps.iter().all(|s| s.1 == StepStatus::Complete));
    let done = l.clone();
    l.next_step();
    assert_eq!(l, done);
}

#[test]
fn onboarding_fields_go_round() {
    let mut o = OnboardingState::new();
    let labels: Vec<&str> = o.fields.iter().map(|f| f.label.as_str()).collect();
    assert_eq!(
        labels,
        vec!["Control Plane IP", "Worker Node IPs (comma-separated)", "SSH Key Path", "Remote User"]
    );
    assert!(o.fields.iter().all(|f| f.value.is_empty() && !f.editing));
    assert!(!o.completed);
    o.fields[0].editing = true;
    o.fields[0].value = "10.0.0.1".to_string();
    o.next_field();
    assert_eq!(o.current_field, 1);
    assert!(!o.fields[0].editing);
    assert!(o.fields[1].editing);
    assert_eq!(o.fields[0].value, "10.0.0.1");
    o.next_field();
    o.next_field();
    o.next_field();
    assert_eq!(o.current_field, 0);
    assert!(o.fields[0].editing);
    assert!(!o.fields[3].editing);
}

#[test]
fn web_server_state_defaults() {
    assert_eq!(DEFAULT_PORT, 3000);
    assert_eq!(WebServerState::new(None), WebServerState { is_running: false, port: 3000 });
    assert_eq!(WebServerState::new(Some(8080)), WebServerState { is_running: false, port: 8080 });
}

#[test]
fn metrics_commands_and_labels() {
    let off = MetricsCollector::new(false, "k".to_string());
    assert_eq!(off.status_command(), None);
    let on = MetricsCollector::new(true, "kubeconfig/admin.conf".to_string());
    let cmd = on.status_command().unwrap();
    assert_eq!(cmd.program, "kubectl");
    assert_eq!(
        cmd.args,
        vec![
            "--kubeconfig", "kubeconfig/admin.conf", "exec", "-n", "kube-system", "etcd-0", "--",
            "etcdctl", "endpoint", "status", "--write-out=json"
        ]
    );
    assert_eq!(MetricsCollector::db_size_label(0), "0 MB");
    assert_eq!(MetricsCollector::db_size_label(1024 * 1024 - 1), "0 MB");
    assert_eq!(MetricsCollector::db_size_label(25 * 1024 * 1024 + 5), "25 MB");
    let m = create_component_metrics::<u8>(None);
    assert_eq!(m.cpu_usage, Some("45%".to_string()));
    assert_eq!(m.memory_usage, Some("60%".to_string()));
    assert_eq!(m.request_latency, Some("10ms".to_string()));
    assert_eq!(m.request_rate, Some("100 req/s".to_string()));
    assert_eq!(m.db_size, None);
    assert_eq!(create_component_metrics(Some(&5u8)), m);
}

#[test]
fn loggers_lay_out_their_lines() {
    let f = FileLogger { log_file: "app.log".to_string(), debug: true };
    assert_eq!(f.line("2024-01-01 00:00:00", "hello"), "2024-01-01 00:00:00: hello");
    assert_eq!(f.debug_line("t", "d"), Some("t: [DEBUG] d".to_string()));
    let quiet = FileLogger { log_file: "app.log".to_string(), debug: false };
    assert_eq!(quiet.debug_line("t", "d"), None);
    let mut m = MultiLogger { loggers: vec![OperationsLogger::new(true), OperationsLogger::new(false)] };
    m.log("a");
    m.debug_log("b");
    assert_eq!(m.loggers[0].pending, names(&["a", "[DEBUG] b"]));
    assert_eq!(m.loggers[1].pending, names(&["a"]));
}

fn checker() -> CertificateVerifier {
    CertificateVerifier::new(
        OperationsLogger::new(false),
        "admin".to_string(),
        "/etc/kubernetes/pki".to_string(),
        "/keys/id".to_string(),
    )
}

fn check(args: &[&str], context: &str) -> Step {
    Step::Run {
        command: Invocation { program: "openssl".to_string(), args: names(args) },
        capture: None,
        cleanup: None,
        kind: FailureKind::Verification,
        context: context.to_string(),
    }
}

#[test]
fn remote_verification_runbooks() {
    let v = checker();
    assert_eq!(
        v.verify_certificate("c.crt", Some("ca.crt")).steps,
        vec![
            check(&["x509", "-in", "c.crt", "-noout", "-text"], "Basic certificate check failed for c.crt"),
            check(&["verify", "-CAfile", "ca.crt", "c.crt"], "Certificate chain verification failed for c.crt"),
        ]
    );
    assert_eq!(v.verify_certificate("c.crt", None).steps.len(), 1);
    let fetch = v.fetch_with("/keys/id", "h", "/etc/kubernetes/pki/x.crt", "/tmp/t/x.crt");
    assert_eq!(fetch.program, "scp");
    assert_eq!(fetch.args, names(&["-i", "/keys/id", "admin@h:/etc/kubernetes/pki/x.crt", "/tmp/t/x.crt"]));
    assert_eq!(v.copy_from_remote("h", "/etc/kubernetes/pki/x.crt", "/tmp/t/x.crt"), fetch);
    let plan = v.verify_host_certificates("h", "/tmp/t");
    assert_eq!(plan, v.verify_host_certificates_with("/keys/id", "h", "/tmp/t"));
    assert_eq!(plan.steps.len(), 2 + 3 + 3 + 3);
    assert_eq!(
        plan.steps[0],
        Step::Attempt {
            command: v.fetch_with("/keys/id", "h", "/etc/kubernetes/pki/kubernetes-ca-chain.crt", "/tmp/t/kubernetes-ca-chain.crt"),
            skip: 1,
            notice: "Failed to copy kubernetes-ca-chain.crt from h".to_string(),
        }
    );
    assert_eq!(&plan.steps[1..2], &v.verify_certificate("/tmp/t/kubernetes-ca-chain.crt", None).steps[..]);
    for (k, name) in ["kube-apiserver.crt", "controller-manager.crt", "scheduler.crt"].iter().enumerate() {
        let base = 2 + 3 * k;
        let local = format!("/tmp/t/{}", name);
        assert_eq!(
            plan.steps[base],
            Step::Attempt {
                command: v.fetch_with("/keys/id", "h", &format!("/etc/kubernetes/pki/{}", name), &local),
                skip: 2,
                notice: format!("Failed to copy {} from h", name),
            }
        );
        assert_eq!(
            &plan.steps[base + 1..base + 3],
            &v.verify_certificate(&local, Some("/tmp/t/kubernetes-ca-chain.crt")).steps[..]
        );
    }
    let all = v.verify_remote_certificates(&names(&["a", "b"]));
    assert_eq!(all.len(), 2);
    assert_eq!(all[1].host, "b");
    assert_eq!(all[1].temp_dir, "/tmp/cert-verify-b");
    assert_eq!(all[1].plan, v.verify_host_certificates("b", "/tmp/cert-verify-b"));
    assert_eq!(
        v.verify_service_account_keypair("certs/service-account").steps,
        vec![
            Step::Log("Verifying service account key pair...".to_string()),
            check(
                &["rsa", "-in", "certs/service-account/sa.key", "-check", "-noout"],
                "Service account key verification failed"
            ),
            Step::Log("Service account key pair verification successful".to_string()),
        ]
    );
}

#[test]
fn tilde_in_the_key_path_is_written_out() {
    let v = CertificateVerifier::new(OperationsLogger::new(false), "u".to_string(), "d".to_string(), "~/id".to_string());
    let fetch = v.copy_from_remote("h", "r", "l");
    assert_eq!(fetch.args.len(), 4);
    assert!(fetch.args[1].ends_with("/id"));
    assert_eq!(fetch.args[2], "u@h:r");
}

#[test]
fn labels_of_ledger_entries() {
    let mut t = CertTracker::new();
    t.add_certificate_at("root-ca", "r", vec![], 0);
    t.add_certificate_at("kube-apiserver-kubelet-client", "c", vec![], 0);
    t.add_certificate_at("my-server", "s", vec![], 0);
    t.add_certificate_at("ca.crt", "p", vec![], 0);
    t.mark_distributed_at("ca.crt", 1);
    let words: Vec<String> = t.certificates.iter().map(distribution_label).collect();
    assert_eq!(words, names(&["N/A", "Pending", "Pending", "Distributed"]));
    assert_eq!(verification_label(Some(true)), "Verified");
    assert_eq!(verification_label(Some(false)), "Failed");
    assert_eq!(verification_label(None), "Not Verified");
    assert_eq!(role_label("kube-apiserver-kubelet-client"), "Client");
    assert_eq!(role_label("my-server"), "Server");
    assert_eq!(role_label("client-server"), "Client");
    assert_eq!(role_label("ca.crt"), "Peer");
}

#[test]
fn file_logger_and_service_account_runbook() {
    let f = FileLogger::new("logs/app.log", true);
    assert_eq!(f, FileLogger { log_file: "logs/app.log".to_string(), debug: true });
    let ops = kube_certs::operations::CertificateOperations::new(
        OperationsLogger::new(false),
        "d".to_string(),
        "u".to_string(),
        "k".to_string(),
    );
    let plan = ops.generate_service_account_keys(&names(&["h"]));
    assert_eq!(plan.steps.len(), 6);
    assert_eq!(plan.steps[0], Step::Log("Generating service account keys".to_string()));
    assert_eq!(plan.steps[2], Step::CreateDir("certs/service-account".to_string()));
    assert!(plan.steps.iter().all(|s| match s {
        Step::Run { command, .. } => command.program == "openssl",
        _ => true,
    }));
}

#[test]
fn the_clock_is_in_this_century() {
    let t = kube_certs::clock::now();
    assert!(t > 1_700_000_000);
    assert!(t < 4_102_444_800);
    let s = kube_certs::clock::system_now();
    assert!(s + 5 >= t as u64 && s <= t as u64 + 5);
}
