use kube_certs::cert_types::{AltName, AltNameType, CertificateConfig, CertificateType};
use kube_certs::openssl::{
    extensions_content, generate_csr, generate_csr_config, generate_private_key, sign_certificate,
    verify_certificate,
};
use kube_certs::steps::{FailureKind, Invocation, Step};

fn strings(items: &[&str]) -> Vec<String> {
    items.iter().map(|s| s.to_string()).collect()
}

fn config(kind: CertificateType, alt_names: Vec<AltName>) -> CertificateConfig {
    CertificateConfig {
        cert_type: kind,
        common_name: "kube-apiserver".to_string(),
        organization: Some("Kubernetes".to_string()),
        validity_days: 375,
        key_size: 2048,
        output_dir: "certs/kube-apiserver".to_string(),
        alt_names,
        key_usage: strings(&["critical", "digitalSignature", "keyEncipherment"]),
        extended_key_usage: strings(&["serverAuth"]),
        country: None,
        state: None,
        locality: None,
    }
}

const REQ_HEAD: &str = "[req]\nreq_extensions = v3_req\ndistinguished_name = req_distinguished_name\nprompt = no\n\n[req_distinguished_name]\n";
const REQ_TAIL: &str = "\n\n[v3_req]\nbasicConstraints = CA:FALSE\nkeyUsage = nonRepudiation, digitalSignature, keyEncipherment\n";

#[test]
fn alt_name_constructors_and_inline_form() {
    let d = AltName::dns("kubernetes".to_string());
    let i = AltName::ip("10.0.0.1".to_string());
    assert_eq!(d.alt_type, AltNameType::DNS);
    assert_eq!(i.alt_type, AltNameType::IP);
    assert_eq!(d.to_openssl_format(), "DNS:kubernetes");
    assert_eq!(i.to_openssl_format(), "IP:10.0.0.1");
}

#[test]
fn csr_config_without_alt_names() {
    let c = config(CertificateType::APIServer, vec![]);
    assert_eq!(
        generate_csr_config(&c),
        format!("{}CN = kube-apiserver\nO = Kubernetes{}", REQ_HEAD, REQ_TAIL)
    );
}

#[test]
fn csr_config_defaults_the_organization() {
    let mut c = config(CertificateType::APIServer, vec![]);
    c.organization = None;
    c.common_name = "x".to_string();
    assert_eq!(generate_csr_config(&c), format!("{}CN = x\nO = Kubernetes{}", REQ_HEAD, REQ_TAIL));
    c.organization = Some("system:masters".to_string());
    assert_eq!(
        generate_csr_config(&c),
        format!("{}CN = x\nO = system:masters{}", REQ_HEAD, REQ_TAIL)
    );
}

#[test]
fn csr_config_numbers_each_type_on_its_own() {
    let c = config(
        CertificateType::APIServer,
        vec![
            AltName::dns("localhost".to_string()),
            AltName::ip("127.0.0.1".to_string()),
            AltName::dns("kubernetes".to_string()),
            AltName::ip("10.96.0.1".to_string()),
            AltName::dns("kubernetes.default".to_string()),
        ],
    );
    let expected = format!(
        "{}CN = kube-apiserver\nO = Kubernetes{}subjectAltName = @alt_names\n\n[alt_names]\nDNS.1 = localhost\nDNS.2 = kubernetes\nDNS.3 = kubernetes.default\nIP.1 = 127.0.0.1\nIP.2 = 10.96.0.1\n",
        REQ_HEAD, REQ_TAIL
    );
    assert_eq!(generate_csr_config(&c), expected);
}

#[test]
fn csr_config_counts_past_nine() {
    let names: Vec<AltName> = (0..11).map(|i| AltName::dns(format!("n{}", i))).collect();
    let text = generate_csr_config(&config(CertificateType::APIServer, names));
    assert!(text.contains("DNS.9 = n8\nDNS.10 = n9\nDNS.11 = n10\n"));
    assert!(!text.contains("IP."));
}

#[test]
fn extensions_for_a_leaf() {
    let c = config(CertificateType::APIServer, vec![AltName::ip("10.0.0.1".to_string())]);
    assert_eq!(
        extensions_content(&c),
        "basicConstraints = critical,CA:FALSE\nkeyUsage = critical, digitalSignature, keyEncipherment\nextendedKeyUsage = serverAuth\nsubjectAltName = @alt_names\n\n[alt_names]\nIP.1 = 10.0.0.1\n"
    );
}

#[test]
fn extensions_for_the_authorities() {
    for kind in [CertificateType::RootCA, CertificateType::KubernetesCA] {
        let mut c = config(kind, vec![]);
        c.key_usage = strings(&["critical", "keyCertSign", "cRLSign"]);
        c.extended_key_usage = vec![];
        assert_eq!(
            extensions_content(&c),
            "basicConstraints = critical,CA:TRUE\nkeyUsage = critical, keyCertSign, cRLSign\n"
        );
    }
    let mut bare = config(CertificateType::Node("node-1".to_string()), vec![]);
    bare.key_usage = vec![];
    bare.extended_key_usage = vec![];
    assert_eq!(extensions_content(&bare), "basicConstraints = critical,CA:FALSE\n");
}

fn run(args: &[&str], cleanup: Option<&str>, kind: FailureKind, context: &str) -> Step {
    Step::Run {
        command: Invocation { program: "openssl".to_string(), args: strings(args) },
        capture: None,
        cleanup: cleanup.map(|s| s.to_string()),
        kind,
        context: context.to_string(),
    }
}

#[test]
fn private_key_runbook() {
    let plan = generate_private_key("certs/x/x.key", 2048);
    assert_eq!(
        plan.steps,
        vec![
            Step::DebugLog("Generating private key: certs/x/x.key".to_string()),
            Step::CreateDir("certs/x".to_string()),
            run(
                &["genrsa", "-out", "certs/x/x.key", "2048"],
                None,
                FailureKind::CertGeneration,
                "Failed to generate private key: certs/x/x.key"
            ),
            Step::Restrict { path: "certs/x/x.key".to_string(), mode: 0o600 },
            Step::DebugLog("Successfully generated private key: certs/x/x.key".to_string()),
        ]
    );
    let flat = generate_private_key("x.key", 4096);
    assert_eq!(flat.steps.len(), 4);
    assert_eq!(flat.steps[2], Step::Restrict { path: "x.key".to_string(), mode: 0o600 });
    assert_eq!(kube_certs::steps::OWNER_ONLY, 0o600);
}

#[test]
fn csr_runbook() {
    let c = config(CertificateType::APIServer, vec![]);
    let plan = generate_csr(&c, "d/k.key", "d/csr");
    assert_eq!(
        plan.steps,
        vec![
            Step::DebugLog("Generating CSR: d/csr".to_string()),
            Step::RequireFile {
                path: "d/k.key".to_string(),
                missing: "Private key not found: d/k.key".to_string()
            },
            Step::WriteFile { path: "d/csr.cnf".to_string(), content: generate_csr_config(&c) },
            Step::DebugLog("Using OpenSSL config: d/csr.cnf".to_string()),
            run(
                &["req", "-new", "-key", "d/k.key", "-out", "d/csr", "-config", "d/csr.cnf", "-batch"],
                Some("d/csr.cnf"),
                FailureKind::CertGeneration,
                "Failed to generate CSR: d/csr"
            ),
            Step::DebugLog("Successfully generated CSR: d/csr".to_string()),
        ]
    );
}

#[test]
fn signing_runbook_for_a_leaf_requires_the_ca() {
    let c = config(CertificateType::APIServer, vec![]);
    let plan = sign_certificate("d/csr", "d/x.crt", "ca/ca.crt", "ca/ca.key", &c);
    assert_eq!(
        plan.steps,
        vec![
            Step::RequireFile {
                path: "ca/ca.crt".to_string(),
                missing: "CA certificate not found: ca/ca.crt".to_string()
            },
            Step::RequireFile {
                path: "ca/ca.key".to_string(),
                missing: "CA key not found: ca/ca.key".to_string()
            },
            Step::DebugLog("Signing certificate: d/x.crt".to_string()),
            Step::WriteFile { path: "d/x.crt.ext".to_string(), content: extensions_content(&c) },
            run(
                &[
                    "x509", "-req", "-CA", "ca/ca.crt", "-CAkey", "ca/ca.key", "-CAcreateserial",
                    "-in", "d/csr", "-out", "d/x.crt", "-days", "375", "-extfile", "d/x.crt.ext"
                ],
                Some("d/x.crt.ext"),
                FailureKind::CertGeneration,
                "Failed to sign certificate: d/x.crt"
            ),
            Step::DebugLog("Successfully signed certificate: d/x.crt".to_string()),
        ]
    );
}

#[test]
fn signing_runbook_for_the_root_signs_itself() {
    let mut c = config(CertificateType::RootCA, vec![]);
    c.validity_days = 3650;
    let plan = sign_certificate("d/csr", "d/ca.crt", "d/ca.key", "d/ca.key", &c);
    assert_eq!(plan.steps.len(), 4);
    assert!(plan.steps.iter().all(|s| !matches!(s, Step::RequireFile { .. })));
    assert_eq!(
        plan.steps[2],
        run(
            &[
                "x509", "-req", "-signkey", "d/ca.key", "-in", "d/csr", "-out", "d/ca.crt",
                "-days", "3650", "-extfile", "d/ca.crt.ext"
            ],
            Some("d/ca.crt.ext"),
            FailureKind::CertGeneration,
            "Failed to sign certificate: d/ca.crt"
        )
    );
}

#[test]
fn verification_runbook() {
    let alone = verify_certificate("c.crt", None);
    assert_eq!(
        alone.steps,
        vec![
            Step::DebugLog("Verifying certificate: c.crt".to_string()),
            run(
                &["x509", "-in", "c.crt", "-noout", "-text"],
                None,
                FailureKind::Verification,
                "Certificate basic check failed: c.crt"
            ),
            Step::DebugLog("Certificate verified successfully: c.crt".to_string()),
        ]
    );
    let chained = verify_certificate("c.crt", Some("ca.crt"));
    assert_eq!(chained.steps.len(), 5);
    assert_eq!(chained.steps[2], Step::DebugLog("Verifying against CA: ca.crt".to_string()));
    assert_eq!(
        chained.steps[3],
        run(
            &["verify", "-CAfile", "ca.crt", "c.crt"],
            None,
            FailureKind::Verification,
            "Certificate chain verification failed: c.crt"
        )
    );
}
