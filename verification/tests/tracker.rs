use kube_certs::tracker::{CertTracker, CertificateStatus};

fn hosts(items: &[&str]) -> Vec<String> {
    items.iter().map(|s| s.to_string()).collect()
}

#[test]
fn new_ledger_is_empty() {
    let t = CertTracker::new();
    assert!(t.certificates.is_empty());
    assert!(t.get_undistributed().is_empty());
}

#[test]
fn first_filing_appends_a_fresh_entry() {
    let mut t = CertTracker::new();
    t.add_certificate_at("ca.crt", "kubernetes-ca/ca.crt", hosts(&["10.0.0.1", "10.0.0.2"]), 100);
    assert_eq!(
        t.certificates,
        vec![CertificateStatus {
            cert_type: "ca.crt".to_string(),
            generated: 100,
            distributed: None,
            path: "kubernetes-ca/ca.crt".to_string(),
            hosts: hosts(&["10.0.0.1", "10.0.0.2"]),
            verified: None,
            last_verified: None,
        }]
    );
}

#[test]
fn upsert_twice_resets_distribution() {
    let mut t = CertTracker::new();
    t.add_certificate_at("ca.crt", "kubernetes-ca/ca.crt", hosts(&["10.0.0.1"]), 100);
    t.mark_distributed_at("ca.crt", 150);
    t.mark_verified("ca.crt", true);
    assert_eq!(t.certificates[0].distributed, Some(150));
    t.add_certificate_at("ca.crt", "kubernetes-ca/ca2.crt", hosts(&["10.0.0.2"]), 200);
    assert_eq!(t.certificates.len(), 1);
    assert_eq!(t.certificates[0].distributed, None);
    assert_eq!(t.certificates[0].generated, 200);
    assert_eq!(t.certificates[0].path, "kubernetes-ca/ca2.crt");
    assert_eq!(t.certificates[0].hosts, hosts(&["10.0.0.2"]));
    assert_eq!(t.certificates[0].verified, Some(true));
}

#[test]
fn upsert_keeps_the_place_and_the_other_entries() {
    let mut t = CertTracker::new();
    t.add_certificate_at("a", "certs/a", hosts(&["h"]), 1);
    t.add_certificate_at("b", "certs/b", hosts(&["h"]), 2);
    t.add_certificate_at("c", "certs/c", hosts(&["h"]), 3);
    let before_a = t.certificates[0].clone();
    let before_c = t.certificates[2].clone();
    t.add_certificate_at("b", "certs/b2", hosts(&["k"]), 9);
    assert_eq!(t.certificates.len(), 3);
    assert_eq!(t.certificates[0], before_a);
    assert_eq!(t.certificates[2], before_c);
    assert_eq!(t.certificates[1].cert_type, "b");
    assert_eq!(t.certificates[1].generated, 9);
}

#[test]
fn filing_now_stamps_a_recent_time() {
    let mut t = CertTracker::new();
    t.add_certificate("x", "certs/x", hosts(&["h"]));
    assert!(t.certificates[0].generated > 1_600_000_000);
    assert_eq!(t.certificates[0].distributed, None);
    t.mark_distributed("x");
    let sent = t.certificates[0].distributed;
    assert!(sent.is_some());
    assert!(sent >= Some(t.certificates[0].generated));
    t.add_certificate("x", "certs/x", hosts(&["h"]));
    assert_eq!(t.certificates[0].distributed, None);
    assert_eq!(t.certificates.len(), 1);
}

#[test]
fn marking_an_unknown_name_changes_nothing() {
    let mut t = CertTracker::new();
    t.add_certificate_at("a", "certs/a", hosts(&["h"]), 1);
    let before = t.clone();
    t.mark_verified("missing", true);
    t.mark_distributed_at("missing", 5);
    t.mark_distributed("missing");
    assert_eq!(t, before);
}

#[test]
fn marks_touch_only_their_field() {
    let mut t = CertTracker::new();
    t.add_certificate_at("a", "certs/a", hosts(&["h"]), 1);
    t.mark_verified("a", false);
    assert_eq!(t.certificates[0].verified, Some(false));
    assert_eq!(t.certificates[0].distributed, None);
    assert_eq!(t.certificates[0].last_verified, None);
    t.mark_distributed_at("a", 77);
    assert_eq!(t.certificates[0].distributed, Some(77));
    assert_eq!(t.certificates[0].verified, Some(false));
    assert_eq!(t.certificates[0].generated, 1);
}

#[test]
fn pending_leaves_out_root_and_distributed() {
    let mut t = CertTracker::new();
    t.add_certificate_at("root-ca", "root-ca/ca.crt", hosts(&["h"]), 1);
    t.add_certificate_at("ca.crt", "kubernetes-ca/ca.crt", hosts(&["h"]), 1);
    t.add_certificate_at("my-root-ca-copy", "x", hosts(&["h"]), 1);
    t.add_certificate_at("kube-apiserver", "certs/kube-apiserver", hosts(&["h"]), 1);
    t.add_certificate_at("scheduler", "certs/scheduler", hosts(&["h"]), 1);
    t.mark_distributed_at("kube-apiserver", 2);
    let pending: Vec<String> =
        t.get_undistributed().iter().map(|e| e.cert_type.clone()).collect();
    assert_eq!(pending, vec!["ca.crt".to_string(), "scheduler".to_string()]);
}

#[test]
fn pending_never_holds_the_root_even_when_alone() {
    let mut t = CertTracker::new();
    t.add_certificate_at("root-ca", "root-ca/ca.crt", hosts(&["h"]), 1);
    assert!(t.get_undistributed().is_empty());
}

#[test]
fn position_finds_the_first_entry() {
    let mut t = CertTracker::new();
    t.add_certificate_at("a", "p", hosts(&[]), 1);
    t.add_certificate_at("b", "p", hosts(&[]), 1);
    assert_eq!(t.position("a"), Some(0));
    assert_eq!(t.position("b"), Some(1));
    assert_eq!(t.position("c"), None);
    t.certificates.push(t.certificates[0].clone_entry());
    assert_eq!(t.position("a"), Some(0));
}

#[test]
fn batch_operations_apply_in_order() {
    let mut t = CertTracker::new();
    let entries = vec![
        ("a".to_string(), "pa".to_string()),
        ("b".to_string(), "pb".to_string()),
        ("a".to_string(), "pa2".to_string()),
    ];
    t.add_all(&entries, &hosts(&["h1", "h2"]), 10);
    assert_eq!(t.certificates.len(), 2);
    assert_eq!(t.certificates[0].path, "pa2");
    assert_eq!(t.certificates[1].hosts, hosts(&["h1", "h2"]));
    t.mark_all_verified(&hosts(&["a", "zzz"]), true);
    assert_eq!(t.certificates[0].verified, Some(true));
    assert_eq!(t.certificates[1].verified, None);
    t.mark_all_distributed(&hosts(&["b"]), 20);
    assert_eq!(t.certificates[1].distributed, Some(20));
    assert_eq!(t.certificates[0].distributed, None);
}
