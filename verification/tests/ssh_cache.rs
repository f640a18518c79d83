use kube_certs::ssh::{
    check_decision, clear_expired_entries, probe_command, verify_ssh_connection, CheckDecision,
    ConnectionStatus, HostStatus, SSHConnectionCache, CACHE_VALIDITY_DURATION, RECHECK_INTERVAL,
};

#[test]
fn cache_constants() {
    assert_eq!(CACHE_VALIDITY_DURATION, 300);
    assert_eq!(RECHECK_INTERVAL, 30);
}

#[test]
fn unknown_host_is_not_verified_and_needs_recheck() {
    let c = SSHConnectionCache::new();
    assert!(!c.is_verified_at("h", 100));
    assert!(!c.is_verified("h"));
    assert!(c.needs_recheck_at("h", 100));
    assert!(c.needs_recheck("h"));
    assert!(c.get_all_hosts().is_empty());
    assert_eq!(c.status("h"), None);
}

#[test]
fn verified_for_five_minutes_after_success() {
    let mut c = SSHConnectionCache::new();
    c.update_status_at("h", true, 1000);
    assert!(c.is_verified_at("h", 1000));
    assert!(c.is_verified_at("h", 1001));
    assert!(c.is_verified_at("h", 1299));
    assert!(!c.is_verified_at("h", 1300));
    assert!(!c.is_verified_at("h", 5000));
    assert!(!c.needs_recheck_at("h", 1299));
    assert!(c.needs_recheck_at("h", 1300));
}

#[test]
fn verified_right_after_a_successful_check_now() {
    let mut c = SSHConnectionCache::new();
    c.update_status("h", true);
    assert!(c.is_verified("h"));
    assert!(!c.needs_recheck("h"));
    c.update_status("g", false);
    assert!(!c.is_verified("g"));
    assert!(!c.needs_recheck("g"));
}

#[test]
fn recheck_listing_does_not_change_answers() {
    let mut c = SSHConnectionCache::new();
    c.update_status_at("h", true, 1000);
    c.update_status_at("g", true, 900);
    for now in [1000u64, 1030, 1060, 1199, 1200, 1299, 1300] {
        let due = c.hosts_due(now);
        assert_eq!(due.contains(&"h".to_string()), now >= 1300);
        assert_eq!(due.contains(&"g".to_string()), now >= 1200);
        assert_eq!(c.is_verified_at("h", now), now < 1300);
        assert_eq!(c.is_verified_at("g", now), now < 1200);
    }
}

#[test]
fn failed_probe_is_never_verified() {
    let mut c = SSHConnectionCache::new();
    c.update_status_at("h", false, 1000);
    assert!(!c.is_verified_at("h", 1000));
    assert!(!c.needs_recheck_at("h", 1000));
    assert!(c.needs_recheck_at("h", 1300));
}

#[test]
fn a_probe_from_the_future_is_not_trusted() {
    let mut c = SSHConnectionCache::new();
    c.update_status_at("h", true, 2000);
    assert!(!c.is_verified_at("h", 1000));
    assert!(c.needs_recheck_at("h", 1000));
}

#[test]
fn update_replaces_and_keeps_one_entry_per_host() {
    let mut c = SSHConnectionCache::new();
    c.update_status_at("h", true, 1000);
    c.update_status_at("g", true, 1000);
    c.update_status_at("h", false, 1100);
    assert_eq!(c.get_all_hosts(), vec!["h".to_string(), "g".to_string()]);
    assert_eq!(c.status("h"), Some(ConnectionStatus { verified: false, timestamp: 1100 }));
    assert_eq!(c.status("g"), Some(ConnectionStatus { verified: true, timestamp: 1000 }));
}

#[test]
fn clearing_drops_only_expired_entries() {
    let mut c = SSHConnectionCache::new();
    c.update_status_at("old", true, 100);
    c.update_status_at("new", true, 1000);
    c.update_status_at("edge", false, 701);
    c.update_status_at("gone", false, 700);
    c.clear_expired_at(1000);
    assert_eq!(c.get_all_hosts(), vec!["new".to_string(), "edge".to_string()]);
    assert!(c.is_verified_at("new", 1000));
    let mut d = SSHConnectionCache::new();
    d.update_status_at("ancient", true, 5);
    d.update_status("fresh", true);
    clear_expired_entries(&mut d);
    assert_eq!(d.get_all_hosts(), vec!["fresh".to_string()]);
}

#[test]
fn worker_update_records_then_clears() {
    let mut c = SSHConnectionCache::new();
    c.update_status_at("old", true, 100);
    c.apply_update("h", true, 1000);
    assert_eq!(c.get_all_hosts(), vec!["h".to_string()]);
    assert!(c.is_verified_at("h", 1000));
}

#[test]
fn entries_round_trip() {
    let mut c = SSHConnectionCache::new();
    c.update_status_at("a", true, 1);
    c.update_status_at("b", false, 2);
    let entries = c.entries();
    assert_eq!(
        entries,
        vec![
            HostStatus { host: "a".to_string(), status: ConnectionStatus { verified: true, timestamp: 1 } },
            HostStatus { host: "b".to_string(), status: ConnectionStatus { verified: false, timestamp: 2 } },
        ]
    );
    let again = SSHConnectionCache::from_entries(&entries);
    assert_eq!(again.entries(), entries);
    let doubled = vec![
        HostStatus { host: "a".to_string(), status: ConnectionStatus { verified: true, timestamp: 1 } },
        HostStatus { host: "a".to_string(), status: ConnectionStatus { verified: false, timestamp: 9 } },
    ];
    let merged = SSHConnectionCache::from_entries(&doubled);
    assert_eq!(merged.get_all_hosts(), vec!["a".to_string()]);
    assert_eq!(merged.status("a"), Some(ConnectionStatus { verified: false, timestamp: 9 }));
}

#[test]
fn probe_command_line() {
    let p = probe_command("10.0.0.5", "admin", "/home/a/.ssh/id");
    assert_eq!(p.program, "ssh");
    assert_eq!(
        p.args,
        vec![
            "-i",
            "/home/a/.ssh/id",
            "-o",
            "BatchMode=yes",
            "-o",
            "ConnectTimeout=5",
            "-o",
            "StrictHostKeyChecking=no",
            "admin@10.0.0.5",
            "echo 'Connected successfully'",
        ]
    );
}

#[test]
fn decision_trusts_only_a_fresh_success() {
    let mut c = SSHConnectionCache::new();
    c.update_status_at("h", true, 1000);
    assert_eq!(check_decision("h", "u", "k", &c, 1100), CheckDecision::Trusted);
    assert_eq!(check_decision("h", "u", "k", &c, 1300), CheckDecision::Probe(probe_command("h", "u", "k")));
    assert_eq!(check_decision("x", "u", "k", &c, 1100), CheckDecision::Probe(probe_command("x", "u", "k")));
    c.update_status_at("f", false, 1000);
    assert_eq!(check_decision("f", "u", "k", &c, 1001), CheckDecision::Probe(probe_command("f", "u", "k")));
    let mut now_cache = SSHConnectionCache::new();
    now_cache.update_status("h", true);
    assert_eq!(verify_ssh_connection("h", "u", "k", &now_cache), CheckDecision::Trusted);
    assert_eq!(verify_ssh_connection("z", "u", "k", &now_cache), CheckDecision::Probe(probe_command("z", "u", "k")));
}
