use kube_certs::error::{CertOperationError, IoFailure, IoKind, NodeCertError, OpenSSLError, ServiceAccountError};
use kube_certs::steps::{FailureKind, Invocation, Outcome, Plan, Progress, Step};

fn run(kind: FailureKind, context: &str) -> Step {
    Step::Run {
        command: Invocation::new("tool", vec!["a".to_string()]),
        capture: None,
        cleanup: None,
        kind,
        context: context.to_string(),
    }
}

fn exit(stderr: &str) -> Outcome {
    Outcome::Exit { stdout: "out".to_string(), stderr: stderr.to_string() }
}

fn plan(steps: Vec<Step>) -> Plan {
    let mut p = Plan::new();
    for s in steps {
        p.push(s);
    }
    p
}

#[test]
fn plan_building() {
    let mut p = Plan::new();
    assert_eq!(p.len(), 0);
    assert!(p.step(0).is_none());
    p.push(Step::Log("a".to_string()));
    let mut q = Plan::new();
    q.push(Step::Log("b".to_string()));
    q.push(Step::Log("c".to_string()));
    p.extend(q);
    assert_eq!(p.len(), 3);
    assert_eq!(p.step(2), Some(&Step::Log("c".to_string())));
    assert!(p.step(3).is_none());
}

#[test]
fn success_moves_on_and_finishes() {
    let p = plan(vec![
        Step::Log("a".to_string()),
        Step::CreateDir("d".to_string()),
        run(FailureKind::CertGeneration, "ctx"),
    ]);
    assert_eq!(p.advance(0, &Outcome::Done), Progress::Next(1));
    assert_eq!(p.advance(1, &Outcome::Done), Progress::Next(2));
    assert_eq!(p.advance(2, &Outcome::Done), Progress::Finished);
}

#[test]
fn tool_refusal_becomes_the_error_of_its_kind() {
    let p = plan(vec![
        run(FailureKind::CertGeneration, "Failed to generate private key: k"),
        run(FailureKind::Distribution, "Failed to copy file to h"),
        run(FailureKind::Verification, "CA chain verification failed"),
    ]);
    assert_eq!(
        p.advance(0, &exit("bad")),
        Progress::Failed(CertOperationError::CertGeneration(
            "Failed to generate private key: k: bad".to_string()
        ))
    );
    assert_eq!(
        p.advance(1, &exit("denied")),
        Progress::Failed(CertOperationError::Distribution(
            "Failed to copy file to h: denied".to_string()
        ))
    );
    assert_eq!(
        p.advance(2, &exit("x")),
        Progress::Failed(CertOperationError::Verification(
            "CA chain verification failed: x".to_string()
        ))
    );
}

#[test]
fn faults_become_io_errors() {
    let fault = IoFailure::new(IoKind::Other, "no such program".to_string());
    let p = plan(vec![
        run(FailureKind::CertGeneration, "c"),
        Step::CreateDir("d".to_string()),
        Step::WriteFile { path: "p".to_string(), content: "c".to_string() },
        Step::Restrict { path: "p".to_string(), mode: 0o600 },
        Step::JoinFiles { first: "a".to_string(), second: "b".to_string(), target: "c".to_string() },
        Step::Attempt { command: Invocation::new("t", vec![]), skip: 0, notice: "n".to_string() },
    ]);
    for at in 0..6 {
        assert_eq!(
            p.advance(at, &Outcome::Fault(fault.clone())),
            Progress::Failed(CertOperationError::IoError(fault.clone()))
        );
    }
}

#[test]
fn logs_and_removals_never_fail() {
    let fault = Outcome::Fault(IoFailure::other("x".to_string()));
    let p = plan(vec![
        Step::Log("a".to_string()),
        Step::DebugLog("a".to_string()),
        Step::RemoveFile("f".to_string()),
        Step::Log("end".to_string()),
    ]);
    assert_eq!(p.advance(0, &fault), Progress::Next(1));
    assert_eq!(p.advance(1, &fault), Progress::Next(2));
    assert_eq!(p.advance(2, &fault), Progress::Next(3));
    assert_eq!(p.advance(2, &Outcome::Absent), Progress::Next(3));
    assert_eq!(p.advance(3, &fault), Progress::Finished);
}

#[test]
fn missing_requirement_is_not_found() {
    let p = plan(vec![
        Step::RequireFile { path: "ca.crt".to_string(), missing: "CA certificate not found: ca.crt".to_string() },
        Step::Log("next".to_string()),
    ]);
    assert_eq!(p.advance(0, &Outcome::Done), Progress::Next(1));
    assert_eq!(
        p.advance(0, &Outcome::Absent),
        Progress::Failed(CertOperationError::IoError(IoFailure::not_found(
            "CA certificate not found: ca.crt".to_string()
        )))
    );
}

#[test]
fn guard_skips_when_everything_is_present() {
    let p = plan(vec![
        Step::SkipIfPresent { paths: vec!["a".to_string()], skip: 2, notice: "n".to_string() },
        Step::Log("1".to_string()),
        Step::Log("2".to_string()),
        Step::Log("3".to_string()),
    ]);
    assert_eq!(p.advance(0, &Outcome::Done), Progress::Next(3));
    assert_eq!(p.advance(0, &Outcome::Absent), Progress::Next(1));
    let short = plan(vec![
        Step::SkipIfPresent { paths: vec![], skip: 5, notice: "n".to_string() },
        Step::Log("1".to_string()),
    ]);
    assert_eq!(short.advance(0, &Outcome::Done), Progress::Finished);
    let huge = plan(vec![
        Step::SkipIfPresent { paths: vec![], skip: usize::MAX, notice: "n".to_string() },
        Step::Log("1".to_string()),
    ]);
    assert_eq!(huge.advance(0, &Outcome::Done), Progress::Finished);
}

#[test]
fn attempt_passes_over_its_dependents_on_refusal() {
    let p = plan(vec![
        Step::Attempt { command: Invocation::new("scp", vec![]), skip: 2, notice: "n".to_string() },
        Step::Log("1".to_string()),
        Step::Log("2".to_string()),
        Step::Log("3".to_string()),
    ]);
    assert_eq!(p.advance(0, &Outcome::Done), Progress::Next(1));
    assert_eq!(p.advance(0, &exit("refused")), Progress::Next(3));
}

#[test]
fn error_descriptions() {
    let io = CertOperationError::from_io(IoFailure::not_found("gone".to_string()));
    assert_eq!(io.describe(), "IO Error: gone");
    assert_eq!(CertOperationError::CertGeneration("g".to_string()).describe(), "Certificate Generation Error: g");
    assert_eq!(CertOperationError::Distribution("d".to_string()).describe(), "Distribution Error: d");
    assert_eq!(CertOperationError::Verification("v".to_string()).describe(), "Verification Error: v");
}

#[test]
fn errors_as_io_failures() {
    assert_eq!(
        CertOperationError::IoError(IoFailure::not_found("gone".to_string())).into_io(),
        IoFailure::new(IoKind::NotFound, "Certificate operation IO error: gone".to_string())
    );
    assert_eq!(
        CertOperationError::CertGeneration("g".to_string()).into_io(),
        IoFailure::other("Certificate generation error: g".to_string())
    );
    assert_eq!(
        CertOperationError::Distribution("d".to_string()).into_io(),
        IoFailure::other("Certificate distribution error: d".to_string())
    );
    assert_eq!(
        CertOperationError::Verification("v".to_string()).into_io(),
        IoFailure::other("Certificate verification error: v".to_string())
    );
    let f = IoFailure::new(IoKind::InvalidData, "m".to_string());
    assert_eq!(f.duplicate(), f);
}

#[test]
fn other_error_types() {
    let f = IoFailure::other("x".to_string());
    assert_eq!(NodeCertError::from_io(f.clone()), NodeCertError::IoError(f.clone()));
    assert_eq!(
        NodeCertError::from_operation(CertOperationError::Verification("v".to_string())),
        NodeCertError::CertOperation(CertOperationError::Verification("v".to_string()))
    );
    assert_eq!(ServiceAccountError::from_io(f.clone()), ServiceAccountError::IoError(f));
    assert!(matches!(ServiceAccountError::KeyGeneration("k".to_string()), ServiceAccountError::KeyGeneration(_)));
    let e = OpenSSLError { message: "m".to_string(), stdout: "o".to_string(), stderr: "e".to_string() };
    assert_eq!(e.describe(), "m");
    assert_eq!(e.output_report(), "stdout: o\nstderr: e");
}
