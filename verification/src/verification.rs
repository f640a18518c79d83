//! Checking what has arrived: the certificates are fetched back from a host
//! and verified against the CA chain that was sent with them.

use vstd::prelude::*;
use vstd::string::*;
use crate::cert_types::owned;
use crate::logging::OperationsLogger;
use crate::openssl::{basic_check, basic_check_step, chain_check, chain_check_step, checking};
use crate::steps::{FailureKind, Invocation, InvocationView, Plan, Step, StepView};
use crate::text::{cat, cat3, expand_tilde, has_prefix, texts, tilde_expanded};

verus! {

/// The fixed settings of the verifier.
pub struct VerifierView {
    pub remote_user: Seq<char>,
    pub remote_dir: Seq<char>,
    pub ssh_key_path: Seq<char>,
}

/// Fetches certificates back from the hosts and checks them.
#[derive(Clone, Debug, PartialEq, Eq)]
pub struct CertificateVerifier {
    pub logger: OperationsLogger,
    pub remote_user: String,
    pub remote_dir: String,
    pub ssh_key_path: String,
}

impl View for CertificateVerifier {
    type V = VerifierView;

    open spec fn view(&self) -> VerifierView {
        VerifierView {
            remote_user: self.remote_user@,
            remote_dir: self.remote_dir@,
            ssh_key_path: self.ssh_key_path@,
        }
    }
}

/// The command that fetches `remote_path` from `host` into `local_path`,
/// with the identity file `key`.
pub open spec fn fetch_command(
    v: VerifierView,
    key: Seq<char>,
    host: Seq<char>,
    remote_path: Seq<char>,
    local_path: Seq<char>,
) -> InvocationView {
    InvocationView {
        program: "scp"@,
        args: seq!["-i"@, key, v.remote_user + "@"@ + host + ":"@ + remote_path, local_path],
    }
}

/// The two checks of a certificate: that it is one, and, where a CA file
/// is given, that it chains to it.
pub open spec fn check_plan(cert_path: Seq<char>, ca_cert: Option<Seq<char>>) -> Seq<StepView> {
    let basic = seq![basic_check(cert_path, "Basic certificate check failed for "@ + cert_path)];
    match ca_cert {
        Some(ca) => basic.push(
            chain_check(cert_path, ca, "Certificate chain verification failed for "@ + cert_path),
        ),
        None => basic,
    }
}

/// The part of a host's runbook that handles the certificate `name`: it is
/// fetched, and when that works it is checked, against the fetched chain
/// where `chained` says so. A certificate that cannot be fetched is
/// reported and passed over.
pub open spec fn fetch_and_check(
    v: VerifierView,
    key: Seq<char>,
    host: Seq<char>,
    temp_dir: Seq<char>,
    name: Seq<char>,
    chained: bool,
) -> Seq<StepView> {
    let local = temp_dir + "/"@ + name;
    let ca = if chained {
        Some(temp_dir + "/"@ + chain_file())
    } else {
        None
    };
    seq![
        StepView::Attempt {
            command: fetch_command(v, key, host, v.remote_dir + "/"@ + name, local),
            skip: check_plan(local, ca).len(),
            notice: "Failed to copy "@ + name + " from "@ + host,
        },
    ] + check_plan(local, ca)
}

/// The name of the CA chain on a host.
pub open spec fn chain_file() -> Seq<char> {
    "kubernetes-ca-chain.crt"@
}

/// The runbook that verifies what `host` holds: the chain first, then the
/// certificates of the API server, the controller manager and the
/// scheduler, each against the chain.
pub open spec fn host_plan(
    v: VerifierView,
    key: Seq<char>,
    host: Seq<char>,
    temp_dir: Seq<char>,
) -> Seq<StepView> {
    fetch_and_check(v, key, host, temp_dir, chain_file(), false) + fetch_and_check(
        v,
        key,
        host,
        temp_dir,
        "kube-apiserver.crt"@,
        true,
    ) + fetch_and_check(v, key, host, temp_dir, "controller-manager.crt"@, true) + fetch_and_check(
        v,
        key,
        host,
        temp_dir,
        "scheduler.crt"@,
        true,
    )
}

/// The directory that holds what was fetched from `host`.
pub open spec fn scratch_dir(host: Seq<char>) -> Seq<char> {
    "/tmp/cert-verify-"@ + host
}

/// The check of the service-account key kept in `sa_dir`.
pub open spec fn sa_key_plan(sa_dir: Seq<char>) -> Seq<StepView> {
    seq![
        StepView::Log("Verifying service account key pair..."@),
        checking(
            seq!["rsa"@, "-in"@, sa_dir + "/sa.key"@, "-check"@, "-noout"@],
            "Service account key verification failed"@,
        ),
        StepView::Log("Service account key pair verification successful"@),
    ]
}

/// The verification of one host: where the fetched files go, and what is run.
#[derive(Clone, Debug, PartialEq, Eq)]
pub struct HostVerification {
    pub host: String,
    /// The directory to create before the runbook and to remove after it,
    /// however the runbook ends.
    pub temp_dir: String,
    pub plan: Plan,
}

impl CertificateVerifier {
    /// A verifier for the hosts reached as `remote_user` with `ssh_key_path`.
    pub fn new(
        logger: OperationsLogger,
        remote_user: String,
        remote_dir: String,
        ssh_key_path: String,
    ) -> (r: Self)
        ensures
            r@ == (VerifierView {
                remote_user: remote_user@,
                remote_dir: remote_dir@,
                ssh_key_path: ssh_key_path@,
            }),
            r.logger == logger,
    {
        CertificateVerifier { logger, remote_user, remote_dir, ssh_key_path }
    }

    /// The command that fetches `remote_path` from `host` with the identity file `key`.
    pub fn fetch_with(&self, key: &str, host: &str, remote_path: &str, local_path: &str) -> (r:
        Invocation)
        ensures
            r@ == fetch_command(self@, key@, host@, remote_path@, local_path@),
    {
        let source = String::from_str(self.remote_user.as_str()).concat("@").concat(host).concat(
            ":",
        ).concat(remote_path);
        let args = owned(vec!["-i", key, source.as_str(), local_path]);
        assert(texts(args@) =~= fetch_command(
            self@,
            key@,
            host@,
            remote_path@,
            local_path@,
        ).args);
        Invocation::new("scp", args)
    }

    /// The command that fetches `remote_path` from `host`, with the SSH key
    /// of the settings after its home directory was written out.
    pub fn copy_from_remote(&self, host: &str, remote_path: &str, local_path: &str) -> (r:
        Invocation)
        ensures
            exists|key: Seq<char>|
                tilde_expanded(self.ssh_key_path@, key) && r@ == fetch_command(
                    self@,
                    key,
                    host@,
                    remote_path@,
                    local_path@,
                ),
            !has_prefix(self.ssh_key_path@, "~"@) ==> r@ == fetch_command(
                self@,
                self.ssh_key_path@,
                host@,
                remote_path@,
                local_path@,
            ),
    {
        let key = expand_tilde(self.ssh_key_path.as_str());
        let r = self.fetch_with(key.as_str(), host, remote_path, local_path);
        assert(tilde_expanded(self.ssh_key_path@, key@) && r@ == fetch_command(
            self@,
            key@,
            host@,
            remote_path@,
            local_path@,
        ));
        r
    }

    /// The runbook that checks the certificate at `cert_path`, against
    /// `ca_cert` where one is given.
    pub fn verify_certificate(&self, cert_path: &str, ca_cert: Option<&str>) -> (plan: Plan)
        ensures
            plan@ == check_plan(cert_path@, crate::openssl::opt_str(ca_cert)),
    {
        let mut plan = Plan::new();
        plan.push(
            basic_check_step(cert_path, cat("Basic certificate check failed for ", cert_path)),
        );
        match ca_cert {
            Some(ca) => {
                plan.push(
                    chain_check_step(
                        cert_path,
                        ca,
                        cat("Certificate chain verification failed for ", cert_path),
                    ),
                );
            },
            None => {},
        }
        plan
    }

    fn fetch_and_check_with(
        &self,
        key: &str,
        host: &str,
        temp_dir: &str,
        name: &str,
        chained: bool,
    ) -> (plan: Plan)
        ensures
            plan@ == fetch_and_check(self@, key@, host@, temp_dir@, name@, chained),
    {
        let local = cat3(temp_dir, "/", name);
        let remote = cat3(self.remote_dir.as_str(), "/", name);
        let ca = cat3(temp_dir, "/", "kubernetes-ca-chain.crt");
        let checks = if chained {
            self.verify_certificate(local.as_str(), Some(ca.as_str()))
        } else {
            self.verify_certificate(local.as_str(), None)
        };
        let mut plan = Plan::new();
        plan.push(
            Step::Attempt {
                command: self.fetch_with(key, host, remote.as_str(), local.as_str()),
                skip: checks.len(),
                notice: String::from_str("Failed to copy ").concat(name).concat(" from ").concat(
                    host,
                ),
            },
        );
        plan.extend(checks);
        plan
    }

    /// The runbook that verifies what `host` holds, with the identity file `key`.
    pub fn verify_host_certificates_with(&self, key: &str, host: &str, temp_dir: &str) -> (plan:
        Plan)
        ensures
            plan@ == host_plan(self@, key@, host@, temp_dir@),
    {
        let mut plan = self.fetch_and_check_with(
            key,
            host,
            temp_dir,
            "kubernetes-ca-chain.crt",
            false,
        );
        plan.extend(self.fetch_and_check_with(key, host, temp_dir, "kube-apiserver.crt", true));
        plan.extend(self.fetch_and_check_with(key, host, temp_dir, "controller-manager.crt", true));
        plan.extend(self.fetch_and_check_with(key, host, temp_dir, "scheduler.crt", true));
        plan
    }

    /// The runbook that verifies what `host` holds, with the SSH key of the
    /// settings after its home directory was written out.
    pub fn verify_host_certificates(&self, host: &str, temp_dir: &str) -> (plan: Plan)
        ensures
            exists|key: Seq<char>|
                tilde_expanded(self.ssh_key_path@, key) && plan@ == host_plan(
                    self@,
                    key,
                    host@,
                    temp_dir@,
                ),
            !has_prefix(self.ssh_key_path@, "~"@) ==> plan@ == host_plan(
                self@,
                self.ssh_key_path@,
                host@,
                temp_dir@,
            ),
    {
        let key = expand_tilde(self.ssh_key_path.as_str());
        let plan = self.verify_host_certificates_with(key.as_str(), host, temp_dir);
        assert(tilde_expanded(self.ssh_key_path@, key@) && plan@ == host_plan(
            self@,
            key@,
            host@,
            temp_dir@,
        ));
        plan
    }

    /// One verification for each of `hosts`. Each stands on its own: a host
    /// whose certificates fail does not keep the others from being checked.
    pub fn verify_remote_certificates(&self, hosts: &Vec<String>) -> (r: Vec<HostVerification>)
        ensures
            r@.len() == hosts@.len(),
            forall|i: int|
                0 <= i < hosts@.len() ==> (#[trigger] r@[i]).host@ == hosts@[i]@ && r@[i].temp_dir@
                    == scratch_dir(hosts@[i]@) && exists|key: Seq<char>|
                    tilde_expanded(self.ssh_key_path@, key) && r@[i].plan@ == host_plan(
                        self@,
                        key,
                        hosts@[i]@,
                        scratch_dir(hosts@[i]@),
                    ),
    {
        let mut out: Vec<HostVerification> = Vec::new();
        let mut i: usize = 0;
        while i < hosts.len()
            invariant
                i <= hosts@.len(),
                out@.len() == i,
                forall|k: int|
                    0 <= k < i ==> (#[trigger] out@[k]).host@ == hosts@[k]@ && out@[k].temp_dir@
                        == scratch_dir(hosts@[k]@) && exists|key: Seq<char>|
                        tilde_expanded(self.ssh_key_path@, key) && out@[k].plan@ == host_plan(
                            self@,
                            key,
                            hosts@[k]@,
                            scratch_dir(hosts@[k]@),
                        ),
            decreases hosts@.len() - i,
        {
            let host = hosts[i].as_str();
            let temp_dir = cat("/tmp/cert-verify-", host);
            let plan = self.verify_host_certificates(host, temp_dir.as_str());
            out.push(HostVerification { host: String::from_str(host), temp_dir, plan });
            i += 1;
        }
        out
    }

    /// The runbook that checks the service-account key kept in `sa_dir`.
    pub fn verify_service_account_keypair(&self, sa_dir: &str) -> (plan: Plan)
        ensures
            plan@ == sa_key_plan(sa_dir@),
    {
        let key = cat(sa_dir, "/sa.key");
        let args = owned(vec!["rsa", "-in", key.as_str(), "-check", "-noout"]);
        assert(texts(args@) =~= seq!["rsa"@, "-in"@, sa_dir@ + "/sa.key"@, "-check"@, "-noout"@]);
        let mut plan = Plan::new();
        plan.push(Step::Log(String::from_str("Verifying service account key pair...")));
        plan.push(
            Step::Run {
                command: Invocation::new("openssl", args),
                capture: None,
                cleanup: None,
                kind: FailureKind::Verification,
                context: String::from_str("Service account key verification failed"),
            },
        );
        plan.push(Step::Log(String::from_str("Service account key pair verification successful")));
        assert(plan@ =~= sa_key_plan(sa_dir@));
        plan
    }
}

} // verus!
