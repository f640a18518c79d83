//! Where the figures of the control plane come from.

use vstd::prelude::*;
use vstd::string::*;
use crate::cert_types::owned;
use crate::steps::{Invocation, InvocationView};
use crate::text::{cat, decimal, decimal_digits, texts};

verus! {

/// Asks the cluster for its figures.
#[derive(Clone, Debug, PartialEq, Eq)]
pub struct MetricsCollector {
    pub enabled: bool,
    pub kubeconfig_path: String,
}

/// The command that asks etcd for its status.
pub open spec fn etcd_status(kubeconfig_path: Seq<char>) -> InvocationView {
    InvocationView {
        program: "kubectl"@,
        args: seq![
            "--kubeconfig"@,
            kubeconfig_path,
            "exec"@,
            "-n"@,
            "kube-system"@,
            "etcd-0"@,
            "--"@,
            "etcdctl"@,
            "endpoint"@,
            "status"@,
            "--write-out=json"@,
        ],
    }
}

/// The size of a database of `bytes` bytes in whole mebibytes, with its unit.
pub open spec fn size_label(bytes: u64) -> Seq<char> {
    decimal_digits((bytes / 1024 / 1024) as nat) + " MB"@
}

impl MetricsCollector {
    /// A collector that reads the cluster through `kubeconfig_path`.
    pub fn new(enabled: bool, kubeconfig_path: String) -> (r: Self)
        ensures
            r.enabled == enabled,
            r.kubeconfig_path@ == kubeconfig_path@,
    {
        MetricsCollector { enabled, kubeconfig_path }
    }

    /// The command to run for the figures, or none while collecting is off.
    pub fn status_command(&self) -> (r: Option<Invocation>)
        ensures
            self.enabled ==> (r matches Some(c) && c@ == etcd_status(self.kubeconfig_path@)),
            !self.enabled ==> r is None,
    {
        if !self.enabled {
            return None;
        }
        let args = owned(
            vec![
                "--kubeconfig",
                self.kubeconfig_path.as_str(),
                "exec",
                "-n",
                "kube-system",
                "etcd-0",
                "--",
                "etcdctl",
                "endpoint",
                "status",
                "--write-out=json",
            ],
        );
        assert(texts(args@) =~= etcd_status(self.kubeconfig_path@).args);
        Some(Invocation::new("kubectl", args))
    }

    /// The size of the database as it is shown.
    pub fn db_size_label(bytes: u64) -> (r: String)
        ensures
            r@ == size_label(bytes),
    {
        let number = decimal((bytes / 1024 / 1024) as u128);
        cat(number.as_str(), " MB")
    }
}

/// The load figures shown for a component.
#[derive(Clone, Debug, PartialEq, Eq)]
pub struct ComponentMetrics {
    pub cpu_usage: Option<String>,
    pub memory_usage: Option<String>,
    pub request_latency: Option<String>,
    pub request_rate: Option<String>,
    pub db_size: Option<String>,
}

/// The figures shown for a component, whatever was measured: the display
/// has fixed figures and no database size.
pub fn create_component_metrics<T>(_component_metrics: Option<&T>) -> (r: ComponentMetrics)
    ensures
        r.cpu_usage matches Some(s) && s@ == "45%"@,
        r.memory_usage matches Some(s) && s@ == "60%"@,
        r.request_latency matches Some(s) && s@ == "10ms"@,
        r.request_rate matches Some(s) && s@ == "100 req/s"@,
        r.db_size is None,
{
    ComponentMetrics {
        cpu_usage: Some(String::from_str("45%")),
        memory_usage: Some(String::from_str("60%")),
        request_latency: Some(String::from_str("10ms")),
        request_rate: Some(String::from_str("100 req/s")),
        db_size: None,
    }
}

} // verus!
