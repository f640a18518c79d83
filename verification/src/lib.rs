//! The certificate lifecycle of a self-managed Kubernetes cluster.
//!
//! The library lays out how the CA hierarchy and the certificates of the
//! components are made, keeps the ledger of what was generated, sent and
//! verified, routes each artifact to its place on the hosts, reads and
//! classifies the certificates found on disk, judges the trust of every
//! node, and remembers which hosts answer. It runs no tool and touches no
//! file: what has to happen outside is handed out as a runbook of steps,
//! and the outcome of each step is handed back (see `steps`).
//!
//! Contracts are stated over mathematical views of the data; the laws that
//! tie several functions together stand in `guarantees` and beside the
//! types they are about.

pub mod cert_types;
pub mod clock;
pub mod config;
pub mod discovery;
pub mod error;
pub mod generators;
pub mod guarantees;
pub mod kubeconfig;
pub mod logging;
pub mod manager;
pub mod metrics;
pub mod openssl;
pub mod operations;
pub mod ssh;
pub mod status;
pub mod steps;
pub mod text;
pub mod tracker;
pub mod ui_state;
pub mod verification;
pub mod x509;
