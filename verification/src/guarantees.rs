//! What holds of the runbooks and of the ledger, whatever the inputs.

use vstd::prelude::*;
use crate::cert_types::{self_signed, ConfigView};
use crate::error::{ErrorView, IoKind};
use crate::manager::{after_distribution, delivered, job_of, pending_jobs};
use crate::openssl::{
    ca_requirements, making, private_key_plan, sign_args, sign_plan, extensions_path,
};
use crate::operations::{
    bookkeeping_plan, ca_setup_plan, chain_plan, chain_routes, chain_name, cluster_ca_plan,
    copy_plan, is_cert_path, is_component, is_encryption_config, is_kubeconfig, is_node, login,
    placement, root_guard, root_plan, routes, temp_path, transfer_plan, OperationsView,
};
use crate::cert_types::{AltNameType, AltNameView};
use crate::openssl::{csr_plan, values_of};
use crate::operations::{cert_plan, mode_of};
use crate::steps::{
    after, reaches, run_from, skipped, verdict, OutcomeView, ProgressView, StepView,
};
use crate::text::{has_prefix, has_suffix};
use crate::text::{decimal_digits, has_infix, parent_dir};
use crate::tracker::{
    awaits_distribution, first_match, lemma_first_match, lemma_pending_excludes_root, pending,
    root_marker, StatusView,
};

verus! {

/// The signer is never started for a certificate that needs a CA unless the
/// CA's certificate and key were both found: when either is missing, the
/// runbook ends with `NotFound` before it comes to the signing step.
pub proof fn lemma_signer_needs_ca(
    c: ConfigView,
    csr_path: Seq<char>,
    cert_path: Seq<char>,
    ca_cert: Seq<char>,
    ca_key: Seq<char>,
    outcomes: spec_fn(int) -> OutcomeView,
)
    requires
        !self_signed(c.cert_type),
        !(outcomes(0) is Done) || !(outcomes(1) is Done),
    ensures
        ({
            let plan = sign_plan(c, csr_path, cert_path, ca_cert, ca_key);
            &&& plan.len() == 6
            &&& plan[4] == making(
                sign_args(c, csr_path, cert_path, ca_cert, ca_key),
                Some(extensions_path(cert_path)),
                "Failed to sign certificate: "@ + cert_path,
            )
            &&& !reaches(plan, 0, outcomes, 4)
            &&& run_from(plan, 0, outcomes) matches Some(ErrorView::IoError(f)) && f.kind
                == IoKind::NotFound
        }),
{
    let plan = sign_plan(c, csr_path, cert_path, ca_cert, ca_key);
    reveal_with_fuel(reaches, 3);
    reveal_with_fuel(run_from, 3);
    assert(plan[0] is RequireFile);
    assert(plan[1] is RequireFile);
}

/// A root signs itself: its runbook tests for no CA file, and its signer
/// is given the request's own key.
pub proof fn lemma_root_signs_itself(
    c: ConfigView,
    csr_path: Seq<char>,
    cert_path: Seq<char>,
    ca_cert: Seq<char>,
    ca_key: Seq<char>,
)
    requires
        self_signed(c.cert_type),
    ensures
        ca_requirements(c, ca_cert, ca_key).len() == 0,
        sign_args(c, csr_path, cert_path, ca_cert, ca_key).subrange(0, 4) == seq![
            "x509"@,
            "-req"@,
            "-signkey"@,
            ca_key,
        ],
        forall|i: int|
            0 <= i < sign_plan(c, csr_path, cert_path, ca_cert, ca_key).len() ==> !(
            #[trigger] sign_plan(c, csr_path, cert_path, ca_cert, ca_key)[i] is RequireFile),
{
    assert(sign_args(c, csr_path, cert_path, ca_cert, ca_key).subrange(0, 4) =~= seq![
        "x509"@,
        "-req"@,
        "-signkey"@,
        ca_key,
    ]);
}

/// A private key is closed to everyone but its owner by the very step that
/// follows its making.
pub proof fn lemma_key_closed_at_once(path: Seq<char>, key_size: u32) -> (at: int)
    ensures
        0 <= at,
        at + 1 < private_key_plan(path, key_size).len(),
        private_key_plan(path, key_size)[at] == making(
            seq!["genrsa"@, "-out"@, path, decimal_digits(key_size as nat)],
            None,
            "Failed to generate private key: "@ + path,
        ),
        private_key_plan(path, key_size)[at + 1] == (StepView::Restrict {
            path,
            mode: crate::steps::OWNER_ONLY,
        }),
{
    if parent_dir(path).len() > 0 {
        2
    } else {
        1
    }
}

/// The steps that belong to the root CA in the runbook of the CA
/// hierarchy: its bookkeeping and its making.
pub open spec fn root_steps() -> int {
    (bookkeeping_plan().len() + root_plan().len()) as int
}

/// An existing root CA is kept: the runbook opens with the test for it,
/// and when the root's certificate and key are found the run goes
/// straight on to the cluster CA. Nothing of the root is run then: the
/// index is not emptied, the serial is not rewritten, no key is made and
/// nothing is signed. What follows the root is the cluster CA and, last,
/// the chain.
pub proof fn lemma_existing_root_is_kept(outcomes: spec_fn(int) -> OutcomeView, touched: int)
    requires
        outcomes(0) is Done,
        1 <= touched <= root_steps(),
    ensures
        ca_setup_plan()[0] == root_guard(root_steps() as nat),
        ca_setup_plan().subrange(1, 1 + root_steps()) == bookkeeping_plan() + root_plan(),
        ca_setup_plan().subrange(1 + root_steps(), ca_setup_plan().len() as int)
            == cluster_ca_plan() + chain_plan(),
        after(ca_setup_plan().len() as int, 0, ca_setup_plan()[0], OutcomeView::Done)
            == ProgressView::Next(1 + root_steps()),
        !reaches(ca_setup_plan(), 0, outcomes, touched),
{
    let plan = ca_setup_plan();
    assert(chain_plan().len() == 6);
    assert(plan.subrange(1, 1 + root_steps()) =~= bookkeeping_plan() + root_plan());
    assert(plan.subrange(1 + root_steps(), plan.len() as int) =~= cluster_ca_plan()
        + chain_plan());
    if reaches(plan, 1 + root_steps(), outcomes, touched) {
        lemma_runs_move_forward(plan, 1 + root_steps(), outcomes, touched);
    }
}

/// A root CA that is not there is set up and made: when the test finds a
/// file missing, the run goes on with the bookkeeping.
pub proof fn lemma_missing_root_is_made()
    ensures
        after(ca_setup_plan().len() as int, 0, ca_setup_plan()[0], OutcomeView::Absent)
            == ProgressView::Next(1),
{
    assert(chain_plan().len() == 6);
}

/// A chain that does not verify is fatal: when the files are there and the
/// check of the cluster CA against the root fails, the runbook ends with a
/// verification error that carries what the tool said.
pub proof fn lemma_broken_chain_is_fatal(
    outcomes: spec_fn(int) -> OutcomeView,
    stdout: Seq<char>,
    stderr: Seq<char>,
)
    requires
        outcomes(1) is Done,
        outcomes(2) is Done,
        outcomes(3) is Done,
        outcomes(4) == (OutcomeView::Exit { stdout, stderr }),
    ensures
        run_from(chain_plan(), 0, outcomes) == Some(
            ErrorView::Verification("CA chain verification failed"@ + ": "@ + stderr),
        ),
        !reaches(chain_plan(), 0, outcomes, 5),
{
    reveal_with_fuel(run_from, 6);
    reveal_with_fuel(reaches, 6);
}

/// The chain cannot be built without the root: a missing root certificate
/// ends the runbook with `NotFound` before any file is written.
pub proof fn lemma_chain_needs_root(outcomes: spec_fn(int) -> OutcomeView)
    requires
        !(outcomes(1) is Done),
    ensures
        run_from(chain_plan(), 0, outcomes) matches Some(ErrorView::IoError(f)) && f.kind
            == IoKind::NotFound,
        !reaches(chain_plan(), 0, outcomes, 3),
{
    reveal_with_fuel(run_from, 3);
    reveal_with_fuel(reaches, 4);
}

/// The CA chain goes out as exactly three files: the chain, the CA key and
/// the CA certificate, each under its fixed name in the remote directory.
pub proof fn lemma_chain_has_three_routes(remote_dir: Seq<char>)
    ensures
        routes(remote_dir, chain_name()).len() == 3,
        routes(remote_dir, chain_name()) == chain_routes(remote_dir),
{
}

/// The name is one the routing table knows.
pub open spec fn routable(name: Seq<char>) -> bool {
    name == chain_name() || is_component(name) || is_node(name) || is_kubeconfig(name)
        || is_encryption_config(name) || is_cert_path(name)
}

/// A name the routing table does not know has no files, and asking for its
/// distribution is no error: the runbook only reports, runs no tool, and
/// ends well whatever happens.
pub proof fn lemma_unknown_name_is_skipped(
    o: OperationsView,
    name: Seq<char>,
    host: Seq<char>,
    ids: Seq<Seq<char>>,
    outcomes: spec_fn(int) -> OutcomeView,
)
    requires
        !routable(name),
    ensures
        routes(o.remote_dir, name).len() == 0,
        copy_plan(o, name, host, ids).len() == 2,
        forall|i: int|
            0 <= i < copy_plan(o, name, host, ids).len() ==> #[trigger] copy_plan(
                o,
                name,
                host,
                ids,
            )[i] is Log,
        run_from(copy_plan(o, name, host, ids), 0, outcomes) is None,
{
    reveal_with_fuel(run_from, 3);
}

/// A name the routing table knows has at least one file.
pub proof fn lemma_known_name_has_routes(remote_dir: Seq<char>, name: Seq<char>)
    requires
        routable(name),
    ensures
        routes(remote_dir, name).len() > 0,
{
}

/// A copy that the remote side refuses ends the transfer with a
/// distribution error that names the host and carries what the tool said,
/// and the file is not put in place.
pub proof fn lemma_refused_copy_is_reported(
    o: OperationsView,
    source: Seq<char>,
    target: Seq<char>,
    host: Seq<char>,
    id: Seq<char>,
    outcomes: spec_fn(int) -> OutcomeView,
    stdout: Seq<char>,
    stderr: Seq<char>,
)
    requires
        outcomes(0) == (OutcomeView::Exit { stdout, stderr }),
    ensures
        run_from(transfer_plan(o, source, target, host, id), 0, outcomes) == Some(
            ErrorView::Distribution("Failed to copy file to "@ + host + ": "@ + stderr),
        ),
        !reaches(transfer_plan(o, source, target, host, id), 0, outcomes, 1),
{
    reveal_with_fuel(run_from, 2);
    reveal_with_fuel(reaches, 2);
}

/// The file is put in place from the very temporary path it was copied to.
pub proof fn lemma_transfer_uses_one_temp_path(
    o: OperationsView,
    source: Seq<char>,
    target: Seq<char>,
    host: Seq<char>,
    id: Seq<char>,
)
    ensures
        transfer_plan(o, source, target, host, id).len() == 2,
        transfer_plan(o, source, target, host, id)[0] matches StepView::Run { command, .. }
            && command.args[3] == login(o.remote_user, host) + ":"@ + temp_path(id),
        transfer_plan(o, source, target, host, id)[1] matches StepView::Run { command, .. }
            && command.args[3] == placement(target, temp_path(id)),
{
}

/// The work for the entries that await distribution never holds the root CA.
pub proof fn lemma_root_is_never_queued(ledger: Seq<StatusView>)
    ensures
        forall|k: int|
            0 <= k < pending_jobs(ledger).len() ==> !has_infix(
                (#[trigger] pending_jobs(ledger)[k]).cert_type,
                root_marker(),
            ),
{
    lemma_pending_excludes_root(ledger);
    assert forall|k: int| 0 <= k < pending_jobs(ledger).len() implies !has_infix(
        (#[trigger] pending_jobs(ledger)[k]).cert_type,
        root_marker(),
    ) by {
        assert(pending_jobs(ledger)[k] == job_of(pending(ledger)[k]));
        assert(!has_infix(pending(ledger)[k].cert_type, root_marker()));
    }
}

/// A distribution that missed a host leaves the ledger as it was, so what
/// awaited distribution still awaits it and the next try finds it.
pub proof fn lemma_partial_distribution_is_retried(
    ledger: Seq<StatusView>,
    cert_type: Seq<char>,
    hosts: Seq<Seq<char>>,
    succeeded: Seq<Seq<char>>,
    now: int,
    missed: int,
)
    requires
        0 <= missed < hosts.len(),
        !succeeded.contains(hosts[missed]),
    ensures
        !delivered(hosts, succeeded),
        after_distribution(ledger, cert_type, hosts, succeeded, now) == ledger,
        pending(after_distribution(ledger, cert_type, hosts, succeeded, now)) == pending(ledger),
{
}

/// A distribution that reached every host marks the entry, and the entry
/// no longer awaits distribution.
pub proof fn lemma_full_distribution_is_recorded(
    ledger: Seq<StatusView>,
    cert_type: Seq<char>,
    hosts: Seq<Seq<char>>,
    succeeded: Seq<Seq<char>>,
    now: int,
)
    requires
        delivered(hosts, succeeded),
        first_match(ledger, cert_type) is Some,
    ensures
        ({
            let after = after_distribution(ledger, cert_type, hosts, succeeded, now);
            let i = first_match(ledger, cert_type).unwrap();
            &&& after.len() == ledger.len()
            &&& after[i].distributed == Some(now)
            &&& !awaits_distribution(after[i])
            &&& forall|j: int| 0 <= j < ledger.len() && j != i ==> after[j] == ledger[j]
        }),
{
    lemma_first_match(ledger, cert_type);
}

/// A run only moves forward: a step it performs does not stand before the
/// step it started from.
pub proof fn lemma_runs_move_forward(
    plan: Seq<StepView>,
    at: int,
    outcomes: spec_fn(int) -> OutcomeView,
    target: int,
)
    requires
        reaches(plan, at, outcomes, target),
    ensures
        at <= target < plan.len(),
    decreases plan.len() - at,
{
    if at != target {
        lemma_runs_move_forward(
            plan,
            at + 1 + skipped(plan[at], outcomes(at)),
            outcomes,
            target,
        );
    }
}

/// The first failure decides: when a run performs a step and that step
/// fails, the run ends with that failure and performs no step after it.
/// Nothing is undone and nothing more is run.
pub proof fn lemma_first_failure_decides(
    plan: Seq<StepView>,
    at: int,
    outcomes: spec_fn(int) -> OutcomeView,
    failing: int,
    later: int,
)
    requires
        reaches(plan, at, outcomes, failing),
        verdict(plan[failing], outcomes(failing)) is Some,
        later > failing,
    ensures
        run_from(plan, at, outcomes) == verdict(plan[failing], outcomes(failing)),
        !reaches(plan, at, outcomes, later),
    decreases plan.len() - at,
{
    lemma_runs_move_forward(plan, at, outcomes, failing);
    if at != failing {
        lemma_first_failure_decides(
            plan,
            at + 1 + skipped(plan[at], outcomes(at)),
            outcomes,
            failing,
            later,
        );
    }
}

/// What `advance` decides is what a run does next: a failure is the
/// result of the run, a next step is where the run goes on, and the end
/// is a run without failure.
pub proof fn lemma_advance_follows_run(
    plan: Seq<StepView>,
    at: int,
    outcomes: spec_fn(int) -> OutcomeView,
)
    requires
        0 <= at < plan.len(),
    ensures
        match after(plan.len() as int, at, plan[at], outcomes(at)) {
            ProgressView::Failed(e) => run_from(plan, at, outcomes) == Some(e),
            ProgressView::Next(next) => at < next < plan.len() && run_from(plan, at, outcomes)
                == run_from(plan, next, outcomes),
            ProgressView::Finished => run_from(plan, at, outcomes) is None,
        },
{
}

/// The three parts of making a certificate come in their order: the key
/// is made before the signing request, and the request before the
/// signature. The result names the three steps.
pub proof fn lemma_key_then_request_then_signature(
    name: Seq<char>,
    ca_dir: Seq<char>,
    c: ConfigView,
) -> (at: (int, int, int))
    ensures
        0 <= at.0 < at.1 < at.2 < cert_plan(name, ca_dir, c).len(),
        cert_plan(name, ca_dir, c)[at.0] matches StepView::Run { command, .. } && command.args[0]
            == "genrsa"@,
        cert_plan(name, ca_dir, c)[at.1] matches StepView::Run { command, .. } && command.args[0]
            == "req"@,
        cert_plan(name, ca_dir, c)[at.2] matches StepView::Run { command, .. } && command.args[0]
            == "x509"@,
        forall|i: int|
            0 <= i < cert_plan(name, ca_dir, c).len() && i != at.0 && i != at.1 && i != at.2
                ==> !(#[trigger] cert_plan(name, ca_dir, c)[i] is Run),
{
    let dir = c.output_dir;
    let key = crate::operations::key_file(dir, name);
    let keys = private_key_plan(key, c.key_size);
    let request = csr_plan(c, key, crate::operations::csr_file(dir));
    let signing = sign_plan(
        c,
        crate::operations::csr_file(dir),
        crate::operations::cert_file(dir, name),
        crate::operations::signing_cert(c, ca_dir, name),
        crate::operations::signing_key(c, ca_dir, name),
    );
    let made = lemma_key_closed_at_once(key, c.key_size);
    let first: int = 4 + made;
    let second: int = keys.len() as int + 9;
    let third: int = keys.len() as int + request.len() + signing.len() + 4;
    let plan = cert_plan(name, ca_dir, c);
    assert(request.len() == 6);
    assert(plan[first] == keys[made]);
    assert(plan[second] == request[4]);
    assert(plan[third] == signing[signing.len() - 2]);
    assert forall|i: int|
        0 <= i < plan.len() && i != first && i != second && i != third implies !(
    #[trigger] plan[i] is Run) by {
        if i < 4 {
        } else if i < 4 + keys.len() {
            assert(plan[i] == keys[i - 4]);
        } else if i == 4 + keys.len() {
        } else if i < 4 + keys.len() + 1 + request.len() {
            assert(plan[i] == request[i - 4 - keys.len() - 1]);
        } else if i == 4 + keys.len() + 1 + request.len() {
        } else {
            assert(plan[i] == signing[i - 4 - keys.len() - 1 - request.len() - 1]);
        }
    }
    (first, second, third)
}

/// Every alternative name is a host name or an address, so the two
/// numbered lists of a request hold each name once.
pub proof fn lemma_alt_names_are_partitioned(names: Seq<AltNameView>)
    ensures
        values_of(names, AltNameType::DNS).len() + values_of(names, AltNameType::IP).len()
            == names.len(),
    decreases names.len(),
{
    if names.len() > 0 {
        lemma_alt_names_are_partitioned(names.drop_last());
    }
}

/// Certificates and keys are placed below the remote directory, and client
/// configurations below `/etc/kubernetes`: no name leads anywhere else.
pub proof fn lemma_routes_are_rooted(remote_dir: Seq<char>, name: Seq<char>, i: int)
    requires
        0 <= i < routes(remote_dir, name).len(),
    ensures
        has_prefix(
            routes(remote_dir, name)[i].remote,
            if is_kubeconfig(name) && name != chain_name() && !is_component(name) && !is_node(
                name,
            ) {
                "/etc/kubernetes/"@
            } else {
                remote_dir + "/"@
            },
        ),
{
    let remote = routes(remote_dir, name)[i].remote;
    if is_kubeconfig(name) && name != chain_name() && !is_component(name) && !is_node(name) {
        let root = "/etc/kubernetes/"@;
        assert(remote.subrange(0, root.len() as int) =~= root);
    } else {
        let root = remote_dir + "/"@;
        assert(remote.subrange(0, root.len() as int) =~= root);
    }
}

/// Key material is closed to everyone but root: a file placed under a name
/// that ends in `.key` gets mode 600, and only certificates and public
/// keys get mode 644.
pub proof fn lemma_keys_are_closed(path: Seq<char>)
    ensures
        has_suffix(path, ".key"@) ==> mode_of(path) == "600"@,
        mode_of(path) == "644"@ ==> has_suffix(path, ".crt"@) || has_suffix(path, ".pub"@),
        mode_of(path) == "600"@ || mode_of(path) == "644"@,
{
    reveal_strlit(".key");
    reveal_strlit(".crt");
    reveal_strlit(".pub");
    reveal_strlit("600");
    reveal_strlit("644");
    if has_suffix(path, ".key"@) {
        let tail = path.subrange(path.len() - 4, path.len() as int);
        assert(tail[1] == 'k');
        assert(".crt"@[1] == 'c');
        assert(".pub"@[1] == 'p');
    }
    assert("600"@[1] == '0');
    assert("644"@[1] == '4');
}

/// Whatever the ledger is told of the CA hierarchy can be copied out:
/// the path under which each part is filed is one the routing table knows.
pub proof fn lemma_ca_filings_are_routable(remote_dir: Seq<char>, i: int)
    requires
        0 <= i < crate::manager::ca_filings().len(),
    ensures
        routable(crate::manager::ca_filings()[i].path),
        routes(remote_dir, crate::manager::ca_filings()[i].path).len() > 0,
        forall|k: int|
            0 <= k < crate::manager::cluster_ca_filings().len() ==> routable(
                #[trigger] crate::manager::cluster_ca_filings()[k].path,
            ),
{
    reveal_strlit("certs/");
    reveal_strlit("certs/root-ca/ca.crt");
    reveal_strlit("certs/kubernetes-ca/ca.crt");
    reveal_strlit("certs/kubernetes-ca/ca.key");
    reveal_strlit("certs/kubernetes-ca/ca-chain.crt");
    let prefix = "certs/"@;
    assert("certs/root-ca/ca.crt"@.subrange(0, 6) =~= prefix);
    assert("certs/kubernetes-ca/ca.crt"@.subrange(0, 6) =~= prefix);
    assert("certs/kubernetes-ca/ca.key"@.subrange(0, 6) =~= prefix);
    assert("certs/kubernetes-ca/ca-chain.crt"@.subrange(0, 6) =~= prefix);
    assert(is_cert_path("certs/root-ca/ca.crt"@));
    assert(is_cert_path("certs/kubernetes-ca/ca.crt"@));
    assert(is_cert_path("certs/kubernetes-ca/ca.key"@));
    assert(is_cert_path("certs/kubernetes-ca/ca-chain.crt"@));
    lemma_known_name_has_routes(remote_dir, crate::manager::ca_filings()[i].path);
}

/// A host counts as reached only when a copy was run for it and ended
/// well: a host that does not answer and a name without files never
/// count, so nothing is marked as distributed that was not copied.
pub proof fn lemma_skipped_is_not_delivered(
    o: OperationsView,
    name: Seq<char>,
    host: Seq<char>,
    reachable: bool,
    d: crate::operations::Dispatch,
    passed: bool,
)
    requires
        crate::operations::dispatched(o, name, host, reachable, d),
        crate::operations::reached(d, passed),
    ensures
        reachable,
        passed,
        routes(o.remote_dir, name).len() > 0,
{
}

} // verus!
