//! The openssl tool: the files it is given and the commands it is run with.

use vstd::prelude::*;
use vstd::string::*;
use crate::cert_types::{
    is_authority, owned, self_signed, AltName, AltNameType, AltNameView, CertificateConfig,
    ConfigView,
};
use crate::steps::{
    FailureKind, Invocation, InvocationView, Plan, Step, StepView, OWNER_ONLY,
};
use crate::text::{cat, decimal, decimal_digits, join, joined, parent_dir, parent_of, texts};

verus! {

/// The values of the entries of `names` that have type `kind`, in order.
pub open spec fn values_of(names: Seq<AltNameView>, kind: AltNameType) -> Seq<Seq<char>>
    decreases names.len(),
{
    if names.len() == 0 {
        Seq::empty()
    } else if names.last().alt_type == kind {
        values_of(names.drop_last(), kind).push(names.last().value)
    } else {
        values_of(names.drop_last(), kind)
    }
}

/// One line of an `[alt_names]` section: entry number `n` of its type.
pub open spec fn san_line(label: Seq<char>, n: nat, value: Seq<char>) -> Seq<char> {
    label + "."@ + decimal_digits(n) + " = "@ + value + "\n"@
}

/// The lines for `values`, numbered from 1.
pub open spec fn numbered(label: Seq<char>, values: Seq<Seq<char>>) -> Seq<char>
    decreases values.len(),
{
    if values.len() == 0 {
        Seq::empty()
    } else {
        numbered(label, values.drop_last()) + san_line(label, values.len(), values.last())
    }
}

/// The entries of an `[alt_names]` section: the host names first, then the
/// addresses, each type numbered on its own from 1.
pub open spec fn san_entries(names: Seq<AltNameView>) -> Seq<char> {
    numbered("DNS"@, values_of(names, AltNameType::DNS)) + numbered(
        "IP"@,
        values_of(names, AltNameType::IP),
    )
}

/// The reference to the `[alt_names]` section and the section itself;
/// nothing when there are no alternative names.
pub open spec fn san_section(names: Seq<AltNameView>) -> Seq<char> {
    if names.len() == 0 {
        Seq::empty()
    } else {
        "subjectAltName = @alt_names\n\n[alt_names]\n"@ + san_entries(names)
    }
}

/// The organization written into a request that names none.
pub open spec fn default_organization() -> Seq<char> {
    "Kubernetes"@
}

/// The organization written into the request for `c`.
pub open spec fn organization_of(c: ConfigView) -> Seq<char> {
    match c.organization {
        Some(o) => o,
        None => default_organization(),
    }
}

/// The configuration file of a signing request.
pub open spec fn csr_config_text(c: ConfigView) -> Seq<char> {
    "[req]\nreq_extensions = v3_req\ndistinguished_name = req_distinguished_name\nprompt = no\n\n[req_distinguished_name]\nCN = "@
        + c.common_name + "\nO = "@ + organization_of(c)
        + "\n\n[v3_req]\nbasicConstraints = CA:FALSE\nkeyUsage = nonRepudiation, digitalSignature, keyEncipherment\n"@
        + san_section(c.alt_names)
}

/// The basic-constraints line of the extensions file.
pub open spec fn constraints_line(c: ConfigView) -> Seq<char> {
    if is_authority(c.cert_type) {
        "basicConstraints = critical,CA:TRUE\n"@
    } else {
        "basicConstraints = critical,CA:FALSE\n"@
    }
}

/// A line that lists `usages` under `label`; nothing when there are none.
pub open spec fn usage_line(label: Seq<char>, usages: Seq<Seq<char>>) -> Seq<char> {
    if usages.len() == 0 {
        Seq::empty()
    } else {
        label + " = "@ + joined(usages, ", "@) + "\n"@
    }
}

/// The extensions file handed to the signer.
pub open spec fn extensions_text(c: ConfigView) -> Seq<char> {
    constraints_line(c) + usage_line("keyUsage"@, c.key_usage) + usage_line(
        "extendedKeyUsage"@,
        c.extended_key_usage,
    ) + san_section(c.alt_names)
}

/// Appends to `out` the numbered lines for the entries of `names` of type `kind`.
fn push_entries(out: &mut String, names: &Vec<AltName>, kind: AltNameType, label: &str)
    ensures
        final(out)@ == old(out)@ + numbered(
            label@,
            values_of(crate::cert_types::alt_views(names@), kind),
        ),
{
    let ghost all = crate::cert_types::alt_views(names@);
    let ghost start = out@;
    let mut count: usize = 0;
    let mut i: usize = 0;
    assert(out@ =~= start + numbered(label@, values_of(all.take(0), kind)));
    while i < names.len()
        invariant
            i <= names.len(),
            all == crate::cert_types::alt_views(names@),
            count == values_of(all.take(i as int), kind).len(),
            count <= i,
            out@ == start + numbered(label@, values_of(all.take(i as int), kind)),
        decreases names.len() - i,
    {
        proof {
            let next = all.take(i + 1);
            assert(next.drop_last() =~= all.take(i as int));
            assert(next.last() == names@[i as int]@);
        }
        if names[i].alt_type == kind {
            count += 1;
            let number = decimal(count as u128);
            let ghost before = out@;
            out.append(label);
            out.append(".");
            out.append(number.as_str());
            out.append(" = ");
            out.append(names[i].value.as_str());
            out.append("\n");
            proof {
                let vals = values_of(all.take(i + 1), kind);
                assert(vals.drop_last() =~= values_of(all.take(i as int), kind));
                assert(out@ =~= before + san_line(label@, count as nat, names@[i as int].value@));
                assert(out@ =~= start + numbered(label@, vals));
            }
        }
        i += 1;
    }
    assert(all.take(names.len() as int) =~= all);
}

/// Appends to `out` the alternative-name section for `names`.
fn push_san_section(out: &mut String, names: &Vec<AltName>)
    ensures
        final(out)@ == old(out)@ + san_section(crate::cert_types::alt_views(names@)),
{
    let ghost start = out@;
    if names.len() > 0 {
        out.append("subjectAltName = @alt_names\n\n[alt_names]\n");
        push_entries(out, names, AltNameType::DNS, "DNS");
        push_entries(out, names, AltNameType::IP, "IP");
        assert(out@ =~= start + san_section(crate::cert_types::alt_views(names@)));
    } else {
        assert(out@ =~= start + san_section(crate::cert_types::alt_views(names@)));
    }
}

/// The configuration file of the signing request for `config`.
pub fn generate_csr_config(config: &CertificateConfig) -> (r: String)
    ensures
        r@ == csr_config_text(config@),
{
    let mut out = String::from_str(
        "[req]\nreq_extensions = v3_req\ndistinguished_name = req_distinguished_name\nprompt = no\n\n[req_distinguished_name]\nCN = ",
    );
    out.append(config.common_name.as_str());
    out.append("\nO = ");
    match &config.organization {
        Some(o) => out.append(o.as_str()),
        None => out.append("Kubernetes"),
    }
    out.append(
        "\n\n[v3_req]\nbasicConstraints = CA:FALSE\nkeyUsage = nonRepudiation, digitalSignature, keyEncipherment\n",
    );
    push_san_section(&mut out, &config.alt_names);
    assert(out@ =~= csr_config_text(config@));
    out
}

fn push_usage_line(out: &mut String, label: &str, usages: &Vec<String>)
    ensures
        final(out)@ == old(out)@ + usage_line(label@, texts(usages@)),
{
    let ghost start = out@;
    if usages.len() > 0 {
        let list = join(usages, ", ");
        out.append(label);
        out.append(" = ");
        out.append(list.as_str());
        out.append("\n");
    }
    assert(out@ =~= start + usage_line(label@, texts(usages@)));
}

/// The extensions file for signing the certificate of `config`.
pub fn extensions_content(config: &CertificateConfig) -> (r: String)
    ensures
        r@ == extensions_text(config@),
{
    let mut out = if config.cert_type.is_ca() {
        String::from_str("basicConstraints = critical,CA:TRUE\n")
    } else {
        String::from_str("basicConstraints = critical,CA:FALSE\n")
    };
    push_usage_line(&mut out, "keyUsage", &config.key_usage);
    push_usage_line(&mut out, "extendedKeyUsage", &config.extended_key_usage);
    push_san_section(&mut out, &config.alt_names);
    out
}

/// The name under which the tool is started.
pub open spec fn tool() -> Seq<char> {
    "openssl"@
}

/// A run of the tool with `args`.
pub open spec fn openssl(args: Seq<Seq<char>>) -> InvocationView {
    InvocationView { program: tool(), args }
}

/// A run of the tool that makes part of a certificate.
pub open spec fn making(
    args: Seq<Seq<char>>,
    cleanup: Option<Seq<char>>,
    context: Seq<char>,
) -> StepView {
    StepView::Run {
        command: openssl(args),
        capture: None,
        cleanup,
        kind: FailureKind::CertGeneration,
        context,
    }
}

/// A run of the tool that checks a certificate.
pub open spec fn checking(args: Seq<Seq<char>>, context: Seq<char>) -> StepView {
    StepView::Run {
        command: openssl(args),
        capture: None,
        cleanup: None,
        kind: FailureKind::Verification,
        context,
    }
}

fn make_step(args: Vec<String>, cleanup: Option<String>, context: String) -> (r: Step)
    ensures
        r@ == making(texts(args@), crate::steps::opt_view(cleanup), context@),
{
    Step::Run {
        command: Invocation::new("openssl", args),
        capture: None,
        cleanup,
        kind: FailureKind::CertGeneration,
        context,
    }
}

fn check_step(args: Vec<String>, context: String) -> (r: Step)
    ensures
        r@ == checking(texts(args@), context@),
{
    Step::Run {
        command: Invocation::new("openssl", args),
        capture: None,
        cleanup: None,
        kind: FailureKind::Verification,
        context,
    }
}

/// The runbook that makes an RSA key of `key_size` bits at `path` and
/// closes the file to everyone but its owner right after.
pub open spec fn private_key_plan(path: Seq<char>, key_size: u32) -> Seq<StepView> {
    let intro = seq![StepView::DebugLog("Generating private key: "@ + path)];
    let with_dir = if parent_dir(path).len() > 0 {
        intro.push(StepView::CreateDir(parent_dir(path)))
    } else {
        intro
    };
    with_dir.push(
        making(
            seq!["genrsa"@, "-out"@, path, decimal_digits(key_size as nat)],
            None,
            "Failed to generate private key: "@ + path,
        ),
    ).push(StepView::Restrict { path, mode: OWNER_ONLY }).push(
        StepView::DebugLog("Successfully generated private key: "@ + path),
    )
}

/// The runbook that makes the private key at `path`.
pub fn generate_private_key(path: &str, key_size: u32) -> (plan: Plan)
    ensures
        plan@ == private_key_plan(path@, key_size),
{
    let mut plan = Plan::new();
    plan.push(Step::DebugLog(cat("Generating private key: ", path)));
    let parent = parent_of(path);
    if parent.as_str().unicode_len() > 0 {
        plan.push(Step::CreateDir(parent));
    }
    let size = decimal(key_size as u128);
    let args = owned(vec!["genrsa", "-out", path, size.as_str()]);
    assert(texts(args@) =~= seq!["genrsa"@, "-out"@, path@, decimal_digits(key_size as nat)]);
    plan.push(make_step(args, None, cat("Failed to generate private key: ", path)));
    plan.push(Step::Restrict { path: String::from_str(path), mode: OWNER_ONLY });
    plan.push(Step::DebugLog(cat("Successfully generated private key: ", path)));
    assert(plan@ =~= private_key_plan(path@, key_size));
    plan
}

/// The file that holds the configuration of the request at `csr_path`.
pub open spec fn csr_config_path(csr_path: Seq<char>) -> Seq<char> {
    csr_path + ".cnf"@
}

/// The runbook that makes the signing request for `c` from the key at
/// `key_path`. The configuration file is written for the one run and removed
/// once the tool has returned.
pub open spec fn csr_plan(c: ConfigView, key_path: Seq<char>, csr_path: Seq<char>) -> Seq<
    StepView,
> {
    seq![
        StepView::DebugLog("Generating CSR: "@ + csr_path),
        StepView::RequireFile { path: key_path, missing: "Private key not found: "@ + key_path },
        StepView::WriteFile { path: csr_config_path(csr_path), content: csr_config_text(c) },
        StepView::DebugLog("Using OpenSSL config: "@ + csr_config_path(csr_path)),
        making(
            seq![
                "req"@,
                "-new"@,
                "-key"@,
                key_path,
                "-out"@,
                csr_path,
                "-config"@,
                csr_config_path(csr_path),
                "-batch"@,
            ],
            Some(csr_config_path(csr_path)),
            "Failed to generate CSR: "@ + csr_path,
        ),
        StepView::DebugLog("Successfully generated CSR: "@ + csr_path),
    ]
}

/// The runbook that makes the signing request at `csr_path`.
pub fn generate_csr(config: &CertificateConfig, key_path: &str, csr_path: &str) -> (plan: Plan)
    ensures
        plan@ == csr_plan(config@, key_path@, csr_path@),
{
    let config_path = cat(csr_path, ".cnf");
    let mut plan = Plan::new();
    plan.push(Step::DebugLog(cat("Generating CSR: ", csr_path)));
    plan.push(
        Step::RequireFile {
            path: String::from_str(key_path),
            missing: cat("Private key not found: ", key_path),
        },
    );
    plan.push(
        Step::WriteFile { path: config_path.clone(), content: generate_csr_config(config) },
    );
    plan.push(Step::DebugLog(cat("Using OpenSSL config: ", config_path.as_str())));
    let args = owned(
        vec![
            "req",
            "-new",
            "-key",
            key_path,
            "-out",
            csr_path,
            "-config",
            config_path.as_str(),
            "-batch",
        ],
    );
    assert(texts(args@) =~= seq![
        "req"@,
        "-new"@,
        "-key"@,
        key_path@,
        "-out"@,
        csr_path@,
        "-config"@,
        csr_config_path(csr_path@),
        "-batch"@,
    ]);
    plan.push(make_step(args, Some(config_path), cat("Failed to generate CSR: ", csr_path)));
    plan.push(Step::DebugLog(cat("Successfully generated CSR: ", csr_path)));
    assert(plan@ =~= csr_plan(config@, key_path@, csr_path@));
    plan
}

/// The file that holds the extensions for the certificate at `cert_path`.
pub open spec fn extensions_path(cert_path: Seq<char>) -> Seq<char> {
    cert_path + ".ext"@
}

/// The arguments that tell the signer who signs: the request's own key for
/// a root, the CA's certificate and key otherwise.
pub open spec fn signer_args(c: ConfigView, ca_cert: Seq<char>, ca_key: Seq<char>) -> Seq<
    Seq<char>,
> {
    if self_signed(c.cert_type) {
        seq!["x509"@, "-req"@, "-signkey"@, ca_key]
    } else {
        seq!["x509"@, "-req"@, "-CA"@, ca_cert, "-CAkey"@, ca_key, "-CAcreateserial"@]
    }
}

/// The arguments of the signing run.
pub open spec fn sign_args(
    c: ConfigView,
    csr_path: Seq<char>,
    cert_path: Seq<char>,
    ca_cert: Seq<char>,
    ca_key: Seq<char>,
) -> Seq<Seq<char>> {
    signer_args(c, ca_cert, ca_key) + seq![
        "-in"@,
        csr_path,
        "-out"@,
        cert_path,
        "-days"@,
        decimal_digits(c.validity_days as nat),
        "-extfile"@,
        extensions_path(cert_path),
    ]
}

/// The tests that stand before the signer: none for a root, which signs
/// itself; otherwise the CA's certificate and key must both be there.
pub open spec fn ca_requirements(c: ConfigView, ca_cert: Seq<char>, ca_key: Seq<char>) -> Seq<
    StepView,
> {
    if self_signed(c.cert_type) {
        Seq::empty()
    } else {
        seq![
            StepView::RequireFile {
                path: ca_cert,
                missing: "CA certificate not found: "@ + ca_cert,
            },
            StepView::RequireFile { path: ca_key, missing: "CA key not found: "@ + ca_key },
        ]
    }
}

/// The runbook that signs the request at `csr_path` into `cert_path`. The
/// extensions file is written for the one run and removed once the tool has
/// returned.
pub open spec fn sign_plan(
    c: ConfigView,
    csr_path: Seq<char>,
    cert_path: Seq<char>,
    ca_cert: Seq<char>,
    ca_key: Seq<char>,
) -> Seq<StepView> {
    ca_requirements(c, ca_cert, ca_key) + seq![
        StepView::DebugLog("Signing certificate: "@ + cert_path),
        StepView::WriteFile { path: extensions_path(cert_path), content: extensions_text(c) },
        making(
            sign_args(c, csr_path, cert_path, ca_cert, ca_key),
            Some(extensions_path(cert_path)),
            "Failed to sign certificate: "@ + cert_path,
        ),
        StepView::DebugLog("Successfully signed certificate: "@ + cert_path),
    ]
}

/// The runbook that signs the request at `csr_path` into `cert_path`.
pub fn sign_certificate(
    csr_path: &str,
    cert_path: &str,
    ca_cert: &str,
    ca_key: &str,
    config: &CertificateConfig,
) -> (plan: Plan)
    ensures
        plan@ == sign_plan(config@, csr_path@, cert_path@, ca_cert@, ca_key@),
{
    let root = config.cert_type.is_root();
    let mut plan = Plan::new();
    if !root {
        plan.push(
            Step::RequireFile {
                path: String::from_str(ca_cert),
                missing: cat("CA certificate not found: ", ca_cert),
            },
        );
        plan.push(
            Step::RequireFile {
                path: String::from_str(ca_key),
                missing: cat("CA key not found: ", ca_key),
            },
        );
    }
    assert(plan@ =~= ca_requirements(config@, ca_cert@, ca_key@));
    let extensions_file = cat(cert_path, ".ext");
    plan.push(Step::DebugLog(cat("Signing certificate: ", cert_path)));
    plan.push(
        Step::WriteFile { path: extensions_file.clone(), content: extensions_content(config) },
    );
    let days = decimal(config.validity_days as u128);
    let args = if root {
        owned(
            vec![
                "x509",
                "-req",
                "-signkey",
                ca_key,
                "-in",
                csr_path,
                "-out",
                cert_path,
                "-days",
                days.as_str(),
                "-extfile",
                extensions_file.as_str(),
            ],
        )
    } else {
        owned(
            vec![
                "x509",
                "-req",
                "-CA",
                ca_cert,
                "-CAkey",
                ca_key,
                "-CAcreateserial",
                "-in",
                csr_path,
                "-out",
                cert_path,
                "-days",
                days.as_str(),
                "-extfile",
                extensions_file.as_str(),
            ],
        )
    };
    assert(texts(args@) =~= sign_args(config@, csr_path@, cert_path@, ca_cert@, ca_key@));
    plan.push(
        make_step(args, Some(extensions_file), cat("Failed to sign certificate: ", cert_path)),
    );
    plan.push(Step::DebugLog(cat("Successfully signed certificate: ", cert_path)));
    assert(plan@ =~= sign_plan(config@, csr_path@, cert_path@, ca_cert@, ca_key@));
    plan
}

/// The run that reads a certificate and prints nothing: it fails when the
/// file is no certificate.
pub open spec fn basic_check(cert_path: Seq<char>, context: Seq<char>) -> StepView {
    checking(seq!["x509"@, "-in"@, cert_path, "-noout"@, "-text"@], context)
}

/// The run that verifies a certificate against the CA file `ca`.
pub open spec fn chain_check(cert_path: Seq<char>, ca: Seq<char>, context: Seq<char>) -> StepView {
    checking(seq!["verify"@, "-CAfile"@, ca, cert_path], context)
}

/// The runbook that checks the certificate at `cert_path`, against `ca_cert` when one is given.
pub open spec fn verify_plan(cert_path: Seq<char>, ca_cert: Option<Seq<char>>) -> Seq<StepView> {
    let basic = seq![
        StepView::DebugLog("Verifying certificate: "@ + cert_path),
        basic_check(cert_path, "Certificate basic check failed: "@ + cert_path),
    ];
    let chained = match ca_cert {
        Some(ca) => basic.push(StepView::DebugLog("Verifying against CA: "@ + ca)).push(
            chain_check(cert_path, ca, "Certificate chain verification failed: "@ + cert_path),
        ),
        None => basic,
    };
    chained.push(StepView::DebugLog("Certificate verified successfully: "@ + cert_path))
}

/// The character sequence of an optional text.
pub open spec fn opt_str(s: Option<&str>) -> Option<Seq<char>> {
    match s {
        Some(t) => Some(t@),
        None => None,
    }
}

pub(crate) fn basic_check_step(cert_path: &str, context: String) -> (r: Step)
    ensures
        r@ == basic_check(cert_path@, context@),
{
    let args = owned(vec!["x509", "-in", cert_path, "-noout", "-text"]);
    assert(texts(args@) =~= seq!["x509"@, "-in"@, cert_path@, "-noout"@, "-text"@]);
    check_step(args, context)
}

pub(crate) fn chain_check_step(cert_path: &str, ca: &str, context: String) -> (r: Step)
    ensures
        r@ == chain_check(cert_path@, ca@, context@),
{
    let args = owned(vec!["verify", "-CAfile", ca, cert_path]);
    assert(texts(args@) =~= seq!["verify"@, "-CAfile"@, ca@, cert_path@]);
    check_step(args, context)
}

/// The runbook that checks the certificate at `cert_path`.
pub fn verify_certificate(cert_path: &str, ca_cert: Option<&str>) -> (plan: Plan)
    ensures
        plan@ == verify_plan(cert_path@, opt_str(ca_cert)),
{
    let mut plan = Plan::new();
    plan.push(Step::DebugLog(cat("Verifying certificate: ", cert_path)));
    plan.push(basic_check_step(cert_path, cat("Certificate basic check failed: ", cert_path)));
    match ca_cert {
        Some(ca) => {
            plan.push(Step::DebugLog(cat("Verifying against CA: ", ca)));
            plan.push(
                chain_check_step(
                    cert_path,
                    ca,
                    cat("Certificate chain verification failed: ", cert_path),
                ),
            );
        },
        None => {},
    }
    plan.push(Step::DebugLog(cat("Certificate verified successfully: ", cert_path)));
    assert(plan@ =~= verify_plan(cert_path@, opt_str(ca_cert)));
    plan
}

} // verus!
