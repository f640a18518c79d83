//! The certificate ledger: what was generated, where it has to go, and
//! whether it has arrived and been verified.

use vstd::prelude::*;
use vstd::string::*;
use crate::clock::utc_now;
use crate::text::{clone_strings, contains, has_infix, str_eq, texts};

verus! {

/// One ledger entry. Times are whole seconds since the Unix epoch.
#[derive(Clone, Debug, PartialEq, Eq)]
pub struct CertificateStatus {
    pub cert_type: String,
    pub generated: i64,
    pub distributed: Option<i64>,
    pub path: String,
    pub hosts: Vec<String>,
    pub verified: Option<bool>,
    pub last_verified: Option<i64>,
}

/// The ledger, in insertion order.
#[derive(Clone, Debug, PartialEq, Eq)]
pub struct CertTracker {
    pub certificates: Vec<CertificateStatus>,
}

/// The mathematical content of a ledger entry.
pub struct StatusView {
    pub cert_type: Seq<char>,
    pub generated: int,
    pub distributed: Option<int>,
    pub path: Seq<char>,
    pub hosts: Seq<Seq<char>>,
    pub verified: Option<bool>,
    pub last_verified: Option<int>,
}

/// An optional time as an optional integer.
pub open spec fn widen(t: Option<i64>) -> Option<int> {
    match t {
        Some(v) => Some(v as int),
        None => None,
    }
}

impl View for CertificateStatus {
    type V = StatusView;

    open spec fn view(&self) -> StatusView {
        StatusView {
            cert_type: self.cert_type@,
            generated: self.generated as int,
            distributed: widen(self.distributed),
            path: self.path@,
            hosts: texts(self.hosts@),
            verified: self.verified,
            last_verified: widen(self.last_verified),
        }
    }
}

impl View for CertTracker {
    type V = Seq<StatusView>;

    open spec fn view(&self) -> Seq<StatusView> {
        Seq::new(self.certificates@.len(), |i: int| self.certificates@[i]@)
    }
}

/// The marker that names the root CA inside a `cert_type`.
pub open spec fn root_marker() -> Seq<char> {
    "root-ca"@
}

/// Index of the first entry of `ledger` filed under `key`.
pub open spec fn first_match(ledger: Seq<StatusView>, key: Seq<char>) -> Option<int>
    decreases ledger.len(),
{
    if ledger.len() == 0 {
        None
    } else if ledger[0].cert_type == key {
        Some(0)
    } else {
        match first_match(ledger.skip(1), key) {
            Some(i) => Some(i + 1),
            None => None,
        }
    }
}

/// No two entries share a `cert_type`.
pub open spec fn unique_keys(ledger: Seq<StatusView>) -> bool {
    forall|i: int, j: int|
        0 <= i < ledger.len() && 0 <= j < ledger.len() && ledger[i].cert_type == ledger[j].cert_type
            ==> i == j
}

/// The entry a first generation files.
pub open spec fn fresh_entry(
    key: Seq<char>,
    path: Seq<char>,
    hosts: Seq<Seq<char>>,
    now: int,
) -> StatusView {
    StatusView {
        cert_type: key,
        generated: now,
        distributed: None,
        path,
        hosts,
        verified: None,
        last_verified: None,
    }
}

/// An entry after its certificate was generated again: the distribution is
/// void, the verification verdicts stay.
pub open spec fn regenerated(
    e: StatusView,
    path: Seq<char>,
    hosts: Seq<Seq<char>>,
    now: int,
) -> StatusView {
    StatusView { generated: now, distributed: None, path, hosts, ..e }
}

/// The ledger after filing a generation of `key` at time `now`.
pub open spec fn upsert(
    ledger: Seq<StatusView>,
    key: Seq<char>,
    path: Seq<char>,
    hosts: Seq<Seq<char>>,
    now: int,
) -> Seq<StatusView> {
    match first_match(ledger, key) {
        Some(i) => ledger.update(i, regenerated(ledger[i], path, hosts, now)),
        None => ledger.push(fresh_entry(key, path, hosts, now)),
    }
}

/// The ledger after recording a verification verdict for `key`.
pub open spec fn with_verdict(ledger: Seq<StatusView>, key: Seq<char>, verdict: bool) -> Seq<
    StatusView,
> {
    match first_match(ledger, key) {
        Some(i) => ledger.update(i, StatusView { verified: Some(verdict), ..ledger[i] }),
        None => ledger,
    }
}

/// The ledger after recording at `now` that `key` reached all its hosts.
pub open spec fn with_distribution(ledger: Seq<StatusView>, key: Seq<char>, now: int) -> Seq<
    StatusView,
> {
    match first_match(ledger, key) {
        Some(i) => ledger.update(i, StatusView { distributed: Some(now), ..ledger[i] }),
        None => ledger,
    }
}

/// An entry to file: the name and the path.
pub struct Filing {
    pub cert_type: Seq<char>,
    pub path: Seq<char>,
}

/// The ledger after filing at `now` a generation of each of `filings`, in
/// order, all for the same hosts.
pub open spec fn filed_all(
    ledger: Seq<StatusView>,
    filings: Seq<Filing>,
    hosts: Seq<Seq<char>>,
    now: int,
) -> Seq<StatusView>
    decreases filings.len(),
{
    if filings.len() == 0 {
        ledger
    } else {
        upsert(
            filed_all(ledger, filings.drop_last(), hosts, now),
            filings.last().cert_type,
            filings.last().path,
            hosts,
            now,
        )
    }
}

/// The ledger after recording the verdict for each of `names`, in order.
pub open spec fn verdict_all(ledger: Seq<StatusView>, names: Seq<Seq<char>>, verdict: bool) -> Seq<
    StatusView,
>
    decreases names.len(),
{
    if names.len() == 0 {
        ledger
    } else {
        with_verdict(verdict_all(ledger, names.drop_last(), verdict), names.last(), verdict)
    }
}

/// The ledger after recording at `now` that each of `names` reached its hosts.
pub open spec fn distribution_all(ledger: Seq<StatusView>, names: Seq<Seq<char>>, now: int) -> Seq<
    StatusView,
>
    decreases names.len(),
{
    if names.len() == 0 {
        ledger
    } else {
        with_distribution(distribution_all(ledger, names.drop_last(), now), names.last(), now)
    }
}

/// The filings a list of name and path pairs stands for.
pub open spec fn filings_of(entries: Seq<(String, String)>) -> Seq<Filing> {
    Seq::new(entries.len(), |i: int| Filing { cert_type: entries[i].0@, path: entries[i].1@ })
}

/// The names of the filings.
pub open spec fn names_of(filings: Seq<Filing>) -> Seq<Seq<char>> {
    Seq::new(filings.len(), |i: int| filings[i].cert_type)
}

/// An entry still has to be copied out: it was never distributed and is not
/// the root CA, which stays on the control-plane host.
pub open spec fn awaits_distribution(e: StatusView) -> bool {
    e.distributed is None && !has_infix(e.cert_type, root_marker())
}

/// The entries that still have to be copied out, in ledger order.
pub open spec fn pending(ledger: Seq<StatusView>) -> Seq<StatusView>
    decreases ledger.len(),
{
    if ledger.len() == 0 {
        Seq::empty()
    } else if awaits_distribution(ledger.last()) {
        pending(ledger.drop_last()).push(ledger.last())
    } else {
        pending(ledger.drop_last())
    }
}

/// The views of borrowed entries.
pub open spec fn entry_views(items: Seq<&CertificateStatus>) -> Seq<StatusView> {
    Seq::new(items.len(), |i: int| items[i]@)
}

/// `first_match` finds an entry filed under `key`, and none stands before it.
pub proof fn lemma_first_match(ledger: Seq<StatusView>, key: Seq<char>)
    ensures
        match first_match(ledger, key) {
            Some(i) => 0 <= i < ledger.len() && ledger[i].cert_type == key && forall|j: int|
                0 <= j < i ==> ledger[j].cert_type != key,
            None => forall|j: int| 0 <= j < ledger.len() ==> ledger[j].cert_type != key,
        },
    decreases ledger.len(),
{
    if ledger.len() > 0 && ledger[0].cert_type != key {
        let rest = ledger.skip(1);
        lemma_first_match(rest, key);
        match first_match(rest, key) {
            Some(i) => {
                assert forall|j: int| 0 <= j < i + 1 implies ledger[j].cert_type != key by {
                    if j > 0 {
                        assert(ledger[j] == rest[j - 1]);
                    }
                }
            },
            None => {
                assert forall|j: int| 0 <= j < ledger.len() implies ledger[j].cert_type
                    != key by {
                    if j > 0 {
                        assert(ledger[j] == rest[j - 1]);
                    }
                }
            },
        }
    }
}

/// An index at which `key` stands, with no earlier one, is what `first_match` finds.
pub proof fn lemma_first_match_at(ledger: Seq<StatusView>, key: Seq<char>, i: int)
    requires
        0 <= i < ledger.len(),
        ledger[i].cert_type == key,
        forall|j: int| 0 <= j < i ==> ledger[j].cert_type != key,
    ensures
        first_match(ledger, key) == Some(i),
{
    lemma_first_match(ledger, key);
}

/// Filing a generation keeps the keys of the ledger distinct.
pub proof fn lemma_upsert_keeps_keys_unique(
    ledger: Seq<StatusView>,
    key: Seq<char>,
    path: Seq<char>,
    hosts: Seq<Seq<char>>,
    now: int,
)
    requires
        unique_keys(ledger),
    ensures
        unique_keys(upsert(ledger, key, path, hosts, now)),
{
    lemma_first_match(ledger, key);
}

/// After a generation of `key` is filed, the ledger has an entry for `key`,
/// and that entry is undistributed and stamped with the time of filing,
/// whatever the ledger held before.
pub proof fn lemma_upsert_resets(
    ledger: Seq<StatusView>,
    key: Seq<char>,
    path: Seq<char>,
    hosts: Seq<Seq<char>>,
    now: int,
)
    ensures
        ({
            let after = upsert(ledger, key, path, hosts, now);
            &&& first_match(after, key) is Some
            &&& first_match(ledger, key) is Some ==> first_match(after, key) == first_match(
                ledger,
                key,
            ) && after.len() == ledger.len()
            &&& first_match(ledger, key) is None ==> first_match(after, key) == Some(
                ledger.len() as int,
            )
            &&& after[first_match(after, key).unwrap()].distributed is None
            &&& after[first_match(after, key).unwrap()].generated == now
            &&& after[first_match(after, key).unwrap()].path == path
            &&& after[first_match(after, key).unwrap()].hosts == hosts
        }),
{
    let after = upsert(ledger, key, path, hosts, now);
    lemma_first_match(ledger, key);
    match first_match(ledger, key) {
        Some(i) => {
            lemma_first_match_at(after, key, i);
        },
        None => {
            lemma_first_match_at(after, key, ledger.len() as int);
        },
    }
}

/// Filing the same `cert_type` twice leaves one entry for it where the first
/// filing put it; that entry is undistributed and carries the second time,
/// path and hosts, even if the certificate was marked distributed in between.
pub proof fn lemma_upsert_twice(
    ledger: Seq<StatusView>,
    key: Seq<char>,
    path1: Seq<char>,
    hosts1: Seq<Seq<char>>,
    now1: int,
    sent: int,
    path2: Seq<char>,
    hosts2: Seq<Seq<char>>,
    now2: int,
)
    ensures
        ({
            let once = upsert(ledger, key, path1, hosts1, now1);
            let shipped = with_distribution(once, key, sent);
            let twice = upsert(shipped, key, path2, hosts2, now2);
            let i = first_match(once, key).unwrap();
            &&& first_match(once, key) is Some
            &&& shipped[i].distributed == Some(sent)
            &&& twice.len() == once.len()
            &&& first_match(twice, key) == Some(i)
            &&& twice[i].distributed is None
            &&& twice[i].generated == now2
            &&& twice[i].path == path2
            &&& twice[i].hosts == hosts2
            &&& forall|j: int| 0 <= j < once.len() && j != i ==> twice[j] == once[j]
        }),
{
    let once = upsert(ledger, key, path1, hosts1, now1);
    lemma_upsert_resets(ledger, key, path1, hosts1, now1);
    let i = first_match(once, key).unwrap();
    lemma_first_match(once, key);
    let shipped = with_distribution(once, key, sent);
    lemma_first_match_at(shipped, key, i);
    lemma_upsert_resets(shipped, key, path2, hosts2, now2);
}

/// No entry that awaits distribution names the root CA, and each one is
/// undistributed, whatever the ledger holds.
pub proof fn lemma_pending_excludes_root(ledger: Seq<StatusView>)
    ensures
        forall|k: int|
            0 <= k < pending(ledger).len() ==> !has_infix(
                #[trigger] pending(ledger)[k].cert_type,
                root_marker(),
            ) && pending(ledger)[k].distributed is None,
    decreases ledger.len(),
{
    if ledger.len() > 0 {
        lemma_pending_excludes_root(ledger.drop_last());
    }
}

/// Every entry that awaits distribution is an entry of the ledger, and every
/// undistributed entry of the ledger that does not name the root CA awaits it.
pub proof fn lemma_pending_complete(ledger: Seq<StatusView>)
    ensures
        forall|k: int|
            0 <= k < pending(ledger).len() ==> ledger.contains(#[trigger] pending(ledger)[k]),
        forall|i: int|
            0 <= i < ledger.len() && awaits_distribution(#[trigger] ledger[i]) ==> pending(
                ledger,
            ).contains(ledger[i]),
    decreases ledger.len(),
{
    if ledger.len() > 0 {
        let rest = ledger.drop_last();
        lemma_pending_complete(rest);
        assert forall|k: int| 0 <= k < pending(ledger).len() implies ledger.contains(
            #[trigger] pending(ledger)[k],
        ) by {
            if k < pending(rest).len() {
                let e = pending(rest)[k];
                assert(rest.contains(e));
                let w = choose|w: int| 0 <= w < rest.len() && rest[w] == e;
                assert(ledger[w] == e);
            } else {
                assert(ledger[ledger.len() - 1] == ledger.last());
            }
        }
        assert forall|i: int|
            0 <= i < ledger.len() && awaits_distribution(#[trigger] ledger[i]) implies pending(
            ledger,
        ).contains(ledger[i]) by {
            if i < rest.len() {
                assert(rest[i] == ledger[i]);
                assert(pending(rest).contains(ledger[i]));
                let w = choose|w: int|
                    0 <= w < pending(rest).len() && pending(rest)[w] == ledger[i];
                assert(pending(ledger)[w] == ledger[i]);
            } else {
                assert(pending(ledger)[pending(ledger).len() - 1] == ledger[i]);
            }
        }
    }
}

impl CertTracker {
    /// Keys are distinct.
    pub open spec fn wf(&self) -> bool {
        unique_keys(self@)
    }

    /// An empty ledger.
    pub fn new() -> (r: Self)
        ensures
            r@ == Seq::<StatusView>::empty(),
            r.wf(),
    {
        let r = CertTracker { certificates: Vec::new() };
        assert(r@ =~= Seq::<StatusView>::empty());
        r
    }

    /// Index of the first entry filed under `cert_type`.
    pub fn position(&self, cert_type: &str) -> (r: Option<usize>)
        ensures
            match r {
                Some(i) => first_match(self@, cert_type@) == Some(i as int) && i
                    < self.certificates.len(),
                None => first_match(self@, cert_type@) is None,
            },
    {
        let mut i: usize = 0;
        while i < self.certificates.len()
            invariant
                i <= self.certificates.len(),
                forall|j: int| 0 <= j < i ==> self@[j].cert_type != cert_type@,
            decreases self.certificates.len() - i,
        {
            if str_eq(self.certificates[i].cert_type.as_str(), cert_type) {
                proof {
                    lemma_first_match_at(self@, cert_type@, i as int);
                }
                return Some(i);
            }
            i += 1;
        }
        proof {
            lemma_first_match(self@, cert_type@);
        }
        None
    }

    /// Files a generation of `cert_type` at time `now`: an entry already
    /// filed under that name is refreshed in place and loses its
    /// distribution stamp; otherwise a new entry is appended.
    pub fn add_certificate_at(&mut self, cert_type: &str, path: &str, hosts: Vec<String>, now: i64)
        ensures
            final(self)@ == upsert(old(self)@, cert_type@, path@, texts(hosts@), now as int),
            old(self).wf() ==> final(self).wf(),
    {
        let ghost before = self@;
        match self.position(cert_type) {
            Some(i) => {
                self.certificates[i].generated = now;
                self.certificates[i].distributed = None;
                self.certificates[i].path = String::from_str(path);
                self.certificates[i].hosts = hosts;
            },
            None => {
                self.certificates.push(
                    CertificateStatus {
                        cert_type: String::from_str(cert_type),
                        generated: now,
                        distributed: None,
                        path: String::from_str(path),
                        hosts,
                        verified: None,
                        last_verified: None,
                    },
                );
            },
        }
        proof {
            assert(self@ =~= upsert(before, cert_type@, path@, texts(hosts@), now as int));
            if unique_keys(before) {
                lemma_upsert_keeps_keys_unique(
                    before,
                    cert_type@,
                    path@,
                    texts(hosts@),
                    now as int,
                );
            }
        }
    }

    /// Files a generation of `cert_type` at the current time.
    pub fn add_certificate(&mut self, cert_type: &str, path: &str, hosts: Vec<String>)
        ensures
            exists|now: int|
                final(self)@ == upsert(old(self)@, cert_type@, path@, texts(hosts@), now),
            old(self).wf() ==> final(self).wf(),
    {
        let now = utc_now();
        self.add_certificate_at(cert_type, path, hosts, now);
    }

    /// Records a verification verdict; a name that was never filed changes nothing.
    pub fn mark_verified(&mut self, cert_type: &str, verified: bool)
        ensures
            final(self)@ == with_verdict(old(self)@, cert_type@, verified),
            old(self).wf() ==> final(self).wf(),
    {
        let ghost before = self@;
        match self.position(cert_type) {
            Some(i) => {
                self.certificates[i].verified = Some(verified);
            },
            None => {},
        }
        proof {
            assert(self@ =~= with_verdict(before, cert_type@, verified));
            lemma_first_match(before, cert_type@);
        }
    }

    /// Records at `now` that `cert_type` reached its hosts; a name that was
    /// never filed changes nothing.
    pub fn mark_distributed_at(&mut self, cert_type: &str, now: i64)
        ensures
            final(self)@ == with_distribution(old(self)@, cert_type@, now as int),
            old(self).wf() ==> final(self).wf(),
    {
        let ghost before = self@;
        match self.position(cert_type) {
            Some(i) => {
                self.certificates[i].distributed = Some(now);
            },
            None => {},
        }
        proof {
            assert(self@ =~= with_distribution(before, cert_type@, now as int));
            lemma_first_match(before, cert_type@);
        }
    }

    /// Records at the current time that `cert_type` reached its hosts.
    pub fn mark_distributed(&mut self, cert_type: &str)
        ensures
            exists|now: int| final(self)@ == with_distribution(old(self)@, cert_type@, now),
            old(self).wf() ==> final(self).wf(),
    {
        let now = utc_now();
        self.mark_distributed_at(cert_type, now);
    }

    /// The entries that still have to be copied out, in ledger order. The
    /// root CA is never among them.
    pub fn get_undistributed(&self) -> (r: Vec<&CertificateStatus>)
        ensures
            entry_views(r@) == pending(self@),
            forall|k: int|
                0 <= k < r@.len() ==> awaits_distribution(#[trigger] r@[k]@),
    {
        let mut out: Vec<&CertificateStatus> = Vec::new();
        let mut i: usize = 0;
        while i < self.certificates.len()
            invariant
                i <= self.certificates.len(),
                entry_views(out@) == pending(self@.take(i as int)),
            decreases self.certificates.len() - i,
        {
            let entry = &self.certificates[i];
            proof {
                let next = self@.take(i + 1);
                assert(next.drop_last() =~= self@.take(i as int));
                assert(next.last() == entry@);
            }
            let ghost prior = out@;
            if entry.distributed.is_none() && !contains(entry.cert_type.as_str(), "root-ca") {
                out.push(entry);
                assert(entry_views(out@) =~= entry_views(prior).push(entry@));
            }
            i += 1;
        }
        proof {
            assert(self@.take(self.certificates.len() as int) =~= self@);
            lemma_pending_excludes_root(self@);
            assert forall|k: int| 0 <= k < out@.len() implies awaits_distribution(
                #[trigger] out@[k]@,
            ) by {
                assert(entry_views(out@)[k] == out@[k]@);
                assert(!has_infix(pending(self@)[k].cert_type, root_marker()));
            }
        }
        out
    }

    /// Files at `now` a generation of each of `entries`, given as name and
    /// path, in order, all for `hosts`.
    pub fn add_all(&mut self, entries: &Vec<(String, String)>, hosts: &Vec<String>, now: i64)
        ensures
            final(self)@ == filed_all(
                old(self)@,
                filings_of(entries@),
                texts(hosts@),
                now as int,
            ),
            old(self).wf() ==> final(self).wf(),
    {
        let ghost filings = filings_of(entries@);
        let mut i: usize = 0;
        while i < entries.len()
            invariant
                i <= entries@.len(),
                filings == filings_of(entries@),
                self@ == filed_all(old(self)@, filings.take(i as int), texts(hosts@), now as int),
                old(self).wf() ==> self.wf(),
            decreases entries@.len() - i,
        {
            proof {
                let next = filings.take(i + 1);
                assert(next.drop_last() =~= filings.take(i as int));
            }
            self.add_certificate_at(
                entries[i].0.as_str(),
                entries[i].1.as_str(),
                clone_strings(hosts),
                now,
            );
            i += 1;
        }
        assert(filings.take(entries@.len() as int) =~= filings);
    }

    /// Records the verdict for each of `names`, in order.
    pub fn mark_all_verified(&mut self, names: &Vec<String>, verified: bool)
        ensures
            final(self)@ == verdict_all(old(self)@, texts(names@), verified),
            old(self).wf() ==> final(self).wf(),
    {
        let mut i: usize = 0;
        while i < names.len()
            invariant
                i <= names@.len(),
                self@ == verdict_all(old(self)@, texts(names@).take(i as int), verified),
                old(self).wf() ==> self.wf(),
            decreases names@.len() - i,
        {
            proof {
                let next = texts(names@).take(i + 1);
                assert(next.drop_last() =~= texts(names@).take(i as int));
            }
            self.mark_verified(names[i].as_str(), verified);
            i += 1;
        }
        assert(texts(names@).take(names@.len() as int) =~= texts(names@));
    }

    /// Records at `now` that each of `names` reached its hosts.
    pub fn mark_all_distributed(&mut self, names: &Vec<String>, now: i64)
        ensures
            final(self)@ == distribution_all(old(self)@, texts(names@), now as int),
            old(self).wf() ==> final(self).wf(),
    {
        let mut i: usize = 0;
        while i < names.len()
            invariant
                i <= names@.len(),
                self@ == distribution_all(old(self)@, texts(names@).take(i as int), now as int),
                old(self).wf() ==> self.wf(),
            decreases names@.len() - i,
        {
            proof {
                let next = texts(names@).take(i + 1);
                assert(next.drop_last() =~= texts(names@).take(i as int));
            }
            self.mark_distributed_at(names[i].as_str(), now);
            i += 1;
        }
        assert(texts(names@).take(names@.len() as int) =~= texts(names@));
    }
}

impl CertificateStatus {
    /// A copy with the same content.
    pub fn clone_entry(&self) -> (r: Self)
        ensures
            r@ == self@,
    {
        CertificateStatus {
            cert_type: self.cert_type.clone(),
            generated: self.generated,
            distributed: self.distributed,
            path: self.path.clone(),
            hosts: clone_strings(&self.hosts),
            verified: self.verified,
            last_verified: self.last_verified,
        }
    }
}

} // verus!
