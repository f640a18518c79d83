//! The connectivity cache: which hosts answered over SSH, and when.

use vstd::prelude::*;
use vstd::string::*;
use crate::cert_types::owned;
use crate::clock::unix_now;
use crate::steps::{Invocation, InvocationView};
use crate::text::{cat3, str_eq, texts};

verus! {

/// Seconds for which an answer is trusted: five minutes.
pub const CACHE_VALIDITY_DURATION: u64 = 300;

/// Seconds between two rounds of the recheck timer.
pub const RECHECK_INTERVAL: u64 = 30;

/// What the last probe of a host found, and when, in seconds since the Unix epoch.
#[derive(Clone, Copy, Debug, PartialEq, Eq, Structural)]
pub struct ConnectionStatus {
    pub verified: bool,
    pub timestamp: u64,
}

/// A host and what is known of it.
#[derive(Clone, Debug, PartialEq, Eq)]
pub struct HostStatus {
    pub host: String,
    pub status: ConnectionStatus,
}

/// A probe taken at `timestamp` is still trusted at `now`. A probe stamped
/// later than `now` is not.
pub open spec fn fresh(timestamp: u64, now: u64) -> bool {
    timestamp <= now && now - timestamp < CACHE_VALIDITY_DURATION
}

/// The host counts as reachable at `now`.
pub open spec fn verified_at(
    cache: Map<Seq<char>, ConnectionStatus>,
    host: Seq<char>,
    now: u64,
) -> bool {
    cache.contains_key(host) && cache[host].verified && fresh(cache[host].timestamp, now)
}

/// The host has to be probed again at `now`: nothing is known of it, or
/// what is known is no longer trusted.
pub open spec fn stale_at(
    cache: Map<Seq<char>, ConnectionStatus>,
    host: Seq<char>,
    now: u64,
) -> bool {
    !cache.contains_key(host) || !fresh(cache[host].timestamp, now)
}

/// The cache without the entries that are no longer trusted at `now`.
pub open spec fn without_expired(
    cache: Map<Seq<char>, ConnectionStatus>,
    now: u64,
) -> Map<Seq<char>, ConnectionStatus> {
    Map::new(
        |k: Seq<char>| cache.contains_key(k) && fresh(cache[k].timestamp, now),
        |k: Seq<char>| cache[k],
    )
}

/// The map a list of entries stands for.
pub open spec fn model(entries: Seq<HostStatus>) -> Map<Seq<char>, ConnectionStatus>
    decreases entries.len(),
{
    if entries.len() == 0 {
        Map::empty()
    } else {
        model(entries.drop_last()).insert(entries.last().host@, entries.last().status)
    }
}

/// No host stands twice in the list.
pub open spec fn distinct(entries: Seq<HostStatus>) -> bool {
    forall|i: int, j: int|
        0 <= i < entries.len() && 0 <= j < entries.len() && entries[i].host@ == entries[j].host@
            ==> i == j
}

proof fn lemma_key_has_index(entries: Seq<HostStatus>, k: Seq<char>) -> (i: int)
    requires
        model(entries).contains_key(k),
    ensures
        0 <= i < entries.len(),
        entries[i].host@ == k,
    decreases entries.len(),
{
    if entries.last().host@ == k {
        entries.len() - 1
    } else {
        let rest = entries.drop_last();
        let i = lemma_key_has_index(rest, k);
        assert(rest[i] == entries[i]);
        i
    }
}

proof fn lemma_index_has_key(entries: Seq<HostStatus>, i: int)
    requires
        0 <= i < entries.len(),
    ensures
        model(entries).contains_key(entries[i].host@),
    decreases entries.len(),
{
    if i < entries.len() - 1 {
        let rest = entries.drop_last();
        lemma_index_has_key(rest, i);
        assert(rest[i] == entries[i]);
    }
}

proof fn lemma_model_lookup(entries: Seq<HostStatus>, i: int)
    requires
        distinct(entries),
        0 <= i < entries.len(),
    ensures
        model(entries).contains_key(entries[i].host@),
        model(entries)[entries[i].host@] == entries[i].status,
    decreases entries.len(),
{
    let rest = entries.drop_last();
    if i < entries.len() - 1 {
        assert(distinct(rest)) by {
            assert forall|a: int, b: int|
                0 <= a < rest.len() && 0 <= b < rest.len() && rest[a].host@
                    == rest[b].host@ implies a == b by {
                assert(entries[a].host@ == entries[b].host@);
            }
        }
        lemma_model_lookup(rest, i);
        assert(rest[i] == entries[i]);
        assert(entries[entries.len() - 1].host@ != entries[i].host@);
    }
}

proof fn lemma_model_replace(entries: Seq<HostStatus>, i: int, entry: HostStatus)
    requires
        distinct(entries),
        0 <= i < entries.len(),
        entry.host@ == entries[i].host@,
    ensures
        distinct(entries.update(i, entry)),
        model(entries.update(i, entry)) == model(entries).insert(entry.host@, entry.status),
{
    let after = entries.update(i, entry);
    assert(distinct(after)) by {
        assert forall|a: int, b: int|
            0 <= a < after.len() && 0 <= b < after.len() && after[a].host@
                == after[b].host@ implies a == b by {
            assert(entries[a].host@ == entries[b].host@);
        }
    }
    let want = model(entries).insert(entry.host@, entry.status);
    assert forall|k: Seq<char>| model(after).contains_key(k) <==> want.contains_key(k) by {
        if model(after).contains_key(k) {
            let a = lemma_key_has_index(after, k);
            lemma_index_has_key(entries, a);
        }
        if want.contains_key(k) {
            if k == entry.host@ {
                lemma_index_has_key(after, i);
            } else {
                let a = lemma_key_has_index(entries, k);
                lemma_index_has_key(after, a);
            }
        }
    }
    assert forall|k: Seq<char>| model(after).contains_key(k) implies model(after)[k]
        == want[k] by {
        let a = lemma_key_has_index(after, k);
        lemma_model_lookup(after, a);
        if a != i {
            lemma_model_lookup(entries, a);
        }
    }
    assert(model(after) =~= want);
}

impl View for HostStatus {
    type V = (Seq<char>, ConnectionStatus);

    open spec fn view(&self) -> (Seq<char>, ConnectionStatus) {
        (self.host@, self.status)
    }
}

/// What is known of the hosts' reachability, one entry for each host.
#[derive(Debug)]
pub struct SSHConnectionCache {
    connections: Vec<HostStatus>,
}

impl View for SSHConnectionCache {
    type V = Map<Seq<char>, ConnectionStatus>;

    closed spec fn view(&self) -> Map<Seq<char>, ConnectionStatus> {
        model(self.connections@)
    }
}

/// The probe of a host: a session that must open without asking, within
/// five seconds, and say one line.
pub open spec fn probe(user: Seq<char>, host: Seq<char>, key_path: Seq<char>) -> InvocationView {
    InvocationView {
        program: "ssh"@,
        args: seq![
            "-i"@,
            key_path,
            "-o"@,
            "BatchMode=yes"@,
            "-o"@,
            "ConnectTimeout=5"@,
            "-o"@,
            "StrictHostKeyChecking=no"@,
            user + "@"@ + host,
            "echo 'Connected successfully'"@,
        ],
    }
}

/// The command that probes `host`.
pub fn probe_command(host: &str, user: &str, key_path: &str) -> (r: Invocation)
    ensures
        r@ == probe(user@, host@, key_path@),
{
    let account = cat3(user, "@", host);
    let args = owned(
        vec![
            "-i",
            key_path,
            "-o",
            "BatchMode=yes",
            "-o",
            "ConnectTimeout=5",
            "-o",
            "StrictHostKeyChecking=no",
            account.as_str(),
            "echo 'Connected successfully'",
        ],
    );
    assert(texts(args@) =~= probe(user@, host@, key_path@).args);
    Invocation::new("ssh", args)
}

impl SSHConnectionCache {
    #[verifier::type_invariant]
    spec fn hosts_distinct(&self) -> bool {
        distinct(self.connections@)
    }

    /// A cache that knows no host.
    pub fn new() -> (r: Self)
        ensures
            r@ == Map::<Seq<char>, ConnectionStatus>::empty(),
    {
        SSHConnectionCache { connections: Vec::new() }
    }

    fn find(&self, host: &str) -> (r: Option<usize>)
        ensures
            match r {
                Some(i) => i < self.connections@.len() && self.connections@[i as int].host@
                    == host@ && self@.contains_key(host@) && self@[host@]
                    == self.connections@[i as int].status,
                None => !self@.contains_key(host@),
            },
    {
        proof {
            use_type_invariant(self);
        }
        let mut i: usize = 0;
        while i < self.connections.len()
            invariant
                i <= self.connections@.len(),
                distinct(self.connections@),
                forall|k: int| 0 <= k < i ==> self.connections@[k].host@ != host@,
            decreases self.connections@.len() - i,
        {
            if str_eq(self.connections[i].host.as_str(), host) {
                proof {
                    lemma_model_lookup(self.connections@, i as int);
                }
                return Some(i);
            }
            i += 1;
        }
        proof {
            if self@.contains_key(host@) {
                let w = lemma_key_has_index(self.connections@, host@);
                assert(self.connections@[w].host@ == host@);
            }
        }
        None
    }

    /// What is known of `host`, if anything.
    pub fn status(&self, host: &str) -> (r: Option<ConnectionStatus>)
        ensures
            r == if self@.contains_key(host@) {
                Some(self@[host@])
            } else {
                None
            },
    {
        match self.find(host) {
            Some(i) => Some(self.connections[i].status),
            None => None,
        }
    }

    /// Whether `host` counts as reachable at `now`: its last probe succeeded
    /// and is less than five minutes old.
    pub fn is_verified_at(&self, host: &str, now: u64) -> (r: bool)
        ensures
            r == verified_at(self@, host@, now),
    {
        match self.status(host) {
            Some(s) => s.verified && s.timestamp <= now && now - s.timestamp
                < CACHE_VALIDITY_DURATION,
            None => false,
        }
    }

    /// Whether `host` counts as reachable at the present time.
    pub fn is_verified(&self, host: &str) -> (r: bool)
        ensures
            exists|now: u64| r == verified_at(self@, host@, now),
            r ==> self@.contains_key(host@) && self@[host@].verified,
    {
        let now = unix_now();
        self.is_verified_at(host, now)
    }

    /// Records what a probe of `host` taken at `now` found, in place of
    /// whatever was known of the host.
    pub fn update_status_at(&mut self, host: &str, verified: bool, now: u64)
        ensures
            final(self)@ == old(self)@.insert(
                host@,
                ConnectionStatus { verified, timestamp: now },
            ),
    {
        let entry = HostStatus {
            host: String::from_str(host),
            status: ConnectionStatus { verified, timestamp: now },
        };
        proof {
            use_type_invariant(&*self);
        }
        let found = self.find(host);
        let ghost before = self.connections@;
        let mut entries: Vec<HostStatus> = Vec::new();
        std::mem::swap(&mut entries, &mut self.connections);
        match found {
            Some(i) => {
                proof {
                    lemma_model_replace(before, i as int, entry);
                }
                entries.set(i, entry);
            },
            None => {
                proof {
                    assert(before.push(entry).drop_last() =~= before);
                    assert forall|a: int, b: int|
                        0 <= a < before.len() + 1 && 0 <= b < before.len() + 1 && before.push(
                            entry,
                        )[a].host@ == before.push(entry)[b].host@ implies a == b by {
                        if a < before.len() {
                            lemma_index_has_key(before, a);
                        }
                        if b < before.len() {
                            lemma_index_has_key(before, b);
                        }
                    }
                }
                entries.push(entry);
            },
        }
        self.connections = entries;
    }

    /// Records what a probe of `host` taken just now found.
    pub fn update_status(&mut self, host: &str, verified: bool)
        ensures
            exists|now: u64|
                final(self)@ == old(self)@.insert(
                    host@,
                    ConnectionStatus { verified, timestamp: now },
                ),
    {
        let now = unix_now();
        self.update_status_at(host, verified, now);
    }

    /// The hosts the cache knows, each once.
    pub fn get_all_hosts(&self) -> (r: Vec<String>)
        ensures
            texts(r@).no_duplicates(),
            forall|k: Seq<char>| texts(r@).contains(k) <==> self@.contains_key(k),
    {
        let mut out: Vec<String> = Vec::new();
        let mut i: usize = 0;
        while i < self.connections.len()
            invariant
                i <= self.connections@.len(),
                out@.len() == i,
                forall|k: int| 0 <= k < i ==> out@[k]@ == self.connections@[k].host@,
            decreases self.connections@.len() - i,
        {
            out.push(self.connections[i].host.clone());
            i += 1;
        }
        proof {
            use_type_invariant(self);
            let names = texts(out@);
            assert forall|a: int, b: int|
                0 <= a < names.len() && 0 <= b < names.len() && a != b implies names[a]
                != names[b] by {
                assert(self.connections@[a].host@ == names[a]);
                assert(self.connections@[b].host@ == names[b]);
            }
            assert forall|k: Seq<char>| names.contains(k) <==> self@.contains_key(k) by {
                if names.contains(k) {
                    let a = choose|a: int| 0 <= a < names.len() && names[a] == k;
                    lemma_index_has_key(self.connections@, a);
                }
                if self@.contains_key(k) {
                    let a = lemma_key_has_index(self.connections@, k);
                    assert(names[a] == k);
                }
            }
        }
        out
    }

    /// The entries of the cache, for writing them down.
    pub fn entries(&self) -> (r: Vec<HostStatus>)
        ensures
            model(r@) == self@,
            distinct(r@),
    {
        let mut out: Vec<HostStatus> = Vec::new();
        let mut i: usize = 0;
        while i < self.connections.len()
            invariant
                i <= self.connections@.len(),
                out@.len() == i,
                forall|k: int|
                    0 <= k < i ==> out@[k].host@ == self.connections@[k].host@ && out@[k].status
                        == self.connections@[k].status,
            decreases self.connections@.len() - i,
        {
            out.push(
                HostStatus {
                    host: self.connections[i].host.clone(),
                    status: self.connections[i].status,
                },
            );
            i += 1;
        }
        proof {
            use_type_invariant(self);
            lemma_model_same(out@, self.connections@);
            assert forall|a: int, b: int|
                0 <= a < out@.len() && 0 <= b < out@.len() && out@[a].host@
                    == out@[b].host@ implies a == b by {
                assert(self.connections@[a].host@ == self.connections@[b].host@);
            }
        }
        out
    }

    /// The cache that holds `entries`; of two entries for one host the later counts.
    pub fn from_entries(entries: &Vec<HostStatus>) -> (r: Self)
        ensures
            r@ == model(entries@),
    {
        let mut cache = SSHConnectionCache::new();
        let mut i: usize = 0;
        assert(entries@.take(0) =~= Seq::<HostStatus>::empty());
        while i < entries.len()
            invariant
                i <= entries@.len(),
                cache@ == model(entries@.take(i as int)),
            decreases entries@.len() - i,
        {
            proof {
                let next = entries@.take(i + 1);
                assert(next.drop_last() =~= entries@.take(i as int));
                assert(next.last() == entries@[i as int]);
            }
            cache.update_status_at(
                entries[i].host.as_str(),
                entries[i].status.verified,
                entries[i].status.timestamp,
            );
            i += 1;
        }
        assert(entries@.take(entries@.len() as int) =~= entries@);
        cache
    }

    /// Whether `host` has to be probed again at `now`.
    pub fn needs_recheck_at(&self, host: &str, now: u64) -> (r: bool)
        ensures
            r == stale_at(self@, host@, now),
    {
        match self.status(host) {
            Some(s) => !(s.timestamp <= now && now - s.timestamp < CACHE_VALIDITY_DURATION),
            None => true,
        }
    }

    /// Whether `host` has to be probed again at the present time.
    pub fn needs_recheck(&self, host: &str) -> (r: bool)
        ensures
            exists|now: u64| r == stale_at(self@, host@, now),
            !self@.contains_key(host@) ==> r,
    {
        let now = unix_now();
        self.needs_recheck_at(host, now)
    }

    /// The hosts the recheck timer enqueues at `now`: the known hosts whose
    /// entry is no longer trusted. The cache itself is left as it is.
    pub fn hosts_due(&self, now: u64) -> (r: Vec<String>)
        ensures
            forall|k: Seq<char>|
                texts(r@).contains(k) <==> self@.contains_key(k) && stale_at(self@, k, now),
            texts(r@).no_duplicates(),
    {
        let mut out: Vec<String> = Vec::new();
        let mut i: usize = 0;
        proof {
            use_type_invariant(self);
        }
        while i < self.connections.len()
            invariant
                i <= self.connections@.len(),
                distinct(self.connections@),
                texts(out@).no_duplicates(),
                forall|k: Seq<char>|
                    texts(out@).contains(k) <==> exists|a: int|
                        0 <= a < i && #[trigger] self.connections@[a].host@ == k && !fresh(
                            self.connections@[a].status.timestamp,
                            now,
                        ),
            decreases self.connections@.len() - i,
        {
            let s = self.connections[i].status;
            let ghost before = texts(out@);
            if !(s.timestamp <= now && now - s.timestamp < CACHE_VALIDITY_DURATION) {
                proof {
                    let host = self.connections@[i as int].host@;
                    if before.contains(host) {
                        let a = choose|a: int|
                            0 <= a < i && #[trigger] self.connections@[a].host@ == host && !fresh(
                                self.connections@[a].status.timestamp,
                                now,
                            );
                        assert(self.connections@[a].host@ == self.connections@[i as int].host@);
                    }
                    assert(!before.contains(host));
                }
                out.push(self.connections[i].host.clone());
                proof {
                    let names = texts(out@);
                    assert(names =~= before.push(self.connections@[i as int].host@));
                    assert forall|a: int, b: int|
                        0 <= a < names.len() && 0 <= b < names.len() && a != b implies names[a]
                        != names[b] by {
                        if a < before.len() && b < before.len() {
                            assert(before[a] != before[b]);
                        } else if a < before.len() {
                            assert(before.contains(before[a]));
                        } else {
                            assert(before.contains(before[b]));
                        }
                    }
                    assert forall|k: Seq<char>| names.contains(k) <==> exists|a: int|
                        0 <= a < i + 1 && #[trigger] self.connections@[a].host@ == k && !fresh(
                            self.connections@[a].status.timestamp,
                            now,
                        ) by {
                        if names.contains(k) {
                            let w = choose|w: int| 0 <= w < names.len() && names[w] == k;
                            if w < before.len() {
                                assert(before[w] == k);
                                assert(before.contains(k));
                            } else {
                                assert(self.connections@[i as int].host@ == k);
                            }
                        }
                        if exists|a: int|
                            0 <= a < i + 1 && #[trigger] self.connections@[a].host@ == k && !fresh(
                                self.connections@[a].status.timestamp,
                                now,
                            ) {
                            let a = choose|a: int|
                                0 <= a < i + 1 && #[trigger] self.connections@[a].host@ == k
                                    && !fresh(self.connections@[a].status.timestamp, now);
                            if a < i {
                                assert(before.contains(k));
                                let w = choose|w: int| 0 <= w < before.len() && before[w] == k;
                                assert(names[w] == k);
                            } else {
                                assert(names[names.len() - 1] == k);
                            }
                        }
                    }
                }
            } else {
                proof {
                    assert forall|k: Seq<char>| texts(out@).contains(k) <==> exists|a: int|
                        0 <= a < i + 1 && #[trigger] self.connections@[a].host@ == k && !fresh(
                            self.connections@[a].status.timestamp,
                            now,
                        ) by {
                        if exists|a: int|
                            0 <= a < i + 1 && #[trigger] self.connections@[a].host@ == k && !fresh(
                                self.connections@[a].status.timestamp,
                                now,
                            ) {
                            let a = choose|a: int|
                                0 <= a < i + 1 && #[trigger] self.connections@[a].host@ == k
                                    && !fresh(self.connections@[a].status.timestamp, now);
                            assert(a < i);
                        }
                    }
                }
            }
            i += 1;
        }
        proof {
            assert forall|k: Seq<char>|
                texts(out@).contains(k) <==> self@.contains_key(k) && stale_at(self@, k, now) by {
                if texts(out@).contains(k) {
                    let a = choose|a: int|
                        0 <= a < i && #[trigger] self.connections@[a].host@ == k && !fresh(
                            self.connections@[a].status.timestamp,
                            now,
                        );
                    lemma_model_lookup(self.connections@, a);
                }
                if self@.contains_key(k) && stale_at(self@, k, now) {
                    let a = lemma_key_has_index(self.connections@, k);
                    lemma_model_lookup(self.connections@, a);
                }
            }
        }
        out
    }

    /// Drops the entries that are no longer trusted at `now`.
    pub fn clear_expired_at(&mut self, now: u64)
        ensures
            final(self)@ == without_expired(old(self)@, now),
    {
        let mut kept: Vec<HostStatus> = Vec::new();
        let mut i: usize = 0;
        proof {
            use_type_invariant(&*self);
            assert(self.connections@.take(0) =~= Seq::<HostStatus>::empty());
            assert(model(kept@) =~= without_expired(model(self.connections@.take(0)), now));
        }
        while i < self.connections.len()
            invariant
                i <= self.connections@.len(),
                distinct(self.connections@),
                distinct(kept@),
                forall|a: int|
                    0 <= a < kept@.len() ==> exists|b: int|
                        0 <= b < i && self.connections@[b].host@ == (#[trigger] kept@[a]).host@,
                model(kept@) == without_expired(model(self.connections@.take(i as int)), now),
            decreases self.connections@.len() - i,
        {
            let s = self.connections[i].status;
            proof {
                let next = self.connections@.take(i + 1);
                let prev = self.connections@.take(i as int);
                assert(next.drop_last() =~= prev);
                assert(next.last() == self.connections@[i as int]);
                assert(!model(prev).contains_key(self.connections@[i as int].host@)) by {
                    if model(prev).contains_key(self.connections@[i as int].host@) {
                        let b = lemma_key_has_index(prev, self.connections@[i as int].host@);
                        assert(self.connections@[b].host@ == self.connections@[i as int].host@);
                    }
                }
            }
            if s.timestamp <= now && now - s.timestamp < CACHE_VALIDITY_DURATION {
                let entry = HostStatus { host: self.connections[i].host.clone(), status: s };
                let ghost before = kept@;
                kept.push(entry);
                proof {
                    assert(kept@.drop_last() =~= before);
                    assert(model(kept@) =~= without_expired(
                        model(self.connections@.take(i + 1)),
                        now,
                    ));
                    assert forall|a: int, b: int|
                        0 <= a < kept@.len() && 0 <= b < kept@.len() && kept@[a].host@
                            == kept@[b].host@ implies a == b by {
                        if a < before.len() && b == before.len() {
                            let w = choose|w: int|
                                0 <= w < i && self.connections@[w].host@ == before[a].host@;
                            assert(self.connections@[w].host@ == self.connections@[i as int].host@);
                        }
                        if b < before.len() && a == before.len() {
                            let w = choose|w: int|
                                0 <= w < i && self.connections@[w].host@ == before[b].host@;
                            assert(self.connections@[w].host@ == self.connections@[i as int].host@);
                        }
                        if a < before.len() && b < before.len() {
                            assert(before[a].host@ == before[b].host@);
                        }
                    }
                    assert forall|a: int| 0 <= a < kept@.len() implies exists|b: int|
                        0 <= b < i + 1 && self.connections@[b].host@ == (
                        #[trigger] kept@[a]).host@ by {
                        if a < before.len() {
                            let w = choose|w: int|
                                0 <= w < i && self.connections@[w].host@ == before[a].host@;
                            assert(self.connections@[w].host@ == kept@[a].host@);
                        } else {
                            assert(self.connections@[i as int].host@ == kept@[a].host@);
                        }
                    }
                }
            } else {
                proof {
                    assert(model(kept@) =~= without_expired(
                        model(self.connections@.take(i + 1)),
                        now,
                    ));
                    assert forall|a: int| 0 <= a < kept@.len() implies exists|b: int|
                        0 <= b < i + 1 && self.connections@[b].host@ == (
                        #[trigger] kept@[a]).host@ by {
                        let w = choose|w: int|
                            0 <= w < i && self.connections@[w].host@ == kept@[a].host@;
                        assert(self.connections@[w].host@ == kept@[a].host@);
                    }
                }
            }
            i += 1;
        }
        assert(self.connections@.take(self.connections@.len() as int) =~= self.connections@);
        self.connections = kept;
    }

    /// What the cache worker does with the result of a probe taken at `now`:
    /// it records the result and drops what is no longer trusted.
    pub fn apply_update(&mut self, host: &str, verified: bool, now: u64)
        ensures
            final(self)@ == without_expired(
                old(self)@.insert(host@, ConnectionStatus { verified, timestamp: now }),
                now,
            ),
    {
        self.update_status_at(host, verified, now);
        self.clear_expired_at(now);
    }
}

proof fn lemma_model_same(a: Seq<HostStatus>, b: Seq<HostStatus>)
    requires
        a.len() == b.len(),
        forall|k: int| 0 <= k < a.len() ==> a[k].host@ == b[k].host@ && a[k].status == b[k].status,
    ensures
        model(a) == model(b),
    decreases a.len(),
{
    if a.len() > 0 {
        lemma_model_same(a.drop_last(), b.drop_last());
    }
}

/// Drops from `cache` the entries that are no longer trusted at the present time.
pub fn clear_expired_entries(cache: &mut SSHConnectionCache)
    ensures
        exists|now: u64| final(cache)@ == without_expired(old(cache)@, now),
{
    let now = unix_now();
    cache.clear_expired_at(now);
}

/// What a request to check a host leads to.
#[derive(Clone, Debug, PartialEq, Eq)]
pub enum CheckDecision {
    /// The cache vouches for the host; nothing is run.
    Trusted,
    /// The host has to be probed with this command.
    Probe(Invocation),
}

/// Decides at `now` whether `host` is probed: it is not when the cache holds
/// a successful probe of it that is still trusted.
pub fn check_decision(
    host: &str,
    user: &str,
    key_path: &str,
    cache: &SSHConnectionCache,
    now: u64,
) -> (r: CheckDecision)
    ensures
        verified_at(cache@, host@, now) ==> r is Trusted,
        !verified_at(cache@, host@, now) ==> (r matches CheckDecision::Probe(c) && c@ == probe(
            user@,
            host@,
            key_path@,
        )),
{
    if !cache.needs_recheck_at(host, now) && cache.is_verified_at(host, now) {
        CheckDecision::Trusted
    } else {
        CheckDecision::Probe(probe_command(host, user, key_path))
    }
}

/// Decides at the present time whether `host` is probed.
pub fn verify_ssh_connection(
    host: &str,
    user: &str,
    key_path: &str,
    cache: &SSHConnectionCache,
) -> (r: CheckDecision)
    ensures
        r matches CheckDecision::Probe(c) ==> c@ == probe(user@, host@, key_path@),
        r is Trusted ==> cache@.contains_key(host@) && cache@[host@].verified,
{
    let now = unix_now();
    check_decision(host, user, key_path, cache, now)
}

/// What the cache worker is told.
#[derive(Clone, Debug, PartialEq, Eq)]
pub enum CheckMessage {
    /// Probe this host.
    Check(String),
    /// The probe of this host found this.
    UpdateStatus(String, bool),
}

/// Right after a successful probe a host counts as reachable, and it does so
/// for exactly the five minutes that follow.
pub proof fn lemma_verified_window(
    cache: Map<Seq<char>, ConnectionStatus>,
    host: Seq<char>,
    probed: u64,
    now: u64,
)
    ensures
        ({
            let after = cache.insert(host, ConnectionStatus { verified: true, timestamp: probed });
            &&& verified_at(after, host, probed)
            &&& verified_at(after, host, now) <==> probed <= now && now - probed
                < CACHE_VALIDITY_DURATION
            &&& now >= probed + CACHE_VALIDITY_DURATION ==> !verified_at(after, host, now)
                && stale_at(after, host, now)
        }),
{
}

/// A failed probe never makes a host count as reachable.
pub proof fn lemma_failed_probe(
    cache: Map<Seq<char>, ConnectionStatus>,
    host: Seq<char>,
    probed: u64,
    now: u64,
)
    ensures
        !verified_at(
            cache.insert(host, ConnectionStatus { verified: false, timestamp: probed }),
            host,
            now,
        ),
{
}

/// Dropping what is no longer trusted at `now` changes no answer given at
/// `now`: not whether a host counts as reachable, and not whether it has to
/// be probed again.
pub proof fn lemma_clearing_keeps_answers(
    cache: Map<Seq<char>, ConnectionStatus>,
    host: Seq<char>,
    now: u64,
)
    ensures
        verified_at(without_expired(cache, now), host, now) == verified_at(cache, host, now),
        stale_at(without_expired(cache, now), host, now) == stale_at(cache, host, now),
{
}

/// What the recheck worker does for one host changes no answer about
/// another: whether that other host counts as reachable at `now`, and
/// whether it has to be probed again, stay as they were.
pub proof fn lemma_recheck_is_independent(
    cache: Map<Seq<char>, ConnectionStatus>,
    host: Seq<char>,
    rechecked: Seq<char>,
    found: bool,
    now: u64,
)
    requires
        rechecked != host,
    ensures
        ({
            let after = without_expired(
                cache.insert(rechecked, ConnectionStatus { verified: found, timestamp: now }),
                now,
            );
            &&& verified_at(after, host, now) == verified_at(cache, host, now)
            &&& stale_at(after, host, now) == stale_at(cache, host, now)
        }),
{
}

/// Recording a probe of one host changes nothing for another.
pub proof fn lemma_update_is_local(
    cache: Map<Seq<char>, ConnectionStatus>,
    host: Seq<char>,
    other: Seq<char>,
    status: ConnectionStatus,
    now: u64,
)
    requires
        other != host,
    ensures
        verified_at(cache.insert(host, status), other, now) == verified_at(cache, other, now),
        stale_at(cache.insert(host, status), other, now) == stale_at(cache, other, now),
{
}

} // verus!
