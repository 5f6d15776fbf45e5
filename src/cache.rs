//! The persistent response cache: cached API exchanges keyed by a
//! fingerprint of the request, held in memory for one run. Entries are never
//! evicted; a key that is fetched again is overwritten.

use vstd::prelude::*;

use crate::clock::unix_time_seconds;

verus! {

/// One cached API exchange.
pub struct CacheEntry {
    pub timestamp: u64,
    pub endpoint: String,
    pub params: serde_json::Value,
    pub response: serde_json::Value,
}

/// The cached exchanges, each under its own key; a key that is set again
/// replaces the entry it had.
pub struct CacheFile {
    entries: Vec<(String, CacheEntry)>,
}

/// Whether some pair of `s` is keyed by `k`.
pub open spec fn has_key(s: Seq<(String, CacheEntry)>, k: Seq<char>) -> bool {
    exists|i: int| 0 <= i < s.len() && (#[trigger] s[i]).0@ == k
}

/// No two pairs of `s` share a key.
pub open spec fn keys_unique(s: Seq<(String, CacheEntry)>) -> bool {
    forall|i: int, j: int|
        0 <= i < s.len() && 0 <= j < s.len() && (#[trigger] s[i]).0@ == (#[trigger] s[j]).0@
            ==> i == j
}

/// The position of the pair keyed by `k`.
pub open spec fn key_index(s: Seq<(String, CacheEntry)>, k: Seq<char>) -> int {
    choose|i: int| 0 <= i < s.len() && (#[trigger] s[i]).0@ == k
}

/// The pairs of `s` read as a map from key to entry.
pub open spec fn entries_map(s: Seq<(String, CacheEntry)>) -> Map<Seq<char>, CacheEntry> {
    Map::new(|k: Seq<char>| has_key(s, k), |k: Seq<char>| s[key_index(s, k)].1)
}

/// The entry under `k`, if any.
pub open spec fn lookup(m: Map<Seq<char>, CacheEntry>, k: Seq<char>) -> Option<CacheEntry> {
    if m.contains_key(k) {
        Some(m[k])
    } else {
        None
    }
}

impl View for CacheFile {
    type V = Map<Seq<char>, CacheEntry>;

    closed spec fn view(&self) -> Map<Seq<char>, CacheEntry> {
        entries_map(self.entries@)
    }
}

proof fn lemma_key_at(s: Seq<(String, CacheEntry)>, i: int)
    requires
        keys_unique(s),
        0 <= i < s.len(),
    ensures
        entries_map(s).contains_key(s[i].0@),
        entries_map(s)[s[i].0@] == s[i].1,
{
    let k = s[i].0@;
    assert(has_key(s, k));
    let j = key_index(s, k);
    assert(s[j].0@ == k);
}

impl CacheFile {
    /// No key is held twice.
    pub closed spec fn wf(&self) -> bool {
        keys_unique(self.entries@)
    }

    /// The key and entry pairs, in the order in which keys were first set.
    pub closed spec fn pairs(&self) -> Seq<(String, CacheEntry)> {
        self.entries@
    }

    /// An empty cache.
    pub fn new() -> (r: CacheFile)
        ensures
            r.wf(),
            r@ == Map::<Seq<char>, CacheEntry>::empty(),
    {
        let r = CacheFile { entries: Vec::new() };
        assert(r@ =~= Map::<Seq<char>, CacheEntry>::empty());
        r
    }

    /// The number of keys held.
    pub fn len(&self) -> (r: usize)
        requires
            self.wf(),
        ensures
            r == self@.dom().len(),
    {
        proof {
            lemma_dom_len(self.entries@);
        }
        self.entries.len()
    }

    /// The key and entry pairs, each key once.
    pub fn entries(&self) -> (r: &[(String, CacheEntry)])
        requires
            self.wf(),
        ensures
            r@ == self.pairs(),
            keys_unique(r@),
            entries_map(r@) == self@,
    {
        self.entries.as_slice()
    }

    fn position(&self, key: &str) -> (r: Option<usize>)
        requires
            self.wf(),
        ensures
            match r {
                Some(i) => i < self.entries@.len() && self.entries@[i as int].0@ == key@,
                None => !has_key(self.entries@, key@),
            },
    {
        let k = key.to_owned();
        let mut i: usize = 0;
        while i < self.entries.len()
            invariant
                k@ == key@,
                i <= self.entries@.len(),
                forall|j: int| 0 <= j < i ==> (#[trigger] self.entries@[j]).0@ != key@,
            decreases self.entries@.len() - i,
        {
            if self.entries[i].0 == k {
                return Some(i);
            }
            i = i + 1;
        }
        None
    }

    /// The entry under `key`, if any.
    pub fn get(&self, key: &str) -> (r: Option<&CacheEntry>)
        requires
            self.wf(),
        ensures
            match r {
                Some(e) => lookup(self@, key@) == Some(*e),
                None => lookup(self@, key@) is None,
            },
    {
        match self.position(key) {
            Some(i) => {
                proof {
                    lemma_key_at(self.entries@, i as int);
                }
                Some(&self.entries[i].1)
            },
            None => None,
        }
    }

    /// Puts `entry` under `key`, replacing what the key held before.
    pub fn insert(&mut self, key: String, entry: CacheEntry)
        requires
            old(self).wf(),
        ensures
            final(self).wf(),
            final(self)@ == old(self)@.insert(key@, entry),
    {
        let ghost before = self.entries@;
        let ghost k = key@;
        match self.position(key.as_str()) {
            Some(i) => {
                self.entries.set(i, (key, entry));
                proof {
                    let after = self.entries@;
                    assert(keys_unique(after)) by {
                        assert forall|a: int, b: int|
                            0 <= a < after.len() && 0 <= b < after.len()
                                && (#[trigger] after[a]).0@ == (#[trigger] after[b]).0@
                            implies a == b by {
                            if a != i as int && b != i as int {
                                assert(before[a] == after[a] && before[b] == after[b]);
                            } else if a == i as int && b != i as int {
                                assert(before[b] == after[b]);
                                assert(before[i as int].0@ == k);
                            } else if a != i as int && b == i as int {
                                assert(before[a] == after[a]);
                                assert(before[i as int].0@ == k);
                            }
                        }
                    }
                    assert forall|kk: Seq<char>| #[trigger] has_key(after, kk) == (has_key(before, kk)
                        || kk == k) by {
                        if has_key(before, kk) {
                            let j = choose|j: int| 0 <= j < before.len() && (#[trigger] before[j]).0@ == kk;
                            if j == i as int {
                                assert(after[j].0@ == kk);
                            } else {
                                assert(after[j] == before[j]);
                            }
                        }
                        if has_key(after, kk) {
                            let j = choose|j: int| 0 <= j < after.len() && (#[trigger] after[j]).0@ == kk;
                            if j != i as int {
                                assert(after[j] == before[j]);
                            }
                        }
                        if kk == k {
                            assert(after[i as int].0@ == kk);
                        }
                    }
                    assert forall|kk: Seq<char>| #[trigger] has_key(after, kk) implies entries_map(after)[kk]
                        == old(self)@.insert(k, entry)[kk] by {
                        let j = key_index(after, kk);
                        if kk == k {
                            lemma_key_at(after, i as int);
                        } else {
                            assert(after[j] == before[j]);
                            lemma_key_at(before, j);
                        }
                    }
                    assert(entries_map(after) =~= old(self)@.insert(k, entry));
                }
            },
            None => {
                self.entries.push((key, entry));
                proof {
                    let after = self.entries@;
                    let n = before.len() as int;
                    assert(keys_unique(after)) by {
                        assert forall|a: int, b: int|
                            0 <= a < after.len() && 0 <= b < after.len()
                                && (#[trigger] after[a]).0@ == (#[trigger] after[b]).0@
                            implies a == b by {
                            if a < n && b < n {
                                assert(before[a] == after[a] && before[b] == after[b]);
                            } else if a < n {
                                assert(before[a] == after[a]);
                            } else if b < n {
                                assert(before[b] == after[b]);
                            }
                        }
                    }
                    assert forall|kk: Seq<char>| #[trigger] has_key(after, kk) == (has_key(before, kk)
                        || kk == k) by {
                        if has_key(before, kk) {
                            let j = choose|j: int| 0 <= j < before.len() && (#[trigger] before[j]).0@ == kk;
                            assert(after[j] == before[j]);
                        }
                        if has_key(after, kk) {
                            let j = choose|j: int| 0 <= j < after.len() && (#[trigger] after[j]).0@ == kk;
                            if j < n {
                                assert(after[j] == before[j]);
                            }
                        }
                        if kk == k {
                            assert(after[n].0@ == kk);
                        }
                    }
                    assert forall|kk: Seq<char>| #[trigger] has_key(after, kk) implies entries_map(after)[kk]
                        == old(self)@.insert(k, entry)[kk] by {
                        let j = key_index(after, kk);
                        if kk == k {
                            lemma_key_at(after, n);
                        } else {
                            assert(after[j] == before[j]);
                            lemma_key_at(before, j);
                        }
                    }
                    assert(entries_map(after) =~= old(self)@.insert(k, entry));
                }
            },
        }
    }
}

proof fn lemma_dom_len(s: Seq<(String, CacheEntry)>)
    requires
        keys_unique(s),
    ensures
        entries_map(s).dom().len() == s.len(),
        entries_map(s).dom().finite(),
    decreases s.len(),
{
    if s.len() == 0 {
        assert(entries_map(s).dom() =~= Set::<Seq<char>>::empty());
    } else {
        let t = s.drop_last();
        assert(keys_unique(t)) by {
            assert forall|a: int, b: int|
                0 <= a < t.len() && 0 <= b < t.len() && (#[trigger] t[a]).0@ == (#[trigger] t[b]).0@
                implies a == b by {
                assert(t[a] == s[a] && t[b] == s[b]);
            }
        }
        lemma_dom_len(t);
        let k = s.last().0@;
        assert(!has_key(t, k)) by {
            if has_key(t, k) {
                let j = choose|j: int| 0 <= j < t.len() && (#[trigger] t[j]).0@ == k;
                assert(s[j] == t[j]);
            }
        }
        assert forall|kk: Seq<char>| #[trigger] has_key(s, kk) == (has_key(t, kk) || kk == k) by {
            if has_key(t, kk) {
                let j = choose|j: int| 0 <= j < t.len() && (#[trigger] t[j]).0@ == kk;
                assert(s[j] == t[j]);
            }
            if has_key(s, kk) {
                let j = choose|j: int| 0 <= j < s.len() && (#[trigger] s[j]).0@ == kk;
                if j < t.len() {
                    assert(s[j] == t[j]);
                }
            }
            if kk == k {
                assert(s[s.len() - 1].0@ == kk);
            }
        }
        assert(entries_map(s).dom() =~= entries_map(t).dom().insert(k));
    }
}

/// `after` is `before` with an exchange of `endpoint`, `params` and
/// `response` recorded under `key`: that key now holds it, whatever it held,
/// and every other key keeps its entry.
pub open spec fn stored(
    before: Map<Seq<char>, CacheEntry>,
    after: Map<Seq<char>, CacheEntry>,
    key: Seq<char>,
    endpoint: Seq<char>,
    params: serde_json::Value,
    response: serde_json::Value,
) -> bool {
    &&& after.dom() == before.dom().insert(key)
    &&& forall|k: Seq<char>| k != key && before.contains_key(k) ==> #[trigger] after[k] == before[k]
    &&& after[key].endpoint@ == endpoint
    &&& after[key].params == params
    &&& after[key].response == response
}

/// Setting a key and then reading it back gives the entry just recorded:
/// its response is the one stored and its endpoint the one named; reading
/// any other key gives what it gave before.
pub proof fn lemma_set_then_get(
    before: Map<Seq<char>, CacheEntry>,
    after: Map<Seq<char>, CacheEntry>,
    key: Seq<char>,
    endpoint: Seq<char>,
    params: serde_json::Value,
    response: serde_json::Value,
    other: Seq<char>,
)
    requires
        stored(before, after, key, endpoint, params, response),
    ensures
        lookup(after, key) is Some,
        lookup(after, key)->0.response == response,
        lookup(after, key)->0.endpoint@ == endpoint,
        other != key ==> lookup(after, other) == lookup(before, other),
{
    assert(after.dom().contains(key));
    if other != key && before.contains_key(other) {
        assert(after[other] == before[other]);
    }
}

/// The cache of one run, with the file it is persisted to.
pub struct Cache {
    file_path: String,
    data: CacheFile,
}

impl View for Cache {
    type V = Map<Seq<char>, CacheEntry>;

    closed spec fn view(&self) -> Map<Seq<char>, CacheEntry> {
        self.data@
    }
}

impl Cache {
    /// The held entries satisfy their invariant.
    pub closed spec fn wf(&self) -> bool {
        self.data.wf()
    }

    /// The file the cache is persisted to.
    pub closed spec fn path(&self) -> Seq<char> {
        self.file_path@
    }

    /// A cache persisted to `file_path`, holding what was read from that file;
    /// a file that was missing or could not be read gives an empty cache.
    pub fn new(file_path: &str, loaded: Option<CacheFile>) -> (r: Cache)
        requires
            match loaded {
                Some(f) => f.wf(),
                None => true,
            },
        ensures
            r.wf(),
            r.path() == file_path@,
            r@ == match loaded {
                Some(f) => f@,
                None => Map::<Seq<char>, CacheEntry>::empty(),
            },
    {
        let data = match loaded {
            Some(f) => f,
            None => CacheFile::new(),
        };
        Cache { file_path: file_path.to_owned(), data }
    }

    /// The file the cache is persisted to.
    pub fn file_path(&self) -> (r: &str)
        ensures
            r@ == self.path(),
    {
        self.file_path.as_str()
    }

    /// The held entries.
    pub fn data(&self) -> (r: &CacheFile)
        requires
            self.wf(),
        ensures
            r.wf(),
            r@ == self@,
    {
        &self.data
    }

    /// The entry under `key`, if any.
    pub fn get(&self, key: &str) -> (r: Option<&CacheEntry>)
        requires
            self.wf(),
        ensures
            match r {
                Some(e) => lookup(self@, key@) == Some(*e),
                None => lookup(self@, key@) is None,
            },
    {
        self.data.get(key)
    }

    /// Records an exchange under `key` with the given timestamp, replacing
    /// what the key held.
    pub fn set_at(
        &mut self,
        key: &str,
        endpoint: &str,
        params: serde_json::Value,
        response: serde_json::Value,
        timestamp: u64,
    )
        requires
            old(self).wf(),
        ensures
            final(self).wf(),
            final(self).path() == old(self).path(),
            stored(old(self)@, final(self)@, key@, endpoint@, params, response),
            final(self)@[key@].timestamp == timestamp,
    {
        let entry = CacheEntry { timestamp, endpoint: endpoint.to_owned(), params, response };
        self.data.insert(key.to_owned(), entry);
    }

    /// Records an exchange under `key`, stamped with the current time
    /// (zero when the clock cannot be read), replacing what the key held.
    pub fn set(
        &mut self,
        key: &str,
        endpoint: &str,
        params: serde_json::Value,
        response: serde_json::Value,
    )
        requires
            old(self).wf(),
        ensures
            final(self).wf(),
            final(self).path() == old(self).path(),
            stored(old(self)@, final(self)@, key@, endpoint@, params, response),
    {
        let timestamp = match unix_time_seconds() {
            Some(t) => t,
            None => 0,
        };
        self.set_at(key, endpoint, params, response, timestamp);
    }
}

} // verus!
