//! The core's model of the key-value store it persists into: a map from
//! string paths to string values, where an entry may carry an absolute
//! expiry second and reads as absent from that second on.
//!
//! The real service keeps this state in an external store; the contract the
//! core relies on — get, set, and set-with-expiry over string paths — is
//! exactly what this type provides, so the access and lifecycle logic can be
//! verified against it.
use vstd::prelude::*;

verus! {

/// What the store remembers under one key: the stored text and, for entries
/// written with a time-to-live, the absolute second from which the entry is
/// no longer visible.
pub struct Record {
    pub value: Seq<char>,
    pub expires_at: Option<u64>,
}

/// One key-value entry as held in memory.
struct Entry {
    key: String,
    value: String,
    expires_at: Option<u64>,
}

impl Entry {
    spec fn record(self) -> Record {
        Record { value: self.value@, expires_at: self.expires_at }
    }
}

/// A record written with expiry `e` is visible only strictly before `e`;
/// one written without expiry is always visible.
pub open spec fn is_live(r: Record, now: u64) -> bool {
    match r.expires_at {
        None => true,
        Some(e) => now < e,
    }
}

/// What a read at time `now` observes under `key`: the stored value if the
/// entry exists and has not expired, nothing otherwise.  An expired entry is
/// indistinguishable from one never written.
pub open spec fn live_get(m: Map<Seq<char>, Record>, key: Seq<char>, now: u64) -> Option<
    Seq<char>,
> {
    if m.contains_key(key) && is_live(m[key], now) {
        Some(m[key].value)
    } else {
        None
    }
}

/// A key-value store with per-entry expiry, abstracted as a `Map` from key
/// to `Record`.
pub struct KvStore {
    entries: Vec<Entry>,
}

spec fn keys_unique(s: Seq<Entry>) -> bool {
    forall|i: int, j: int| 0 <= i < j < s.len() ==> s[i].key@ != s[j].key@
}

spec fn map_of(s: Seq<Entry>) -> Map<Seq<char>, Record>
    decreases s.len(),
{
    if s.len() == 0 {
        Map::empty()
    } else {
        map_of(s.drop_last()).insert(s.last().key@, s.last().record())
    }
}

proof fn lemma_map_of_contains(s: Seq<Entry>, k: Seq<char>)
    ensures
        map_of(s).contains_key(k) <==> exists|i: int| 0 <= i < s.len() && s[i].key@ == k,
    decreases s.len(),
{
    if s.len() > 0 {
        let prefix = s.drop_last();
        lemma_map_of_contains(prefix, k);
        if s.last().key@ == k {
            assert(s[s.len() - 1].key@ == k);
        } else {
            if exists|i: int| 0 <= i < prefix.len() && prefix[i].key@ == k {
                let i = choose|i: int| 0 <= i < prefix.len() && prefix[i].key@ == k;
                assert(s[i].key@ == k);
            }
            if exists|i: int| 0 <= i < s.len() && s[i].key@ == k {
                let i = choose|i: int| 0 <= i < s.len() && s[i].key@ == k;
                assert(prefix[i].key@ == k);
            }
        }
    }
}

proof fn lemma_map_of_value(s: Seq<Entry>, i: int)
    requires
        keys_unique(s),
        0 <= i < s.len(),
    ensures
        map_of(s).contains_key(s[i].key@),
        map_of(s)[s[i].key@] == s[i].record(),
    decreases s.len(),
{
    let k = s[i].key@;
    if i == s.len() - 1 {
    } else {
        let prefix = s.drop_last();
        assert(keys_unique(prefix)) by {
            assert(forall|a: int, b: int|
                0 <= a < b < prefix.len() ==> prefix[a].key@ != prefix[b].key@) by {
                assert(forall|a: int, b: int|
                    0 <= a < b < prefix.len() ==> s[a].key@ != s[b].key@);
            }
        }
        lemma_map_of_value(prefix, i);
        assert(s.last().key@ != k);
    }
}

proof fn lemma_map_of_update(s: Seq<Entry>, i: int, e: Entry)
    requires
        keys_unique(s),
        0 <= i < s.len(),
        e.key@ == s[i].key@,
    ensures
        map_of(s.update(i, e)) == map_of(s).insert(e.key@, e.record()),
    decreases s.len(),
{
    let k = e.key@;
    let t = s.update(i, e);
    if i == s.len() - 1 {
        assert(t.drop_last() =~= s.drop_last());
        assert(t.last() == e);
        assert(map_of(t) =~= map_of(s).insert(k, e.record()));
    } else {
        let prefix = s.drop_last();
        assert(keys_unique(prefix));
        assert(prefix[i].key@ == k);
        lemma_map_of_update(prefix, i, e);
        assert(t.drop_last() =~= prefix.update(i, e));
        assert(t.last() == s.last());
        assert(s.last().key@ != k);
        assert(map_of(t) == map_of(prefix).insert(k, e.record()).insert(
            s.last().key@,
            s.last().record(),
        ));
        assert(map_of(t) =~= map_of(s).insert(k, e.record()));
    }
}

proof fn lemma_map_of_push(s: Seq<Entry>, e: Entry)
    ensures
        map_of(s.push(e)) == map_of(s).insert(e.key@, e.record()),
{
    assert(s.push(e).drop_last() =~= s);
    assert(s.push(e).last() == e);
}

impl View for KvStore {
    type V = Map<Seq<char>, Record>;

    closed spec fn view(&self) -> Map<Seq<char>, Record> {
        map_of(self.entries@)
    }
}

impl KvStore {
    #[verifier::type_invariant]
    spec fn wf(self) -> bool {
        keys_unique(self.entries@)
    }

    /// An empty store.
    pub fn new() -> (s: Self)
        ensures
            s@ == Map::<Seq<char>, Record>::empty(),
    {
        KvStore { entries: Vec::new() }
    }

    /// Index of the entry holding `key`, if any.
    fn find(&self, key: &String) -> (r: Option<usize>)
        ensures
            match r {
                Some(i) => i < self.entries@.len() && self.entries@[i as int].key@ == key@,
                None => forall|j: int|
                    0 <= j < self.entries@.len() ==> self.entries@[j].key@ != key@,
            },
    {
        let mut i: usize = 0;
        while i < self.entries.len()
            invariant
                i <= self.entries@.len(),
                forall|j: int| 0 <= j < i ==> self.entries@[j].key@ != key@,
            decreases self.entries@.len() - i,
        {
            if self.entries[i].key == *key {
                return Some(i);
            }
            i = i + 1;
        }
        None
    }

    /// Writes `value` under `key`: a plain write without expiry overwrites
    /// whatever was there, expiry included.
    pub fn set(&mut self, key: &String, value: &String)
        ensures
            final(self)@ == old(self)@.insert(
                key@,
                Record { value: value@, expires_at: None },
            ),
    {
        self.put(key, value, None);
    }

    /// Writes `value` under `key` with an absolute expiry second: the entry
    /// reads as present strictly before `expires_at` and absent from then on.
    pub fn set_with_expiry(&mut self, key: &String, value: &String, expires_at: u64)
        ensures
            final(self)@ == old(self)@.insert(
                key@,
                Record { value: value@, expires_at: Some(expires_at) },
            ),
    {
        self.put(key, value, Some(expires_at));
    }

    fn put(&mut self, key: &String, value: &String, expires_at: Option<u64>)
        ensures
            final(self)@ == old(self)@.insert(
                key@,
                Record { value: value@, expires_at },
            ),
    {
        proof {
            use_type_invariant(&*self);
        }
        let entry = Entry { key: key.clone(), value: value.clone(), expires_at };
        let found = self.find(key);
        let ghost old_entries = self.entries@;
        let mut entries: Vec<Entry> = Vec::new();
        core::mem::swap(&mut entries, &mut self.entries);
        match found {
            Some(i) => {
                proof {
                    lemma_map_of_update(old_entries, i as int, entry);
                }
                entries[i] = entry;
                assert(keys_unique(entries@)) by {
                    assert(forall|a: int, b: int|
                        0 <= a < b < entries@.len() ==> entries@[a].key@ != entries@[b].key@)
                        by {
                        assert(forall|a: int|
                            0 <= a < entries@.len() ==> entries@[a].key@ == old_entries[a].key@);
                    }
                }
            },
            None => {
                proof {
                    lemma_map_of_push(old_entries, entry);
                }
                entries.push(entry);
            },
        }
        self.entries = entries;
    }

    /// Reads the value under `key` as of time `now`.  An entry whose expiry
    /// has been reached — like one never written — reads as nothing.
    pub fn get(&self, key: &String, now: u64) -> (r: Option<String>)
        ensures
            match r {
                Some(v) => live_get(self@, key@, now) == Some(v@),
                None => live_get(self@, key@, now) is None,
            },
    {
        proof {
            use_type_invariant(&*self);
        }
        match self.find(key) {
            Some(i) => {
                proof {
                    lemma_map_of_value(self.entries@, i as int);
                }
                let e = &self.entries[i];
                match e.expires_at {
                    None => Some(e.value.clone()),
                    Some(exp) => {
                        if now < exp {
                            Some(e.value.clone())
                        } else {
                            None
                        }
                    },
                }
            },
            None => {
                proof {
                    lemma_map_of_contains(self.entries@, key@);
                }
                None
            },
        }
    }
}

} // verus!
