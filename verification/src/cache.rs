//! A time-bounded cache over the remote lookups: the single choke point for
//! every remote read. A lookup against the cache either returns a fresh
//! stored value, or classifies the key and asks the caller to perform the
//! remote fetch for that kind (the cache itself performs no transport).
//!
//! Two callers racing on the same expired or missing key both receive a
//! fetch directive: the cache does not deduplicate in-flight fetches, so a
//! cache stampede on one key stays possible, exactly as documented.

use vstd::prelude::*;

use crate::get_items::deep_eq;
use crate::get_items::ItemResponse;
use crate::get_stories::StoriesResponse;
use crate::get_user::user_eq;
use crate::get_user::User;
use crate::text::spec_contains;
use crate::text::spec_starts_with;
use crate::text::str_contains;
use crate::text::str_eq;
use crate::text::str_starts_with;

verus! {

/// Why a remote read failed: the transport failed, or a key or payload did
/// not match any known shape.
#[derive(Clone, Copy, PartialEq, Eq, Structural, Debug)]
pub enum FetchError {
    Network,
    Serialize,
}

/// A cached value: one of the three remote lookup kinds.
#[derive(Debug)]
pub enum CacheItemType {
    Item(ItemResponse),
    Story(StoriesResponse),
    User(User),
}

/// Content equality of two cache values.
pub open spec fn value_eq(a: CacheItemType, b: CacheItemType) -> bool {
    match (a, b) {
        (CacheItemType::Item(x), CacheItemType::Item(y)) => deep_eq(x, y),
        (CacheItemType::Story(x), CacheItemType::Story(y)) => x@ == y@,
        (CacheItemType::User(x), CacheItemType::User(y)) => user_eq(x, y),
        _ => false,
    }
}

impl Clone for CacheItemType {
    /// The copy has the same content as the original.
    fn clone(&self) -> (r: Self)
        ensures
            value_eq(*self, r),
    {
        match self {
            CacheItemType::Item(x) => CacheItemType::Item(x.clone()),
            CacheItemType::Story(x) => {
                let c = x.clone();
                proof {
                    assert(c@ =~= x@);
                }
                CacheItemType::Story(c)
            },
            CacheItemType::User(x) => CacheItemType::User(x.clone()),
        }
    }
}

/// A cached value together with the absolute instant (in the caller's clock)
/// at which it expires.
#[derive(Debug)]
pub struct CacheData {
    pub value: CacheItemType,
    pub expire: u64,
}

impl Clone for CacheData {
    fn clone(&self) -> (r: Self)
        ensures
            value_eq(self.value, r.value),
            r.expire == self.expire,
    {
        CacheData { value: self.value.clone(), expire: self.expire }
    }
}

/// The lookup kind a key selects.
#[derive(Clone, Copy, PartialEq, Eq, Structural, Debug)]
pub enum CacheItemKind {
    Item,
    Story,
    User,
}

/// Key classification: `item/...` selects an item lookup, any key containing
/// `stories` selects an id-list lookup, `user/...` selects a user lookup,
/// and every other key is rejected.
pub open spec fn spec_classify(key: Seq<char>) -> Option<CacheItemKind> {
    if spec_starts_with(key, "item/"@) {
        Option::Some(CacheItemKind::Item)
    } else if spec_contains(key, "stories"@) {
        Option::Some(CacheItemKind::Story)
    } else if spec_starts_with(key, "user/"@) {
        Option::Some(CacheItemKind::User)
    } else {
        Option::None
    }
}

pub fn classify_key(key: &str) -> (r: Option<CacheItemKind>)
    ensures
        r == spec_classify(key@),
{
    if str_starts_with(key, "item/") {
        Option::Some(CacheItemKind::Item)
    } else if str_contains(key, "stories") {
        Option::Some(CacheItemKind::Story)
    } else if str_starts_with(key, "user/") {
        Option::Some(CacheItemKind::User)
    } else {
        Option::None
    }
}

/// What a cache lookup decided: a fresh stored value, a remote fetch of the
/// classified kind that the caller must now perform, or a key that no fetch
/// can serve.
#[derive(Debug)]
pub enum CacheLookup {
    Fresh(CacheItemType),
    NeedsFetch(CacheItemKind),
    BadKey,
}

/// The stored entry for `key` exists and has not expired at `now`.
pub open spec fn spec_fresh(m: Map<Seq<char>, CacheData>, key: Seq<char>, now: u64) -> bool {
    m.contains_key(key) && m[key].expire > now
}

/// The contents after storing `value` for `key` at time `t` with lifetime
/// `ttl`.
pub open spec fn spec_store(
    m: Map<Seq<char>, CacheData>,
    key: Seq<char>,
    value: CacheItemType,
    t: u64,
    ttl: u64,
) -> Map<Seq<char>, CacheData>
    recommends
        t + ttl <= u64::MAX,
{
    m.insert(key, CacheData { value, expire: (t + ttl) as u64 })
}

/// A value stored at time `t` is fresh at exactly the instants before
/// `t + ttl`: a read before expiry needs no remote fetch, a read at or after
/// expiry triggers one.
pub proof fn lemma_ttl_expiry(
    m: Map<Seq<char>, CacheData>,
    key: Seq<char>,
    value: CacheItemType,
    t: u64,
    ttl: u64,
    t2: u64,
)
    requires
        t + ttl <= u64::MAX,
    ensures
        spec_fresh(spec_store(m, key, value, t, ttl), key, t2) <==> t2 < t + ttl,
{
}

spec fn entries_map(s: Seq<(String, CacheData)>) -> Map<Seq<char>, CacheData>
    decreases s.len(),
{
    if s.len() == 0 {
        Map::empty()
    } else {
        entries_map(s.drop_last()).insert(s.last().0@, s.last().1)
    }
}

spec fn distinct_keys(s: Seq<(String, CacheData)>) -> bool {
    forall|i: int, j: int| 0 <= i < j < s.len() ==> s[i].0@ != s[j].0@
}

proof fn lemma_map_absent(s: Seq<(String, CacheData)>, key: Seq<char>)
    requires
        forall|i: int| 0 <= i < s.len() ==> s[i].0@ != key,
    ensures
        !entries_map(s).contains_key(key),
    decreases s.len(),
{
    if s.len() > 0 {
        lemma_map_absent(s.drop_last(), key);
    }
}

proof fn lemma_map_present(s: Seq<(String, CacheData)>, i: int)
    requires
        distinct_keys(s),
        0 <= i < s.len(),
    ensures
        entries_map(s).contains_key(s[i].0@),
        entries_map(s)[s[i].0@] == s[i].1,
    decreases s.len(),
{
    if i < s.len() - 1 {
        lemma_map_present(s.drop_last(), i);
    }
}

proof fn lemma_map_remove(s: Seq<(String, CacheData)>, i: int)
    requires
        distinct_keys(s),
        0 <= i < s.len(),
    ensures
        entries_map(s.remove(i)) == entries_map(s).remove(s[i].0@),
    decreases s.len(),
{
    let k = s[i].0@;
    if i == s.len() - 1 {
        assert(s.remove(i) =~= s.drop_last());
        lemma_map_absent(s.drop_last(), k);
        assert(entries_map(s.drop_last()).insert(k, s.last().1).remove(k) =~= entries_map(
            s.drop_last(),
        ));
    } else {
        let dl = s.drop_last();
        assert(s.remove(i).drop_last() =~= dl.remove(i));
        assert(s.remove(i).last() == s.last());
        lemma_map_remove(dl, i);
        assert(entries_map(dl).remove(k).insert(s.last().0@, s.last().1) =~= entries_map(
            dl,
        ).insert(s.last().0@, s.last().1).remove(k));
        assert(entries_map(s.remove(i)) == entries_map(dl.remove(i)).insert(
            s.last().0@,
            s.last().1,
        ));
    }
}

/// The time-bounded cache over remote lookups. The stored entries are keyed
/// by the lookup path; every entry carries its own absolute expiry instant.
/// Time is the caller's monotonic clock, handed in on every call.
pub struct FirebaseCache {
    entries: Vec<(String, CacheData)>,
    max_age: u64,
}

impl FirebaseCache {
    /// The stored entries, as a map from key to cached value and expiry.
    pub closed spec fn contents(self) -> Map<Seq<char>, CacheData> {
        entries_map(self.entries@)
    }

    /// The fixed lifetime this cache gives every stored value.
    pub closed spec fn ttl(self) -> u64 {
        self.max_age
    }

    /// Internal well-formedness: no key is stored twice.
    pub closed spec fn wf(self) -> bool {
        distinct_keys(self.entries@)
    }

    /// An empty cache whose values will live for `max_age` time units.
    pub fn new(max_age: u64) -> (r: Self)
        ensures
            r.wf(),
            r.contents() == Map::<Seq<char>, CacheData>::empty(),
            r.ttl() == max_age,
    {
        FirebaseCache { entries: Vec::new(), max_age }
    }

    fn find_index(&self, key: &str) -> (r: Option<usize>)
        ensures
            match r {
                Option::Some(i) => i < self.entries@.len() && self.entries@[i as int].0@ == key@,
                Option::None => forall|i: int|
                    0 <= i < self.entries@.len() ==> self.entries@[i].0@ != key@,
            },
    {
        let mut i: usize = 0;
        while i < self.entries.len()
            invariant
                i <= self.entries@.len(),
                forall|k: int| 0 <= k < i ==> self.entries@[k].0@ != key@,
            decreases self.entries@.len() - i,
        {
            if str_eq(self.entries[i].0.as_str(), key) {
                return Option::Some(i);
            }
            i += 1;
        }
        Option::None
    }

    /// Reads `key` at time `now`. A fresh entry is returned as a copy and
    /// the cache is untouched. Otherwise any expired entry for the key is
    /// evicted and the caller is told which remote fetch to perform — or
    /// that the key cannot be classified. Two concurrent callers may both be
    /// told to fetch the same key; nothing serializes the fetch itself.
    pub fn lookup(&mut self, key: &str, now: u64) -> (r: CacheLookup)
        requires
            old(self).wf(),
        ensures
            final(self).wf(),
            final(self).ttl() == old(self).ttl(),
            spec_fresh(old(self).contents(), key@, now) ==> {
                &&& *final(self) == *old(self)
                &&& r matches CacheLookup::Fresh(v) && value_eq(
                    old(self).contents()[key@].value,
                    v,
                )
            },
            !spec_fresh(old(self).contents(), key@, now) ==> {
                &&& final(self).contents() == old(self).contents().remove(key@)
                &&& match spec_classify(key@) {
                    Option::Some(kind) => r == CacheLookup::NeedsFetch(kind),
                    Option::None => r == CacheLookup::BadKey,
                }
            },
    {
        let found = self.find_index(key);
        match found {
            Option::Some(i) => {
                proof {
                    lemma_map_present(self.entries@, i as int);
                }
                if self.entries[i].1.expire > now {
                    let v = self.entries[i].1.value.clone();
                    return CacheLookup::Fresh(v);
                }
                proof {
                    lemma_map_remove(self.entries@, i as int);
                    assert forall|a: int, b: int|
                        0 <= a < b < self.entries@.remove(i as int).len() implies self.entries@.remove(
                        i as int,
                    )[a].0@ != self.entries@.remove(i as int)[b].0@ by {
                        assert(self.entries@.remove(i as int)[a] == if a < i as int {
                            self.entries@[a]
                        } else {
                            self.entries@[a + 1]
                        });
                        assert(self.entries@.remove(i as int)[b] == if b < i as int {
                            self.entries@[b]
                        } else {
                            self.entries@[b + 1]
                        });
                    }
                }
                self.entries.remove(i);
            },
            Option::None => {
                proof {
                    lemma_map_absent(self.entries@, key@);
                    assert(self.contents() =~= self.contents().remove(key@));
                }
            },
        }
        match classify_key(key) {
            Option::Some(kind) => CacheLookup::NeedsFetch(kind),
            Option::None => CacheLookup::BadKey,
        }
    }

    /// Stores `value` for `key` at time `now`; the entry expires at
    /// `now + ttl`. Any previous entry for the key is replaced wholesale.
    pub fn set(&mut self, key: String, value: CacheItemType, now: u64)
        requires
            old(self).wf(),
            now + old(self).ttl() <= u64::MAX,
        ensures
            final(self).wf(),
            final(self).ttl() == old(self).ttl(),
            final(self).contents() == spec_store(
                old(self).contents(),
                key@,
                value,
                now,
                old(self).ttl(),
            ),
    {
        self.remove(key.as_str());
        proof {
            assert forall|i: int| 0 <= i < self.entries@.len() implies self.entries@[i].0@
                != key@ by {
                lemma_map_present(self.entries@, i);
            }
        }
        let expire = now + self.max_age;
        let ghost before = self.entries@;
        self.entries.push((key, CacheData { value, expire }));
        proof {
            assert(self.entries@.drop_last() =~= before);
        }
    }

    /// Drops the entry for `key`, if any.
    pub fn remove(&mut self, key: &str)
        requires
            old(self).wf(),
        ensures
            final(self).wf(),
            final(self).ttl() == old(self).ttl(),
            final(self).contents() == old(self).contents().remove(key@),
    {
        let found = self.find_index(key);
        match found {
            Option::Some(i) => {
                proof {
                    lemma_map_remove(self.entries@, i as int);
                    assert forall|a: int, b: int|
                        0 <= a < b < self.entries@.remove(i as int).len() implies self.entries@.remove(
                        i as int,
                    )[a].0@ != self.entries@.remove(i as int)[b].0@ by {
                        assert(self.entries@.remove(i as int)[a] == if a < i as int {
                            self.entries@[a]
                        } else {
                            self.entries@[a + 1]
                        });
                        assert(self.entries@.remove(i as int)[b] == if b < i as int {
                            self.entries@[b]
                        } else {
                            self.entries@[b + 1]
                        });
                    }
                }
                self.entries.remove(i);
            },
            Option::None => {
                proof {
                    lemma_map_absent(self.entries@, key@);
                    assert(self.contents() =~= self.contents().remove(key@));
                }
            },
        }
    }
}

} // verus!
