//! The bounded, per-topic record of item ids the user has already viewed.
//! Each topic's ids form a strictly ascending set; when the set is at or
//! above the configured cap, a new insertion first evicts the lowest id.

use vstd::prelude::*;
use vstd::string::StringExecFns;

use crate::api_url::StoryType;
use crate::storages::save_data::SaveData;
use crate::storages::save_data::StorageError;

verus! {

/// Strictly ascending: no duplicates, lowest id first.
pub open spec fn sorted_strict(s: Seq<usize>) -> bool {
    forall|i: int, j: int| 0 <= i < j < s.len() ==> s[i] < s[j]
}

/// The persisted document: one ordered id set per topic.
#[derive(Debug)]
pub struct ReadHistoryData {
    pub top: Vec<usize>,
    pub new: Vec<usize>,
    pub show: Vec<usize>,
    pub best: Vec<usize>,
    pub jobs: Vec<usize>,
}

impl ReadHistoryData {
    /// The ids recorded for one topic.
    pub open spec fn spec_ids(self, t: StoryType) -> Seq<usize> {
        match t {
            StoryType::Top => self.top@,
            StoryType::New => self.new@,
            StoryType::Show => self.show@,
            StoryType::Best => self.best@,
            StoryType::Jobs => self.jobs@,
        }
    }

    /// Every topic's ids are strictly ascending.
    pub open spec fn wf(self) -> bool {
        &&& sorted_strict(self.top@)
        &&& sorted_strict(self.new@)
        &&& sorted_strict(self.show@)
        &&& sorted_strict(self.best@)
        &&& sorted_strict(self.jobs@)
    }

    /// A document with nothing recorded.
    pub fn empty() -> (r: Self)
        ensures
            r.wf(),
            forall|t: StoryType| #[trigger] r.spec_ids(t) == Seq::<usize>::empty(),
    {
        let r = ReadHistoryData {
            top: Vec::new(),
            new: Vec::new(),
            show: Vec::new(),
            best: Vec::new(),
            jobs: Vec::new(),
        };
        proof {
            assert forall|t: StoryType| #[trigger] r.spec_ids(t) == Seq::<usize>::empty() by {
                match t {
                    StoryType::Top => assert(r.spec_ids(t) =~= Seq::<usize>::empty()),
                    StoryType::New => assert(r.spec_ids(t) =~= Seq::<usize>::empty()),
                    StoryType::Show => assert(r.spec_ids(t) =~= Seq::<usize>::empty()),
                    StoryType::Best => assert(r.spec_ids(t) =~= Seq::<usize>::empty()),
                    StoryType::Jobs => assert(r.spec_ids(t) =~= Seq::<usize>::empty()),
                }
            }
        }
        r
    }
}

impl Clone for ReadHistoryData {
    /// The copy records the same ids for every topic.
    fn clone(&self) -> (r: Self)
        ensures
            forall|t: StoryType| #[trigger] r.spec_ids(t) == self.spec_ids(t),
    {
        let r = ReadHistoryData {
            top: self.top.clone(),
            new: self.new.clone(),
            show: self.show.clone(),
            best: self.best.clone(),
            jobs: self.jobs.clone(),
        };
        proof {
            assert(r.top@ =~= self.top@);
            assert(r.new@ =~= self.new@);
            assert(r.show@ =~= self.show@);
            assert(r.best@ =~= self.best@);
            assert(r.jobs@ =~= self.jobs@);
            assert forall|t: StoryType| #[trigger] r.spec_ids(t) == self.spec_ids(t) by {
                match t {
                    StoryType::Top => {},
                    StoryType::New => {},
                    StoryType::Show => {},
                    StoryType::Best => {},
                    StoryType::Jobs => {},
                }
            }
        }
        r
    }
}

/// `s` with `id` placed at its sorted position; a present id is kept once.
pub open spec fn spec_insert_sorted(s: Seq<usize>, id: usize) -> Seq<usize>
    decreases s.len(),
{
    if s.len() == 0 {
        seq![id]
    } else if id < s[0] {
        seq![id] + s
    } else if id == s[0] {
        s
    } else {
        seq![s[0]] + spec_insert_sorted(s.drop_first(), id)
    }
}

/// The eviction step: at or above the cap, the lowest (first) id leaves.
pub open spec fn spec_evict(s: Seq<usize>, max: int) -> Seq<usize> {
    if s.len() >= max && s.len() > 0 {
        s.drop_first()
    } else {
        s
    }
}

/// What one `mark as read` call does to a topic's ids.
pub open spec fn spec_add_read(s: Seq<usize>, id: usize, max: int) -> Seq<usize> {
    spec_insert_sorted(spec_evict(s, max), id)
}

proof fn lemma_insert_sorted_at(s: Seq<usize>, id: usize, i: int)
    requires
        sorted_strict(s),
        0 <= i <= s.len(),
        forall|k: int| 0 <= k < i ==> s[k] < id,
        i < s.len() ==> s[i] > id,
    ensures
        spec_insert_sorted(s, id) =~= s.subrange(0, i) + seq![id] + s.subrange(i, s.len() as int),
    decreases i,
{
    if i == 0 {
        if s.len() == 0 {
            assert(spec_insert_sorted(s, id) =~= seq![id]);
        } else {
            assert(id < s[0]);
        }
    } else {
        assert(s[0] < id);
        lemma_insert_sorted_at(s.drop_first(), id, i - 1);
    }
}

proof fn lemma_insert_sorted_present(s: Seq<usize>, id: usize, i: int)
    requires
        sorted_strict(s),
        0 <= i < s.len(),
        forall|k: int| 0 <= k < i ==> s[k] < id,
        s[i] == id,
    ensures
        spec_insert_sorted(s, id) == s,
    decreases i,
{
    if i == 0 {
    } else {
        assert(s[0] < id);
        lemma_insert_sorted_present(s.drop_first(), id, i - 1);
        assert(seq![s[0]] + s.drop_first() =~= s);
    }
}

proof fn lemma_insert_sorted_membership(s: Seq<usize>, id: usize, x: usize)
    requires
        sorted_strict(s),
    ensures
        spec_insert_sorted(s, id).contains(x) <==> (s.contains(x) || x == id),
    decreases s.len(),
{
    let r = spec_insert_sorted(s, id);
    if s.len() == 0 {
        assert(r == seq![id]);
        if x == id {
            assert(r[0] == x);
        }
        if r.contains(x) {
            let i = choose|i: int| 0 <= i < r.len() && r[i] == x;
            assert(x == id);
        }
    } else if id < s[0] {
        assert(r == seq![id] + s);
        if x == id {
            assert(r[0] == x);
        }
        if s.contains(x) {
            let i = choose|i: int| 0 <= i < s.len() && s[i] == x;
            assert(r[i + 1] == x);
        }
        if r.contains(x) {
            let i = choose|i: int| 0 <= i < r.len() && r[i] == x;
            if i == 0 {
                assert(x == id);
            } else {
                assert(s[i - 1] == x);
            }
        }
    } else if id == s[0] {
        assert(r == s);
        if x == id {
            assert(s[0] == x);
        }
    } else {
        let df = s.drop_first();
        lemma_insert_sorted_membership(df, id, x);
        assert(r == seq![s[0]] + spec_insert_sorted(df, id));
        let rr = spec_insert_sorted(df, id);
        if x == s[0] {
            assert(r[0] == x);
            assert(s[0] == x);
        }
        if rr.contains(x) {
            let i = choose|i: int| 0 <= i < rr.len() && rr[i] == x;
            assert(r[i + 1] == x);
        }
        if df.contains(x) {
            let i = choose|i: int| 0 <= i < df.len() && df[i] == x;
            assert(s[i + 1] == x);
        }
        if s.contains(x) && x != s[0] {
            let i = choose|i: int| 0 <= i < s.len() && s[i] == x;
            assert(df[i - 1] == x);
        }
        if r.contains(x) {
            let i = choose|i: int| 0 <= i < r.len() && r[i] == x;
            if i == 0 {
                assert(s[0] == x);
            } else {
                assert(rr[i - 1] == x);
            }
        }
    }
}

/// History eviction, as one membership rule: after recording `id` against a
/// topic holding the ids `s` under cap `max`, an id `x` is recorded exactly
/// when it is the new id, or was recorded before and was not the lowest id
/// of a set already at or above the cap.
pub proof fn lemma_add_read_membership(s: Seq<usize>, id: usize, max: int, x: usize)
    requires
        sorted_strict(s),
    ensures
        spec_add_read(s, id, max).contains(x) <==> (x == id || (s.contains(x) && !(s.len() >= max
            && s.len() > 0 && x == s[0]))),
{
    let e = spec_evict(s, max);
    assert(sorted_strict(e));
    lemma_insert_sorted_membership(e, id, x);
    if s.len() >= max && s.len() > 0 {
        assert(e == s.drop_first());
        if e.contains(x) {
            let i = choose|i: int| 0 <= i < e.len() && e[i] == x;
            assert(s[i + 1] == x);
            assert(x != s[0]);
        }
        if s.contains(x) && x != s[0] {
            let i = choose|i: int| 0 <= i < s.len() && s[i] == x;
            assert(i != 0);
            assert(e[i - 1] == x);
        }
    }
}

/// Places `id` into the strictly ascending `v`, keeping it ascending.
fn insert_sorted(v: &mut Vec<usize>, id: usize)
    requires
        sorted_strict(old(v)@),
    ensures
        final(v)@ == spec_insert_sorted(old(v)@, id),
        sorted_strict(final(v)@),
{
    let mut i: usize = 0;
    while i < v.len() && v[i] < id
        invariant
            i <= v@.len(),
            sorted_strict(v@),
            *v == *old(v),
            forall|k: int| 0 <= k < i ==> v@[k] < id,
        decreases v@.len() - i,
    {
        i += 1;
    }
    if i < v.len() && v[i] == id {
        proof {
            lemma_insert_sorted_present(v@, id, i as int);
        }
        return;
    }
    let ghost s = v@;
    v.insert(i, id);
    proof {
        lemma_insert_sorted_at(s, id, i as int);
        assert(v@ =~= s.subrange(0, i as int) + seq![id] + s.subrange(i as int, s.len() as int));
    }
}

/// The durable, bounded record of already-viewed item ids, one ordered set
/// per topic, capped at `max` ids per topic. Disk access is the embedding
/// program's concern: it reloads the document before and persists it after
/// each mutation through `snapshot` and `restore`.
#[derive(Debug)]
pub struct ReadHistory {
    storage: SaveData<ReadHistoryData>,
    max: usize,
}

impl ReadHistory {
    /// The current document.
    pub closed spec fn doc(self) -> ReadHistoryData {
        self.storage.data
    }

    /// The per-topic cap.
    pub closed spec fn cap(self) -> usize {
        self.max
    }

    pub closed spec fn wf(self) -> bool {
        self.doc().wf()
    }

    /// Whether `item_id` is recorded as read for `story_type`.
    pub open spec fn spec_is_read(self, story_type: StoryType, item_id: usize) -> bool {
        self.doc().spec_ids(story_type).contains(item_id)
    }

    /// A store with nothing recorded and a per-topic cap of `max`.
    pub fn new(max: usize) -> (r: Self)
        ensures
            r.wf(),
            r.cap() == max,
            forall|t: StoryType| #[trigger] r.doc().spec_ids(t) == Seq::<usize>::empty(),
    {
        let storage = SaveData::new(String::from_str("read_history"), ReadHistoryData::empty());
        ReadHistory { storage, max }
    }

    /// Records `item_id` as read for `story_type`. If the topic's set is at
    /// or above the cap beforehand, the lowest recorded id is evicted first.
    /// The in-memory mutation itself cannot fail; persisting the new
    /// document is the embedding program's step.
    pub fn add_read_item(&mut self, story_type: StoryType, item_id: usize) -> (r: Result<
        (),
        StorageError,
    >)
        requires
            old(self).wf(),
        ensures
            r is Ok,
            final(self).wf(),
            final(self).cap() == old(self).cap(),
            final(self).doc().spec_ids(story_type) == spec_add_read(
                old(self).doc().spec_ids(story_type),
                item_id,
                old(self).cap() as int,
            ),
            forall|t: StoryType|
                t != story_type ==> #[trigger] final(self).doc().spec_ids(t) == old(
                    self,
                ).doc().spec_ids(t),
    {
        let items: &mut Vec<usize> = match story_type {
            StoryType::Top => &mut self.storage.data.top,
            StoryType::New => &mut self.storage.data.new,
            StoryType::Show => &mut self.storage.data.show,
            StoryType::Best => &mut self.storage.data.best,
            StoryType::Jobs => &mut self.storage.data.jobs,
        };
        if items.len() >= self.max && items.len() > 0 {
            items.remove(0);
            proof {
                assert(items@ =~= spec_evict(old(self).doc().spec_ids(story_type), self.max as int));
            }
        }
        insert_sorted(items, item_id);
        Result::Ok(())
    }

    /// Whether `item_id` is recorded as read for `story_type`; a pure read
    /// against the in-memory document.
    pub fn id_is_readed(&self, story_type: StoryType, item_id: usize) -> (r: bool)
        ensures
            r == self.spec_is_read(story_type, item_id),
    {
        let items: &Vec<usize> = match story_type {
            StoryType::Top => &self.storage.data.top,
            StoryType::New => &self.storage.data.new,
            StoryType::Show => &self.storage.data.show,
            StoryType::Best => &self.storage.data.best,
            StoryType::Jobs => &self.storage.data.jobs,
        };
        let mut i: usize = 0;
        while i < items.len()
            invariant
                i <= items@.len(),
                items@ == self.doc().spec_ids(story_type),
                forall|k: int| 0 <= k < i ==> items@[k] != item_id,
            decreases items@.len() - i,
        {
            if items[i] == item_id {
                return true;
            }
            i += 1;
        }
        false
    }

    /// Forgets everything recorded, for every topic.
    pub fn remove(&mut self) -> (r: Result<(), StorageError>)
        ensures
            r is Ok,
            final(self).wf(),
            final(self).cap() == old(self).cap(),
            forall|t: StoryType| #[trigger] final(self).doc().spec_ids(t) == Seq::<usize>::empty(),
    {
        self.storage.data = ReadHistoryData::empty();
        Result::Ok(())
    }

    /// A copy of the current document, for persisting.
    pub fn snapshot(&self) -> (r: ReadHistoryData)
        ensures
            forall|t: StoryType| #[trigger] r.spec_ids(t) == self.doc().spec_ids(t),
    {
        self.storage.data.clone()
    }

    /// Replaces the document wholesale, as after a reload from disk.
    pub fn restore(&mut self, doc: ReadHistoryData)
        requires
            doc.wf(),
        ensures
            final(self).wf(),
            final(self).cap() == old(self).cap(),
            final(self).doc() == doc,
    {
        self.storage.data = doc;
    }
}

} // verus!
