//! The fetch orchestrator: turns the UI's current selection into fetch
//! directives. A repeated selection is debounced; a new selection cancels
//! the in-flight task of its lane and carries a fresh generation number, and
//! a publish is allowed only under the newest generation, so only the newest selection's
//! data is ever published. The embedding loop performs the fetches and the
//! sleeps; every decision is made here.

use vstd::prelude::*;

use crate::api_url::StoryType;
use crate::get_items::ItemResponse;

verus! {

/// A selection request from the UI: a story topic, or an explicit set of
/// item ids (a comment root set).
#[derive(Debug)]
pub enum AppAction {
    Story(StoryType),
    Items(Vec<usize>),
}

/// A published result: the newest topic item list, or one materialized
/// comment tree. `None` is the explicit "no data" value.
#[derive(Debug)]
pub enum AppData {
    Story(Option<Vec<ItemResponse>>),
    Comment(Option<ItemResponse>),
}

/// What the embedding loop must do for one selection request.
#[derive(Debug)]
pub enum Directive {
    /// Same selection as last time: do nothing now, poll again after the
    /// debounce interval.
    Debounce,
    /// Cancel the in-flight topic fetch, if any, and fetch this topic's id
    /// list and items; publications of that task carry `generation`.
    FetchTopic { topic: StoryType, generation: u64 },
    /// Cancel the in-flight item-set fetch, if any, and fetch these items;
    /// publications of that task carry `generation`.
    FetchItems { ids: Vec<usize>, generation: u64 },
    /// The new selection is an empty id set: publish the explicit
    /// "no items" result immediately under `generation`.
    NoItems { generation: u64 },
}

/// The orchestrator's state: the last selection of each lane (topics, and
/// explicit id sets) and the generation of each lane's newest task.
pub struct Orchestrator {
    last_topic: Option<StoryType>,
    last_items: Option<Vec<usize>>,
    topic_gen: u64,
    items_gen: u64,
}

impl Orchestrator {
    pub closed spec fn last_topic(self) -> Option<StoryType> {
        self.last_topic
    }

    pub closed spec fn last_items(self) -> Option<Seq<usize>> {
        match self.last_items {
            Option::None => Option::None,
            Option::Some(v) => Option::Some(v@),
        }
    }

    /// The generation of the newest topic fetch task.
    pub closed spec fn topic_gen(self) -> u64 {
        self.topic_gen
    }

    /// The generation of the newest item-set fetch task.
    pub closed spec fn items_gen(self) -> u64 {
        self.items_gen
    }

    /// A topic task may publish only while its generation is the newest.
    pub open spec fn spec_may_publish_topic(self, generation: u64) -> bool {
        generation == self.topic_gen()
    }

    /// An item-set task may publish only while its generation is the newest.
    pub open spec fn spec_may_publish_items(self, generation: u64) -> bool {
        generation == self.items_gen()
    }

    /// No selection seen yet; generations start at zero.
    pub fn new() -> (r: Self)
        ensures
            r.last_topic() is None,
            r.last_items() is None,
            r.topic_gen() == 0,
            r.items_gen() == 0,
    {
        Orchestrator { last_topic: Option::None, last_items: Option::None, topic_gen: 0, items_gen: 0 }
    }

    /// Decides what to do for one selection request. A selection equal to
    /// the lane's last one is debounced and changes nothing. A new one
    /// becomes the lane's last selection, bumps the lane's generation, and
    /// yields the fetch directive for exactly that selection.
    pub fn on_action(&mut self, action: AppAction) -> (d: Directive)
        requires
            old(self).topic_gen() < u64::MAX,
            old(self).items_gen() < u64::MAX,
        ensures
            match action {
                AppAction::Story(t) => {
                    if old(self).last_topic() == Option::Some(t) {
                        &&& d is Debounce
                        &&& *final(self) == *old(self)
                    } else {
                        &&& final(self).last_topic() == Option::Some(t)
                        &&& final(self).topic_gen() == old(self).topic_gen() + 1
                        &&& final(self).last_items() == old(self).last_items()
                        &&& final(self).items_gen() == old(self).items_gen()
                        &&& d == (Directive::FetchTopic {
                            topic: t,
                            generation: (old(self).topic_gen() + 1) as u64,
                        })
                    }
                },
                AppAction::Items(ids) => {
                    if old(self).last_items() == Option::Some(ids@) {
                        &&& d is Debounce
                        &&& *final(self) == *old(self)
                    } else {
                        &&& final(self).last_items() == Option::Some(ids@)
                        &&& final(self).items_gen() == old(self).items_gen() + 1
                        &&& final(self).last_topic() == old(self).last_topic()
                        &&& final(self).topic_gen() == old(self).topic_gen()
                        &&& if ids@.len() == 0 {
                            d == (Directive::NoItems {
                                generation: (old(self).items_gen() + 1) as u64,
                            })
                        } else {
                            d matches Directive::FetchItems { ids: out, generation }
                                && out@ == ids@ && generation == old(self).items_gen() + 1
                        }
                    }
                },
            },
    {
        match action {
            AppAction::Story(topic) => {
                let same = match &self.last_topic {
                    Option::Some(t) => *t == topic,
                    Option::None => false,
                };
                if same {
                    return Directive::Debounce;
                }
                self.last_topic = Option::Some(topic);
                self.topic_gen = self.topic_gen + 1;
                Directive::FetchTopic { topic, generation: self.topic_gen }
            },
            AppAction::Items(ids) => {
                let same = match &self.last_items {
                    Option::Some(last) => ids_eq(last, &ids),
                    Option::None => false,
                };
                if same {
                    return Directive::Debounce;
                }
                let empty = ids.len() == 0;
                self.last_items = Option::Some(ids);
                self.items_gen = self.items_gen + 1;
                if empty {
                    Directive::NoItems { generation: self.items_gen }
                } else {
                    let out = match &self.last_items {
                        Option::Some(v) => crate::get_items::clone_ids(v),
                        Option::None => Vec::new(),
                    };
                    Directive::FetchItems { ids: out, generation: self.items_gen }
                }
            },
        }
    }

    /// The generation of the newest topic fetch task.
    pub fn topic_generation(&self) -> (r: u64)
        ensures
            r == self.topic_gen(),
    {
        self.topic_gen
    }

    /// The generation of the newest item-set fetch task.
    pub fn items_generation(&self) -> (r: u64)
        ensures
            r == self.items_gen(),
    {
        self.items_gen
    }

    /// Checked by a topic task immediately before each publish.
    pub fn may_publish_topic(&self, generation: u64) -> (r: bool)
        ensures
            r == self.spec_may_publish_topic(generation),
    {
        generation == self.topic_gen
    }

    /// Checked by an item-set task immediately before each publish.
    pub fn may_publish_items(&self, generation: u64) -> (r: bool)
        ensures
            r == self.spec_may_publish_items(generation),
    {
        generation == self.items_gen
    }
}

fn ids_eq(a: &Vec<usize>, b: &Vec<usize>) -> (r: bool)
    ensures
        r == (a@ == b@),
{
    if a.len() != b.len() {
        return false;
    }
    let mut i: usize = 0;
    while i < a.len()
        invariant
            i <= a@.len(),
            a@.len() == b@.len(),
            forall|k: int| 0 <= k < i ==> a@[k] == b@[k],
        decreases a@.len() - i,
    {
        if a[i] != b[i] {
            proof {
                assert(a@[i as int] != b@[i as int]);
            }
            return false;
        }
        i += 1;
    }
    proof {
        assert(a@ =~= b@);
    }
    true
}

/// One topic-selection step of the orchestrator, as `on_action` ensures it:
/// a repeated topic changes nothing, a new topic becomes the last selection
/// and bumps the topic generation.
pub open spec fn story_step(pre: Orchestrator, post: Orchestrator, t: StoryType) -> bool {
    if pre.last_topic() == Option::Some(t) {
        post == pre
    } else {
        &&& post.last_topic() == Option::Some(t)
        &&& post.topic_gen() == pre.topic_gen() + 1
        &&& post.last_items() == pre.last_items()
        &&& post.items_gen() == pre.items_gen()
    }
}

/// One topic selection followed by a different one, before the first fetch
/// finished: the first task's generation no longer passes the publication
/// check, the newer task's does, so the first selection's result can never
/// overwrite the newer one's.
pub proof fn lemma_latest_selection_wins(
    s0: Orchestrator,
    s1: Orchestrator,
    s2: Orchestrator,
    t1: StoryType,
    t2: StoryType,
)
    requires
        t1 != t2,
        s0.last_topic() != Option::Some(t1),
        story_step(s0, s1, t1),
        story_step(s1, s2, t2),
    ensures
        !s2.spec_may_publish_topic(s1.topic_gen()),
        s2.spec_may_publish_topic(s2.topic_gen()),
{
}

/// The successful results, kept in their original order; failed fetches are
/// dropped silently.
pub open spec fn spec_collect(results: Seq<Option<ItemResponse>>) -> Seq<ItemResponse>
    decreases results.len(),
{
    if results.len() == 0 {
        Seq::empty()
    } else {
        (match results[0] {
            Option::Some(item) => seq![item],
            Option::None => Seq::empty(),
        }) + spec_collect(results.drop_first())
    }
}

/// Keeps the items that were fetched successfully, in the order their
/// requests were issued; failures are simply omitted.
pub fn collect_fetched(results: Vec<Option<ItemResponse>>) -> (r: Vec<ItemResponse>)
    ensures
        r@ == spec_collect(results@),
{
    let mut rest = results;
    let mut out: Vec<ItemResponse> = Vec::new();
    while rest.len() > 0
        invariant
            out@ + spec_collect(rest@) == spec_collect(results@),
        decreases rest@.len(),
    {
        let ghost pre = rest@;
        let first = rest.remove(0);
        proof {
            assert(rest@ =~= pre.drop_first());
        }
        match first {
            Option::Some(item) => {
                out.push(item);
                proof {
                    assert(out@ + spec_collect(rest@) =~= spec_collect(results@));
                }
            },
            Option::None => {
                proof {
                    assert(out@ + spec_collect(rest@) =~= spec_collect(results@));
                }
            },
        }
    }
    proof {
        assert(out@ =~= spec_collect(results@));
    }
    out
}

/// The materialization step of the comment-tree fetch for one node, given
/// the outcomes of fetching every child id in `kids` order: a node without
/// `kids` gets `children = None`, never an empty list; a node with `kids`
/// gets exactly the successfully fetched children, failures omitted.
pub fn attach_fetched_children(item: ItemResponse, fetched: Vec<Option<ItemResponse>>) -> (r:
    ItemResponse)
    ensures
        item.kids is None ==> r == (ItemResponse { children: Option::None, ..item }),
        item.kids is Some ==> {
            &&& r == (ItemResponse { children: Option::Some(r.children->Some_0), ..item })
            &&& r.children matches Some(cs) && cs@ == spec_collect(fetched@)
        },
{
    let mut out = item;
    if out.kids.is_some() {
        out.children = Option::Some(collect_fetched(fetched));
    } else {
        out.children = Option::None;
    }
    out
}

} // verus!
