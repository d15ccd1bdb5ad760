//! The item record of the remote feed: stories, comments, jobs, polls, and
//! their materialized comment subtrees.

use vstd::prelude::*;
use vstd::string::StringExecFns;

verus! {

/// The kind of one content node.
#[derive(Clone, Copy, PartialEq, Eq, Structural, Debug)]
pub enum ItemType {
    Job,
    Story,
    Comment,
    Poll,
    PollOpt,
}

/// One content node of the remote feed.
///
/// `kids` is the list of child ids as the remote API reports it; `children`
/// is the materialized list of child nodes and is populated only by the
/// comment-tree fetch.
#[derive(Debug)]
pub struct ItemResponse {
    pub id: usize,
    pub deleted: Option<bool>,
    pub kind: ItemType,
    pub by: Option<String>,
    pub time: usize,
    pub text: Option<String>,
    pub dead: Option<bool>,
    pub parent: Option<usize>,
    pub poll: Option<usize>,
    pub kids: Option<Vec<usize>>,
    pub children: Option<Vec<ItemResponse>>,
    pub url: Option<String>,
    pub score: Option<usize>,
    pub title: Option<String>,
    pub parts: Option<Vec<usize>>,
    pub descendants: Option<usize>,
}

/// Content equality of two optional strings.
pub open spec fn opt_str_eq(a: Option<String>, b: Option<String>) -> bool {
    crate::get_user::opt_str_eq(a, b)
}

/// Content equality of two optional id lists.
pub open spec fn opt_ids_eq(a: Option<Vec<usize>>, b: Option<Vec<usize>>) -> bool {
    match (a, b) {
        (Option::None, Option::None) => true,
        (Option::Some(x), Option::Some(y)) => x@ == y@,
        _ => false,
    }
}

/// Content equality of two items, component for component, recursing into the
/// materialized children.
pub open spec fn deep_eq(a: ItemResponse, b: ItemResponse) -> bool
    decreases a,
{
    &&& a.id == b.id
    &&& a.deleted == b.deleted
    &&& a.kind == b.kind
    &&& opt_str_eq(a.by, b.by)
    &&& a.time == b.time
    &&& opt_str_eq(a.text, b.text)
    &&& a.dead == b.dead
    &&& a.parent == b.parent
    &&& a.poll == b.poll
    &&& opt_ids_eq(a.kids, b.kids)
    &&& match (a.children, b.children) {
        (Option::None, Option::None) => true,
        (Option::Some(x), Option::Some(y)) => {
            &&& x@.len() == y@.len()
            &&& forall|i: int| 0 <= i < x@.len() ==> deep_eq(#[trigger] x@[i], y@[i])
        },
        _ => false,
    }
    &&& opt_str_eq(a.url, b.url)
    &&& a.score == b.score
    &&& opt_str_eq(a.title, b.title)
    &&& opt_ids_eq(a.parts, b.parts)
    &&& a.descendants == b.descendants
}

fn opt_string_eq(a: &Option<String>, b: &Option<String>) -> (r: bool)
    ensures
        r == opt_str_eq(*a, *b),
{
    match (a, b) {
        (Option::None, Option::None) => true,
        (Option::Some(x), Option::Some(y)) => crate::text::str_eq(x.as_str(), y.as_str()),
        _ => false,
    }
}

fn opt_usize_eq(a: &Option<usize>, b: &Option<usize>) -> (r: bool)
    ensures
        r == (*a == *b),
{
    match (a, b) {
        (Option::None, Option::None) => true,
        (Option::Some(x), Option::Some(y)) => x == y,
        _ => false,
    }
}

fn opt_bool_eq(a: &Option<bool>, b: &Option<bool>) -> (r: bool)
    ensures
        r == (*a == *b),
{
    match (a, b) {
        (Option::None, Option::None) => true,
        (Option::Some(x), Option::Some(y)) => x == y,
        _ => false,
    }
}

fn opt_vec_usize_eq(a: &Option<Vec<usize>>, b: &Option<Vec<usize>>) -> (r: bool)
    ensures
        r == opt_ids_eq(*a, *b),
{
    match (a, b) {
        (Option::None, Option::None) => true,
        (Option::Some(x), Option::Some(y)) => {
            if x.len() != y.len() {
                return false;
            }
            let mut i: usize = 0;
            while i < x.len()
                invariant
                    i <= x@.len(),
                    x@.len() == y@.len(),
                    *a == Option::Some(*x),
                    *b == Option::Some(*y),
                    forall|k: int| 0 <= k < i ==> x@[k] == y@[k],
                decreases x@.len() - i,
            {
                if x[i] != y[i] {
                    proof {
                        assert(x@[i as int] != y@[i as int]);
                        assert(x@ != y@);
                    }
                    return false;
                }
                i += 1;
            }
            proof {
                assert(x@ =~= y@);
            }
            true
        },
        _ => false,
    }
}

/// Decides content equality of two items.
pub fn item_eq(a: &ItemResponse, b: &ItemResponse) -> (r: bool)
    ensures
        r == deep_eq(*a, *b),
    decreases *a,
{
    if a.id != b.id {
        return false;
    }
    if !opt_bool_eq(&a.deleted, &b.deleted) {
        return false;
    }
    if a.kind != b.kind {
        return false;
    }
    if !opt_string_eq(&a.by, &b.by) {
        return false;
    }
    if a.time != b.time {
        return false;
    }
    if !opt_string_eq(&a.text, &b.text) {
        return false;
    }
    if !opt_bool_eq(&a.dead, &b.dead) {
        return false;
    }
    if !opt_usize_eq(&a.parent, &b.parent) {
        return false;
    }
    if !opt_usize_eq(&a.poll, &b.poll) {
        return false;
    }
    if !opt_vec_usize_eq(&a.kids, &b.kids) {
        return false;
    }
    if !opt_string_eq(&a.url, &b.url) {
        return false;
    }
    if !opt_usize_eq(&a.score, &b.score) {
        return false;
    }
    if !opt_string_eq(&a.title, &b.title) {
        return false;
    }
    if !opt_vec_usize_eq(&a.parts, &b.parts) {
        return false;
    }
    if !opt_usize_eq(&a.descendants, &b.descendants) {
        return false;
    }
    match (&a.children, &b.children) {
        (Option::None, Option::None) => true,
        (Option::Some(x), Option::Some(y)) => {
            if x.len() != y.len() {
                return false;
            }
            let mut i: usize = 0;
            while i < x.len()
                invariant
                    i <= x@.len(),
                    x@.len() == y@.len(),
                    *x == a.children->Some_0,
                    a.children is Some,
                    *y == b.children->Some_0,
                    b.children is Some,
                    forall|k: int| 0 <= k < i ==> deep_eq(#[trigger] x@[k], y@[k]),
                decreases x@.len() - i,
            {
                proof {
                    assert(decreases_to!(*a => x@[i as int]));
                }
                if !item_eq(&x[i], &y[i]) {
                    proof {
                        assert(!deep_eq(x@[i as int], y@[i as int]));
                        assert(!deep_eq(*a, *b));
                    }
                    return false;
                }
                i += 1;
            }
            true
        },
        _ => false,
    }
}

/// Extracts the item from a cache value; any other payload shape is a
/// shape-mismatch error, as for a direct item lookup.
pub fn item_from_response(response: crate::cache::CacheItemType) -> (r: Result<
    ItemResponse,
    crate::cache::FetchError,
>)
    ensures
        match response {
            crate::cache::CacheItemType::Item(item) => r == Ok::<
                ItemResponse,
                crate::cache::FetchError,
            >(item),
            _ => r == Err::<ItemResponse, crate::cache::FetchError>(
                crate::cache::FetchError::Serialize,
            ),
        },
{
    if let crate::cache::CacheItemType::Item(item) = response {
        Result::Ok(item)
    } else {
        Result::Err(crate::cache::FetchError::Serialize)
    }
}

/// Clones an id list; the copy holds the same ids.
pub fn clone_ids(v: &Vec<usize>) -> (r: Vec<usize>)
    ensures
        r@ == v@,
{
    let c = v.clone();
    proof {
        assert(c@ =~= v@);
    }
    c
}

/// Clones an optional id list; the copy holds the same ids.
pub fn clone_opt_ids(a: &Option<Vec<usize>>) -> (r: Option<Vec<usize>>)
    ensures
        opt_ids_eq(*a, r),
{
    match a {
        Option::None => Option::None,
        Option::Some(v) => {
            let c = v.clone();
            proof {
                assert(c@ =~= v@);
            }
            Option::Some(c)
        },
    }
}

impl Clone for ItemResponse {
    /// The copy has the same content as the original, recursively.
    fn clone(&self) -> (r: Self)
        ensures
            deep_eq(*self, r),
        decreases *self,
    {
        let children: Option<Vec<ItemResponse>> = match &self.children {
            Option::None => Option::None,
            Option::Some(v) => {
                let mut out: Vec<ItemResponse> = Vec::new();
                let mut i: usize = 0;
                while i < v.len()
                    invariant
                        i <= v@.len(),
                        *v == self.children->Some_0,
                        self.children is Some,
                        out@.len() == i,
                        forall|k: int| 0 <= k < i ==> deep_eq(v@[k], #[trigger] out@[k]),
                    decreases v@.len() - i,
                {
                    proof {
                        assert(decreases_to!(*self => v@[i as int]));
                    }
                    let c = v[i].clone();
                    out.push(c);
                    i += 1;
                }
                Option::Some(out)
            },
        };
        ItemResponse {
            id: self.id,
            deleted: self.deleted,
            kind: self.kind,
            by: crate::get_user::clone_opt_string(&self.by),
            time: self.time,
            text: crate::get_user::clone_opt_string(&self.text),
            dead: self.dead,
            parent: self.parent,
            poll: self.poll,
            kids: clone_opt_ids(&self.kids),
            children,
            url: crate::get_user::clone_opt_string(&self.url),
            score: self.score,
            title: crate::get_user::clone_opt_string(&self.title),
            parts: clone_opt_ids(&self.parts),
            descendants: self.descendants,
        }
    }
}

impl Default for ItemResponse {
    /// A placeholder story by "Linux" with a fixed body and everything else
    /// absent.
    fn default() -> (r: Self)
        ensures
            r.id == 0,
            r.deleted is None,
            r.kind == ItemType::Story,
            r.by matches Some(by) && by@ == "Linux"@,
            r.time == 0,
            r.text matches Some(text) && text@ == "This is a default item"@,
            r.dead is None,
            r.parent is None,
            r.poll is None,
            r.kids is None,
            r.children is None,
            r.url is None,
            r.score is None,
            r.title is None,
            r.parts is None,
            r.descendants is None,
    {
        ItemResponse {
            id: 0,
            deleted: Option::None,
            kind: ItemType::Story,
            by: Option::Some(String::from_str("Linux")),
            time: 0,
            text: Option::Some(String::from_str("This is a default item")),
            dead: Option::None,
            parent: Option::None,
            poll: Option::None,
            kids: Option::None,
            children: Option::None,
            url: Option::None,
            score: Option::None,
            title: Option::None,
            parts: Option::None,
            descendants: Option::None,
        }
    }
}

} // verus!
