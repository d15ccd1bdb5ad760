//! Story categories and the relative lookup paths of the remote read API.

use vstd::prelude::*;
use vstd::string::StringExecFns;

use crate::text::spec_decimal;
use crate::text::usize_to_string;

verus! {

/// The five remote story categories.
#[derive(Clone, Copy, PartialEq, Eq, Structural, Debug)]
pub enum StoryType {
    Top,
    New,
    Show,
    Best,
    Jobs,
}

impl StoryType {
    /// The successor in the fixed topic cycle
    /// Show -> Best -> Jobs -> Top -> New -> Show.
    pub open spec fn spec_next(self) -> StoryType {
        match self {
            StoryType::Show => StoryType::Best,
            StoryType::Best => StoryType::Jobs,
            StoryType::Jobs => StoryType::Top,
            StoryType::Top => StoryType::New,
            StoryType::New => StoryType::Show,
        }
    }

    /// The predecessor in the fixed topic cycle.
    pub open spec fn spec_prev(self) -> StoryType {
        match self {
            StoryType::Show => StoryType::New,
            StoryType::New => StoryType::Top,
            StoryType::Top => StoryType::Jobs,
            StoryType::Jobs => StoryType::Best,
            StoryType::Best => StoryType::Show,
        }
    }

    /// The human-readable label of the category.
    pub open spec fn spec_label(self) -> Seq<char> {
        match self {
            StoryType::Top => "Top Stories"@,
            StoryType::New => "New Stories"@,
            StoryType::Show => "Show Stories"@,
            StoryType::Best => "Best Stories"@,
            StoryType::Jobs => "Job Stories"@,
        }
    }

    pub fn to_string(&self) -> (r: String)
        ensures
            r@ == self.spec_label(),
    {
        match self {
            StoryType::Top => String::from_str("Top Stories"),
            StoryType::New => String::from_str("New Stories"),
            StoryType::Show => String::from_str("Show Stories"),
            StoryType::Best => String::from_str("Best Stories"),
            StoryType::Jobs => String::from_str("Job Stories"),
        }
    }
}

/// Going around the five-element topic cycle forwards and then backwards
/// (or backwards and then forwards) returns to the starting topic.
pub proof fn lemma_topic_cycle(t: StoryType)
    ensures
        t.spec_next().spec_prev() == t,
        t.spec_prev().spec_next() == t,
{
}

/// The relative path of the id-list lookup for a story category.
pub open spec fn spec_stories_url(endpoint: StoryType) -> Seq<char> {
    match endpoint {
        StoryType::Top => "topstories"@,
        StoryType::New => "newstories"@,
        StoryType::Show => "showstories"@,
        StoryType::Best => "beststories"@,
        StoryType::Jobs => "jobstories"@,
    }
}

pub fn get_stories_url(endpoint: StoryType) -> (r: String)
    ensures
        r@ == spec_stories_url(endpoint),
{
    match endpoint {
        StoryType::Top => String::from_str("topstories"),
        StoryType::New => String::from_str("newstories"),
        StoryType::Show => String::from_str("showstories"),
        StoryType::Best => String::from_str("beststories"),
        StoryType::Jobs => String::from_str("jobstories"),
    }
}

/// The relative path of the lookup of one item: `item/<id>` in decimal.
pub open spec fn spec_item_url(item_id: nat) -> Seq<char> {
    "item/"@ + spec_decimal(item_id)
}

pub fn get_item_url(item_id: usize) -> (r: String)
    ensures
        r@ == spec_item_url(item_id as nat),
{
    let num = usize_to_string(item_id);
    String::from_str("item/").concat(num.as_str())
}

/// The relative path of the lookup of one user: `user/<name>`.
pub open spec fn spec_user_url(username: Seq<char>) -> Seq<char> {
    "user/"@ + username
}

pub fn get_user_url(username: &str) -> (r: String)
    ensures
        r@ == spec_user_url(username@),
{
    String::from_str("user/").concat(username)
}

} // verus!
