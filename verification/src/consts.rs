//! Absolute lookup URLs against the remote read API (an older flavour of the
//! paths in `api_url`, with the base address and a `.json` suffix baked in).

use vstd::prelude::*;
use vstd::string::StringExecFns;

use crate::text::spec_decimal;
use crate::text::usize_to_string;

verus! {

/// The five remote story categories.
pub enum StoryType {
    Top,
    New,
    Show,
    Best,
    Jobs,
}

/// The absolute URL of the id-list lookup for a story category.
pub open spec fn spec_stories_url(endpoint: StoryType) -> Seq<char> {
    "https://hacker-news.firebaseio.com/v0/"@ + match endpoint {
        StoryType::Top => "topstories.json"@,
        StoryType::New => "newstories.json"@,
        StoryType::Show => "showstories.json"@,
        StoryType::Best => "beststories.json"@,
        StoryType::Jobs => "jobstories.json"@,
    }
}

pub fn get_stories_url(endpoint: StoryType) -> (r: String)
    ensures
        r@ == spec_stories_url(endpoint),
{
    let base = String::from_str("https://hacker-news.firebaseio.com/v0/");
    match endpoint {
        StoryType::Top => base.concat("topstories.json"),
        StoryType::New => base.concat("newstories.json"),
        StoryType::Show => base.concat("showstories.json"),
        StoryType::Best => base.concat("beststories.json"),
        StoryType::Jobs => base.concat("jobstories.json"),
    }
}

/// The absolute URL of the lookup of one item: `<base>item/<id>.json`.
pub open spec fn spec_item_url(item_id: nat) -> Seq<char> {
    "https://hacker-news.firebaseio.com/v0/"@ + "item/"@ + spec_decimal(item_id) + ".json"@
}

pub fn get_item_url(item_id: usize) -> (r: String)
    ensures
        r@ == spec_item_url(item_id as nat),
{
    let num = usize_to_string(item_id);
    let url = String::from_str("https://hacker-news.firebaseio.com/v0/").concat("item/").concat(
        num.as_str(),
    ).concat(".json");
    url
}

} // verus!
