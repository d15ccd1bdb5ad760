//! The id-list lookup of a story category.

use vstd::prelude::*;

use crate::cache::CacheItemType;
use crate::cache::FetchError;

verus! {

/// The id list that a story-category lookup returns.
pub type StoriesResponse = Vec<usize>;

/// Extracts the id list from a cache value; any other payload shape is a
/// shape-mismatch error, as for a direct list lookup.
pub fn stories_from_response(response: CacheItemType) -> (r: Result<StoriesResponse, FetchError>)
    ensures
        match response {
            CacheItemType::Story(ids) => r matches Ok(out) && out@ == ids@,
            _ => r matches Err(e) && e == FetchError::Serialize,
        },
{
    if let CacheItemType::Story(res) = response {
        Result::Ok(res)
    } else {
        Result::Err(FetchError::Serialize)
    }
}

} // verus!
