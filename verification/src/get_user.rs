//! The user record of the remote feed.

use vstd::prelude::*;

verus! {

/// A user of the remote feed.
#[derive(Debug)]
pub struct User {
    pub id: String,
    pub created: u64,
    pub karma: u64,
    pub about: Option<String>,
    pub submitted: Vec<u64>,
}

/// Content equality of two optional strings.
pub open spec fn opt_str_eq(a: Option<String>, b: Option<String>) -> bool {
    match (a, b) {
        (Option::None, Option::None) => true,
        (Option::Some(x), Option::Some(y)) => x@ == y@,
        _ => false,
    }
}

/// Content equality of two user records.
pub open spec fn user_eq(a: User, b: User) -> bool {
    &&& a.id@ == b.id@
    &&& a.created == b.created
    &&& a.karma == b.karma
    &&& opt_str_eq(a.about, b.about)
    &&& a.submitted@ == b.submitted@
}

/// Extracts the user from a cache value; any other payload shape is a
/// shape-mismatch error, as for a direct user lookup.
pub fn user_from_response(response: crate::cache::CacheItemType) -> (r: Result<
    User,
    crate::cache::FetchError,
>)
    ensures
        match response {
            crate::cache::CacheItemType::User(user) => r == Ok::<User, crate::cache::FetchError>(
                user,
            ),
            _ => r == Err::<User, crate::cache::FetchError>(crate::cache::FetchError::Serialize),
        },
{
    if let crate::cache::CacheItemType::User(user) = response {
        Result::Ok(user)
    } else {
        Result::Err(crate::cache::FetchError::Serialize)
    }
}

pub fn clone_opt_string(a: &Option<String>) -> (r: Option<String>)
    ensures
        opt_str_eq(*a, r),
{
    match a {
        Option::None => Option::None,
        Option::Some(s) => Option::Some(s.clone()),
    }
}

impl Clone for User {
    fn clone(&self) -> (r: Self)
        ensures
            user_eq(*self, r),
    {
        let submitted = self.submitted.clone();
        proof {
            assert(submitted@ =~= self.submitted@);
        }
        User {
            id: self.id.clone(),
            created: self.created,
            karma: self.karma,
            about: clone_opt_string(&self.about),
            submitted,
        }
    }
}

} // verus!
