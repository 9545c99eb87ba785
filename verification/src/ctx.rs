//! The authenticated identity resolved for one request.

use vstd::prelude::*;

verus! {

/// The resolved authenticated identity for a single request: just the user id
/// decoded from the credential token. Created fresh per request and never
/// shared across requests.
#[derive(Debug, Clone, Copy, PartialEq, Eq)]
pub struct Ctx {
    user_id: u64,
}

impl Ctx {
    /// The user id this context stands for, for use in contracts.
    pub closed spec fn spec_user_id(&self) -> u64 {
        self.user_id
    }

    pub fn new(user_id: u64) -> (r: Ctx)
        ensures
            r.spec_user_id() == user_id,
    {
        Ctx { user_id }
    }

    pub fn user_id(&self) -> (r: u64)
        ensures
            r == self.spec_user_id(),
    {
        self.user_id
    }
}

} // verus!
