use vstd::prelude::*;
use crate::error::FederationError;

verus! {

/// Per-request ceiling on remote fetches. Created fresh for every request and
/// threaded by `&mut` through every resolver call.
pub struct FetchBudget {
    pub used: u32,
    pub limit: u32,
}

impl FetchBudget {
    pub open spec fn wf(&self) -> bool {
        self.used <= self.limit
    }

    pub open spec fn remaining_spec(&self) -> int {
        self.limit - self.used
    }

    /// A fresh budget that allows `limit` remote fetches.
    pub fn new(limit: u32) -> (r: FetchBudget)
        ensures
            r.used == 0,
            r.limit == limit,
            r.wf(),
    {
        FetchBudget { used: 0, limit }
    }

    /// Number of remote fetches still allowed.
    pub fn remaining(&self) -> (r: u32)
        requires
            self.wf(),
        ensures
            r == self.remaining_spec(),
    {
        self.limit - self.used
    }

    /// Charges one remote fetch, or refuses when the budget is spent.
    pub fn try_charge(&mut self) -> (r: Result<(), FederationError>)
        requires
            old(self).wf(),
        ensures
            final(self).wf(),
            final(self).limit == old(self).limit,
            old(self).used < old(self).limit ==> r is Ok && final(self).used == old(self).used + 1,
            old(self).used >= old(self).limit ==> r == Err::<(), FederationError>(
                FederationError::FetchLimitExceeded,
            ) && final(self).used == old(self).used,
    {
        if self.used < self.limit {
            self.used = self.used + 1;
            Ok(())
        } else {
            Err(FederationError::FetchLimitExceeded)
        }
    }
}

} // verus!
