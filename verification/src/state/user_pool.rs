use vstd::prelude::*;
use crate::constants::{DISCRIMINATOR_SIZE, U64_SIZE};

verus! {

/// What one buyer has bought, paid and claimed in one pool.
#[derive(Clone, Copy, Debug, PartialEq, Eq)]
pub struct UserPool {
    /// Token units bought so far.
    pub amount: u64,
    /// Currency units paid so far.
    pub currency_amount: u64,
    /// Token units claimed so far.
    pub claimed: u64,
}

impl UserPool {
    /// Bytes that a stored position takes.
    pub const LEN: usize = DISCRIMINATOR_SIZE + U64_SIZE + U64_SIZE + U64_SIZE;

    /// A buyer has never claimed more than was bought.
    pub open spec fn well_formed(&self) -> bool {
        self.claimed <= self.amount
    }

    /// The token units bought and not yet claimed.
    pub open spec fn spec_claimable(&self) -> int {
        self.amount - self.claimed
    }
}

impl Default for UserPool {
    /// The position of a buyer who has bought nothing yet.
    fn default() -> (position: UserPool)
        ensures
            position == (UserPool { amount: 0, currency_amount: 0, claimed: 0 }),
    {
        UserPool { amount: 0, currency_amount: 0, claimed: 0 }
    }
}

} // verus!
