use vstd::prelude::*;
use crate::errors::MyError;
use crate::pubkey::{derived_view, spec_try_find_program_address, Pubkey};
use crate::state::{LaunchPool, LaunchPoolState, Treasurer, UserPool};

verus! {

/// What a claim works on: the program that owns the pool, the pool's record and address, the
/// mint of the token sold, the address of the treasurer presented, and the position of the
/// buyer who claims.
#[derive(Clone, Copy, Debug, PartialEq, Eq)]
pub struct ClaimToken {
    pub program_id: Pubkey,
    pub launch_pool: LaunchPool,
    /// The address at which `launch_pool` is kept.
    pub launch_pool_key: Pubkey,
    pub token_mint: Pubkey,
    /// The address of the treasurer that is asked to release the tokens.
    pub treasurer: Pubkey,
    pub user_pool: UserPool,
}

/// What a claim that was accepted asks of its caller: to move `amount` token units from
/// the treasury to the buyer, signed for the treasurer with the treasurer's seeds and
/// `treasurer_bump`. The claim stands only if that transfer is made.
#[derive(Clone, Copy, Debug, PartialEq, Eq)]
pub struct Release {
    pub amount: u64,
    pub treasurer_bump: u8,
}

impl ClaimToken {
    /// The treasurer's address and bump seed as they are derived for the pool and mint of
    /// these accounts.
    pub open spec fn spec_derived_treasurer(&self) -> Option<(Seq<u8>, u8)> {
        spec_try_find_program_address(
            Treasurer::spec_seeds(self.launch_pool_key, self.token_mint),
            self.program_id@,
        )
    }

    /// The tokens that a claim at time `now` releases, or the reason for which the claim is
    /// refused, where `derived` is the treasurer's address as derived for the pool and mint.
    /// The tests are made in this order and the first that fails decides: the treasurer
    /// presented is the derived one; the pool is completed; the unlock date is reached; the
    /// buyer has bought something; something of it is left to claim.
    pub open spec fn spec_check(&self, derived: Option<(Seq<u8>, u8)>, now: i64) -> Result<Release, MyError> {
        let position = self.user_pool;
        match derived {
            None => Err(MyError::InvalidTreasurer),
            Some((address, bump)) => if address != self.treasurer@ {
                Err(MyError::InvalidTreasurer)
            } else if self.launch_pool.status != LaunchPoolState::Completed {
                Err(MyError::InvalidLaunchPoolStatus)
            } else if self.launch_pool.unlock_date > now {
                Err(MyError::TimeLockNotExpired)
            } else if position.amount == 0 {
                Err(MyError::InvalidAmount)
            } else if position.claimed > position.amount {
                Err(MyError::Overflow)
            } else if position.claimed == position.amount {
                Err(MyError::InvalidAmount)
            } else {
                Ok(Release { amount: (position.amount - position.claimed) as u64, treasurer_bump: bump })
            },
        }
    }

    /// The accounts once everything bought was claimed.
    pub open spec fn spec_claimed(&self) -> ClaimToken {
        ClaimToken {
            user_pool: UserPool { claimed: self.user_pool.amount, ..self.user_pool },
            ..*self
        }
    }
}

/// What `claim` does: the accounts as it leaves them, and what it returns.
pub open spec fn spec_claim(ctx: ClaimToken, derived: Option<(Seq<u8>, u8)>, now: i64) -> (ClaimToken, Result<Release, MyError>) {
    match ctx.spec_check(derived, now) {
        Err(refusal) => (ctx, Err(refusal)),
        Ok(release) => (ctx.spec_claimed(), Ok(release)),
    }
}

/// What `handler` does: the accounts as it leaves them, and what it returns.
pub open spec fn spec_handler(ctx: ClaimToken, now: i64) -> (ClaimToken, Result<Release, MyError>) {
    spec_claim(ctx, ctx.spec_derived_treasurer(), now)
}

/// Claims, at time `now`, all that the buyer has bought and not yet claimed, where `derived`
/// is the treasurer's address and bump seed as derived for the pool and mint.
///
/// Where the claim is accepted, the position counts everything bought as claimed, and the
/// release is handed to the caller. Where it is refused, nothing has changed. The pool is
/// never changed.
pub fn claim(ctx: &mut ClaimToken, derived: Option<(Pubkey, u8)>, now: i64) -> (outcome: Result<Release, MyError>)
    ensures
        (*final(ctx), outcome) == spec_claim(*old(ctx), derived_view(derived), now),
        outcome is Ok ==> old(ctx).launch_pool.status == LaunchPoolState::Completed && now >= old(
            ctx,
        ).launch_pool.unlock_date,
        outcome matches Ok(release) ==> release.amount == old(ctx).user_pool.spec_claimable()
            && release.amount > 0 && final(ctx).user_pool.claimed == final(ctx).user_pool.amount,
        old(ctx).user_pool.well_formed() ==> final(ctx).user_pool.well_formed(),
        final(ctx).launch_pool == old(ctx).launch_pool,
{
    let treasurer_bump = match derived {
        Some((address, bump)) => {
            proof {
                Pubkey::lemma_view_injective(address, ctx.treasurer);
            }
            if address != ctx.treasurer {
                return Err(MyError::InvalidTreasurer);
            }
            bump
        },
        None => {
            return Err(MyError::InvalidTreasurer);
        },
    };
    if ctx.launch_pool.status != LaunchPoolState::Completed {
        return Err(MyError::InvalidLaunchPoolStatus);
    }
    if ctx.launch_pool.unlock_date > now {
        return Err(MyError::TimeLockNotExpired);
    }
    if ctx.user_pool.amount == 0 {
        return Err(MyError::InvalidAmount);
    }
    let amount = match ctx.user_pool.amount.checked_sub(ctx.user_pool.claimed) {
        Some(amount) => amount,
        None => {
            return Err(MyError::Overflow);
        },
    };
    if amount == 0 {
        return Err(MyError::InvalidAmount);
    }
    ctx.user_pool.claimed = ctx.user_pool.claimed + amount;
    Ok(Release { amount, treasurer_bump })
}

/// Claims, at time `now`, all that the buyer has bought and not yet claimed: derives the
/// treasurer's address for the pool and mint of `ctx`, and goes on as `claim` does.
pub fn handler(ctx: &mut ClaimToken, now: i64) -> (outcome: Result<Release, MyError>)
    ensures
        (*final(ctx), outcome) == spec_handler(*old(ctx), now),
        outcome is Ok ==> old(ctx).launch_pool.status == LaunchPoolState::Completed && now >= old(
            ctx,
        ).launch_pool.unlock_date,
        old(ctx).user_pool.well_formed() ==> final(ctx).user_pool.well_formed(),
        final(ctx).launch_pool == old(ctx).launch_pool,
{
    let derived = Treasurer::find_address(&ctx.launch_pool_key, &ctx.token_mint, &ctx.program_id);
    claim(ctx, derived, now)
}

} // verus!
