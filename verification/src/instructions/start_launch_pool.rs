use vstd::prelude::*;
use crate::errors::MyError;
use crate::pubkey::Pubkey;
use crate::state::{LaunchPool, LaunchPoolState, Treasurer};

verus! {

/// What the start of a pool works on: the pool, the mint of the token brought, the pool's
/// treasurer, and the caller.
#[derive(Clone, Copy, Debug, PartialEq, Eq)]
pub struct StartLaunchPool {
    pub launch_pool: LaunchPool,
    pub token_mint: Pubkey,
    pub treasurer: Treasurer,
    pub authority: Pubkey,
}

impl StartLaunchPool {
    /// The token units that the start of the pool moves into escrow, or the reason for which
    /// the start is refused. The tests are made in this order and the first that fails
    /// decides: the pool is pending; the caller is its authority; the mint is the pool's.
    pub open spec fn spec_check(&self) -> Result<u64, MyError> {
        if self.launch_pool.status != LaunchPoolState::Pending {
            Err(MyError::InvalidLaunchPoolStatus)
        } else if self.launch_pool.authority != self.authority {
            Err(MyError::InvalidAuthority)
        } else if self.token_mint != self.launch_pool.token_mint {
            Err(MyError::InvalidTokenMint)
        } else {
            Ok(self.launch_pool.pool_size)
        }
    }

    /// The accounts once the pool was started.
    pub open spec fn spec_started(&self) -> StartLaunchPool {
        StartLaunchPool {
            launch_pool: LaunchPool {
                pool_size_remaining: self.launch_pool.pool_size,
                status: LaunchPoolState::Active,
                ..self.launch_pool
            },
            treasurer: Treasurer { amount: self.launch_pool.pool_size, ..self.treasurer },
            ..*self
        }
    }
}

/// What `handler` does: the accounts as it leaves them, and what it returns.
pub open spec fn spec_handler(ctx: StartLaunchPool) -> (StartLaunchPool, Result<u64, MyError>) {
    match ctx.spec_check() {
        Err(refusal) => (ctx, Err(refusal)),
        Ok(transfer_amount) => (ctx.spec_started(), Ok(transfer_amount)),
    }
}

/// Starts a pending pool: the whole pool size becomes available to buyers, the treasurer
/// answers for it, and the pool is active.
///
/// Returns the token units that the caller has to move from the organizer's holding into
/// the treasury, which is the pool size; the start stands only if that transfer is made.
/// Where the start is refused, nothing has changed.
pub fn handler(ctx: &mut StartLaunchPool) -> (outcome: Result<u64, MyError>)
    ensures
        (*final(ctx), outcome) == spec_handler(*old(ctx)),
        outcome is Ok ==> old(ctx).launch_pool.status == LaunchPoolState::Pending,
        outcome is Ok ==> final(ctx).launch_pool.well_formed(),
        old(ctx).launch_pool.well_formed() ==> final(ctx).launch_pool.well_formed(),
        final(ctx).launch_pool.vault_amount == old(ctx).launch_pool.vault_amount,
{
    if ctx.launch_pool.status != LaunchPoolState::Pending {
        return Err(MyError::InvalidLaunchPoolStatus);
    }
    if ctx.launch_pool.authority != ctx.authority {
        return Err(MyError::InvalidAuthority);
    }
    if ctx.token_mint != ctx.launch_pool.token_mint {
        return Err(MyError::InvalidTokenMint);
    }
    let transfer_amount = ctx.launch_pool.pool_size;
    ctx.launch_pool.pool_size_remaining = transfer_amount;
    ctx.launch_pool.status = LaunchPoolState::Active;
    ctx.treasurer.amount = transfer_amount;
    Ok(transfer_amount)
}

} // verus!
