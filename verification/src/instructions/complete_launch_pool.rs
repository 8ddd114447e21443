use vstd::prelude::*;
use crate::errors::MyError;
use crate::pubkey::Pubkey;
use crate::state::{LaunchPool, LaunchPoolState};

verus! {

/// What the completion of a pool works on: the pool and the caller.
#[derive(Clone, Copy, Debug, PartialEq, Eq)]
pub struct CompleteLaunchPool {
    pub launch_pool: LaunchPool,
    pub authority: Pubkey,
}

impl CompleteLaunchPool {
    /// Whether the pool can be completed, or the reason for which it cannot. The tests are
    /// made in this order and the first that fails decides: the pool is active; the caller
    /// is its authority.
    pub open spec fn spec_check(&self) -> Result<(), MyError> {
        if self.launch_pool.status != LaunchPoolState::Active {
            Err(MyError::InvalidLaunchPoolStatus)
        } else if self.launch_pool.authority != self.authority {
            Err(MyError::InvalidAuthority)
        } else {
            Ok(())
        }
    }
}

/// What `handler` does: the accounts as it leaves them, and what it returns.
pub open spec fn spec_handler(ctx: CompleteLaunchPool) -> (CompleteLaunchPool, Result<(), MyError>) {
    match ctx.spec_check() {
        Err(refusal) => (ctx, Err(refusal)),
        Ok(done) => (
            CompleteLaunchPool {
                launch_pool: LaunchPool { status: LaunchPoolState::Completed, ..ctx.launch_pool },
                ..ctx
            },
            Ok(done),
        ),
    }
}

/// Completes an active pool: from now on nothing can be bought from it. Nothing else about
/// the pool changes, and where the completion is refused, nothing has changed at all.
pub fn handler(ctx: &mut CompleteLaunchPool) -> (outcome: Result<(), MyError>)
    ensures
        (*final(ctx), outcome) == spec_handler(*old(ctx)),
        outcome is Ok ==> old(ctx).launch_pool.status == LaunchPoolState::Active,
        old(ctx).launch_pool.well_formed() ==> final(ctx).launch_pool.well_formed(),
        final(ctx).launch_pool.vault_amount == old(ctx).launch_pool.vault_amount,
{
    if ctx.launch_pool.status != LaunchPoolState::Active {
        return Err(MyError::InvalidLaunchPoolStatus);
    }
    if ctx.launch_pool.authority != ctx.authority {
        return Err(MyError::InvalidAuthority);
    }
    ctx.launch_pool.status = LaunchPoolState::Completed;
    Ok(())
}

} // verus!
