use vstd::prelude::*;
use crate::errors::MyError;
use crate::pubkey::Pubkey;
use crate::state::{CurrencyType, LaunchPool, LaunchPoolType, Treasurer};

verus! {

/// What the creation of a pool works on: the new pool's record and address, the mint of the
/// token on sale, the new treasurer's record, and the organizer.
#[derive(Clone, Copy, Debug, PartialEq, Eq)]
pub struct CreateFairlaunchPool {
    pub launch_pool: LaunchPool,
    /// The address at which `launch_pool` is kept.
    pub launch_pool_key: Pubkey,
    pub token_mint: Pubkey,
    pub treasurer: Treasurer,
    pub authority: Pubkey,
}

/// Whether `unlock_date` can be the unlock date of a pool created at time `now`: it is a
/// time after the epoch and after `now`.
pub open spec fn spec_unlock_date_valid(unlock_date: i64, now: i64) -> bool {
    unlock_date > 0 && unlock_date > now
}

/// What `handler` does: the accounts as it leaves them, and what it returns.
pub open spec fn spec_handler(
    ctx: CreateFairlaunchPool,
    unlock_date: i64,
    pool_size: u64,
    minimum_token_amount: u64,
    maximum_token_amount: u64,
    rate: u64,
    token_mint_decimals: u8,
    now: i64,
) -> (CreateFairlaunchPool, Result<(), MyError>) {
    if spec_unlock_date_valid(unlock_date, now) {
        (
            CreateFairlaunchPool {
                launch_pool: LaunchPool::spec_new(
                    unlock_date,
                    pool_size,
                    minimum_token_amount,
                    maximum_token_amount,
                    rate,
                    token_mint_decimals,
                    ctx.token_mint,
                    ctx.authority,
                    CurrencyType::SOL,
                    LaunchPoolType::FairLaunch,
                ),
                treasurer: Treasurer {
                    authority: ctx.authority,
                    launch_pool: ctx.launch_pool_key,
                    token_mint: ctx.token_mint,
                    amount: 0,
                },
                ..ctx
            },
            Ok(()),
        )
    } else {
        (ctx, Err(MyError::InvalidUnlockDate))
    }
}

/// Creates, at time `now`, a fair-launch pool paid in the native currency, together with
/// its treasurer.
///
/// The pool is pending, with nothing to buy and nothing collected; the treasurer is bound
/// to the organizer, the pool's address and the mint, and answers for no tokens yet. An
/// unlock date that is not in the future is refused with `InvalidUnlockDate`, and then
/// nothing has changed.
pub fn handler(
    ctx: &mut CreateFairlaunchPool,
    unlock_date: i64,
    pool_size: u64,
    minimum_token_amount: u64,
    maximum_token_amount: u64,
    rate: u64,
    token_mint_decimals: u8,
    now: i64,
) -> (outcome: Result<(), MyError>)
    ensures
        (*final(ctx), outcome) == spec_handler(
            *old(ctx),
            unlock_date,
            pool_size,
            minimum_token_amount,
            maximum_token_amount,
            rate,
            token_mint_decimals,
            now,
        ),
        outcome is Ok <==> spec_unlock_date_valid(unlock_date, now),
        outcome is Ok ==> final(ctx).launch_pool.well_formed(),
{
    if !(unlock_date > 0 && unlock_date > now) {
        return Err(MyError::InvalidUnlockDate);
    }
    let authority = ctx.authority;
    let token_mint = ctx.token_mint;
    ctx.treasurer.initialize(authority, ctx.launch_pool_key, token_mint);
    ctx.launch_pool.initialize(
        unlock_date,
        pool_size,
        minimum_token_amount,
        maximum_token_amount,
        rate,
        token_mint_decimals,
        token_mint,
        authority,
        CurrencyType::SOL,
        LaunchPoolType::FairLaunch,
        now,
    )
}

} // verus!
