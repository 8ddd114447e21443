//! The ledger of a token launch pool: an organizer commits a fixed supply of a token, buyers
//! pay for it in the native currency at a fixed rate while the pool is active, and once the
//! pool is completed and its unlock date reached, each buyer claims what was bought.
//!
//! The library decides and keeps the books; it moves nothing. Each operation takes the
//! records it works on and the time where it needs it, leaves the records as the operation
//! leaves them, and returns what its caller has to carry out: a transfer of tokens or of
//! currency, an event to publish. An operation that is refused has changed nothing.
//!
//! [`state`] holds the records, [`instructions`] the operations, and [`invariants`] what
//! holds of them at all times.

use vstd::prelude::*;

pub mod constants;
pub mod errors;
pub mod instructions;
pub mod invariants;
pub mod pubkey;
pub mod state;

use crate::errors::MyError;
use crate::instructions::{BuyTokenWithNative, CreateFairlaunchPool, Purchase, StartLaunchPool};

verus! {

/// Creates, at time `now`, a fair-launch pool paid in the native currency: see
/// [`instructions::create_fairlaunch_pool::handler`].
pub fn create_native_pool(
    ctx: &mut CreateFairlaunchPool,
    unlock_date: i64,
    pool_size: u64,
    minimum_token_amount: u64,
    maximum_token_amount: u64,
    rate: u64,
    token_mint_decimals: u8,
    now: i64,
) -> (outcome: Result<(), MyError>)
    ensures
        (*final(ctx), outcome) == instructions::create_fairlaunch_pool::spec_handler(
            *old(ctx),
            unlock_date,
            pool_size,
            minimum_token_amount,
            maximum_token_amount,
            rate,
            token_mint_decimals,
            now,
        ),
{
    instructions::create_fairlaunch_pool::handler(
        ctx,
        unlock_date,
        pool_size,
        minimum_token_amount,
        maximum_token_amount,
        rate,
        token_mint_decimals,
        now,
    )
}

/// Starts a pending pool: see [`instructions::start_launch_pool::handler`].
pub fn start_launch_pool(ctx: &mut StartLaunchPool) -> (outcome: Result<u64, MyError>)
    ensures
        (*final(ctx), outcome) == instructions::start_launch_pool::spec_handler(*old(ctx)),
{
    instructions::start_launch_pool::handler(ctx)
}

/// Buys `amount` token units from an active pool: see
/// [`instructions::buy_token_with_native::handler`].
pub fn buy_token_with_native(ctx: &mut BuyTokenWithNative, amount: u64) -> (outcome: Result<
    Purchase,
    MyError,
>)
    ensures
        (*final(ctx), outcome) == instructions::buy_token_with_native::spec_handler(
            *old(ctx),
            amount,
        ),
{
    instructions::buy_token_with_native::handler(ctx, amount)
}

} // verus!
