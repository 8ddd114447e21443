use vstd::prelude::*;
use crate::errors::MyError;
use crate::pubkey::Pubkey;
use crate::state::{CurrencyType, LaunchPool, LaunchPoolState, LaunchPoolType, UserPool};

verus! {

/// The record of a purchase, for those who watch the pool.
#[derive(Clone, Copy, Debug, PartialEq, Eq)]
pub struct BuyTokenWithNativeEvent {
    /// Who bought.
    pub buyer: Pubkey,
    /// Token units bought in this purchase.
    pub amount: u64,
    /// Token units the buyer has bought in all, this purchase included.
    pub token_amount: u64,
    /// Currency units the pool has collected in all, this purchase included.
    pub vault_amount: u64,
}

/// What a purchase works on: the pool, the buyer's position in it, and the buyer.
#[derive(Clone, Copy, Debug, PartialEq, Eq)]
pub struct BuyTokenWithNative {
    pub launch_pool: LaunchPool,
    pub user_pool: UserPool,
    pub user: Pubkey,
}

/// What a purchase that was accepted asks of its caller: to move `user_must_pay` currency
/// units from the buyer into the pool's vault, and to publish `event`. The purchase stands
/// only if that payment is made.
#[derive(Clone, Copy, Debug, PartialEq, Eq)]
pub struct Purchase {
    pub user_must_pay: u64,
    pub event: BuyTokenWithNativeEvent,
}

impl BuyTokenWithNative {
    /// The price of `amount` token units for this buyer, or the reason for which the purchase
    /// is refused. The tests are made in this order and the first that fails decides:
    /// the amount is not zero; the pool is active; it is a fair launch; it is paid in the
    /// native currency; it has `amount` left; the buyer's holding after the purchase fits
    /// in 64 bits, is not below the pool's minimum and not above its maximum; the pool has
    /// a price for `amount`; the price is not zero; what the buyer has paid and what the
    /// pool has collected, the price included, fit in 64 bits. A number that does not fit
    /// is refused with `Overflow`.
    pub open spec fn spec_quote(&self, amount: u64) -> Result<u64, MyError> {
        let pool = self.launch_pool;
        let holding = self.user_pool.amount + amount;
        if amount == 0 {
            Err(MyError::InvalidAmount)
        } else if pool.status != LaunchPoolState::Active {
            Err(MyError::InvalidLaunchPoolStatus)
        } else if pool.pool_type != LaunchPoolType::FairLaunch {
            Err(MyError::InvalidLaunchPoolType)
        } else if pool.currency != CurrencyType::SOL {
            Err(MyError::InvalidCurrencyType)
        } else if pool.pool_size_remaining < amount {
            Err(MyError::PoolSizeRemainingNotEnough)
        } else if holding > u64::MAX {
            Err(MyError::Overflow)
        } else if holding < pool.minimum_token_amount {
            Err(MyError::MinimumTokenAmountNotReached)
        } else if holding > pool.maximum_token_amount {
            Err(MyError::MaximumTokenAmountReached)
        } else {
            match pool.spec_calculate_user_must_pay(amount) {
                Err(refusal) => Err(refusal),
                Ok(price) => if price == 0 {
                    Err(MyError::InvalidAmount)
                } else if self.user_pool.currency_amount + price > u64::MAX || pool.vault_amount
                    + price > u64::MAX {
                    Err(MyError::Overflow)
                } else {
                    Ok(price)
                },
            }
        }
    }

    /// The pool and the position once `amount` token units were bought for `price`.
    pub open spec fn spec_bought(&self, amount: u64, price: u64) -> BuyTokenWithNative {
        BuyTokenWithNative {
            launch_pool: LaunchPool {
                pool_size_remaining: (self.launch_pool.pool_size_remaining - amount) as u64,
                vault_amount: (self.launch_pool.vault_amount + price) as u64,
                ..self.launch_pool
            },
            user_pool: UserPool {
                amount: (self.user_pool.amount + amount) as u64,
                currency_amount: (self.user_pool.currency_amount + price) as u64,
                claimed: self.user_pool.claimed,
            },
            user: self.user,
        }
    }
}

/// What `handler` does: the accounts as it leaves them, and what it returns.
pub open spec fn spec_handler(ctx: BuyTokenWithNative, amount: u64) -> (BuyTokenWithNative, Result<Purchase, MyError>) {
    match ctx.spec_quote(amount) {
        Err(refusal) => (ctx, Err(refusal)),
        Ok(price) => {
            let bought = ctx.spec_bought(amount, price);
            (
                bought,
                Ok(
                    Purchase {
                        user_must_pay: price,
                        event: BuyTokenWithNativeEvent {
                            buyer: ctx.user,
                            amount,
                            token_amount: bought.user_pool.amount,
                            vault_amount: bought.launch_pool.vault_amount,
                        },
                    },
                ),
            )
        },
    }
}

/// Buys `amount` token units from an active pool for the buyer of `ctx`.
///
/// Where the purchase is accepted, the pool has `amount` less to sell and has collected the
/// price, the buyer's position has grown by `amount` bought and the price paid, and the
/// payment and the event are handed to the caller. Where it is refused, nothing has changed.
pub fn handler(ctx: &mut BuyTokenWithNative, amount: u64) -> (outcome: Result<Purchase, MyError>)
    ensures
        (*final(ctx), outcome) == spec_handler(*old(ctx), amount),
        outcome is Ok ==> old(ctx).launch_pool.status == LaunchPoolState::Active,
        outcome is Ok ==> final(ctx).launch_pool.minimum_token_amount <= final(ctx).user_pool.amount
            <= final(ctx).launch_pool.maximum_token_amount,
        old(ctx).launch_pool.well_formed() ==> final(ctx).launch_pool.well_formed(),
        old(ctx).user_pool.well_formed() ==> final(ctx).user_pool.well_formed(),
        final(ctx).launch_pool.vault_amount >= old(ctx).launch_pool.vault_amount,
        final(ctx).user_pool.amount >= old(ctx).user_pool.amount,
{
    if amount == 0 {
        return Err(MyError::InvalidAmount);
    }
    if ctx.launch_pool.status != LaunchPoolState::Active {
        return Err(MyError::InvalidLaunchPoolStatus);
    }
    if ctx.launch_pool.pool_type != LaunchPoolType::FairLaunch {
        return Err(MyError::InvalidLaunchPoolType);
    }
    if ctx.launch_pool.currency != CurrencyType::SOL {
        return Err(MyError::InvalidCurrencyType);
    }
    if ctx.launch_pool.pool_size_remaining < amount {
        return Err(MyError::PoolSizeRemainingNotEnough);
    }
    let holding = match ctx.user_pool.amount.checked_add(amount) {
        Some(holding) => holding,
        None => {
            return Err(MyError::Overflow);
        },
    };
    if holding < ctx.launch_pool.minimum_token_amount {
        return Err(MyError::MinimumTokenAmountNotReached);
    }
    if holding > ctx.launch_pool.maximum_token_amount {
        return Err(MyError::MaximumTokenAmountReached);
    }
    let user_must_pay = match ctx.launch_pool.calculate_user_must_pay(amount) {
        Ok(price) => price,
        Err(refusal) => {
            return Err(refusal);
        },
    };
    if user_must_pay == 0 {
        return Err(MyError::InvalidAmount);
    }
    let paid = match ctx.user_pool.currency_amount.checked_add(user_must_pay) {
        Some(paid) => paid,
        None => {
            return Err(MyError::Overflow);
        },
    };
    let collected = match ctx.launch_pool.vault_amount.checked_add(user_must_pay) {
        Some(collected) => collected,
        None => {
            return Err(MyError::Overflow);
        },
    };
    ctx.user_pool.amount = holding;
    ctx.user_pool.currency_amount = paid;
    ctx.launch_pool.pool_size_remaining = ctx.launch_pool.pool_size_remaining - amount;
    ctx.launch_pool.vault_amount = collected;
    Ok(
        Purchase {
            user_must_pay,
            event: BuyTokenWithNativeEvent {
                buyer: ctx.user,
                amount,
                token_amount: holding,
                vault_amount: collected,
            },
        },
    )
}

} // verus!
