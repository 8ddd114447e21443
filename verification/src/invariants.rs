use vstd::prelude::*;
use vstd::arithmetic::power::{lemma_pow0, lemma_pow_increases, pow};
use crate::constants::CURRENCY_DECIMALS;
use crate::errors::MyError;
use crate::instructions::buy_token_with_native;
use crate::instructions::claim_token;
use crate::instructions::complete_launch_pool;
use crate::instructions::create_fairlaunch_pool;
use crate::instructions::start_launch_pool;
use crate::instructions::{
    BuyTokenWithNative, ClaimToken, CompleteLaunchPool, CreateFairlaunchPool, StartLaunchPool,
};
use crate::state::launch_pool::spec_price_of;
use crate::state::{LaunchPool, LaunchPoolState, UserPool};

verus! {

/// Ten to the power 38 is the largest power of ten that fits in 128 bits.
pub proof fn lemma_pow10_fits(exponent: nat)
    ensures
        exponent <= 38 <==> pow(10, exponent) <= u128::MAX,
{
    assert(pow(10, 38) == 100_000_000_000_000_000_000_000_000_000_000_000_000int) by {
        reveal_with_fuel(pow, 39);
    }
    assert(pow(10, 39) == 10 * pow(10, 38)) by {
        reveal(pow);
    }
    if exponent <= 38 {
        lemma_pow_increases(10, exponent, 38);
    } else {
        lemma_pow_increases(10, 39, exponent);
    }
}

/// Nothing is owed for nothing: the price of zero token units is zero, at every rate but
/// zero and for all decimals whose power of ten fits in 128 bits.
pub proof fn lemma_price_of_nothing(rate: u64, token_decimals: u8, currency_decimals: u32)
    requires
        rate > 0,
        token_decimals <= 38,
        currency_decimals <= 38,
    ensures
        spec_price_of(0, rate, token_decimals, currency_decimals) == Ok::<u64, MyError>(0),
{
    lemma_price_below_rate_is_nothing(0, rate, token_decimals, currency_decimals);
}

/// Fewer token units than the rate are owed nothing, since the division by the rate comes
/// before the rescaling.
pub proof fn lemma_price_below_rate_is_nothing(
    amount: u64,
    rate: u64,
    token_decimals: u8,
    currency_decimals: u32,
)
    requires
        amount < rate,
        token_decimals <= 38,
        currency_decimals <= 38,
    ensures
        spec_price_of(amount, rate, token_decimals, currency_decimals) == Ok::<u64, MyError>(0),
{
    lemma_pow10_fits(token_decimals as nat);
    lemma_pow10_fits(currency_decimals as nat);
    lemma_pow0(10);
    lemma_pow_increases(10, 0, token_decimals as nat);
    let scale = pow(10, currency_decimals as nat);
    let unit = pow(10, token_decimals as nat);
    assert(amount / rate == 0) by (nonlinear_arith)
        requires
            0 <= amount < rate,
    ;
    assert((amount / rate) * scale == 0) by (nonlinear_arith)
        requires
            amount / rate == 0,
    ;
    assert(0int / unit == 0) by (nonlinear_arith)
        requires
            unit >= 1,
    ;
}

/// No purchase is accepted for which nothing is owed: a purchase that is accepted is paid
/// with at least one unit of currency, and buys at least as many token units as the rate.
pub proof fn lemma_accepted_purchase_is_paid(ctx: BuyTokenWithNative, amount: u64)
    ensures
        buy_token_with_native::spec_handler(ctx, amount).1 matches Ok(purchase)
            ==> purchase.user_must_pay > 0 && 0 < ctx.launch_pool.rate <= amount,
{
    let rate = ctx.launch_pool.rate;
    if buy_token_with_native::spec_handler(ctx, amount).1 is Ok && amount < rate {
        let scale = pow(10, CURRENCY_DECIMALS as nat);
        let unit = pow(10, ctx.launch_pool.token_mint_decimals as nat);
        assert(amount / rate == 0) by (nonlinear_arith)
            requires
                0 <= amount < rate,
        ;
        assert((amount / rate) * scale == 0) by (nonlinear_arith)
            requires
                amount / rate == 0,
        ;
        lemma_pow0(10);
        lemma_pow_increases(10, 0, ctx.launch_pool.token_mint_decimals as nat);
        assert(0int / unit == 0) by (nonlinear_arith)
            requires
                unit >= 1,
        ;
        assert(false);
    }
}

/// When a pool has a price for `amount` token units: at every rate but zero, for every
/// token with at most 38 decimals, whenever the price fits in 64 bits. The product of the
/// quotient and the currency's scale of a thousand million always fits in 128 bits.
pub proof fn lemma_pool_has_a_price(pool: LaunchPool, amount: u64)
    ensures
        pool.spec_calculate_user_must_pay(amount) is Ok <==> pool.rate > 0
            && pool.token_mint_decimals <= 38 && (amount / pool.rate) * 1_000_000_000 / pow(
            10,
            pool.token_mint_decimals as nat,
        ) <= u64::MAX,
        pool.spec_calculate_user_must_pay(amount) matches Ok(price) ==> price == (amount
            / pool.rate) * 1_000_000_000 / pow(10, pool.token_mint_decimals as nat),
        pool.spec_calculate_user_must_pay(amount) matches Err(refusal) ==> refusal
            == MyError::Overflow,
{
    lemma_pow10_fits(pool.token_mint_decimals as nat);
    lemma_pow10_fits(CURRENCY_DECIMALS as nat);
    assert(pow(10, 9) == 1_000_000_000) by {
        reveal_with_fuel(pow, 10);
    }
    if pool.rate > 0 {
        let whole = amount / pool.rate;
        let unit = pow(10, pool.token_mint_decimals as nat);
        assert(0 <= whole * 1_000_000_000 <= u128::MAX) by (nonlinear_arith)
            requires
                0 <= whole <= u64::MAX,
        ;
        lemma_pow0(10);
        lemma_pow_increases(10, 0, pool.token_mint_decimals as nat);
        assert(whole * 1_000_000_000 / unit >= 0) by (nonlinear_arith)
            requires
                whole * 1_000_000_000 >= 0,
                unit >= 1,
        ;
    }
}

/// A pool owes nothing for nothing, whatever its rate above zero.
pub proof fn lemma_pool_owes_nothing_for_nothing(pool: LaunchPool)
    requires
        pool.rate > 0,
        pool.token_mint_decimals <= 38,
    ensures
        pool.spec_calculate_user_must_pay(0) == Ok::<u64, MyError>(0),
{
    lemma_price_of_nothing(pool.rate, pool.token_mint_decimals, CURRENCY_DECIMALS);
}

/// A pool that was just created has no more left to buy than was committed, and has
/// collected nothing.
pub proof fn lemma_created_pool_is_well_formed(
    ctx: CreateFairlaunchPool,
    unlock_date: i64,
    pool_size: u64,
    minimum_token_amount: u64,
    maximum_token_amount: u64,
    rate: u64,
    token_mint_decimals: u8,
    now: i64,
)
    ensures
        ({
            let (after, outcome) = create_fairlaunch_pool::spec_handler(
                ctx,
                unlock_date,
                pool_size,
                minimum_token_amount,
                maximum_token_amount,
                rate,
                token_mint_decimals,
                now,
            );
            outcome is Ok ==> after.launch_pool.well_formed() && after.launch_pool.vault_amount == 0
                && after.launch_pool.status == LaunchPoolState::Pending
        }),
{
}

/// Starting a pool, accepted or refused, leaves no more to buy than was committed and
/// leaves the collected amount as it was.
pub proof fn lemma_start_keeps_pool(ctx: StartLaunchPool)
    requires
        ctx.launch_pool.well_formed(),
    ensures
        ({
            let (after, outcome) = start_launch_pool::spec_handler(ctx);
            after.launch_pool.well_formed() && after.launch_pool.vault_amount
                == ctx.launch_pool.vault_amount && after.launch_pool.pool_size
                == ctx.launch_pool.pool_size
        }),
{
}

/// A purchase, accepted or refused, leaves no more to buy than was committed, never lowers
/// the collected amount, and never lowers what the buyer has bought or lets the claimed
/// amount pass it.
pub proof fn lemma_purchase_keeps_pool_and_position(ctx: BuyTokenWithNative, amount: u64)
    ensures
        ({
            let (after, outcome) = buy_token_with_native::spec_handler(ctx, amount);
            &&& ctx.launch_pool.well_formed() ==> after.launch_pool.well_formed()
            &&& ctx.user_pool.well_formed() ==> after.user_pool.well_formed()
            &&& after.launch_pool.vault_amount >= ctx.launch_pool.vault_amount
            &&& after.launch_pool.pool_size_remaining <= ctx.launch_pool.pool_size_remaining
            &&& after.launch_pool.pool_size == ctx.launch_pool.pool_size
            &&& after.user_pool.amount >= ctx.user_pool.amount
            &&& after.user_pool.claimed == ctx.user_pool.claimed
        }),
{
}

/// After a purchase that was accepted, what the buyer has bought lies within the pool's
/// bounds for one buyer.
pub proof fn lemma_purchase_within_bounds(ctx: BuyTokenWithNative, amount: u64)
    ensures
        ({
            let (after, outcome) = buy_token_with_native::spec_handler(ctx, amount);
            outcome is Ok ==> after.launch_pool.minimum_token_amount <= after.user_pool.amount
                <= after.launch_pool.maximum_token_amount
        }),
{
}

/// What a purchase takes from the pool is what the buyer gets, and what the buyer pays is
/// what the pool collects.
pub proof fn lemma_purchase_conserves(ctx: BuyTokenWithNative, amount: u64)
    ensures
        ({
            let (after, outcome) = buy_token_with_native::spec_handler(ctx, amount);
            &&& ctx.launch_pool.pool_size_remaining - after.launch_pool.pool_size_remaining
                == after.user_pool.amount - ctx.user_pool.amount
            &&& after.launch_pool.vault_amount - ctx.launch_pool.vault_amount
                == after.user_pool.currency_amount - ctx.user_pool.currency_amount
            &&& outcome matches Ok(purchase) ==> after.user_pool.amount - ctx.user_pool.amount
                == amount && after.launch_pool.vault_amount - ctx.launch_pool.vault_amount
                == purchase.user_must_pay
        }),
{
}

/// Completing a pool, accepted or refused, changes nothing of the pool but its status.
pub proof fn lemma_complete_keeps_pool(ctx: CompleteLaunchPool)
    ensures
        ({
            let (after, outcome) = complete_launch_pool::spec_handler(ctx);
            &&& ctx.launch_pool.well_formed() ==> after.launch_pool.well_formed()
            &&& after.launch_pool == LaunchPool { status: after.launch_pool.status, ..ctx.launch_pool }
        }),
{
}

/// A claim, accepted or refused, leaves the pool as it was and never lets the claimed
/// amount pass what was bought; accepted, it releases exactly what was bought and not yet
/// claimed, and leaves nothing unclaimed.
pub proof fn lemma_claim_keeps_pool_and_position(
    ctx: ClaimToken,
    derived: Option<(Seq<u8>, u8)>,
    now: i64,
)
    ensures
        ({
            let (after, outcome) = claim_token::spec_claim(ctx, derived, now);
            &&& after.launch_pool == ctx.launch_pool
            &&& after.user_pool.amount == ctx.user_pool.amount
            &&& ctx.user_pool.well_formed() ==> after.user_pool.well_formed()
            &&& outcome matches Ok(release) ==> release.amount == ctx.user_pool.amount
                - ctx.user_pool.claimed && release.amount > 0 && after.user_pool.claimed
                == after.user_pool.amount
        }),
{
}

/// A claim that follows an accepted claim, with no purchase in between and no earlier in
/// time, is refused with `InvalidAmount` and changes nothing: nothing is released twice.
pub proof fn lemma_second_claim_is_refused(
    ctx: ClaimToken,
    derived: Option<(Seq<u8>, u8)>,
    first: i64,
    second: i64,
)
    requires
        first <= second,
    ensures
        ({
            let (after, outcome) = claim_token::spec_claim(ctx, derived, first);
            outcome is Ok ==> claim_token::spec_claim(after, derived, second) == (
                after,
                Err::<claim_token::Release, MyError>(MyError::InvalidAmount),
            )
        }),
        ({
            let (after, outcome) = claim_token::spec_handler(ctx, first);
            outcome is Ok ==> claim_token::spec_handler(after, second) == (
                after,
                Err::<claim_token::Release, MyError>(MyError::InvalidAmount),
            )
        }),
{
}

/// Each operation is accepted only at its place in the life of a pool: a start only while
/// the pool is pending, a purchase and a completion only while it is active, and a claim
/// only once it is completed and the unlock date is reached.
pub proof fn lemma_lifecycle_order(
    start: StartLaunchPool,
    purchase: BuyTokenWithNative,
    amount: u64,
    complete: CompleteLaunchPool,
    claim: ClaimToken,
    derived: Option<(Seq<u8>, u8)>,
    now: i64,
)
    ensures
        start_launch_pool::spec_handler(start).1 is Ok ==> start.launch_pool.status
            == LaunchPoolState::Pending,
        buy_token_with_native::spec_handler(purchase, amount).1 is Ok ==> purchase.launch_pool.status
            == LaunchPoolState::Active,
        complete_launch_pool::spec_handler(complete).1 is Ok ==> complete.launch_pool.status
            == LaunchPoolState::Active,
        claim_token::spec_claim(claim, derived, now).1 is Ok ==> claim.launch_pool.status
            == LaunchPoolState::Completed && now >= claim.launch_pool.unlock_date,
        claim_token::spec_handler(claim, now).1 is Ok ==> claim.launch_pool.status
            == LaunchPoolState::Completed && now >= claim.launch_pool.unlock_date,
{
}

/// The place of a status in the life of a pool.
pub open spec fn spec_stage(status: LaunchPoolState) -> nat {
    match status {
        LaunchPoolState::Pending => 0,
        LaunchPoolState::Active => 1,
        LaunchPoolState::Completed => 2,
        LaunchPoolState::Cancelled => 3,
    }
}

/// No operation takes a pool back in its life: a start takes a pending pool to active, a
/// completion an active pool to completed, and a purchase and a claim leave the status as
/// it is.
pub proof fn lemma_status_only_advances(
    start: StartLaunchPool,
    purchase: BuyTokenWithNative,
    amount: u64,
    complete: CompleteLaunchPool,
    claim: ClaimToken,
    derived: Option<(Seq<u8>, u8)>,
    now: i64,
)
    ensures
        spec_stage(start_launch_pool::spec_handler(start).0.launch_pool.status) >= spec_stage(
            start.launch_pool.status,
        ),
        start_launch_pool::spec_handler(start).1 is Ok ==> start_launch_pool::spec_handler(
            start,
        ).0.launch_pool.status == LaunchPoolState::Active,
        buy_token_with_native::spec_handler(purchase, amount).0.launch_pool.status
            == purchase.launch_pool.status,
        spec_stage(complete_launch_pool::spec_handler(complete).0.launch_pool.status) >= spec_stage(
            complete.launch_pool.status,
        ),
        complete_launch_pool::spec_handler(complete).1 is Ok ==> complete_launch_pool::spec_handler(
            complete,
        ).0.launch_pool.status == LaunchPoolState::Completed,
        claim_token::spec_claim(claim, derived, now).0.launch_pool.status
            == claim.launch_pool.status,
{
}

/// Whether some operation on an existing pool, accepted or refused, makes `after` of the
/// pool `before`: a start, a purchase by any buyer, a completion, or a claim by any buyer.
pub open spec fn spec_pool_step(before: LaunchPool, after: LaunchPool) -> bool {
    ||| exists|ctx: StartLaunchPool|
        ctx.launch_pool == before && (#[trigger] start_launch_pool::spec_handler(ctx)).0.launch_pool
            == after
    ||| exists|ctx: BuyTokenWithNative, amount: u64|
        ctx.launch_pool == before && (#[trigger] buy_token_with_native::spec_handler(
            ctx,
            amount,
        )).0.launch_pool == after
    ||| exists|ctx: CompleteLaunchPool|
        ctx.launch_pool == before && (#[trigger] complete_launch_pool::spec_handler(
            ctx,
        )).0.launch_pool == after
    ||| exists|ctx: ClaimToken, derived: Option<(Seq<u8>, u8)>, now: i64|
        ctx.launch_pool == before && (#[trigger] claim_token::spec_claim(
            ctx,
            derived,
            now,
        )).0.launch_pool == after
}

/// Whether `states` is a history of one pool: each state but the first is made of the one
/// before it by one operation.
pub open spec fn spec_pool_history(states: Seq<LaunchPool>) -> bool {
    forall|at: int|
        0 <= at < states.len() - 1 ==> spec_pool_step(#[trigger] states[at], states[at + 1])
}

/// One operation leaves a pool with no more to buy than was committed, with the size it
/// had, with no less collected, and no earlier in its life.
pub proof fn lemma_pool_step(before: LaunchPool, after: LaunchPool)
    requires
        spec_pool_step(before, after),
    ensures
        before.well_formed() ==> after.well_formed(),
        after.pool_size == before.pool_size,
        after.vault_amount >= before.vault_amount,
        spec_stage(after.status) >= spec_stage(before.status),
{
}

/// At all times in the history of a pool that was well formed at some time, no more is left
/// to buy than was committed, and the collected amount has never fallen: between any two
/// times, the later state is well formed if the earlier is, has the same size, has
/// collected no less, and is no earlier in the life of the pool.
pub proof fn lemma_pool_history(states: Seq<LaunchPool>, earlier: int, later: int)
    requires
        spec_pool_history(states),
        0 <= earlier <= later < states.len(),
    ensures
        states[earlier].well_formed() ==> states[later].well_formed(),
        states[later].pool_size == states[earlier].pool_size,
        states[later].vault_amount >= states[earlier].vault_amount,
        spec_stage(states[later].status) >= spec_stage(states[earlier].status),
    decreases later - earlier,
{
    if earlier < later {
        lemma_pool_history(states, earlier, later - 1);
        assert(spec_pool_step(states[later - 1], states[later - 1 + 1]));
        lemma_pool_step(states[later - 1], states[later]);
    }
}

/// Whether some operation of the buyer, accepted or refused, makes `after` of the position
/// `before`: a purchase or a claim.
pub open spec fn spec_position_step(before: UserPool, after: UserPool) -> bool {
    ||| exists|ctx: BuyTokenWithNative, amount: u64|
        ctx.user_pool == before && (#[trigger] buy_token_with_native::spec_handler(
            ctx,
            amount,
        )).0.user_pool == after
    ||| exists|ctx: ClaimToken, derived: Option<(Seq<u8>, u8)>, now: i64|
        ctx.user_pool == before && (#[trigger] claim_token::spec_claim(
            ctx,
            derived,
            now,
        )).0.user_pool == after
}

/// Whether `states` is a history of one position: each state but the first is made of the
/// one before it by one operation of the buyer.
pub open spec fn spec_position_history(states: Seq<UserPool>) -> bool {
    forall|at: int|
        0 <= at < states.len() - 1 ==> spec_position_step(#[trigger] states[at], states[at + 1])
}

/// One operation of the buyer never lets the claimed amount pass what was bought, and
/// lowers neither what was bought, nor what was paid, nor what was claimed.
pub proof fn lemma_position_step(before: UserPool, after: UserPool)
    requires
        spec_position_step(before, after),
    ensures
        before.well_formed() ==> after.well_formed(),
        after.amount >= before.amount,
        after.currency_amount >= before.currency_amount,
        after.claimed >= before.claimed,
{
}

/// At all times in the history of a position that started with no more claimed than
/// bought, no more is claimed than was bought, and what was bought, paid and claimed has
/// never fallen.
pub proof fn lemma_position_history(states: Seq<UserPool>, earlier: int, later: int)
    requires
        spec_position_history(states),
        0 <= earlier <= later < states.len(),
    ensures
        states[earlier].well_formed() ==> states[later].well_formed(),
        states[later].amount >= states[earlier].amount,
        states[later].currency_amount >= states[earlier].currency_amount,
        states[later].claimed >= states[earlier].claimed,
    decreases later - earlier,
{
    if earlier < later {
        lemma_position_history(states, earlier, later - 1);
        assert(spec_position_step(states[later - 1], states[later - 1 + 1]));
        lemma_position_step(states[later - 1], states[later]);
    }
}

} // verus!
