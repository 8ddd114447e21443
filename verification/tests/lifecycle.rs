use launchpad::errors::MyError;
use launchpad::instructions::buy_token_with_native;
use launchpad::instructions::claim_token;
use launchpad::instructions::complete_launch_pool;
use launchpad::instructions::create_fairlaunch_pool;
use launchpad::instructions::start_launch_pool;
use launchpad::instructions::{
    BuyTokenWithNative, BuyTokenWithNativeEvent, ClaimToken, CompleteLaunchPool,
    CreateFairlaunchPool, Purchase, Release, StartLaunchPool,
};
use launchpad::pubkey::Pubkey;
use launchpad::state::{
    CurrencyType, LaunchPool, LaunchPoolState, LaunchPoolType, Treasurer, UserPool,
};

const NOW: i64 = 1_700_000_000;
const UNLOCK: i64 = 1_700_086_400;

fn key(byte: u8) -> Pubkey {
    Pubkey::new_from_array([byte; 32])
}

fn blank_pool() -> LaunchPool {
    LaunchPool {
        unlock_date: 0,
        pool_size: 0,
        minimum_token_amount: 0,
        maximum_token_amount: 0,
        rate: 0,
        pool_size_remaining: 0,
        token_mint: key(0),
        token_mint_decimals: 0,
        authority: key(0),
        vault_amount: 0,
        is_vesting: false,
        currency: CurrencyType::SOL,
        pool_type: LaunchPoolType::FairLaunch,
        status: LaunchPoolState::Pending,
    }
}

fn blank_treasurer() -> Treasurer {
    Treasurer { authority: key(0), launch_pool: key(0), token_mint: key(0), amount: 0 }
}

struct Sale {
    program_id: Pubkey,
    organizer: Pubkey,
    mint: Pubkey,
    pool_key: Pubkey,
    buyer: Pubkey,
    pool: LaunchPool,
    treasurer: Treasurer,
    position: UserPool,
}

/// A pool of 1000 tokens at rate 10, six token decimals, between 10 and 500 for a buyer.
fn created_sale() -> Sale {
    let mut sale = Sale {
        program_id: key(9),
        organizer: key(1),
        mint: key(3),
        pool_key: key(2),
        buyer: key(5),
        pool: blank_pool(),
        treasurer: blank_treasurer(),
        position: UserPool::default(),
    };
    let mut ctx = CreateFairlaunchPool {
        launch_pool: sale.pool,
        launch_pool_key: sale.pool_key,
        token_mint: sale.mint,
        treasurer: sale.treasurer,
        authority: sale.organizer,
    };
    assert_eq!(launchpad::create_native_pool(&mut ctx, UNLOCK, 1000, 10, 500, 10, 6, NOW), Ok(()));
    sale.pool = ctx.launch_pool;
    sale.treasurer = ctx.treasurer;
    sale
}

fn start(sale: &mut Sale) -> Result<u64, MyError> {
    let mut ctx = StartLaunchPool {
        launch_pool: sale.pool,
        token_mint: sale.mint,
        treasurer: sale.treasurer,
        authority: sale.organizer,
    };
    let outcome = launchpad::start_launch_pool(&mut ctx);
    sale.pool = ctx.launch_pool;
    sale.treasurer = ctx.treasurer;
    outcome
}

fn buy(sale: &mut Sale, amount: u64) -> Result<Purchase, MyError> {
    let mut ctx =
        BuyTokenWithNative { launch_pool: sale.pool, user_pool: sale.position, user: sale.buyer };
    let outcome = launchpad::buy_token_with_native(&mut ctx, amount);
    sale.pool = ctx.launch_pool;
    sale.position = ctx.user_pool;
    outcome
}

fn complete(sale: &mut Sale) -> Result<(), MyError> {
    let mut ctx = CompleteLaunchPool { launch_pool: sale.pool, authority: sale.organizer };
    let outcome = complete_launch_pool::handler(&mut ctx);
    sale.pool = ctx.launch_pool;
    outcome
}

fn treasurer_address(sale: &Sale) -> (Pubkey, u8) {
    Treasurer::find_address(&sale.pool_key, &sale.mint, &sale.program_id).unwrap()
}

fn claim(sale: &mut Sale, now: i64) -> Result<Release, MyError> {
    let mut ctx = ClaimToken {
        program_id: sale.program_id,
        launch_pool: sale.pool,
        launch_pool_key: sale.pool_key,
        token_mint: sale.mint,
        treasurer: treasurer_address(sale).0,
        user_pool: sale.position,
    };
    let outcome = claim_token::handler(&mut ctx, now);
    assert_eq!(ctx.launch_pool, sale.pool);
    sale.position = ctx.user_pool;
    outcome
}

#[test]
fn created_pool_is_pending_and_has_nothing_to_buy() {
    let sale = created_sale();
    assert_eq!(
        sale.pool,
        LaunchPool {
            unlock_date: UNLOCK,
            pool_size: 1000,
            minimum_token_amount: 10,
            maximum_token_amount: 500,
            rate: 10,
            pool_size_remaining: 0,
            token_mint: key(3),
            token_mint_decimals: 6,
            authority: key(1),
            vault_amount: 0,
            is_vesting: false,
            currency: CurrencyType::SOL,
            pool_type: LaunchPoolType::FairLaunch,
            status: LaunchPoolState::Pending,
        }
    );
    assert_eq!(
        sale.treasurer,
        Treasurer { authority: key(1), launch_pool: key(2), token_mint: key(3), amount: 0 }
    );
}

#[test]
fn create_start_and_first_purchase() {
    let mut sale = created_sale();
    assert_eq!(start(&mut sale), Ok(1000));
    assert_eq!(sale.pool.status, LaunchPoolState::Active);
    assert_eq!(sale.pool.pool_size_remaining, 1000);
    assert_eq!(sale.treasurer.amount, 1000);

    let purchase = buy(&mut sale, 100).unwrap();
    assert_eq!(purchase.user_must_pay, 10_000);
    assert_eq!(
        purchase.event,
        BuyTokenWithNativeEvent {
            buyer: key(5),
            amount: 100,
            token_amount: 100,
            vault_amount: 10_000
        }
    );
    assert_eq!(sale.pool.pool_size_remaining, 900);
    assert_eq!(sale.pool.vault_amount, 10_000);
    assert_eq!(sale.pool.pool_size, 1000);
    assert_eq!(sale.pool.status, LaunchPoolState::Active);
    assert_eq!(sale.position, UserPool { amount: 100, currency_amount: 10_000, claimed: 0 });
}

#[test]
fn purchases_add_up() {
    let mut sale = created_sale();
    start(&mut sale).unwrap();
    buy(&mut sale, 100).unwrap();
    let purchase = buy(&mut sale, 250).unwrap();
    assert_eq!(purchase.user_must_pay, 25_000);
    assert_eq!(purchase.event.amount, 250);
    assert_eq!(purchase.event.token_amount, 350);
    assert_eq!(purchase.event.vault_amount, 35_000);
    assert_eq!(sale.pool.pool_size_remaining, 650);
    assert_eq!(sale.pool.vault_amount, 35_000);
    assert_eq!(sale.position, UserPool { amount: 350, currency_amount: 35_000, claimed: 0 });
}

#[test]
fn purchase_above_the_maximum_changes_nothing() {
    let mut sale = created_sale();
    start(&mut sale).unwrap();
    buy(&mut sale, 100).unwrap();
    let pool_before = sale.pool;
    let position_before = sale.position;
    assert_eq!(buy(&mut sale, 401), Err(MyError::MaximumTokenAmountReached));
    assert_eq!(sale.pool, pool_before);
    assert_eq!(sale.position, position_before);
    // up to the maximum is accepted
    assert_eq!(buy(&mut sale, 400).unwrap().event.token_amount, 500);
    assert_eq!(buy(&mut sale, 10), Err(MyError::MaximumTokenAmountReached));
}

#[test]
fn claim_waits_for_the_unlock_date() {
    let mut sale = created_sale();
    start(&mut sale).unwrap();
    buy(&mut sale, 100).unwrap();
    assert_eq!(complete(&mut sale), Ok(()));
    assert_eq!(sale.pool.status, LaunchPoolState::Completed);

    let position_before = sale.position;
    assert_eq!(claim(&mut sale, UNLOCK - 1), Err(MyError::TimeLockNotExpired));
    assert_eq!(sale.position, position_before);

    let bump = treasurer_address(&sale).1;
    assert_eq!(claim(&mut sale, UNLOCK), Ok(Release { amount: 100, treasurer_bump: bump }));
    assert_eq!(sale.position, UserPool { amount: 100, currency_amount: 10_000, claimed: 100 });
}

#[test]
fn second_claim_releases_nothing() {
    let mut sale = created_sale();
    start(&mut sale).unwrap();
    buy(&mut sale, 200).unwrap();
    complete(&mut sale).unwrap();
    assert_eq!(claim(&mut sale, UNLOCK + 5).unwrap().amount, 200);
    let position_after_first = sale.position;
    assert_eq!(claim(&mut sale, UNLOCK + 5), Err(MyError::InvalidAmount));
    assert_eq!(claim(&mut sale, UNLOCK + 6), Err(MyError::InvalidAmount));
    assert_eq!(sale.position, position_after_first);
    assert_eq!(sale.position.claimed, sale.position.amount);
}

#[test]
fn operations_out_of_order_are_refused() {
    let mut sale = created_sale();
    // pending: only a start is accepted
    assert_eq!(buy(&mut sale, 100), Err(MyError::InvalidLaunchPoolStatus));
    assert_eq!(complete(&mut sale), Err(MyError::InvalidLaunchPoolStatus));
    assert_eq!(claim(&mut sale, UNLOCK), Err(MyError::InvalidLaunchPoolStatus));
    assert_eq!(sale.pool.status, LaunchPoolState::Pending);
    start(&mut sale).unwrap();
    // active: no second start, no claim
    assert_eq!(start(&mut sale), Err(MyError::InvalidLaunchPoolStatus));
    assert_eq!(claim(&mut sale, UNLOCK), Err(MyError::InvalidLaunchPoolStatus));
    assert_eq!(sale.pool.status, LaunchPoolState::Active);
    buy(&mut sale, 100).unwrap();
    complete(&mut sale).unwrap();
    // completed: no start, no purchase, no second completion
    assert_eq!(start(&mut sale), Err(MyError::InvalidLaunchPoolStatus));
    assert_eq!(buy(&mut sale, 100), Err(MyError::InvalidLaunchPoolStatus));
    assert_eq!(complete(&mut sale), Err(MyError::InvalidLaunchPoolStatus));
    assert_eq!(sale.pool.status, LaunchPoolState::Completed);
    assert_eq!(sale.pool.pool_size_remaining, 900);
}

#[test]
fn cancelled_pool_accepts_nothing() {
    let mut sale = created_sale();
    sale.pool.status = LaunchPoolState::Cancelled;
    let before = sale.pool;
    assert_eq!(start(&mut sale), Err(MyError::InvalidLaunchPoolStatus));
    assert_eq!(buy(&mut sale, 100), Err(MyError::InvalidLaunchPoolStatus));
    assert_eq!(complete(&mut sale), Err(MyError::InvalidLaunchPoolStatus));
    assert_eq!(claim(&mut sale, UNLOCK), Err(MyError::InvalidLaunchPoolStatus));
    assert_eq!(sale.pool, before);
}

#[test]
fn remaining_never_exceeds_size_and_collected_never_falls() {
    let mut sale = created_sale();
    let mut collected = sale.pool.vault_amount;
    assert!(sale.pool.pool_size_remaining <= sale.pool.pool_size);
    start(&mut sale).unwrap();
    assert!(sale.pool.pool_size_remaining <= sale.pool.pool_size);
    for amount in [10u64, 0, 490, 1, 600, 20] {
        let _ = buy(&mut sale, amount);
        assert!(sale.pool.pool_size_remaining <= sale.pool.pool_size);
        assert!(sale.pool.vault_amount >= collected);
        assert!(sale.position.claimed <= sale.position.amount);
        collected = sale.pool.vault_amount;
    }
    assert_eq!(sale.position.amount, 500);
    assert_eq!(sale.pool.pool_size_remaining, 500);
    assert_eq!(sale.pool.vault_amount, 50_000);
    complete(&mut sale).unwrap();
    claim(&mut sale, UNLOCK).unwrap();
    assert!(sale.pool.pool_size_remaining <= sale.pool.pool_size);
    assert_eq!(sale.pool.vault_amount, 50_000);
    assert!(sale.position.claimed <= sale.position.amount);
}

#[test]
fn create_refuses_an_unlock_date_that_is_not_in_the_future() {
    let fresh = CreateFairlaunchPool {
        launch_pool: blank_pool(),
        launch_pool_key: key(2),
        token_mint: key(3),
        treasurer: blank_treasurer(),
        authority: key(1),
    };
    for (unlock_date, now) in [(NOW, NOW), (NOW - 1, NOW), (0, -5), (-1, -5), (i64::MIN, i64::MIN)] {
        let mut ctx = fresh;
        assert_eq!(
            create_fairlaunch_pool::handler(&mut ctx, unlock_date, 1000, 10, 500, 10, 6, now),
            Err(MyError::InvalidUnlockDate)
        );
        assert_eq!(ctx, fresh);
    }
    let mut ctx = fresh;
    assert_eq!(create_fairlaunch_pool::handler(&mut ctx, NOW + 1, 1000, 10, 500, 10, 6, NOW), Ok(()));
    assert_eq!(ctx.launch_pool.unlock_date, NOW + 1);
    let mut ctx = fresh;
    assert_eq!(create_fairlaunch_pool::handler(&mut ctx, 1, 1000, 10, 500, 10, 6, -5), Ok(()));
}

#[test]
fn start_checks_status_then_authority_then_mint() {
    let sale = created_sale();
    let good = StartLaunchPool {
        launch_pool: sale.pool,
        token_mint: sale.mint,
        treasurer: sale.treasurer,
        authority: sale.organizer,
    };

    let mut ctx = StartLaunchPool { authority: key(7), ..good };
    assert_eq!(start_launch_pool::handler(&mut ctx), Err(MyError::InvalidAuthority));
    assert_eq!(ctx, StartLaunchPool { authority: key(7), ..good });

    let mut ctx = StartLaunchPool { token_mint: key(8), ..good };
    assert_eq!(start_launch_pool::handler(&mut ctx), Err(MyError::InvalidTokenMint));
    assert_eq!(ctx, StartLaunchPool { token_mint: key(8), ..good });

    let mut ctx = StartLaunchPool { authority: key(7), token_mint: key(8), ..good };
    assert_eq!(start_launch_pool::handler(&mut ctx), Err(MyError::InvalidAuthority));

    let mut active = good;
    active.launch_pool.status = LaunchPoolState::Active;
    active.authority = key(7);
    active.token_mint = key(8);
    let mut ctx = active;
    assert_eq!(start_launch_pool::handler(&mut ctx), Err(MyError::InvalidLaunchPoolStatus));
    assert_eq!(ctx, active);

    let mut ctx = good;
    assert_eq!(start_launch_pool::handler(&mut ctx), Ok(1000));
    assert_eq!(ctx.launch_pool.status, LaunchPoolState::Active);
    assert_eq!(ctx.launch_pool.pool_size_remaining, 1000);
    assert_eq!(ctx.treasurer.amount, 1000);
    assert_eq!(ctx.treasurer.authority, key(1));
    assert_eq!(ctx.launch_pool.vault_amount, 0);
}

#[test]
fn complete_checks_status_then_authority() {
    let mut sale = created_sale();
    start(&mut sale).unwrap();
    let good = CompleteLaunchPool { launch_pool: sale.pool, authority: sale.organizer };

    let mut ctx = CompleteLaunchPool { authority: key(7), ..good };
    assert_eq!(complete_launch_pool::handler(&mut ctx), Err(MyError::InvalidAuthority));
    assert_eq!(ctx.launch_pool, sale.pool);

    let mut pending = good;
    pending.launch_pool.status = LaunchPoolState::Pending;
    pending.authority = key(7);
    let mut ctx = pending;
    assert_eq!(complete_launch_pool::handler(&mut ctx), Err(MyError::InvalidLaunchPoolStatus));
    assert_eq!(ctx, pending);

    let mut ctx = good;
    assert_eq!(complete_launch_pool::handler(&mut ctx), Ok(()));
    assert_eq!(
        ctx.launch_pool,
        LaunchPool { status: LaunchPoolState::Completed, ..sale.pool }
    );
}

#[test]
fn entry_points_do_what_the_handlers_do() {
    let sale = created_sale();
    let started = StartLaunchPool {
        launch_pool: sale.pool,
        token_mint: sale.mint,
        treasurer: sale.treasurer,
        authority: sale.organizer,
    };
    let mut by_entry = started;
    let mut by_handler = started;
    assert_eq!(
        launchpad::start_launch_pool(&mut by_entry),
        start_launch_pool::handler(&mut by_handler)
    );
    assert_eq!(by_entry, by_handler);

    let bought =
        BuyTokenWithNative { launch_pool: by_entry.launch_pool, user_pool: UserPool::default(), user: key(5) };
    let mut by_entry = bought;
    let mut by_handler = bought;
    assert_eq!(
        launchpad::buy_token_with_native(&mut by_entry, 100),
        buy_token_with_native::handler(&mut by_handler, 100)
    );
    assert_eq!(by_entry, by_handler);
    assert_eq!(by_entry.user_pool.amount, 100);
}
