use vstd::prelude::*;
use vstd::arithmetic::power::{lemma_pow0, lemma_pow_increases, pow};
use vstd::std_specs::convert::TryFromSpecImpl;
use crate::constants::{
    BOOL_SIZE, CURRENCY_DECIMALS, DISCRIMINATOR_SIZE, I64_SIZE, PUBKEY_SIZE, U64_SIZE, U8_SIZE,
};
use crate::errors::MyError;
use crate::pubkey::Pubkey;

verus! {

/// The bump seeds of the addresses that belong to a pool.
#[derive(Clone, Copy, Debug, PartialEq, Eq)]
pub struct LaunchPoolBumps {
    /// Of the pool's own address.
    pub launchpool_bump: u8,
    /// Of the address of the pool's treasurer.
    pub treasurer_bump: u8,
    /// Of the address of the pool's vault.
    pub vault_bump: u8,
}

impl Default for LaunchPoolBumps {
    /// Bump seeds that are all zero.
    fn default() -> (bumps: LaunchPoolBumps)
        ensures
            bumps == (LaunchPoolBumps { launchpool_bump: 0, treasurer_bump: 0, vault_bump: 0 }),
    {
        LaunchPoolBumps { launchpool_bump: 0, treasurer_bump: 0, vault_bump: 0 }
    }
}

/// The currency in which a pool is paid.
#[derive(Clone, Copy, Debug, PartialEq, Eq, Structural)]
pub enum CurrencyType {
    /// The native currency.
    SOL,
    /// The stable asset.
    USDC,
}

impl TryFrom<u8> for CurrencyType {
    type Error = MyError;

    /// The currency with the given tag: 0 is `SOL`, 1 is `USDC`, and no other tag is one.
    fn try_from(val: u8) -> (currency: Result<CurrencyType, MyError>) {
        match val {
            0 => Ok(CurrencyType::SOL),
            1 => Ok(CurrencyType::USDC),
            _ => Err(MyError::InvalidCurrencyType),
        }
    }
}

impl TryFromSpecImpl<u8> for CurrencyType {
    open spec fn obeys_try_from_spec() -> bool {
        true
    }

    open spec fn try_from_spec(val: u8) -> Result<CurrencyType, MyError> {
        if val == 0 {
            Ok(CurrencyType::SOL)
        } else if val == 1 {
            Ok(CurrencyType::USDC)
        } else {
            Err(MyError::InvalidCurrencyType)
        }
    }
}

/// Who may buy from a pool.
#[derive(Clone, Copy, Debug, PartialEq, Eq, Structural)]
pub enum LaunchPoolType {
    /// Anyone.
    FairLaunch,
    /// Only those on a list. No operation here sells from such a pool.
    WhiteList,
}

impl TryFrom<u8> for LaunchPoolType {
    type Error = MyError;

    /// The sale type with the given tag: 0 is `FairLaunch`, 1 is `WhiteList`, and no other
    /// tag is one.
    fn try_from(val: u8) -> (pool_type: Result<LaunchPoolType, MyError>) {
        match val {
            0 => Ok(LaunchPoolType::FairLaunch),
            1 => Ok(LaunchPoolType::WhiteList),
            _ => Err(MyError::InvalidLaunchPoolType),
        }
    }
}

impl TryFromSpecImpl<u8> for LaunchPoolType {
    open spec fn obeys_try_from_spec() -> bool {
        true
    }

    open spec fn try_from_spec(val: u8) -> Result<LaunchPoolType, MyError> {
        if val == 0 {
            Ok(LaunchPoolType::FairLaunch)
        } else if val == 1 {
            Ok(LaunchPoolType::WhiteList)
        } else {
            Err(MyError::InvalidLaunchPoolType)
        }
    }
}

/// Where a pool stands in its life.
#[derive(Clone, Copy, Debug, PartialEq, Eq, Structural)]
pub enum LaunchPoolState {
    /// Created, and not yet funded: nothing can be bought.
    Pending,
    /// Funded: tokens can be bought.
    Active,
    /// Closed by the organizer: what was bought can be claimed from the unlock date on.
    Completed,
    /// Called off. No operation here cancels a pool, and none is accepted on one.
    Cancelled,
}

/// One sale of a fixed supply of a token.
#[derive(Clone, Copy, Debug, PartialEq, Eq)]
pub struct LaunchPool {
    /// Claims are allowed from this time on.
    pub unlock_date: i64,
    /// Token units committed to the sale.
    pub pool_size: u64,
    /// The least a buyer may hold after a purchase.
    pub minimum_token_amount: u64,
    /// The most a buyer may hold after a purchase.
    pub maximum_token_amount: u64,
    /// Token units sold for one unit of currency.
    pub rate: u64,
    /// Token units that can still be bought.
    pub pool_size_remaining: u64,
    /// The mint of the token on sale.
    pub token_mint: Pubkey,
    /// Decimal places of the token on sale.
    pub token_mint_decimals: u8,
    /// The organizer of the sale.
    pub authority: Pubkey,
    /// Currency units collected so far.
    pub vault_amount: u64,
    /// Whether the tokens sold vest. No operation sets it but `initialize`, which clears it.
    pub is_vesting: bool,
    /// The currency in which the pool is paid.
    pub currency: CurrencyType,
    /// Who may buy from the pool.
    pub pool_type: LaunchPoolType,
    /// Where the pool stands in its life.
    pub status: LaunchPoolState,
}

/// The currency amount owed for `amount` token units at `rate` token units per currency unit:
/// the whole number of currency units, `amount / rate`, rescaled from `token_decimals` to
/// `currency_decimals` decimal places and rounded down.
///
/// The division by `rate` comes first, so an `amount` below `rate` is owed nothing. The powers
/// of ten and the product are formed in 128 bits and the result is narrowed to 64 bits: where
/// `rate` is zero or one of these has no exact value in its width, `Overflow` is the result.
pub open spec fn spec_price_of(amount: u64, rate: u64, token_decimals: u8, currency_decimals: u32) -> Result<u64, MyError> {
    let scale = pow(10, currency_decimals as nat);
    let unit = pow(10, token_decimals as nat);
    if rate == 0 || scale > u128::MAX || unit > u128::MAX {
        Err(MyError::Overflow)
    } else {
        let scaled = (amount / rate) * scale;
        if scaled > u128::MAX || scaled / unit > u64::MAX {
            Err(MyError::Overflow)
        } else {
            Ok((scaled / unit) as u64)
        }
    }
}

/// Ten to the power `exponent`, or `None` where that does not fit in 128 bits.
fn pow10(exponent: u32) -> (power: Option<u128>)
    ensures
        match power {
            Some(p) => p == pow(10, exponent as nat),
            None => pow(10, exponent as nat) > u128::MAX,
        },
{
    let mut power: u128 = 1;
    let mut done: u32 = 0;
    proof {
        lemma_pow0(10);
    }
    while done < exponent
        invariant
            done <= exponent,
            power == pow(10, done as nat),
        decreases exponent - done,
    {
        proof {
            reveal(pow);
            assert(pow(10, (done + 1) as nat) == 10 * pow(10, done as nat));
        }
        match power.checked_mul(10) {
            Some(next) => {
                power = next;
            },
            None => {
                proof {
                    lemma_pow_increases(10, (done + 1) as nat, exponent as nat);
                }
                return None;
            },
        }
        done += 1;
    }
    Some(power)
}

/// The currency amount owed for `amount` token units: see [`spec_price_of`].
pub fn price_of(amount: u64, rate: u64, token_decimals: u8, currency_decimals: u32) -> (price: Result<u64, MyError>)
    ensures
        price == spec_price_of(amount, rate, token_decimals, currency_decimals),
{
    let scale = match pow10(currency_decimals) {
        Some(scale) => scale,
        None => {
            return Err(MyError::Overflow);
        },
    };
    let unit = match pow10(token_decimals as u32) {
        Some(unit) => unit,
        None => {
            return Err(MyError::Overflow);
        },
    };
    if rate == 0 {
        return Err(MyError::Overflow);
    }
    let whole = amount / rate;
    let scaled = match (whole as u128).checked_mul(scale) {
        Some(scaled) => scaled,
        None => {
            return Err(MyError::Overflow);
        },
    };
    proof {
        lemma_pow_positive_ten(token_decimals as nat);
    }
    let owed = scaled / unit;
    if owed > u64::MAX as u128 {
        return Err(MyError::Overflow);
    }
    Ok(owed as u64)
}

/// A power of ten is at least one.
proof fn lemma_pow_positive_ten(exponent: nat)
    ensures
        pow(10, exponent) >= 1,
{
    lemma_pow0(10);
    lemma_pow_increases(10, 0, exponent);
}

impl LaunchPool {
    /// Bytes that a stored pool takes.
    pub const LEN: usize = DISCRIMINATOR_SIZE + I64_SIZE + U64_SIZE + U64_SIZE + U64_SIZE + U64_SIZE
        + U64_SIZE + PUBKEY_SIZE + U8_SIZE + PUBKEY_SIZE + U64_SIZE + BOOL_SIZE + 1 + 1 + 1 + 1 + 1
        + 1;

    /// No more can be left to buy than was committed.
    pub open spec fn well_formed(&self) -> bool {
        self.pool_size_remaining <= self.pool_size
    }

    /// The pool as `initialize` leaves it: configured as given, with nothing to buy yet,
    /// nothing collected, and pending.
    pub open spec fn spec_new(
        unlock_date: i64,
        pool_size: u64,
        minimum_token_amount: u64,
        maximum_token_amount: u64,
        rate: u64,
        token_mint_decimals: u8,
        token_mint: Pubkey,
        authority: Pubkey,
        currency: CurrencyType,
        pool_type: LaunchPoolType,
    ) -> LaunchPool {
        LaunchPool {
            unlock_date,
            pool_size,
            minimum_token_amount,
            maximum_token_amount,
            rate,
            pool_size_remaining: 0,
            token_mint,
            token_mint_decimals,
            authority,
            vault_amount: 0,
            is_vesting: false,
            currency,
            pool_type,
            status: LaunchPoolState::Pending,
        }
    }

    /// Configures the pool, at time `now`. The unlock date must lie after `now`: otherwise
    /// the pool is left as it was and `InvalidUnlockDate` is returned.
    pub fn initialize(
        &mut self,
        unlock_date: i64,
        pool_size: u64,
        minimum_token_amount: u64,
        maximum_token_amount: u64,
        rate: u64,
        token_mint_decimals: u8,
        token_mint: Pubkey,
        authority: Pubkey,
        currency: CurrencyType,
        pool_type: LaunchPoolType,
        now: i64,
    ) -> (done: Result<(), MyError>)
        ensures
            unlock_date > now ==> done == Ok::<(), MyError>(()) && *final(self) == Self::spec_new(
                unlock_date,
                pool_size,
                minimum_token_amount,
                maximum_token_amount,
                rate,
                token_mint_decimals,
                token_mint,
                authority,
                currency,
                pool_type,
            ),
            unlock_date <= now ==> done == Err::<(), MyError>(MyError::InvalidUnlockDate) && *final(self)
                == *old(self),
    {
        if unlock_date <= now {
            return Err(MyError::InvalidUnlockDate);
        }
        self.unlock_date = unlock_date;
        self.pool_size = pool_size;
        self.minimum_token_amount = minimum_token_amount;
        self.maximum_token_amount = maximum_token_amount;
        self.rate = rate;
        self.pool_size_remaining = 0;
        self.token_mint = token_mint;
        self.token_mint_decimals = token_mint_decimals;
        self.authority = authority;
        self.vault_amount = 0;
        self.currency = currency;
        self.pool_type = pool_type;
        self.status = LaunchPoolState::Pending;
        self.is_vesting = false;
        Ok(())
    }

    /// The currency amount that a buyer owes this pool for `amount` token units.
    pub open spec fn spec_calculate_user_must_pay(&self, amount: u64) -> Result<u64, MyError> {
        spec_price_of(amount, self.rate, self.token_mint_decimals, CURRENCY_DECIMALS)
    }

    /// The currency amount that a buyer owes this pool for `amount` token units, at the
    /// pool's rate and from the token's decimals to those of the currency.
    pub fn calculate_user_must_pay(&self, amount: u64) -> (owed: Result<u64, MyError>)
        ensures
            owed == self.spec_calculate_user_must_pay(amount),
    {
        price_of(amount, self.rate, self.token_mint_decimals, CURRENCY_DECIMALS)
    }
}

} // verus!
