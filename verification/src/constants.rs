use vstd::prelude::*;

verus! {

/// Bytes taken by the tag that precedes every stored record.
pub const DISCRIMINATOR_SIZE: usize = 8;

/// Bytes taken by an address.
pub const PUBKEY_SIZE: usize = 32;

/// Bytes taken by a stored `u8`.
pub const U8_SIZE: usize = 1;

/// Bytes taken by a stored `u32`.
pub const U32_SIZE: usize = 4;

/// Bytes taken by a stored `u64`.
pub const U64_SIZE: usize = 8;

/// Bytes taken by a stored `u128`.
pub const U128_SIZE: usize = 16;

/// Bytes taken by a stored `i64`.
pub const I64_SIZE: usize = 8;

/// Bytes taken by a stored `bool`.
pub const BOOL_SIZE: usize = 1;

/// Bytes taken by the length that precedes a stored vector.
pub const VECTOR_OVERHEAD_SIZE: usize = 4;

/// Bytes taken by the length that precedes a stored string.
pub const STRING_PREFIX_SIZE: usize = 4;

/// `launchpool`: first seed of a pool's address.
pub const LAUNCH_POOL_SEED: [u8; 10] = [108, 97, 117, 110, 99, 104, 112, 111, 111, 108];

/// `treasurer`: first seed of a treasurer's address.
pub const TREASURER_SEED: [u8; 9] = [116, 114, 101, 97, 115, 117, 114, 101, 114];

/// `vault`: first seed of a vault's address.
pub const VAULT_SEED: [u8; 5] = [118, 97, 117, 108, 116];

/// `userpool`: first seed of a buyer position's address.
pub const USER_POOL_SEED: [u8; 8] = [117, 115, 101, 114, 112, 111, 111, 108];

/// `whitelist`: first seed of a whitelist's address.
pub const WHITELIST_SEED: [u8; 9] = [119, 104, 105, 116, 101, 108, 105, 115, 116];

/// `vestingplan`: first seed of a vesting plan's address.
pub const VESTING_PLAN_SEED: [u8; 11] = [118, 101, 115, 116, 105, 110, 103, 112, 108, 97, 110];

/// Decimal places of the currency in which purchases are paid.
pub const CURRENCY_DECIMALS: u32 = 9;

} // verus!
