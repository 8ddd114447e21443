use vstd::prelude::*;

verus! {

/// Every reason for which an operation on a launch pool is refused.
///
/// An operation that returns one of these has changed nothing.
#[derive(Clone, Copy, Debug, PartialEq, Eq, Structural)]
pub enum MyError {
    /// The authority is not authorized to initialize the program.
    MutationForbidden,
    /// Invalid instruction.
    InvalidInstruction,
    /// The unlock date is not strictly in the future.
    InvalidUnlockDate,
    /// The caller is not the pool's authority.
    InvalidAuthority,
    /// The token mint is not the one the pool was created for.
    InvalidTokenMint,
    /// The pool is not in the status that the operation needs.
    InvalidLaunchPoolStatus,
    /// The pool does not take the currency offered.
    InvalidCurrencyType,
    /// Pool not enough to buy.
    PoolNotEnough,
    /// The amount is zero, or nothing is owed for it or left to claim.
    InvalidAmount,
    /// The purchase would lift the buyer above the per-buyer maximum.
    MaximumTokenAmountReached,
    /// The unlock date has not been reached.
    TimeLockNotExpired,
    /// Cannot find treasurer account.
    NoBump,
    /// The purchase would leave the buyer below the per-buyer minimum.
    MinimumTokenAmountNotReached,
    /// Invalid creator.
    InvalidCreator,
    /// The pool has fewer tokens left than were asked for.
    PoolSizeRemainingNotEnough,
    /// The treasurer presented is not the one derived for this pool and mint.
    InvalidTreasurer,
    /// Invalid vault.
    InvalidVault,
    /// Invalid launch pool.
    InvalidLaunchPool,
    /// White list is full.
    WhitelistFulled,
    /// Wallet already added.
    WalletAlreadyAdded,
    /// Wallet not in list.
    WalletNotInList,
    /// Unable to cast number into BigInt.
    NumberCastError,
    /// Invalid whitelist.
    InvalidWhitelist,
    /// The pool's sale type does not admit the operation.
    InvalidLaunchPoolType,
    /// Wallets must not be empty.
    WalletsMustNotBeEmpty,
    /// Whitelist not enough space.
    WhitelistNotEnoughSpace,
    /// Launch pool already completed.
    LaunchPoolAlreadyCompleted,
    /// User not in whitelist.
    UserNotInWhiteList,
    /// A step of the arithmetic has no exact value in the integer width used for it.
    Overflow,
    /// Invalid vesting plan.
    InvalidVestingPlan,
    /// Invalid schedule size.
    InvalidScheduleSize,
}

} // verus!
