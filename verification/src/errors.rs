use vstd::prelude::*;

verus! {

/// Every way an operation on the pool can fail. All failures are surfaced
/// synchronously to the caller and abort the operation with no state change.
#[derive(Clone, Copy, PartialEq, Eq, Structural, Debug)]
pub enum PoolError {
    /// Only the admin authority can perform this action.
    UnauthorizedAdmin,
    /// Only the oracle authority can update the exchange rate.
    UnauthorizedOracle,
    /// Only the fee collector can withdraw fees.
    UnauthorizedFeeCollector,
    /// Only the authorized executor can process batch withdrawals.
    UnauthorizedExecutor,
    /// The pool is currently paused.
    PoolPaused,
    /// The pool is frozen.
    PoolFrozen,
    /// Deposits are disabled.
    DepositsDisabled,
    /// Withdrawals are disabled.
    WithdrawalsDisabled,
    /// The result is worse than the caller's slippage floor.
    SlippageExceeded,
    /// The reserve cannot cover the withdrawal.
    InsufficientReserves,
    /// The accumulated fees cannot cover the withdrawal.
    InsufficientAccumulatedFees,
    /// The exchange rate must be greater than 0.
    InvalidExchangeRate,
    /// A fee rate must be at most 10000 basis points.
    InvalidFeeRate,
    /// The token account's owner is not the expected identity.
    TokenAccountOwnerMismatch,
    /// The token account's mint is not the expected asset.
    MintMismatch,
    /// An addition or multiplication does not fit the word size.
    MathematicalOverflow,
    /// A subtraction would go below zero.
    MathematicalUnderflow,
    /// A divisor was zero.
    DivisionByZero,
    /// A configuration parameter is out of range.
    InvalidConfigParameter,
    /// The caller's account balance cannot cover the operation.
    InsufficientAccountBalance,
    /// A zero amount is not allowed here.
    ZeroAmountNotAllowed,
    /// The amount is not acceptable.
    InvalidAmount,
    /// The delegated allowance cannot cover the requested amount.
    InsufficientApproval,
    /// The delegate on the account is not the pool authority.
    InvalidDelegate,
    /// The reserve-currency mint is not the expected one.
    InvalidUsdcMint,
    /// A batch must not be larger than the queue.
    EmptyWithdrawalBatch,
    /// A batch may hold at most 10 withdrawals.
    BatchSizeTooLarge,
    /// No queue entry belongs to this user, or the supplied account does not.
    InvalidUserAccount,
    /// Exactly two accounts per queued user must be supplied.
    InvalidAccountsCount,
    /// A supplied account's mint does not match the pool's assets.
    InvalidMint,
    /// The account is not delegated to the pool authority.
    NotDelegated,
    /// The delegated amount is below the queued amount.
    InsufficientDelegation,
    /// The deposit would push the share supply over its cap.
    MaxTotalSupplyExceeded,
    /// The withdrawal queue is at capacity.
    QueueFull,
    /// The user already has a pending withdrawal request.
    AlreadyInQueue,
    /// An authority identity must not be the null identity.
    InvalidAuthority,
}

impl PoolError {
    /// A short description, for hosts that want to report the failure.
    pub fn message(self) -> &'static str {
        match self {
            PoolError::UnauthorizedAdmin => "Unauthorized: Only admin can perform this action",
            PoolError::UnauthorizedOracle => "Unauthorized: Only oracle can update exchange rate",
            PoolError::UnauthorizedFeeCollector => "Unauthorized: Only fee collector can withdraw fees",
            PoolError::UnauthorizedExecutor => "Unauthorized: Only authorized executor can process batch withdrawals",
            PoolError::PoolPaused => "Pool is currently paused",
            PoolError::PoolFrozen => "Pool is frozen",
            PoolError::DepositsDisabled => "Deposits are disabled",
            PoolError::WithdrawalsDisabled => "Withdrawals are disabled",
            PoolError::SlippageExceeded => "Slippage tolerance exceeded",
            PoolError::InsufficientReserves => "Insufficient reserves for withdrawal",
            PoolError::InsufficientAccumulatedFees => "Insufficient accumulated fees",
            PoolError::InvalidExchangeRate => "Invalid exchange rate - must be greater than 0",
            PoolError::InvalidFeeRate => "Invalid fee rate - must be less than 10000 basis points",
            PoolError::TokenAccountOwnerMismatch => "Token account owner mismatch",
            PoolError::MintMismatch => "Mint mismatch",
            PoolError::MathematicalOverflow => "Mathematical overflow",
            PoolError::MathematicalUnderflow => "Mathematical underflow",
            PoolError::DivisionByZero => "Division by zero",
            PoolError::InvalidConfigParameter => "Invalid configuration parameter",
            PoolError::InsufficientAccountBalance => "Insufficient account balance",
            PoolError::ZeroAmountNotAllowed => "Zero amount not allowed",
            PoolError::InvalidAmount => "Invalid amount",
            PoolError::InsufficientApproval => "Insufficient approval for token operation",
            PoolError::InvalidDelegate => "Invalid delegate authority",
            PoolError::InvalidUsdcMint => "Invalid USDC mint address",
            PoolError::EmptyWithdrawalBatch => "Empty withdrawal batch not allowed",
            PoolError::BatchSizeTooLarge => "Batch size too large - maximum 10 withdrawals per transaction",
            PoolError::InvalidUserAccount => "Invalid user account",
            PoolError::InvalidAccountsCount => "Invalid accounts count - must provide 2 accounts per user",
            PoolError::InvalidMint => "Invalid mint address",
            PoolError::NotDelegated => "Token not delegated to pool authority",
            PoolError::InsufficientDelegation => "Insufficient delegation amount",
            PoolError::MaxTotalSupplyExceeded => "Maximum total supply exceeded - deposit would exceed max_total_supply limit",
            PoolError::QueueFull => "Withdrawal queue is full - maximum capacity reached",
            PoolError::AlreadyInQueue => "User already has a pending withdrawal request",
            PoolError::InvalidAuthority => "Invalid authority pubkey - cannot be default pubkey",
        }
    }
}

} // verus!
