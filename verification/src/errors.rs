//! The errors that the vault's rules report.
use vstd::prelude::*;

verus! {

/// Why an instruction was refused.
#[derive(Clone, Copy, Debug, PartialEq, Eq, Structural)]
pub enum VaultError {
    // Access control
    /// Only the owner can perform this action.
    UnauthorizedOwner,
    /// Only the operator can perform this action.
    UnauthorizedOperator,
    /// The signer is neither the owner nor the operator.
    Unauthorized,
    // State
    /// The vault is paused.
    VaultPaused,
    /// The pool is not active.
    PoolNotActive,
    /// The pool is still active.
    PoolAlreadyActive,
    // Deposits and withdrawals
    /// A deposit (or an inflow) of zero.
    ZeroDeposit,
    /// A withdrawal (or an outflow) of zero.
    ZeroWithdrawal,
    /// The shares account holds fewer shares than asked for.
    InsufficientShares,
    /// The vault cannot pay out the amount.
    InsufficientLiquidity,
    /// The pool's daily withdrawal limit would be exceeded.
    DailyLimitExceeded,
    /// The deposit is below the minimum amount.
    MinimumDepositNotMet,
    // Arithmetic
    /// A result does not fit in its integer type.
    MathOverflow,
    /// The share computation failed or came out as zero.
    InvalidSharesCalculation,
    /// Division by zero.
    DivisionByZero,
    // Withdrawal queue
    /// A withdrawal request exists already.
    WithdrawalRequestExists,
    /// The withdrawal request is not in the state the instruction needs.
    WithdrawalRequestNotFound,
    /// The withdrawal request has been processed already.
    WithdrawalAlreadyProcessed,
    /// The user does not match the withdrawal request.
    UserMismatch,
    // Configuration
    /// A fee above 10000 basis points.
    InvalidFee,
    /// A token account of the wrong mint.
    InvalidTokenMint,
    /// The fee receiver's token account is not owned by the fee receiver.
    InvalidFeeReceiverAccount,
    /// The token is whitelisted already.
    TokenAlreadyWhitelisted,
}

} // verus!
