//! User instructions: deposit, instant withdrawal, and the withdrawal queue.
use vstd::prelude::*;

use crate::errors::VaultError;
use crate::pubkey::Pubkey;
use crate::state::{TokenAccountData, VaultConfig, VaultPool, WithdrawalRequest};
use crate::utils::{calculate_net_after_fee, spec_calculate_net_after_fee, MIN_DEPOSIT_AMOUNT};

verus! {

/// What an instant withdrawal or a processed request pays out.
#[derive(Clone, Copy, Debug, PartialEq, Eq, Structural)]
pub struct WithdrawPlan {
    /// Gross assets the redeemed shares are worth.
    pub assets_to_return: u64,
    /// What the user receives: the gross assets less the fee.
    pub net_amount: u64,
    /// What the fee receiver receives.
    pub fee_amount: u64,
}

/// The outcome of a deposit's checks: the shares to mint, or why the deposit
/// is refused (checked in this order).
pub open spec fn spec_deposit(
    config: VaultConfig,
    pool: VaultPool,
    user_token_account: TokenAccountData,
    user_shares_account: TokenAccountData,
    amount: u64,
) -> Result<u64, VaultError> {
    if config.is_paused {
        Err(VaultError::VaultPaused)
    } else if !pool.is_active {
        Err(VaultError::PoolNotActive)
    } else if user_token_account.mint@ != pool.token_mint@ {
        Err(VaultError::InvalidTokenMint)
    } else if user_shares_account.mint@ != pool.shares_mint@ {
        Err(VaultError::InvalidTokenMint)
    } else if amount == 0 {
        Err(VaultError::ZeroDeposit)
    } else if amount < MIN_DEPOSIT_AMOUNT {
        Err(VaultError::MinimumDepositNotMet)
    } else {
        match pool.spec_shares_to_mint(amount) {
            Some(shares) => if shares > 0 {
                Ok(shares)
            } else {
                Err(VaultError::InvalidSharesCalculation)
            },
            None => Err(VaultError::InvalidSharesCalculation),
        }
    }
}

/// Deposits `amount`: checks it, computes the shares to mint and books the
/// deposit in the pool (assets and shares both grow). Returns the shares to
/// mint; the caller moves `amount` into the vault and mints the shares.
/// Refused (with the first failing check, or `MathOverflow` where a total
/// would overflow), the pool is unchanged.
pub fn deposit_handler(
    config: &VaultConfig,
    pool: &mut VaultPool,
    user_token_account: &TokenAccountData,
    user_shares_account: &TokenAccountData,
    amount: u64,
) -> (r: Result<u64, VaultError>)
    ensures
        match spec_deposit(*config, *old(pool), *user_token_account, *user_shares_account, amount) {
            Ok(shares) => if old(pool).deposit_fits(amount, shares) {
                r == Ok::<u64, VaultError>(shares) && *final(pool) == old(pool).after_deposit(
                    amount,
                    shares,
                )
            } else {
                r == Err::<u64, VaultError>(VaultError::MathOverflow) && *final(pool) == *old(pool)
            },
            Err(e) => r == Err::<u64, VaultError>(e) && *final(pool) == *old(pool),
        },
{
    if config.is_paused {
        return Err(VaultError::VaultPaused);
    }
    if !pool.is_active {
        return Err(VaultError::PoolNotActive);
    }
    if user_token_account.mint != pool.token_mint {
        return Err(VaultError::InvalidTokenMint);
    }
    if user_shares_account.mint != pool.shares_mint {
        return Err(VaultError::InvalidTokenMint);
    }
    if amount == 0 {
        return Err(VaultError::ZeroDeposit);
    }
    if amount < MIN_DEPOSIT_AMOUNT {
        return Err(VaultError::MinimumDepositNotMet);
    }
    let shares_to_mint = match pool.calculate_shares_to_mint(amount) {
        Some(s) => s,
        None => return Err(VaultError::InvalidSharesCalculation),
    };
    if shares_to_mint == 0 {
        return Err(VaultError::InvalidSharesCalculation);
    }
    match pool.record_deposit(amount, shares_to_mint) {
        Ok(()) => Ok(shares_to_mint),
        Err(e) => Err(e),
    }
}

/// What an instant withdrawal comes to: a payout, or (over the daily limit)
/// a queued request.
#[derive(Clone, Copy, Debug)]
pub enum WithdrawOutcome {
    /// The shares are redeemed now.
    Paid(WithdrawPlan),
    /// The withdrawal exceeds the daily limit and enters the withdrawal
    /// queue as this pending request; nothing is paid now.
    Queued(WithdrawalRequest),
}

/// The outcome of an instant withdrawal's checks at `current_timestamp` by
/// `user` from the pool at address `vault_pool`: the payout, the request it
/// is queued as when it exceeds the daily limit (refused with
/// `WithdrawalRequestExists` where the user has a request already), or why
/// it is refused (checked in this order).
pub open spec fn spec_withdraw(
    config: VaultConfig,
    pool: VaultPool,
    user_token_account: TokenAccountData,
    user_shares_account: TokenAccountData,
    fee_receiver_account: TokenAccountData,
    token_vault: TokenAccountData,
    user: Pubkey,
    vault_pool: Pubkey,
    shares_amount: u64,
    current_timestamp: i64,
    request_bump: u8,
    request_exists: bool,
) -> Result<WithdrawOutcome, VaultError> {
    if config.is_paused {
        Err(VaultError::VaultPaused)
    } else if !pool.is_active {
        Err(VaultError::PoolNotActive)
    } else if user_token_account.mint@ != pool.token_mint@ {
        Err(VaultError::InvalidTokenMint)
    } else if user_shares_account.mint@ != pool.shares_mint@ {
        Err(VaultError::InvalidTokenMint)
    } else if fee_receiver_account.mint@ != pool.token_mint@ {
        Err(VaultError::InvalidTokenMint)
    } else if shares_amount == 0 {
        Err(VaultError::ZeroWithdrawal)
    } else if user_shares_account.amount < shares_amount {
        Err(VaultError::InsufficientShares)
    } else {
        match pool.spec_assets_to_return(shares_amount) {
            None => Err(VaultError::InvalidSharesCalculation),
            Some(assets) => if token_vault.amount < assets {
                Err(VaultError::InsufficientLiquidity)
            } else if pool.with_daily_reset(current_timestamp).spec_exceeds_daily_limit(assets) {
                if request_exists {
                    Err(VaultError::WithdrawalRequestExists)
                } else {
                    Ok(
                        WithdrawOutcome::Queued(
                            WithdrawalRequest {
                                user,
                                vault_pool,
                                shares_amount,
                                requested_at: current_timestamp,
                                is_processed: false,
                                bump: request_bump,
                            },
                        ),
                    )
                }
            } else {
                match spec_calculate_net_after_fee(assets, config.withdrawal_fee_bps) {
                    None => Err(VaultError::MathOverflow),
                    Some((net, fee)) => Ok(
                        WithdrawOutcome::Paid(
                            WithdrawPlan {
                                assets_to_return: assets,
                                net_amount: net,
                                fee_amount: fee,
                            },
                        ),
                    ),
                }
            },
        }
    }
}

/// An instant withdrawal of `shares_amount` shares by `user` at
/// `current_timestamp`. When granted and within the daily limit, the
/// redemption is booked in the pool (daily counter restarted on a new day,
/// assets counted against the day) and the payout returned; the caller burns
/// the shares and pays the net amount and the fee. Over the daily limit, the
/// withdrawal is queued instead: the pending request is returned for the
/// caller to store, and the pool is unchanged. Refused (with the first
/// failing check, or `MathOverflow` where booking would overflow), the pool
/// is unchanged.
pub fn withdraw_handler(
    config: &VaultConfig,
    pool: &mut VaultPool,
    user_token_account: &TokenAccountData,
    user_shares_account: &TokenAccountData,
    fee_receiver_account: &TokenAccountData,
    token_vault: &TokenAccountData,
    user: Pubkey,
    vault_pool: Pubkey,
    shares_amount: u64,
    current_timestamp: i64,
    request_bump: u8,
    request_exists: bool,
) -> (r: Result<WithdrawOutcome, VaultError>)
    ensures
        match spec_withdraw(
            *config,
            *old(pool),
            *user_token_account,
            *user_shares_account,
            *fee_receiver_account,
            *token_vault,
            user,
            vault_pool,
            shares_amount,
            current_timestamp,
            request_bump,
            request_exists,
        ) {
            Ok(WithdrawOutcome::Paid(plan)) => if old(pool).withdrawal_fits(
                shares_amount,
                plan.assets_to_return,
                current_timestamp,
            ) {
                r == Ok::<WithdrawOutcome, VaultError>(WithdrawOutcome::Paid(plan)) && *final(pool)
                    == old(pool).after_withdrawal(
                    shares_amount,
                    plan.assets_to_return,
                    current_timestamp,
                )
            } else {
                r == Err::<WithdrawOutcome, VaultError>(VaultError::MathOverflow) && *final(pool)
                    == *old(pool)
            },
            Ok(WithdrawOutcome::Queued(request)) => r == Ok::<WithdrawOutcome, VaultError>(
                WithdrawOutcome::Queued(request),
            ) && *final(pool) == *old(pool),
            Err(e) => r == Err::<WithdrawOutcome, VaultError>(e) && *final(pool) == *old(pool),
        },
{
    if config.is_paused {
        return Err(VaultError::VaultPaused);
    }
    if !pool.is_active {
        return Err(VaultError::PoolNotActive);
    }
    if user_token_account.mint != pool.token_mint {
        return Err(VaultError::InvalidTokenMint);
    }
    if user_shares_account.mint != pool.shares_mint {
        return Err(VaultError::InvalidTokenMint);
    }
    if fee_receiver_account.mint != pool.token_mint {
        return Err(VaultError::InvalidTokenMint);
    }
    if shares_amount == 0 {
        return Err(VaultError::ZeroWithdrawal);
    }
    if user_shares_account.amount < shares_amount {
        return Err(VaultError::InsufficientShares);
    }
    let assets_to_return = match pool.calculate_assets_to_return(shares_amount) {
        Some(a) => a,
        None => return Err(VaultError::InvalidSharesCalculation),
    };
    if token_vault.amount < assets_to_return {
        return Err(VaultError::InsufficientLiquidity);
    }
    let mut today = *pool;
    if today.should_reset_daily_limit(current_timestamp) {
        today.withdrawn_today = 0;
        today.last_withdrawal_day = current_timestamp;
    }
    if today.exceeds_daily_limit(assets_to_return) {
        if request_exists {
            return Err(VaultError::WithdrawalRequestExists);
        }
        return Ok(
            WithdrawOutcome::Queued(
                WithdrawalRequest {
                    user,
                    vault_pool,
                    shares_amount,
                    requested_at: current_timestamp,
                    is_processed: false,
                    bump: request_bump,
                },
            ),
        );
    }
    let (net_amount, fee_amount) = match calculate_net_after_fee(
        assets_to_return,
        config.withdrawal_fee_bps,
    ) {
        Some(split) => split,
        None => return Err(VaultError::MathOverflow),
    };
    match pool.record_withdrawal(shares_amount, assets_to_return, current_timestamp) {
        Ok(()) => Ok(WithdrawOutcome::Paid(WithdrawPlan { assets_to_return, net_amount, fee_amount })),
        Err(e) => Err(e),
    }
}

/// The request that `request_withdrawal_handler` creates, or why it is
/// refused.
pub open spec fn spec_request_withdrawal(
    config: VaultConfig,
    pool: VaultPool,
    user: Pubkey,
    vault_pool: Pubkey,
    shares_amount: u64,
    current_timestamp: i64,
    bump: u8,
) -> Result<WithdrawalRequest, VaultError> {
    if config.is_paused {
        Err(VaultError::VaultPaused)
    } else if !pool.is_active {
        Err(VaultError::PoolNotActive)
    } else if shares_amount == 0 {
        Err(VaultError::ZeroWithdrawal)
    } else {
        Ok(
            WithdrawalRequest {
                user,
                vault_pool,
                shares_amount,
                requested_at: current_timestamp,
                is_processed: false,
                bump,
            },
        )
    }
}

/// Creates a pending request to redeem `shares_amount` shares of the pool at
/// address `vault_pool` through the withdrawal queue.
pub fn request_withdrawal_handler(
    config: &VaultConfig,
    pool: &VaultPool,
    user: Pubkey,
    vault_pool: Pubkey,
    shares_amount: u64,
    current_timestamp: i64,
    bump: u8,
) -> (r: Result<WithdrawalRequest, VaultError>)
    ensures
        r == spec_request_withdrawal(
            *config,
            *pool,
            user,
            vault_pool,
            shares_amount,
            current_timestamp,
            bump,
        ),
{
    if config.is_paused {
        return Err(VaultError::VaultPaused);
    }
    if !pool.is_active {
        return Err(VaultError::PoolNotActive);
    }
    if shares_amount == 0 {
        return Err(VaultError::ZeroWithdrawal);
    }
    Ok(
        WithdrawalRequest {
            user,
            vault_pool,
            shares_amount,
            requested_at: current_timestamp,
            is_processed: false,
            bump,
        },
    )
}

/// Checks that `user` may cancel (close) a withdrawal request: only the
/// request's own user, and only while it has not been processed. Another
/// signer is refused with `UserMismatch`, the vault's own error for a user
/// who does not match the request (this check was a bare account constraint
/// before, with a generic constraint error).
pub fn cancel_withdrawal_handler(withdrawal_request: &WithdrawalRequest, user: &Pubkey) -> (r: Result<
    (),
    VaultError,
>)
    ensures
        r == (if user@ != withdrawal_request.user@ {
            Err(VaultError::UserMismatch)
        } else if withdrawal_request.is_processed {
            Err(VaultError::WithdrawalAlreadyProcessed)
        } else {
            Ok(())
        }),
{
    if *user != withdrawal_request.user {
        return Err(VaultError::UserMismatch);
    }
    if withdrawal_request.is_processed {
        return Err(VaultError::WithdrawalAlreadyProcessed);
    }
    Ok(())
}

} // verus!
