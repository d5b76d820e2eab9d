//! Operator instructions: yield injection, strategy fund movements, and the
//! processing of queued withdrawals. The owner may send them too.
use vstd::prelude::*;

use crate::errors::VaultError;
use crate::instructions::user::WithdrawPlan;
use crate::pubkey::Pubkey;
use crate::state::{TokenAccountData, VaultConfig, VaultPool, WithdrawalRequest};
use crate::utils::{
    calculate_fee, calculate_net_after_fee, spec_calculate_fee, spec_calculate_net_after_fee,
};

verus! {

/// How injected yield is split.
#[derive(Clone, Copy, Debug, PartialEq, Eq, Structural)]
pub struct YieldPlan {
    /// The performance fee, paid to the fee receiver.
    pub fee_amount: u64,
    /// The rest, added to the pool's assets.
    pub net_yield: u64,
}

/// The split of injected yield, or why the injection is refused (checked in
/// this order).
pub open spec fn spec_inject_yield(
    config: VaultConfig,
    pool: VaultPool,
    authority: Pubkey,
    yield_source: TokenAccountData,
    fee_receiver_account: TokenAccountData,
    yield_amount: u64,
) -> Result<YieldPlan, VaultError> {
    if !config.spec_is_authorized(authority) {
        Err(VaultError::Unauthorized)
    } else if config.is_paused {
        Err(VaultError::VaultPaused)
    } else if !pool.is_active {
        Err(VaultError::PoolNotActive)
    } else if yield_source.mint@ != pool.token_mint@ {
        Err(VaultError::InvalidTokenMint)
    } else if fee_receiver_account.mint@ != pool.token_mint@ {
        Err(VaultError::InvalidTokenMint)
    } else if yield_amount == 0 {
        Err(VaultError::ZeroDeposit)
    } else {
        match spec_calculate_fee(yield_amount, config.performance_fee_bps) {
            None => Err(VaultError::MathOverflow),
            Some(fee) => if fee > yield_amount {
                Err(VaultError::MathOverflow)
            } else {
                Ok(YieldPlan { fee_amount: fee, net_yield: (yield_amount - fee) as u64 })
            },
        }
    }
}

/// Injects `yield_amount` of yield by `authority`: checks it, splits it into
/// the performance fee and the net yield, and books the net yield in the pool
/// (auto-compounding: more assets for the same shares). The caller moves the
/// net yield into the vault and the fee to the fee receiver. Refused (with the
/// first failing check, or `MathOverflow` where the assets would overflow),
/// the pool is unchanged.
pub fn inject_yield_handler(
    config: &VaultConfig,
    pool: &mut VaultPool,
    authority: &Pubkey,
    yield_source: &TokenAccountData,
    fee_receiver_account: &TokenAccountData,
    yield_amount: u64,
) -> (r: Result<YieldPlan, VaultError>)
    ensures
        match spec_inject_yield(
            *config,
            *old(pool),
            *authority,
            *yield_source,
            *fee_receiver_account,
            yield_amount,
        ) {
            Ok(plan) => if old(pool).total_assets + plan.net_yield <= u64::MAX {
                r == Ok::<YieldPlan, VaultError>(plan) && *final(pool) == (VaultPool {
                    total_assets: (old(pool).total_assets + plan.net_yield) as u64,
                    ..*old(pool)
                })
            } else {
                r == Err::<YieldPlan, VaultError>(VaultError::MathOverflow) && *final(pool)
                    == *old(pool)
            },
            Err(e) => r == Err::<YieldPlan, VaultError>(e) && *final(pool) == *old(pool),
        },
{
    if !config.is_authorized(authority) {
        return Err(VaultError::Unauthorized);
    }
    if config.is_paused {
        return Err(VaultError::VaultPaused);
    }
    if !pool.is_active {
        return Err(VaultError::PoolNotActive);
    }
    if yield_source.mint != pool.token_mint {
        return Err(VaultError::InvalidTokenMint);
    }
    if fee_receiver_account.mint != pool.token_mint {
        return Err(VaultError::InvalidTokenMint);
    }
    if yield_amount == 0 {
        return Err(VaultError::ZeroDeposit);
    }
    let fee_amount = match calculate_fee(yield_amount, config.performance_fee_bps) {
        Some(f) => f,
        None => return Err(VaultError::MathOverflow),
    };
    let net_yield = match yield_amount.checked_sub(fee_amount) {
        Some(n) => n,
        None => return Err(VaultError::MathOverflow),
    };
    match pool.record_yield(net_yield) {
        Ok(()) => Ok(YieldPlan { fee_amount, net_yield }),
        Err(e) => Err(e),
    }
}

/// Whether `authority` may move `amount` out of the vault to a strategy, or
/// why not (checked in this order).
pub open spec fn spec_withdraw_for_strategy(
    config: VaultConfig,
    pool: VaultPool,
    authority: Pubkey,
    token_vault: TokenAccountData,
    strategy_destination: TokenAccountData,
    amount: u64,
) -> Result<(), VaultError> {
    if !config.spec_is_authorized(authority) {
        Err(VaultError::Unauthorized)
    } else if config.is_paused {
        Err(VaultError::VaultPaused)
    } else if !pool.is_active {
        Err(VaultError::PoolNotActive)
    } else if strategy_destination.mint@ != pool.token_mint@ {
        Err(VaultError::InvalidTokenMint)
    } else if amount == 0 {
        Err(VaultError::ZeroWithdrawal)
    } else if token_vault.amount < amount {
        Err(VaultError::InsufficientLiquidity)
    } else {
        Ok(())
    }
}

/// Checks that `authority` may move `amount` out of the vault to a strategy
/// (not while the vault is paused or the pool inactive). The pool's total
/// assets stay as they are: deployed funds are still under management.
pub fn withdraw_for_strategy_handler(
    config: &VaultConfig,
    pool: &VaultPool,
    authority: &Pubkey,
    token_vault: &TokenAccountData,
    strategy_destination: &TokenAccountData,
    amount: u64,
) -> (r: Result<(), VaultError>)
    ensures
        r == spec_withdraw_for_strategy(
            *config,
            *pool,
            *authority,
            *token_vault,
            *strategy_destination,
            amount,
        ),
{
    if !config.is_authorized(authority) {
        return Err(VaultError::Unauthorized);
    }
    if config.is_paused {
        return Err(VaultError::VaultPaused);
    }
    if !pool.is_active {
        return Err(VaultError::PoolNotActive);
    }
    if strategy_destination.mint != pool.token_mint {
        return Err(VaultError::InvalidTokenMint);
    }
    if amount == 0 {
        return Err(VaultError::ZeroWithdrawal);
    }
    if token_vault.amount < amount {
        return Err(VaultError::InsufficientLiquidity);
    }
    Ok(())
}

/// Whether `authority` may move `amount` back from a strategy into the vault,
/// or why not (checked in this order).
pub open spec fn spec_return_from_strategy(
    config: VaultConfig,
    pool: VaultPool,
    authority: Pubkey,
    strategy_source: TokenAccountData,
    amount: u64,
) -> Result<(), VaultError> {
    if !config.spec_is_authorized(authority) {
        Err(VaultError::Unauthorized)
    } else if config.is_paused {
        Err(VaultError::VaultPaused)
    } else if !pool.is_active {
        Err(VaultError::PoolNotActive)
    } else if strategy_source.mint@ != pool.token_mint@ {
        Err(VaultError::InvalidTokenMint)
    } else if amount == 0 {
        Err(VaultError::ZeroDeposit)
    } else {
        Ok(())
    }
}

/// Checks that `authority` may move `amount` back from a strategy into the
/// vault (not while the vault is paused or the pool inactive). The pool's
/// total assets stay as they are.
pub fn return_from_strategy_handler(
    config: &VaultConfig,
    pool: &VaultPool,
    authority: &Pubkey,
    strategy_source: &TokenAccountData,
    amount: u64,
) -> (r: Result<(), VaultError>)
    ensures
        r == spec_return_from_strategy(*config, *pool, *authority, *strategy_source, amount),
{
    if !config.is_authorized(authority) {
        return Err(VaultError::Unauthorized);
    }
    if config.is_paused {
        return Err(VaultError::VaultPaused);
    }
    if !pool.is_active {
        return Err(VaultError::PoolNotActive);
    }
    if strategy_source.mint != pool.token_mint {
        return Err(VaultError::InvalidTokenMint);
    }
    if amount == 0 {
        return Err(VaultError::ZeroDeposit);
    }
    Ok(())
}

/// The payout of a queued withdrawal request, or why processing it is
/// refused (checked in this order). A user token account or shares account
/// not owned by the request's user is refused with `UserMismatch`, the
/// vault's own error for a user who does not match the request (these two
/// checks were bare account constraints before, with a generic constraint
/// error).
pub open spec fn spec_process_withdrawal_queue(
    config: VaultConfig,
    pool: VaultPool,
    withdrawal_request: WithdrawalRequest,
    authority: Pubkey,
    user: Pubkey,
    user_token_account: TokenAccountData,
    user_shares_account: TokenAccountData,
    fee_receiver_account: TokenAccountData,
    token_vault: TokenAccountData,
) -> Result<WithdrawPlan, VaultError> {
    let shares_amount = withdrawal_request.shares_amount;
    if !config.spec_is_authorized(authority) {
        Err(VaultError::Unauthorized)
    } else if config.is_paused {
        Err(VaultError::VaultPaused)
    } else if !pool.is_active {
        Err(VaultError::PoolNotActive)
    } else if withdrawal_request.is_processed {
        Err(VaultError::WithdrawalAlreadyProcessed)
    } else if user_token_account.mint@ != pool.token_mint@ {
        Err(VaultError::InvalidTokenMint)
    } else if user_token_account.owner@ != withdrawal_request.user@ {
        Err(VaultError::UserMismatch)
    } else if user_shares_account.mint@ != pool.shares_mint@ {
        Err(VaultError::InvalidTokenMint)
    } else if user_shares_account.owner@ != withdrawal_request.user@ {
        Err(VaultError::UserMismatch)
    } else if fee_receiver_account.mint@ != pool.token_mint@ {
        Err(VaultError::InvalidTokenMint)
    } else if fee_receiver_account.owner@ != config.fee_receiver@ {
        Err(VaultError::InvalidFeeReceiverAccount)
    } else if user@ != withdrawal_request.user@ {
        Err(VaultError::UserMismatch)
    } else if user_shares_account.amount < shares_amount {
        Err(VaultError::InsufficientShares)
    } else {
        match pool.spec_assets_to_return(shares_amount) {
            None => Err(VaultError::InvalidSharesCalculation),
            Some(assets) => if token_vault.amount < assets {
                Err(VaultError::InsufficientLiquidity)
            } else {
                match spec_calculate_net_after_fee(assets, config.withdrawal_fee_bps) {
                    None => Err(VaultError::MathOverflow),
                    Some((net, fee)) => Ok(
                        WithdrawPlan { assets_to_return: assets, net_amount: net, fee_amount: fee },
                    ),
                }
            },
        }
    }
}

/// Processes a queued withdrawal request by `authority`: checks it, redeems
/// the request's shares in the pool and marks the request processed. Returns
/// the payout; the caller burns the shares (delegated to the pool) and pays
/// the net amount and the fee. Refused (with the first failing check, or
/// `MathOverflow` where a pool total would go below zero), the pool and the
/// request are unchanged. Token or shares accounts that the request's user
/// does not own are refused with `UserMismatch`.
pub fn process_withdrawal_queue_handler(
    config: &VaultConfig,
    pool: &mut VaultPool,
    withdrawal_request: &mut WithdrawalRequest,
    authority: &Pubkey,
    user: &Pubkey,
    user_token_account: &TokenAccountData,
    user_shares_account: &TokenAccountData,
    fee_receiver_account: &TokenAccountData,
    token_vault: &TokenAccountData,
) -> (r: Result<WithdrawPlan, VaultError>)
    ensures
        match spec_process_withdrawal_queue(
            *config,
            *old(pool),
            *old(withdrawal_request),
            *authority,
            *user,
            *user_token_account,
            *user_shares_account,
            *fee_receiver_account,
            *token_vault,
        ) {
            Ok(plan) => if old(pool).redemption_fits(
                old(withdrawal_request).shares_amount,
                plan.assets_to_return,
            ) {
                r == Ok::<WithdrawPlan, VaultError>(plan) && *final(pool) == old(
                    pool,
                ).after_redemption(old(withdrawal_request).shares_amount, plan.assets_to_return)
                    && *final(withdrawal_request) == (WithdrawalRequest {
                    is_processed: true,
                    ..*old(withdrawal_request)
                })
            } else {
                r == Err::<WithdrawPlan, VaultError>(VaultError::MathOverflow) && *final(pool)
                    == *old(pool) && *final(withdrawal_request) == *old(withdrawal_request)
            },
            Err(e) => r == Err::<WithdrawPlan, VaultError>(e) && *final(pool) == *old(pool)
                && *final(withdrawal_request) == *old(withdrawal_request),
        },
{
    if !config.is_authorized(authority) {
        return Err(VaultError::Unauthorized);
    }
    if config.is_paused {
        return Err(VaultError::VaultPaused);
    }
    if !pool.is_active {
        return Err(VaultError::PoolNotActive);
    }
    if withdrawal_request.is_processed {
        return Err(VaultError::WithdrawalAlreadyProcessed);
    }
    if user_token_account.mint != pool.token_mint {
        return Err(VaultError::InvalidTokenMint);
    }
    if user_token_account.owner != withdrawal_request.user {
        return Err(VaultError::UserMismatch);
    }
    if user_shares_account.mint != pool.shares_mint {
        return Err(VaultError::InvalidTokenMint);
    }
    if user_shares_account.owner != withdrawal_request.user {
        return Err(VaultError::UserMismatch);
    }
    if fee_receiver_account.mint != pool.token_mint {
        return Err(VaultError::InvalidTokenMint);
    }
    if fee_receiver_account.owner != config.fee_receiver {
        return Err(VaultError::InvalidFeeReceiverAccount);
    }
    if *user != withdrawal_request.user {
        return Err(VaultError::UserMismatch);
    }
    let shares_amount = withdrawal_request.shares_amount;
    if user_shares_account.amount < shares_amount {
        return Err(VaultError::InsufficientShares);
    }
    let assets_to_return = match pool.calculate_assets_to_return(shares_amount) {
        Some(a) => a,
        None => return Err(VaultError::InvalidSharesCalculation),
    };
    if token_vault.amount < assets_to_return {
        return Err(VaultError::InsufficientLiquidity);
    }
    let (net_amount, fee_amount) = match calculate_net_after_fee(
        assets_to_return,
        config.withdrawal_fee_bps,
    ) {
        Some(split) => split,
        None => return Err(VaultError::MathOverflow),
    };
    match pool.record_redemption(shares_amount, assets_to_return) {
        Ok(()) => {},
        Err(e) => return Err(e),
    }
    withdrawal_request.is_processed = true;
    Ok(WithdrawPlan { assets_to_return, net_amount, fee_amount })
}

} // verus!
