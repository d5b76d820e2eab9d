//! Read-only previews of deposits and withdrawals, and pool statistics.
use vstd::prelude::*;

use crate::errors::VaultError;
use crate::pubkey::Pubkey;
use crate::state::{VaultConfig, VaultPool};
use crate::utils::fee_of;

verus! {

/// Fixed-point scale of share prices: a price of 1 is `PRICE_SCALE`.
pub const PRICE_SCALE: u64 = 1_000_000_000;

/// Result of a deposit preview.
#[derive(Clone, Copy, Debug, PartialEq, Eq, Structural)]
pub struct DepositPreview {
    /// Shares that would be minted (0 where none can be computed).
    pub shares_to_mint: u64,
    /// Current share price, scaled by 1e9.
    pub share_price_scaled: u64,
    /// Total assets after the deposit (saturating).
    pub new_total_assets: u64,
    /// Total shares after the deposit (saturating).
    pub new_total_shares: u64,
}

/// Result of a withdrawal preview.
#[derive(Clone, Copy, Debug, PartialEq, Eq, Structural)]
pub struct WithdrawPreview {
    /// Gross assets returned before fees (0 where none can be computed).
    pub gross_assets: u64,
    /// The withdrawal fee.
    pub fee_amount: u64,
    /// What the user would receive.
    pub net_assets: u64,
    /// Current share price, scaled by 1e9.
    pub share_price_scaled: u64,
}

/// Statistics of a pool.
#[derive(Clone, Copy, Debug)]
pub struct PoolInfoView {
    /// The underlying token's mint.
    pub token_mint: Pubkey,
    /// The shares token's mint.
    pub shares_mint: Pubkey,
    /// Assets under management.
    pub total_assets: u64,
    /// Shares in circulation.
    pub total_shares: u64,
    /// Current share price, scaled by 1e9.
    pub share_price_scaled: u64,
    /// Daily withdrawal limit (0 = unlimited).
    pub daily_withdrawal_limit: u64,
    /// Assets withdrawn on the current day.
    pub withdrawn_today: u64,
    /// Whether the pool is active.
    pub is_active: bool,
}

/// `a + b`, saturating at `u64::MAX`.
pub open spec fn saturating_add_u64(a: u64, b: u64) -> u64 {
    if a + b > u64::MAX {
        u64::MAX
    } else {
        (a + b) as u64
    }
}

/// `x`, or `u64::MAX` where `x` does not fit in a `u64`.
pub open spec fn saturate_u64(x: int) -> u64 {
    if x > u64::MAX {
        u64::MAX
    } else {
        x as u64
    }
}

/// The share price scaled by 1e9: `PRICE_SCALE` for a pool without shares,
/// else `total_assets * 1e9 / total_shares` rounded down, saturating at
/// `u64::MAX` (never wrapped).
pub open spec fn spec_share_price_scaled(total_assets: u64, total_shares: u64) -> u64 {
    if total_shares == 0 {
        PRICE_SCALE
    } else {
        saturate_u64(total_assets * (PRICE_SCALE as int) / (total_shares as int))
    }
}

/// Calculates the share price scaled by 1e9; 1e9 (one for one) for a pool
/// without shares, and `u64::MAX` where the price does not fit.
pub fn calculate_share_price_scaled(total_assets: u64, total_shares: u64) -> (r: u64)
    ensures
        r == spec_share_price_scaled(total_assets, total_shares),
{
    if total_shares == 0 {
        return PRICE_SCALE;
    }
    let a: u128 = total_assets as u128;
    assert(a * 1_000_000_000 <= 0xffff_ffff_ffff_ffffu128 * 1_000_000_000) by (nonlinear_arith)
        requires
            a <= 0xffff_ffff_ffff_ffffu128,
    ;
    let v: u128 = (a * (PRICE_SCALE as u128)) / (total_shares as u128);
    if v > u64::MAX as u128 {
        u64::MAX
    } else {
        v as u64
    }
}

/// The deposit preview of `amount` for `pool`.
pub open spec fn spec_preview_deposit(pool: VaultPool, amount: u64) -> DepositPreview {
    let shares = match pool.spec_shares_to_mint(amount) {
        Some(s) => s,
        None => 0,
    };
    DepositPreview {
        shares_to_mint: shares,
        share_price_scaled: spec_share_price_scaled(pool.total_assets, pool.total_shares),
        new_total_assets: saturating_add_u64(pool.total_assets, amount),
        new_total_shares: saturating_add_u64(pool.total_shares, shares),
    }
}

/// Previews a deposit of `amount`: the shares it would mint, the share price,
/// and the totals after it. Never refused.
pub fn preview_deposit_handler(pool: &VaultPool, amount: u64) -> (r: Result<
    DepositPreview,
    VaultError,
>)
    ensures
        r == Ok::<DepositPreview, VaultError>(spec_preview_deposit(*pool, amount)),
{
    let shares_to_mint = match pool.calculate_shares_to_mint(amount) {
        Some(s) => s,
        None => 0,
    };
    let share_price_scaled = calculate_share_price_scaled(pool.total_assets, pool.total_shares);
    Ok(
        DepositPreview {
            shares_to_mint,
            share_price_scaled,
            new_total_assets: pool.total_assets.saturating_add(amount),
            new_total_shares: pool.total_shares.saturating_add(shares_to_mint),
        },
    )
}

/// The withdrawal preview of `shares_amount` shares.
pub open spec fn spec_preview_withdraw(
    config: VaultConfig,
    pool: VaultPool,
    shares_amount: u64,
) -> WithdrawPreview {
    let gross = match pool.spec_assets_to_return(shares_amount) {
        Some(a) => a,
        None => 0,
    };
    let fee = saturate_u64(fee_of(gross as int, config.withdrawal_fee_bps as int));
    WithdrawPreview {
        gross_assets: gross,
        fee_amount: fee,
        net_assets: if fee <= gross {
            (gross - fee) as u64
        } else {
            0
        },
        share_price_scaled: spec_share_price_scaled(pool.total_assets, pool.total_shares),
    }
}

/// Previews a withdrawal of `shares_amount` shares: the gross assets, the
/// withdrawal fee (saturating at `u64::MAX`), the net assets (at least zero)
/// and the share price. Never refused.
pub fn preview_withdraw_handler(config: &VaultConfig, pool: &VaultPool, shares_amount: u64) -> (r:
    Result<WithdrawPreview, VaultError>)
    ensures
        r == Ok::<WithdrawPreview, VaultError>(spec_preview_withdraw(*config, *pool, shares_amount)),
{
    let gross_assets = match pool.calculate_assets_to_return(shares_amount) {
        Some(a) => a,
        None => 0,
    };
    let g: u128 = gross_assets as u128;
    let b: u128 = config.withdrawal_fee_bps as u128;
    assert(g * b <= 0xffff_ffff_ffff_ffffu128 * 0xffffu128) by (nonlinear_arith)
        requires
            g <= 0xffff_ffff_ffff_ffffu128,
            b <= 0xffffu128,
    ;
    let fee: u128 = (g * b) / 10000;
    let fee_amount = if fee > u64::MAX as u128 {
        u64::MAX
    } else {
        fee as u64
    };
    let net_assets = gross_assets.saturating_sub(fee_amount);
    let share_price_scaled = calculate_share_price_scaled(pool.total_assets, pool.total_shares);
    Ok(WithdrawPreview { gross_assets, fee_amount, net_assets, share_price_scaled })
}

/// The statistics of `pool`.
pub open spec fn spec_pool_info(pool: VaultPool) -> PoolInfoView {
    PoolInfoView {
        token_mint: pool.token_mint,
        shares_mint: pool.shares_mint,
        total_assets: pool.total_assets,
        total_shares: pool.total_shares,
        share_price_scaled: spec_share_price_scaled(pool.total_assets, pool.total_shares),
        daily_withdrawal_limit: pool.daily_withdrawal_limit,
        withdrawn_today: pool.withdrawn_today,
        is_active: pool.is_active,
    }
}

/// Reports a pool's statistics and share price. Never refused.
pub fn get_pool_info_handler(pool: &VaultPool) -> (r: Result<PoolInfoView, VaultError>)
    ensures
        r == Ok::<PoolInfoView, VaultError>(spec_pool_info(*pool)),
{
    let share_price_scaled = calculate_share_price_scaled(pool.total_assets, pool.total_shares);
    Ok(
        PoolInfoView {
            token_mint: pool.token_mint,
            shares_mint: pool.shares_mint,
            total_assets: pool.total_assets,
            total_shares: pool.total_shares,
            share_price_scaled,
            daily_withdrawal_limit: pool.daily_withdrawal_limit,
            withdrawn_today: pool.withdrawn_today,
            is_active: pool.is_active,
        },
    )
}

} // verus!
