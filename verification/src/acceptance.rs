//! What each operation computes and when it is granted, stated in terms of
//! its inputs: shares and assets by the rounding they obey, fees by their
//! rate, and each instruction's acceptance by the conditions on its
//! accounts and amounts.
use vstd::arithmetic::div_mod::{lemma_fundamental_div_mod, lemma_fundamental_div_mod_converse};
use vstd::prelude::*;

use crate::errors::VaultError;
use crate::instructions::admin::{spec_update_config, UpdateConfigParams};
use crate::instructions::operator::{
    spec_inject_yield, spec_process_withdrawal_queue, spec_return_from_strategy,
    spec_withdraw_for_strategy, YieldPlan,
};
use crate::instructions::user::{
    spec_deposit, spec_request_withdrawal, spec_withdraw, WithdrawOutcome, WithdrawPlan,
};
use crate::instructions::views::{spec_pool_info, spec_preview_deposit, spec_preview_withdraw};
use crate::pubkey::Pubkey;
use crate::state::{TokenAccountData, VaultConfig, VaultPool, WithdrawalRequest};
use crate::utils::{spec_calculate_fee, spec_calculate_net_after_fee, MIN_DEPOSIT_AMOUNT};

verus! {

/// `q` is `x / d` rounded down exactly when `q * d <= x < (q + 1) * d`.
proof fn lemma_floor_div(x: int, d: int, q: int)
    requires
        0 <= x,
        0 < d,
    ensures
        0 <= x / d,
        (x / d) * d <= x < (x / d + 1) * d,
        q * d <= x < (q + 1) * d ==> q == x / d,
{
    lemma_fundamental_div_mod(x, d);
    assert(0 <= x % d < d);
    assert(x == (x / d) * d + x % d) by (nonlinear_arith)
        requires
            x == d * (x / d) + (x % d),
    ;
    assert(0 <= x / d) by (nonlinear_arith)
        requires
            x == (x / d) * d + x % d,
            0 <= x % d < d,
            0 <= x,
            0 < d,
    ;
    assert((x / d) * d <= x < (x / d + 1) * d) by (nonlinear_arith)
        requires
            x == (x / d) * d + x % d,
            0 <= x % d < d,
    ;
    if q * d <= x < (q + 1) * d {
        assert(0 <= x - q * d < d) by (nonlinear_arith)
            requires
                q * d <= x < (q + 1) * d,
        ;
        lemma_fundamental_div_mod_converse(x, d, q, x - q * d);
    }
}

// ---------- fees ----------

/// A fee of `fee_bps` basis points on `amount` is the largest whole amount not
/// above `amount * fee_bps / 10000`; with a fee of at most 10000 basis points
/// it never exceeds the amount, and the net amount and the fee add up to the
/// amount.
pub proof fn lemma_fee_is_rate_rounded_down(amount: u64, fee_bps: u16)
    ensures
        spec_calculate_fee(amount, fee_bps) matches Some(fee) ==> fee * 10000 <= amount * fee_bps
            < (fee + 1) * 10000,
        fee_bps <= 10000 ==> spec_calculate_fee(amount, fee_bps) is Some,
        fee_bps <= 10000 ==> (spec_calculate_net_after_fee(amount, fee_bps) matches Some(
            (net, fee),
        ) && net + fee == amount && fee <= amount && fee * 10000 <= amount * fee_bps < (fee + 1)
            * 10000),
{
    let x = amount * fee_bps;
    lemma_floor_div(x, 10000, 0);
    if fee_bps <= 10000 {
        assert(x <= amount * 10000) by (nonlinear_arith)
            requires
                x == amount * fee_bps,
                fee_bps <= 10000,
                amount >= 0,
        ;
        assert(x / 10000 <= amount) by (nonlinear_arith)
            requires
                (x / 10000) * 10000 <= x,
                x <= amount * 10000,
        ;
    }
}

// ---------- share arithmetic ----------

/// Shares minted for a deposit: one for one while the pool has no shares or
/// no assets; otherwise the largest whole number of shares whose value at the
/// current price does not exceed the deposit, granted whenever it fits in a
/// `u64`.
pub proof fn lemma_shares_minted_round_down(pool: VaultPool, amount: u64)
    ensures
        pool.total_shares == 0 || pool.total_assets == 0 ==> pool.spec_shares_to_mint(amount)
            == Some(amount),
        pool.total_shares > 0 && pool.total_assets > 0 ==> (pool.spec_shares_to_mint(amount)
            matches Some(s) ==> s * pool.total_assets <= amount * pool.total_shares < (s + 1)
            * pool.total_assets),
        pool.total_shares > 0 && pool.total_assets > 0 && amount * pool.total_shares < (
        u64::MAX + 1) * pool.total_assets ==> pool.spec_shares_to_mint(amount) is Some,
{
    if pool.total_shares > 0 && pool.total_assets > 0 {
        let x = amount * pool.total_shares;
        let d = pool.total_assets as int;
        lemma_floor_div(x, d, 0);
        if x < (u64::MAX + 1) * d {
            assert(x / d <= u64::MAX) by (nonlinear_arith)
                requires
                    (x / d) * d <= x,
                    x < (u64::MAX + 1) * d,
                    d > 0,
            ;
        }
    }
}

/// Assets returned for redeemed shares: the largest whole amount not above
/// the shares' value at the current price; refused while the pool has no
/// shares; granted whenever it fits in a `u64`, and never more than the
/// pool's assets when no more than its shares are redeemed.
pub proof fn lemma_assets_returned_round_down(pool: VaultPool, shares: u64)
    ensures
        pool.total_shares == 0 ==> pool.spec_assets_to_return(shares) is None,
        pool.spec_assets_to_return(shares) matches Some(a) ==> a * pool.total_shares <= shares
            * pool.total_assets < (a + 1) * pool.total_shares,
        pool.total_shares > 0 && shares <= pool.total_shares ==> (pool.spec_assets_to_return(
            shares,
        ) matches Some(a) && a <= pool.total_assets),
{
    if pool.total_shares > 0 {
        let x = shares * pool.total_assets;
        let d = pool.total_shares as int;
        lemma_floor_div(x, d, 0);
        if shares <= pool.total_shares {
            assert(x <= pool.total_assets * d) by (nonlinear_arith)
                requires
                    x == shares * pool.total_assets,
                    shares <= d,
                    pool.total_assets >= 0,
            ;
            assert(x / d <= pool.total_assets) by (nonlinear_arith)
                requires
                    (x / d) * d <= x,
                    x <= pool.total_assets * d,
                    d > 0,
            ;
        }
    }
}

// ---------- daily limit ----------

/// A limit of 0 never blocks a withdrawal; a nonzero limit blocks exactly the
/// withdrawals that would take the day's total above it (an exact sum), so a
/// larger amount is blocked whenever a smaller one is.
pub proof fn lemma_daily_limit_is_exact(pool: VaultPool, amount: u64, larger: u64)
    ensures
        pool.daily_withdrawal_limit == 0 ==> !pool.spec_exceeds_daily_limit(amount),
        pool.daily_withdrawal_limit > 0 ==> (pool.spec_exceeds_daily_limit(amount) <==> (
        pool.withdrawn_today as int) + (amount as int) > (pool.daily_withdrawal_limit as int)),
        pool.spec_exceeds_daily_limit(amount) && larger >= amount
            ==> pool.spec_exceeds_daily_limit(larger),
{
}

/// A withdrawal at least a full day after a withdrawal at a nonnegative time
/// opens a new day and restarts the count; one at the same moment does not.
pub proof fn lemma_new_day_restarts_count(pool: VaultPool, current_timestamp: i64)
    ensures
        pool.last_withdrawal_day >= 0 && current_timestamp >= pool.last_withdrawal_day + 86400
            ==> pool.spec_should_reset_daily_limit(current_timestamp),
        current_timestamp == pool.last_withdrawal_day ==> !pool.spec_should_reset_daily_limit(
            current_timestamp,
        ),
{
    let l = pool.last_withdrawal_day as int;
    let t = current_timestamp as int;
    if l >= 0 && t >= l + 86400 {
        lemma_floor_div(l, 86400, 0);
        lemma_floor_div(t, 86400, 0);
        assert(t / 86400 > l / 86400) by (nonlinear_arith)
            requires
                (l / 86400) * 86400 <= l < (l / 86400 + 1) * 86400,
                (t / 86400) * 86400 <= t < (t / 86400 + 1) * 86400,
                t >= l + 86400,
        ;
    }
}

// ---------- booking ----------

/// Booking moves the pool's totals by exactly the amounts booked and nothing
/// else: a deposit adds its tokens to the assets and the minted shares to the
/// shares, a redemption takes the returned assets and the burned shares away,
/// and redeeming what a deposit minted for what it brought in gives the pool
/// back as it was.
pub proof fn lemma_booking_moves_totals(pool: VaultPool, amount: u64, shares: u64)
    ensures
        pool.total_assets + amount <= u64::MAX && pool.total_shares + shares <= u64::MAX ==> {
            &&& pool.deposit_fits(amount, shares)
            &&& pool.after_deposit(amount, shares).total_assets == pool.total_assets + amount
            &&& pool.after_deposit(amount, shares).total_shares == pool.total_shares + shares
            &&& pool.after_deposit(amount, shares).after_redemption(shares, amount) == pool
        },
        amount <= pool.total_assets && shares <= pool.total_shares ==> {
            &&& pool.redemption_fits(shares, amount)
            &&& pool.after_redemption(shares, amount).total_assets == pool.total_assets - amount
            &&& pool.after_redemption(shares, amount).total_shares == pool.total_shares - shares
            &&& pool.after_redemption(shares, amount).after_deposit(amount, shares) == pool
        },
        pool.after_deposit(amount, shares).token_mint == pool.token_mint,
        pool.after_deposit(amount, shares).shares_mint == pool.shares_mint,
        pool.after_deposit(amount, shares).is_active == pool.is_active,
        pool.after_deposit(amount, shares).daily_withdrawal_limit == pool.daily_withdrawal_limit,
        pool.after_deposit(amount, shares).withdrawn_today == pool.withdrawn_today,
        pool.after_redemption(shares, amount).token_mint == pool.token_mint,
        pool.after_redemption(shares, amount).shares_mint == pool.shares_mint,
        pool.after_redemption(shares, amount).is_active == pool.is_active,
        pool.after_redemption(shares, amount).daily_withdrawal_limit
            == pool.daily_withdrawal_limit,
        pool.after_redemption(shares, amount).withdrawn_today == pool.withdrawn_today,
{
}

// ---------- deposit ----------

/// A deposit of at least the minimum into an active pool of an unpaused vault,
/// from and to accounts of the right mints, is granted whatever the accounts'
/// balances: one share per token while the pool has no shares or no assets,
/// else the largest whole number of shares whose value does not exceed the
/// deposit; it is refused with `InvalidSharesCalculation` only where that
/// number is zero or does not fit in a `u64`.
pub proof fn lemma_deposit_granted(
    config: VaultConfig,
    pool: VaultPool,
    user_token_account: TokenAccountData,
    user_shares_account: TokenAccountData,
    amount: u64,
)
    requires
        !config.is_paused,
        pool.is_active,
        user_token_account.mint@ == pool.token_mint@,
        user_shares_account.mint@ == pool.shares_mint@,
        amount >= MIN_DEPOSIT_AMOUNT,
    ensures
        pool.total_shares == 0 || pool.total_assets == 0 ==> spec_deposit(
            config,
            pool,
            user_token_account,
            user_shares_account,
            amount,
        ) == Ok::<u64, VaultError>(amount),
        pool.total_shares > 0 && pool.total_assets > 0 && pool.total_assets <= amount
            * pool.total_shares < (u64::MAX + 1) * pool.total_assets ==> (spec_deposit(
            config,
            pool,
            user_token_account,
            user_shares_account,
            amount,
        ) matches Ok(s) && s > 0 && s * pool.total_assets <= amount * pool.total_shares < (s + 1)
            * pool.total_assets),
        pool.total_shares > 0 && pool.total_assets > 0 && amount * pool.total_shares
            < pool.total_assets ==> spec_deposit(
            config,
            pool,
            user_token_account,
            user_shares_account,
            amount,
        ) == Err::<u64, VaultError>(VaultError::InvalidSharesCalculation),
{
    lemma_shares_minted_round_down(pool, amount);
    if pool.total_shares > 0 && pool.total_assets > 0 {
        let x = amount * pool.total_shares;
        let d = pool.total_assets as int;
        lemma_floor_div(x, d, 0);
        if d <= x {
            assert(x / d >= 1) by (nonlinear_arith)
                requires
                    x < (x / d + 1) * d,
                    d <= x,
                    d > 0,
            ;
        }
        if x < d {
            lemma_floor_div(x, d, 0);
        }
    }
}

/// A deposit's outcome does not depend on the balances of the user's token and
/// shares accounts, only on their mints.
pub proof fn lemma_deposit_ignores_balances(
    config: VaultConfig,
    pool: VaultPool,
    user_token_account: TokenAccountData,
    user_shares_account: TokenAccountData,
    other_token_account: TokenAccountData,
    other_shares_account: TokenAccountData,
    amount: u64,
)
    requires
        other_token_account.mint@ == user_token_account.mint@,
        other_shares_account.mint@ == user_shares_account.mint@,
    ensures
        spec_deposit(config, pool, user_token_account, user_shares_account, amount) == spec_deposit(
            config,
            pool,
            other_token_account,
            other_shares_account,
            amount,
        ),
{
}

/// A deposit preview announces the pool's shares for the amount, as a deposit
/// mints them, and the totals after it (saturating).
pub proof fn lemma_preview_deposit_announces(pool: VaultPool, amount: u64)
    ensures
        pool.total_shares == 0 || pool.total_assets == 0 ==> spec_preview_deposit(
            pool,
            amount,
        ).shares_to_mint == amount,
        pool.total_shares > 0 && pool.total_assets > 0 && amount * pool.total_shares < (u64::MAX
            + 1) * pool.total_assets ==> ({
            let s = spec_preview_deposit(pool, amount).shares_to_mint;
            s * pool.total_assets <= amount * pool.total_shares < (s + 1) * pool.total_assets
        }),
        pool.total_assets + amount <= u64::MAX ==> spec_preview_deposit(pool, amount).new_total_assets
            == pool.total_assets + amount,
{
    lemma_shares_minted_round_down(pool, amount);
}

// ---------- withdrawals ----------

/// An instant withdrawal that passes the account checks (unpaused vault,
/// active pool, right mints) is paid when the user holds the shares, the
/// vault holds their value and a nonzero daily limit is not passed: the gross
/// assets are the shares' value rounded down, the fee is the withdrawal rate
/// on them rounded down, and net plus fee is the gross. Holding fewer shares
/// than redeemed is refused with `InsufficientShares`; passing the limit on
/// the same day queues exactly the user's pending request for the shares.
pub proof fn lemma_withdraw_granted(
    config: VaultConfig,
    pool: VaultPool,
    user_token_account: TokenAccountData,
    user_shares_account: TokenAccountData,
    fee_receiver_account: TokenAccountData,
    token_vault: TokenAccountData,
    user: Pubkey,
    vault_pool: Pubkey,
    shares_amount: u64,
    current_timestamp: i64,
    request_bump: u8,
    request_exists: bool,
    assets: u64,
)
    requires
        !config.is_paused,
        pool.is_active,
        user_token_account.mint@ == pool.token_mint@,
        user_shares_account.mint@ == pool.shares_mint@,
        fee_receiver_account.mint@ == pool.token_mint@,
        shares_amount > 0,
        pool.total_shares > 0,
        assets * pool.total_shares <= shares_amount * pool.total_assets < (assets + 1)
            * pool.total_shares,
        token_vault.amount >= assets,
        config.withdrawal_fee_bps <= 10000,
    ensures
        user_shares_account.amount < shares_amount ==> spec_withdraw(
            config,
            pool,
            user_token_account,
            user_shares_account,
            fee_receiver_account,
            token_vault,
            user,
            vault_pool,
            shares_amount,
            current_timestamp,
            request_bump,
            request_exists,
        ) == Err::<WithdrawOutcome, VaultError>(VaultError::InsufficientShares),
        user_shares_account.amount >= shares_amount && (pool.daily_withdrawal_limit == 0
            || pool.withdrawn_today + assets <= pool.daily_withdrawal_limit) ==> (spec_withdraw(
            config,
            pool,
            user_token_account,
            user_shares_account,
            fee_receiver_account,
            token_vault,
            user,
            vault_pool,
            shares_amount,
            current_timestamp,
            request_bump,
            request_exists,
        ) matches Ok(WithdrawOutcome::Paid(plan)) && plan.assets_to_return == assets
            && plan.fee_amount * 10000 <= assets * config.withdrawal_fee_bps < (plan.fee_amount + 1)
            * 10000 && plan.net_amount + plan.fee_amount == assets),
        user_shares_account.amount >= shares_amount && current_timestamp
            == pool.last_withdrawal_day && pool.daily_withdrawal_limit != 0 && pool.withdrawn_today
            + assets > pool.daily_withdrawal_limit && !request_exists ==> (spec_withdraw(
            config,
            pool,
            user_token_account,
            user_shares_account,
            fee_receiver_account,
            token_vault,
            user,
            vault_pool,
            shares_amount,
            current_timestamp,
            request_bump,
            request_exists,
        ) matches Ok(WithdrawOutcome::Queued(r)) && r.user == user && r.vault_pool == vault_pool
            && r.shares_amount == shares_amount && r.requested_at == current_timestamp
            && !r.is_processed && r.bump == request_bump),
{
    let x = shares_amount * pool.total_assets;
    lemma_floor_div(x, pool.total_shares as int, assets as int);
    lemma_fee_is_rate_rounded_down(assets, config.withdrawal_fee_bps);
}

/// Processing a pending request that passes the account checks (authorized
/// signer, unpaused vault, active pool, right mints, accounts owned by the
/// request's user, the fee receiver's account, the request's user) is granted
/// when the user's shares account holds at least the request's shares (all of
/// the balance included) and the vault holds their value: the gross assets
/// are the shares' value rounded down, the fee is the withdrawal rate on them
/// rounded down, and net plus fee is the gross. Holding fewer shares is
/// refused with `InsufficientShares`.
pub proof fn lemma_process_withdrawal_granted(
    config: VaultConfig,
    pool: VaultPool,
    withdrawal_request: WithdrawalRequest,
    authority: Pubkey,
    user: Pubkey,
    user_token_account: TokenAccountData,
    user_shares_account: TokenAccountData,
    fee_receiver_account: TokenAccountData,
    token_vault: TokenAccountData,
    assets: u64,
)
    requires
        config.spec_is_authorized(authority),
        !config.is_paused,
        pool.is_active,
        !withdrawal_request.is_processed,
        user_token_account.mint@ == pool.token_mint@,
        user_token_account.owner@ == withdrawal_request.user@,
        user_shares_account.mint@ == pool.shares_mint@,
        user_shares_account.owner@ == withdrawal_request.user@,
        fee_receiver_account.mint@ == pool.token_mint@,
        fee_receiver_account.owner@ == config.fee_receiver@,
        user@ == withdrawal_request.user@,
        pool.total_shares > 0,
        assets * pool.total_shares <= withdrawal_request.shares_amount * pool.total_assets < (
        assets + 1) * pool.total_shares,
        token_vault.amount >= assets,
        config.withdrawal_fee_bps <= 10000,
    ensures
        user_shares_account.amount < withdrawal_request.shares_amount
            ==> spec_process_withdrawal_queue(
            config,
            pool,
            withdrawal_request,
            authority,
            user,
            user_token_account,
            user_shares_account,
            fee_receiver_account,
            token_vault,
        ) == Err::<WithdrawPlan, VaultError>(VaultError::InsufficientShares),
        user_shares_account.amount >= withdrawal_request.shares_amount
            ==> (spec_process_withdrawal_queue(
            config,
            pool,
            withdrawal_request,
            authority,
            user,
            user_token_account,
            user_shares_account,
            fee_receiver_account,
            token_vault,
        ) matches Ok(plan) && plan.assets_to_return == assets && plan.fee_amount * 10000 <= assets
            * config.withdrawal_fee_bps < (plan.fee_amount + 1) * 10000 && plan.net_amount
            + plan.fee_amount == assets),
{
    let x = withdrawal_request.shares_amount * pool.total_assets;
    lemma_floor_div(x, pool.total_shares as int, assets as int);
    lemma_fee_is_rate_rounded_down(assets, config.withdrawal_fee_bps);
}

/// A withdrawal preview announces the shares' value rounded down (0 where it
/// cannot be computed), a fee that never exceeds that value at a rate of at
/// most 10000 basis points, and a net amount that adds up with the fee.
pub proof fn lemma_preview_withdraw_announces(
    config: VaultConfig,
    pool: VaultPool,
    shares_amount: u64,
)
    ensures
        pool.total_shares == 0 ==> spec_preview_withdraw(config, pool, shares_amount).gross_assets
            == 0,
        pool.total_shares > 0 && shares_amount * pool.total_assets < (u64::MAX + 1)
            * pool.total_shares ==> ({
            let g = spec_preview_withdraw(config, pool, shares_amount).gross_assets;
            g * pool.total_shares <= shares_amount * pool.total_assets < (g + 1)
                * pool.total_shares
        }),
        config.withdrawal_fee_bps <= 10000 ==> ({
            let p = spec_preview_withdraw(config, pool, shares_amount);
            p.fee_amount * 10000 <= p.gross_assets * config.withdrawal_fee_bps < (p.fee_amount + 1)
                * 10000 && p.net_assets + p.fee_amount == p.gross_assets
        }),
{
    lemma_assets_returned_round_down(pool, shares_amount);
    if pool.total_shares > 0 {
        let x = shares_amount * pool.total_assets;
        let d = pool.total_shares as int;
        lemma_floor_div(x, d, 0);
        if x < (u64::MAX + 1) * d {
            assert(x / d <= u64::MAX) by (nonlinear_arith)
                requires
                    (x / d) * d <= x,
                    x < (u64::MAX + 1) * d,
                    d > 0,
            ;
        }
    }
    let g = spec_preview_withdraw(config, pool, shares_amount).gross_assets;
    lemma_fee_is_rate_rounded_down(g, config.withdrawal_fee_bps);
}

/// A withdrawal request by `user` for nonzero shares in an active pool of an
/// unpaused vault is granted, and is a pending request of that user, pool and
/// share amount made at the given time.
pub proof fn lemma_request_withdrawal_granted(
    config: VaultConfig,
    pool: VaultPool,
    user: Pubkey,
    vault_pool: Pubkey,
    shares_amount: u64,
    current_timestamp: i64,
    bump: u8,
)
    requires
        !config.is_paused,
        pool.is_active,
        shares_amount > 0,
    ensures
        spec_request_withdrawal(config, pool, user, vault_pool, shares_amount, current_timestamp, bump)
            matches Ok(r) && r.user == user && r.vault_pool == vault_pool && r.shares_amount
            == shares_amount && r.requested_at == current_timestamp && !r.is_processed && r.bump
            == bump,
{
}

// ---------- operator ----------

/// A yield injection by an authorized signer into an active pool of an
/// unpaused vault, from and to accounts of the pool's token, is granted for
/// any nonzero yield at a performance fee of at most 10000 basis points: the
/// fee is the rate on the yield rounded down and fee plus net yield is the
/// yield.
pub proof fn lemma_inject_yield_granted(
    config: VaultConfig,
    pool: VaultPool,
    authority: Pubkey,
    yield_source: TokenAccountData,
    fee_receiver_account: TokenAccountData,
    yield_amount: u64,
)
    requires
        config.spec_is_authorized(authority),
        !config.is_paused,
        pool.is_active,
        yield_source.mint@ == pool.token_mint@,
        fee_receiver_account.mint@ == pool.token_mint@,
        yield_amount > 0,
        config.performance_fee_bps <= 10000,
    ensures
        spec_inject_yield(config, pool, authority, yield_source, fee_receiver_account, yield_amount)
            matches Ok(plan) && plan.fee_amount * 10000 <= yield_amount * config.performance_fee_bps
            < (plan.fee_amount + 1) * 10000 && plan.fee_amount + plan.net_yield == yield_amount,
{
    lemma_fee_is_rate_rounded_down(yield_amount, config.performance_fee_bps);
}

/// Moving funds to a strategy is granted exactly when an authorized signer
/// moves a nonzero amount the vault holds, from an active pool of an unpaused
/// vault, to an account of the pool's token; it is never granted for more
/// than the vault holds.
pub proof fn lemma_withdraw_for_strategy_granted(
    config: VaultConfig,
    pool: VaultPool,
    authority: Pubkey,
    token_vault: TokenAccountData,
    strategy_destination: TokenAccountData,
    amount: u64,
)
    ensures
        (spec_withdraw_for_strategy(
            config,
            pool,
            authority,
            token_vault,
            strategy_destination,
            amount,
        ) is Ok) <==> (config.spec_is_authorized(authority) && !config.is_paused && pool.is_active
            && strategy_destination.mint@ == pool.token_mint@ && 0 < amount <= token_vault.amount),
{
}

/// Returning funds from a strategy is granted exactly when an authorized
/// signer returns a nonzero amount to an active pool of an unpaused vault from
/// an account of the pool's token.
pub proof fn lemma_return_from_strategy_granted(
    config: VaultConfig,
    pool: VaultPool,
    authority: Pubkey,
    strategy_source: TokenAccountData,
    amount: u64,
)
    ensures
        (spec_return_from_strategy(config, pool, authority, strategy_source, amount) is Ok) <==> (
        config.spec_is_authorized(authority) && !config.is_paused && pool.is_active
            && strategy_source.mint@ == pool.token_mint@ && amount > 0),
{
}

// ---------- configuration ----------

/// An update is granted exactly to the owner with valid new fees; afterwards
/// each field given in the parameters holds the given value (the withdrawal
/// fee the new withdrawal fee, the performance fee the new performance fee),
/// each field not given keeps its value, and nothing else changes.
pub proof fn lemma_update_config_sets_given_fields(
    config: VaultConfig,
    owner: Pubkey,
    params: UpdateConfigParams,
)
    ensures
        (spec_update_config(config, owner, params) is Ok) <==> (config.owner@ == owner@ && (
        params.new_performance_fee_bps matches Some(f) ==> f <= 10000) && (
        params.new_withdrawal_fee_bps matches Some(f) ==> f <= 10000)),
        spec_update_config(config, owner, params) matches Ok(c) ==> {
            &&& params.new_withdrawal_fee_bps matches Some(f) ==> c.withdrawal_fee_bps == f
            &&& params.new_withdrawal_fee_bps is None ==> c.withdrawal_fee_bps
                == config.withdrawal_fee_bps
            &&& params.new_performance_fee_bps matches Some(f) ==> c.performance_fee_bps == f
            &&& params.new_performance_fee_bps is None ==> c.performance_fee_bps
                == config.performance_fee_bps
            &&& params.new_operator matches Some(k) ==> c.operator == k
            &&& params.new_operator is None ==> c.operator == config.operator
            &&& params.new_fee_receiver matches Some(k) ==> c.fee_receiver == k
            &&& params.new_fee_receiver is None ==> c.fee_receiver == config.fee_receiver
            &&& c.owner == config.owner
            &&& c.is_paused == config.is_paused
            &&& c.total_pools == config.total_pools
            &&& c.bump == config.bump
        },
{
}

// ---------- views ----------

/// Pool statistics report the pool's own totals and status, and its share
/// price scaled by 1e9: 1e9 while the pool has no shares, else the largest
/// whole number not above `total_assets * 1e9 / total_shares` wherever that
/// fits in a `u64`, and `u64::MAX` where it does not. Both previews report the
/// same price.
pub proof fn lemma_pool_info_reports_price(config: VaultConfig, pool: VaultPool, amount: u64)
    ensures
        pool.total_shares == 0 ==> spec_pool_info(pool).share_price_scaled == 1_000_000_000,
        pool.total_shares > 0 && pool.total_assets * 1_000_000_000 < (u64::MAX + 1)
            * pool.total_shares ==> ({
            let p = spec_pool_info(pool).share_price_scaled;
            p * pool.total_shares <= pool.total_assets * 1_000_000_000 < (p + 1)
                * pool.total_shares
        }),
        pool.total_shares > 0 && pool.total_assets * 1_000_000_000 >= (u64::MAX + 1)
            * pool.total_shares ==> spec_pool_info(pool).share_price_scaled == u64::MAX,
        spec_pool_info(pool).total_assets == pool.total_assets,
        spec_pool_info(pool).total_shares == pool.total_shares,
        spec_pool_info(pool).token_mint == pool.token_mint,
        spec_pool_info(pool).shares_mint == pool.shares_mint,
        spec_pool_info(pool).daily_withdrawal_limit == pool.daily_withdrawal_limit,
        spec_pool_info(pool).withdrawn_today == pool.withdrawn_today,
        spec_pool_info(pool).is_active == pool.is_active,
        spec_preview_deposit(pool, amount).share_price_scaled == spec_pool_info(
            pool,
        ).share_price_scaled,
        spec_preview_withdraw(config, pool, amount).share_price_scaled == spec_pool_info(
            pool,
        ).share_price_scaled,
{
    if pool.total_shares > 0 {
        let x = pool.total_assets * 1_000_000_000;
        let d = pool.total_shares as int;
        lemma_floor_div(x, d, 0);
        if x < (u64::MAX + 1) * d {
            assert(x / d <= u64::MAX) by (nonlinear_arith)
                requires
                    (x / d) * d <= x,
                    x < (u64::MAX + 1) * d,
                    d > 0,
            ;
        } else {
            assert(x / d > u64::MAX) by (nonlinear_arith)
                requires
                    x < (x / d + 1) * d,
                    x >= (u64::MAX + 1) * d,
                    d > 0,
            ;
        }
    }
}

} // verus!
