//! Properties that hold across the vault's instructions.
use vstd::prelude::*;

use crate::errors::VaultError;
use crate::instructions::admin::spec_initialize;
use crate::instructions::operator::{
    spec_inject_yield, spec_process_withdrawal_queue, spec_return_from_strategy,
    spec_withdraw_for_strategy, YieldPlan,
};
use crate::instructions::user::{
    spec_deposit, spec_request_withdrawal, spec_withdraw, WithdrawOutcome, WithdrawPlan,
};
use crate::instructions::views::{
    spec_preview_deposit, spec_preview_withdraw, spec_share_price_scaled, PRICE_SCALE,
};
use crate::pubkey::Pubkey;
use crate::state::{TokenAccountData, VaultConfig, VaultPool, WithdrawalRequest};
use crate::utils::{fee_of, spec_calculate_fee, spec_calculate_net_after_fee, spec_is_valid_fee};

verus! {

/// With a valid fee (at most 10000 basis points), the fee on any amount can
/// be computed, is `amount * fee_bps / 10000` and at most the amount, and the
/// net amount and the fee add up to the amount.
pub proof fn lemma_valid_fee_splits_amount(amount: u64, fee_bps: u16)
    requires
        spec_is_valid_fee(fee_bps),
    ensures
        0 <= fee_of(amount as int, fee_bps as int) <= amount,
        spec_calculate_fee(amount, fee_bps) == Some(fee_of(amount as int, fee_bps as int) as u64),
        spec_calculate_net_after_fee(amount, fee_bps) == Some(
            (
                (amount - fee_of(amount as int, fee_bps as int)) as u64,
                fee_of(amount as int, fee_bps as int) as u64,
            ),
        ),
{
    let a = amount as int;
    let b = fee_bps as int;
    assert(0 <= a * b / 10000 <= a) by (nonlinear_arith)
        requires
            0 <= a,
            0 <= b <= 10000,
    ;
}

/// A deposit never lowers the value of a share: once the pool has shares,
/// the assets per share after a booked deposit are at least those before
/// (shares are minted rounding down, in the pool's favour).
pub proof fn lemma_deposit_does_not_dilute(pool: VaultPool, amount: u64, shares: u64)
    requires
        pool.total_shares > 0,
        pool.spec_shares_to_mint(amount) == Some(shares),
        pool.total_assets + amount <= u64::MAX,
        pool.total_shares + shares <= u64::MAX,
    ensures
        pool.after_deposit(amount, shares).total_assets * pool.total_shares >= pool.total_assets
            * pool.after_deposit(amount, shares).total_shares,
{
    let ta = pool.total_assets as int;
    let ts = pool.total_shares as int;
    let a = amount as int;
    let s = shares as int;
    if ta > 0 {
        assert(s == a * ts / ta);
        assert((ta + a) * ts >= ta * (ts + s)) by (nonlinear_arith)
            requires
                ta > 0,
                ts > 0,
                a >= 0,
                s == a * ts / ta,
        {
            assert(s * ta <= a * ts);
        }
    } else {
        assert((ta + a) * ts >= ta * (ts + s)) by (nonlinear_arith)
            requires
                ta == 0,
                ts > 0,
                a >= 0,
        ;
    }
}

/// A redemption never lowers the value of the remaining shares: the assets
/// per share after a booked redemption are at least those before (assets are
/// returned rounding down, in the pool's favour).
pub proof fn lemma_redemption_does_not_dilute(pool: VaultPool, shares: u64, assets: u64)
    requires
        pool.spec_assets_to_return(shares) == Some(assets),
        shares <= pool.total_shares,
        assets <= pool.total_assets,
    ensures
        pool.after_redemption(shares, assets).total_assets * pool.total_shares >= pool.total_assets
            * pool.after_redemption(shares, assets).total_shares,
{
    let ta = pool.total_assets as int;
    let ts = pool.total_shares as int;
    let s = shares as int;
    let x = assets as int;
    assert(x == s * ta / ts);
    assert((ta - x) * ts >= ta * (ts - s)) by (nonlinear_arith)
        requires
            ts > 0,
            ta >= 0,
            s >= 0,
            x == s * ta / ts,
    {
        assert(x * ts <= s * ta);
    }
}

/// Depositing and at once redeeming the shares minted never returns more
/// than was deposited, except into a pool that holds assets but no shares
/// (where the first depositor receives those assets too).
pub proof fn lemma_round_trip_never_profits(pool: VaultPool, amount: u64, shares: u64)
    requires
        !(pool.total_shares == 0 && pool.total_assets > 0),
        pool.spec_shares_to_mint(amount) == Some(shares),
        pool.total_assets + amount <= u64::MAX,
        pool.total_shares + shares <= u64::MAX,
    ensures
        match pool.after_deposit(amount, shares).spec_assets_to_return(shares) {
            Some(assets) => assets <= amount,
            None => pool.after_deposit(amount, shares).total_shares == 0,
        },
{
    let ta = pool.total_assets as int;
    let ts = pool.total_shares as int;
    let a = amount as int;
    let s = shares as int;
    let after = pool.after_deposit(amount, shares);
    assert(after.total_assets == ta + a);
    assert(after.total_shares == ts + s);
    if ts + s > 0 {
        if ts == 0 || ta == 0 {
            assert(s == a);
            assert(s * (ta + a) <= a * (ts + s)) by (nonlinear_arith)
                requires
                    ta == 0,
                    ts >= 0,
                    a >= 0,
                    s == a,
            ;
            vstd::arithmetic::div_mod::lemma_div_is_ordered(s * (ta + a), a * (ts + s), ts + s);
            vstd::arithmetic::div_mod::lemma_div_by_multiple(a, ts + s);
        } else {
            assert(s == a * ts / ta);
            assert(s * ta <= a * ts) by (nonlinear_arith)
                requires
                    ta > 0,
                    a >= 0,
                    ts > 0,
                    s == a * ts / ta,
            ;
            assert(s * (ta + a) <= a * (ts + s)) by (nonlinear_arith)
                requires
                    s * ta <= a * ts,
            ;
            vstd::arithmetic::div_mod::lemma_div_is_ordered(s * (ta + a), a * (ts + s), ts + s);
            vstd::arithmetic::div_mod::lemma_div_by_multiple(a, ts + s);
        }
    }
}

/// What a deposit preview announces is what the deposit does: the shares to
/// mint, and the totals after the deposit is booked.
pub proof fn lemma_preview_deposit_matches_deposit(
    config: VaultConfig,
    pool: VaultPool,
    user_token_account: TokenAccountData,
    user_shares_account: TokenAccountData,
    amount: u64,
    shares: u64,
)
    requires
        spec_deposit(config, pool, user_token_account, user_shares_account, amount) == Ok::<
            u64,
            VaultError,
        >(shares),
        pool.deposit_fits(amount, shares),
    ensures
        spec_preview_deposit(pool, amount).shares_to_mint == shares,
        spec_preview_deposit(pool, amount).new_total_assets == pool.after_deposit(
            amount,
            shares,
        ).total_assets,
        spec_preview_deposit(pool, amount).new_total_shares == pool.after_deposit(
            amount,
            shares,
        ).total_shares,
{
}

/// What a withdrawal preview announces is what an instant withdrawal of the
/// same shares pays, when it is paid: gross assets, fee and net amount.
pub proof fn lemma_preview_withdraw_matches_withdraw(
    config: VaultConfig,
    pool: VaultPool,
    user_token_account: TokenAccountData,
    user_shares_account: TokenAccountData,
    fee_receiver_account: TokenAccountData,
    token_vault: TokenAccountData,
    user: Pubkey,
    vault_pool: Pubkey,
    shares_amount: u64,
    current_timestamp: i64,
    request_bump: u8,
    request_exists: bool,
    plan: WithdrawPlan,
)
    requires
        spec_withdraw(
            config,
            pool,
            user_token_account,
            user_shares_account,
            fee_receiver_account,
            token_vault,
            user,
            vault_pool,
            shares_amount,
            current_timestamp,
            request_bump,
            request_exists,
        ) == Ok::<WithdrawOutcome, VaultError>(WithdrawOutcome::Paid(plan)),
    ensures
        spec_preview_withdraw(config, pool, shares_amount).gross_assets == plan.assets_to_return,
        spec_preview_withdraw(config, pool, shares_amount).fee_amount == plan.fee_amount,
        spec_preview_withdraw(config, pool, shares_amount).net_assets == plan.net_amount,
{
}

/// A queued request pays out what an instant withdrawal of the same shares
/// would, as far as both pay: the same gross assets, fee and net.
pub proof fn lemma_queue_pays_like_instant_withdrawal(
    config: VaultConfig,
    pool: VaultPool,
    withdrawal_request: WithdrawalRequest,
    authority: Pubkey,
    user: Pubkey,
    user_token_account: TokenAccountData,
    user_shares_account: TokenAccountData,
    fee_receiver_account: TokenAccountData,
    token_vault: TokenAccountData,
    current_timestamp: i64,
    request_bump: u8,
    request_exists: bool,
    queued: WithdrawPlan,
    instant: WithdrawPlan,
)
    requires
        spec_process_withdrawal_queue(
            config,
            pool,
            withdrawal_request,
            authority,
            user,
            user_token_account,
            user_shares_account,
            fee_receiver_account,
            token_vault,
        ) == Ok::<WithdrawPlan, VaultError>(queued),
        spec_withdraw(
            config,
            pool,
            user_token_account,
            user_shares_account,
            fee_receiver_account,
            token_vault,
            user,
            withdrawal_request.vault_pool,
            withdrawal_request.shares_amount,
            current_timestamp,
            request_bump,
            request_exists,
        ) == Ok::<WithdrawOutcome, VaultError>(WithdrawOutcome::Paid(instant)),
    ensures
        queued == instant,
{
}

/// After a paid and booked instant withdrawal, the assets withdrawn on the
/// day stay within a nonzero daily limit.
pub proof fn lemma_withdraw_respects_daily_limit(
    config: VaultConfig,
    pool: VaultPool,
    user_token_account: TokenAccountData,
    user_shares_account: TokenAccountData,
    fee_receiver_account: TokenAccountData,
    token_vault: TokenAccountData,
    user: Pubkey,
    vault_pool: Pubkey,
    shares_amount: u64,
    current_timestamp: i64,
    request_bump: u8,
    request_exists: bool,
    plan: WithdrawPlan,
)
    requires
        spec_withdraw(
            config,
            pool,
            user_token_account,
            user_shares_account,
            fee_receiver_account,
            token_vault,
            user,
            vault_pool,
            shares_amount,
            current_timestamp,
            request_bump,
            request_exists,
        ) == Ok::<WithdrawOutcome, VaultError>(WithdrawOutcome::Paid(plan)),
        pool.daily_withdrawal_limit != 0,
        pool.withdrawal_fits(shares_amount, plan.assets_to_return, current_timestamp),
    ensures
        pool.after_withdrawal(
            shares_amount,
            plan.assets_to_return,
            current_timestamp,
        ).withdrawn_today <= pool.daily_withdrawal_limit,
{
}

/// A withdrawal that passes every check but would exceed the daily limit is
/// not refused but queued: it becomes exactly the pending request that
/// `request_withdrawal_handler` creates for the same user, pool and shares
/// (unless the user has a request already), and nothing is paid.
pub proof fn lemma_over_limit_withdrawal_is_queued(
    config: VaultConfig,
    pool: VaultPool,
    user_token_account: TokenAccountData,
    user_shares_account: TokenAccountData,
    fee_receiver_account: TokenAccountData,
    token_vault: TokenAccountData,
    user: Pubkey,
    vault_pool: Pubkey,
    shares_amount: u64,
    current_timestamp: i64,
    request_bump: u8,
    request_exists: bool,
)
    requires
        !config.is_paused,
        pool.is_active,
        user_token_account.mint@ == pool.token_mint@,
        user_shares_account.mint@ == pool.shares_mint@,
        fee_receiver_account.mint@ == pool.token_mint@,
        shares_amount > 0,
        user_shares_account.amount >= shares_amount,
        pool.spec_assets_to_return(shares_amount) is Some,
        token_vault.amount >= pool.spec_assets_to_return(shares_amount).unwrap(),
        pool.with_daily_reset(current_timestamp).spec_exceeds_daily_limit(
            pool.spec_assets_to_return(shares_amount).unwrap(),
        ),
    ensures
        request_exists ==>         spec_withdraw(
            config,
            pool,
            user_token_account,
            user_shares_account,
            fee_receiver_account,
            token_vault,
            user,
            vault_pool,
            shares_amount,
            current_timestamp,
            request_bump,
            request_exists,
        ) == Err::<WithdrawOutcome, VaultError>(
            VaultError::WithdrawalRequestExists,
        ),
        !request_exists ==>         spec_withdraw(
            config,
            pool,
            user_token_account,
            user_shares_account,
            fee_receiver_account,
            token_vault,
            user,
            vault_pool,
            shares_amount,
            current_timestamp,
            request_bump,
            request_exists,
        ) == Ok::<WithdrawOutcome, VaultError>(
            WithdrawOutcome::Queued(
                spec_request_withdrawal(
                    config,
                    pool,
                    user,
                    vault_pool,
                    shares_amount,
                    current_timestamp,
                    request_bump,
                ).unwrap(),
            ),
        ),
        !request_exists ==> spec_request_withdrawal(
            config,
            pool,
            user,
            vault_pool,
            shares_amount,
            current_timestamp,
            request_bump,
        ).unwrap().is_processed == false,
{
}

/// An authorized injection of a nonzero yield into an active pool's token,
/// while the vault is not paused and with a valid performance fee, is
/// granted: the fee is `yield * fee_bps / 10000` and fee plus net yield add
/// up to the yield.
pub proof fn lemma_inject_yield_splits_yield(
    config: VaultConfig,
    pool: VaultPool,
    authority: Pubkey,
    yield_source: TokenAccountData,
    fee_receiver_account: TokenAccountData,
    yield_amount: u64,
)
    requires
        config.spec_is_authorized(authority),
        !config.is_paused,
        pool.is_active,
        yield_source.mint@ == pool.token_mint@,
        fee_receiver_account.mint@ == pool.token_mint@,
        yield_amount > 0,
        spec_is_valid_fee(config.performance_fee_bps),
    ensures
        spec_inject_yield(config, pool, authority, yield_source, fee_receiver_account, yield_amount)
            == Ok::<YieldPlan, VaultError>(
            YieldPlan {
                fee_amount: fee_of(yield_amount as int, config.performance_fee_bps as int) as u64,
                net_yield: (yield_amount - fee_of(
                    yield_amount as int,
                    config.performance_fee_bps as int,
                )) as u64,
            },
        ),
{
    lemma_valid_fee_splits_amount(yield_amount, config.performance_fee_bps);
}

/// While the vault is paused, deposits, instant withdrawals and withdrawal
/// requests are refused with `VaultPaused`, and so are yield injection, queue
/// processing and both strategy movements (for a signer who may send them at
/// all): no pool asset or share moves in the ordinary course. What stays
/// open: emergency withdrawal, the one fund movement meant for a paused vault;
/// the owner's other instructions (configuration, pools, pause and unpause,
/// ownership), without which a pause could not be lifted; and closing a
/// request, by its user (cancel) or by the owner or operator (once
/// processed), which moves no pool funds but only returns the request's rent.
pub proof fn lemma_pause_halts_fund_movements(
    config: VaultConfig,
    pool: VaultPool,
    user_token_account: TokenAccountData,
    user_shares_account: TokenAccountData,
    fee_receiver_account: TokenAccountData,
    token_vault: TokenAccountData,
    user: Pubkey,
    vault_pool: Pubkey,
    shares_amount: u64,
    current_timestamp: i64,
    request_bump: u8,
    request_exists: bool,
    authority: Pubkey,
    withdrawal_request: WithdrawalRequest,
    amount: u64,
)
    requires
        config.is_paused,
        config.spec_is_authorized(authority),
    ensures
        spec_deposit(config, pool, user_token_account, user_shares_account, amount) == Err::<
            u64,
            VaultError,
        >(VaultError::VaultPaused),
        spec_withdraw(
            config,
            pool,
            user_token_account,
            user_shares_account,
            fee_receiver_account,
            token_vault,
            user,
            vault_pool,
            shares_amount,
            current_timestamp,
            request_bump,
            request_exists,
        ) == Err::<WithdrawOutcome, VaultError>(VaultError::VaultPaused),
        spec_request_withdrawal(
            config,
            pool,
            user,
            vault_pool,
            shares_amount,
            current_timestamp,
            request_bump,
        ) == Err::<WithdrawalRequest, VaultError>(VaultError::VaultPaused),
        spec_inject_yield(config, pool, authority, user_token_account, fee_receiver_account, amount)
            == Err::<YieldPlan, VaultError>(VaultError::VaultPaused),
        spec_process_withdrawal_queue(
            config,
            pool,
            withdrawal_request,
            authority,
            user,
            user_token_account,
            user_shares_account,
            fee_receiver_account,
            token_vault,
        ) == Err::<WithdrawPlan, VaultError>(VaultError::VaultPaused),
        spec_withdraw_for_strategy(config, pool, authority, token_vault, user_token_account, amount)
            == Err::<(), VaultError>(VaultError::VaultPaused),
        spec_return_from_strategy(config, pool, authority, user_token_account, amount) == Err::<
            (),
            VaultError,
        >(VaultError::VaultPaused),
{
}

/// An inactive pool's funds do not move through the operator: queue
/// processing, yield injection and strategy movements are refused with
/// `PoolNotActive` (when the vault is not paused and the signer may send
/// them).
pub proof fn lemma_inactive_pool_halts_operator(
    config: VaultConfig,
    pool: VaultPool,
    withdrawal_request: WithdrawalRequest,
    authority: Pubkey,
    user: Pubkey,
    user_token_account: TokenAccountData,
    user_shares_account: TokenAccountData,
    fee_receiver_account: TokenAccountData,
    token_vault: TokenAccountData,
    amount: u64,
)
    requires
        !pool.is_active,
        !config.is_paused,
        config.spec_is_authorized(authority),
    ensures
        spec_process_withdrawal_queue(
            config,
            pool,
            withdrawal_request,
            authority,
            user,
            user_token_account,
            user_shares_account,
            fee_receiver_account,
            token_vault,
        ) == Err::<WithdrawPlan, VaultError>(VaultError::PoolNotActive),
        spec_inject_yield(config, pool, authority, user_token_account, fee_receiver_account, amount)
            == Err::<YieldPlan, VaultError>(VaultError::PoolNotActive),
        spec_withdraw_for_strategy(config, pool, authority, token_vault, user_token_account, amount)
            == Err::<(), VaultError>(VaultError::PoolNotActive),
        spec_return_from_strategy(config, pool, authority, user_token_account, amount) == Err::<
            (),
            VaultError,
        >(VaultError::PoolNotActive),
{
}

/// A processed request is final: processing it again is refused with
/// `WithdrawalAlreadyProcessed` (for a signer who may process, while the vault
/// runs and the pool is active).
pub proof fn lemma_processed_request_is_final(
    config: VaultConfig,
    pool: VaultPool,
    withdrawal_request: WithdrawalRequest,
    authority: Pubkey,
    user: Pubkey,
    user_token_account: TokenAccountData,
    user_shares_account: TokenAccountData,
    fee_receiver_account: TokenAccountData,
    token_vault: TokenAccountData,
)
    requires
        withdrawal_request.is_processed,
        config.spec_is_authorized(authority),
        !config.is_paused,
        pool.is_active,
    ensures
        spec_process_withdrawal_queue(
            config,
            pool,
            withdrawal_request,
            authority,
            user,
            user_token_account,
            user_shares_account,
            fee_receiver_account,
            token_vault,
        ) == Err::<WithdrawPlan, VaultError>(VaultError::WithdrawalAlreadyProcessed),
{
}

/// The owner of a newly initialized vault is the signer who created it, and
/// its pool count starts at zero, unpaused.
pub proof fn lemma_initialize_grants_ownership(
    owner: Pubkey,
    operator: Pubkey,
    fee_receiver: Pubkey,
    performance_fee_bps: u16,
    withdrawal_fee_bps: u16,
    bump: u8,
    config: VaultConfig,
)
    requires
        spec_initialize(
            owner,
            crate::instructions::admin::InitializeParams {
                operator,
                fee_receiver,
                performance_fee_bps,
                withdrawal_fee_bps,
            },
            bump,
        ) == Ok::<VaultConfig, VaultError>(config),
    ensures
        config.spec_is_owner(owner),
        config.spec_is_authorized(operator),
        !config.is_paused,
        config.total_pools == 0,
        spec_is_valid_fee(config.performance_fee_bps),
        spec_is_valid_fee(config.withdrawal_fee_bps),
{
}

/// Handing ownership over moves the owner's rights: the new owner is the
/// owner, and a former owner with another address no longer is.
pub proof fn lemma_transfer_ownership_moves_rights(
    config: VaultConfig,
    new_owner: Pubkey,
    former_owner: Pubkey,
)
    requires
        config.spec_is_owner(former_owner),
        former_owner@ != new_owner@,
    ensures
        (VaultConfig { owner: new_owner, ..config }).spec_is_owner(new_owner),
        !(VaultConfig { owner: new_owner, ..config }).spec_is_owner(former_owner),
{
}

/// A pool whose assets equal its shares is priced at exactly one
/// (`PRICE_SCALE`), as is a pool without shares.
pub proof fn lemma_share_price_at_par(total_assets: u64, total_shares: u64)
    requires
        total_assets == total_shares || total_shares == 0,
    ensures
        spec_share_price_scaled(total_assets, total_shares) == PRICE_SCALE,
{
    if total_shares != 0 {
        let t = total_shares as int;
        assert(t * 1_000_000_000 / t == 1_000_000_000) by (nonlinear_arith)
            requires
                t > 0,
        {
            vstd::arithmetic::div_mod::lemma_div_by_multiple(1_000_000_000, t);
        }
    }
}

} // verus!
