//! Owner instructions: configuration, pools, pausing, emergencies,
//! ownership, and closing accounts.
use vstd::prelude::*;

use crate::errors::VaultError;
use crate::pubkey::Pubkey;
use crate::state::{TokenAccountData, VaultConfig, VaultPool, WithdrawalRequest};
use crate::utils::{is_valid_fee, spec_is_valid_fee};

verus! {

/// Parameters of `initialize_handler`.
#[derive(Clone, Copy, Debug)]
pub struct InitializeParams {
    /// The operator.
    pub operator: Pubkey,
    /// The fee receiver.
    pub fee_receiver: Pubkey,
    /// The performance fee in basis points.
    pub performance_fee_bps: u16,
    /// The withdrawal fee in basis points.
    pub withdrawal_fee_bps: u16,
}

/// Parameters of `update_config_handler`: each field that is `Some` replaces
/// the configuration's value.
#[derive(Clone, Copy, Debug)]
pub struct UpdateConfigParams {
    /// A new operator.
    pub new_operator: Option<Pubkey>,
    /// A new fee receiver.
    pub new_fee_receiver: Option<Pubkey>,
    /// A new performance fee in basis points.
    pub new_performance_fee_bps: Option<u16>,
    /// A new withdrawal fee in basis points.
    pub new_withdrawal_fee_bps: Option<u16>,
}

/// Parameters of `create_pool_handler`.
#[derive(Clone, Copy, Debug)]
pub struct CreatePoolParams {
    /// The new pool's daily withdrawal limit (0 = unlimited).
    pub daily_withdrawal_limit: u64,
}

/// The configuration that `initialize_handler` creates, or why it refuses.
pub open spec fn spec_initialize(owner: Pubkey, params: InitializeParams, bump: u8) -> Result<
    VaultConfig,
    VaultError,
> {
    if !spec_is_valid_fee(params.performance_fee_bps) || !spec_is_valid_fee(
        params.withdrawal_fee_bps,
    ) {
        Err(VaultError::InvalidFee)
    } else {
        Ok(
            VaultConfig {
                owner,
                operator: params.operator,
                is_paused: false,
                performance_fee_bps: params.performance_fee_bps,
                withdrawal_fee_bps: params.withdrawal_fee_bps,
                fee_receiver: params.fee_receiver,
                total_pools: 0,
                bump,
            },
        )
    }
}

/// Creates the global configuration, owned by `owner`, unpaused and with no
/// pools; both fees must be valid.
pub fn initialize_handler(owner: Pubkey, params: InitializeParams, bump: u8) -> (r: Result<
    VaultConfig,
    VaultError,
>)
    ensures
        r == spec_initialize(owner, params, bump),
{
    if !is_valid_fee(params.performance_fee_bps) {
        return Err(VaultError::InvalidFee);
    }
    if !is_valid_fee(params.withdrawal_fee_bps) {
        return Err(VaultError::InvalidFee);
    }
    Ok(
        VaultConfig {
            owner,
            operator: params.operator,
            is_paused: false,
            performance_fee_bps: params.performance_fee_bps,
            withdrawal_fee_bps: params.withdrawal_fee_bps,
            fee_receiver: params.fee_receiver,
            total_pools: 0,
            bump,
        },
    )
}

/// Whether an optional new fee is absent or valid.
pub open spec fn optional_fee_valid(fee: Option<u16>) -> bool {
    match fee {
        Some(f) => spec_is_valid_fee(f),
        None => true,
    }
}

/// The configuration after `update_config_handler`, or why it refuses.
pub open spec fn spec_update_config(
    config: VaultConfig,
    owner: Pubkey,
    params: UpdateConfigParams,
) -> Result<VaultConfig, VaultError> {
    if !config.spec_is_owner(owner) {
        Err(VaultError::UnauthorizedOwner)
    } else if !optional_fee_valid(params.new_performance_fee_bps) || !optional_fee_valid(
        params.new_withdrawal_fee_bps,
    ) {
        Err(VaultError::InvalidFee)
    } else {
        Ok(
            VaultConfig {
                operator: match params.new_operator {
                    Some(k) => k,
                    None => config.operator,
                },
                fee_receiver: match params.new_fee_receiver {
                    Some(k) => k,
                    None => config.fee_receiver,
                },
                performance_fee_bps: match params.new_performance_fee_bps {
                    Some(f) => f,
                    None => config.performance_fee_bps,
                },
                withdrawal_fee_bps: match params.new_withdrawal_fee_bps {
                    Some(f) => f,
                    None => config.withdrawal_fee_bps,
                },
                ..config
            },
        )
    }
}

/// Updates the operator, fee receiver and fees given in `params`; only the
/// owner may, and every new fee must be valid. Refused, nothing changes.
pub fn update_config_handler(
    config: &mut VaultConfig,
    owner: &Pubkey,
    params: UpdateConfigParams,
) -> (r: Result<(), VaultError>)
    ensures
        match spec_update_config(*old(config), *owner, params) {
            Ok(c) => r == Ok::<(), VaultError>(()) && *final(config) == c,
            Err(e) => r == Err::<(), VaultError>(e) && *final(config) == *old(config),
        },
{
    if !config.is_owner(owner) {
        return Err(VaultError::UnauthorizedOwner);
    }
    if let Some(fee) = params.new_performance_fee_bps {
        if !is_valid_fee(fee) {
            return Err(VaultError::InvalidFee);
        }
    }
    if let Some(fee) = params.new_withdrawal_fee_bps {
        if !is_valid_fee(fee) {
            return Err(VaultError::InvalidFee);
        }
    }
    if let Some(operator) = params.new_operator {
        config.operator = operator;
    }
    if let Some(fee_receiver) = params.new_fee_receiver {
        config.fee_receiver = fee_receiver;
    }
    if let Some(fee) = params.new_performance_fee_bps {
        config.performance_fee_bps = fee;
    }
    if let Some(fee) = params.new_withdrawal_fee_bps {
        config.withdrawal_fee_bps = fee;
    }
    Ok(())
}

/// The pool that `create_pool_handler` creates: empty, active, indexed by
/// the configuration's pool count.
pub open spec fn spec_new_pool(
    config: VaultConfig,
    config_key: Pubkey,
    token_mint: Pubkey,
    shares_mint: Pubkey,
    token_vault: Pubkey,
    params: CreatePoolParams,
    bump: u8,
    shares_mint_bump: u8,
) -> VaultPool {
    VaultPool {
        config: config_key,
        token_mint,
        shares_mint,
        token_vault,
        total_assets: 0,
        total_shares: 0,
        daily_withdrawal_limit: params.daily_withdrawal_limit,
        withdrawn_today: 0,
        last_withdrawal_day: 0,
        is_active: true,
        pool_index: config.total_pools,
        bump,
        shares_mint_bump,
    }
}

/// Creates the pool of `token_mint` (only the owner may) and counts it in the
/// configuration; refused with `MathOverflow` where the count would overflow.
/// Refused, nothing changes.
pub fn create_pool_handler(
    config: &mut VaultConfig,
    owner: &Pubkey,
    config_key: Pubkey,
    token_mint: Pubkey,
    shares_mint: Pubkey,
    token_vault: Pubkey,
    params: CreatePoolParams,
    bump: u8,
    shares_mint_bump: u8,
) -> (r: Result<VaultPool, VaultError>)
    ensures
        !old(config).spec_is_owner(*owner) ==> r == Err::<VaultPool, VaultError>(
            VaultError::UnauthorizedOwner,
        ),
        old(config).spec_is_owner(*owner) && old(config).total_pools == u64::MAX ==> r == Err::<
            VaultPool,
            VaultError,
        >(VaultError::MathOverflow),
        old(config).spec_is_owner(*owner) && old(config).total_pools < u64::MAX ==> r == Ok::<
            VaultPool,
            VaultError,
        >(
            spec_new_pool(
                *old(config),
                config_key,
                token_mint,
                shares_mint,
                token_vault,
                params,
                bump,
                shares_mint_bump,
            ),
        ) && *final(config) == (VaultConfig {
            total_pools: (old(config).total_pools + 1) as u64,
            ..*old(config)
        }),
        r is Err ==> *final(config) == *old(config),
{
    if !config.is_owner(owner) {
        return Err(VaultError::UnauthorizedOwner);
    }
    let total_pools = match config.total_pools.checked_add(1) {
        Some(n) => n,
        None => return Err(VaultError::MathOverflow),
    };
    let pool = VaultPool {
        config: config_key,
        token_mint,
        shares_mint,
        token_vault,
        total_assets: 0,
        total_shares: 0,
        daily_withdrawal_limit: params.daily_withdrawal_limit,
        withdrawn_today: 0,
        last_withdrawal_day: 0,
        is_active: true,
        pool_index: config.total_pools,
        bump,
        shares_mint_bump,
    };
    config.total_pools = total_pools;
    Ok(pool)
}

/// Pauses all deposits and withdrawals; only the owner may.
pub fn pause_handler(config: &mut VaultConfig, owner: &Pubkey) -> (r: Result<(), VaultError>)
    ensures
        old(config).spec_is_owner(*owner) ==> r == Ok::<(), VaultError>(()) && *final(config) == (
        VaultConfig { is_paused: true, ..*old(config) }),
        !old(config).spec_is_owner(*owner) ==> r == Err::<(), VaultError>(
            VaultError::UnauthorizedOwner,
        ) && *final(config) == *old(config),
{
    if !config.is_owner(owner) {
        return Err(VaultError::UnauthorizedOwner);
    }
    config.is_paused = true;
    Ok(())
}

/// Lifts the pause; only the owner may.
pub fn unpause_handler(config: &mut VaultConfig, owner: &Pubkey) -> (r: Result<(), VaultError>)
    ensures
        old(config).spec_is_owner(*owner) ==> r == Ok::<(), VaultError>(()) && *final(config) == (
        VaultConfig { is_paused: false, ..*old(config) }),
        !old(config).spec_is_owner(*owner) ==> r == Err::<(), VaultError>(
            VaultError::UnauthorizedOwner,
        ) && *final(config) == *old(config),
{
    if !config.is_owner(owner) {
        return Err(VaultError::UnauthorizedOwner);
    }
    config.is_paused = false;
    Ok(())
}

/// Activates or deactivates a pool; only the owner may.
pub fn set_pool_active_handler(
    config: &VaultConfig,
    pool: &mut VaultPool,
    owner: &Pubkey,
    is_active: bool,
) -> (r: Result<(), VaultError>)
    ensures
        config.spec_is_owner(*owner) ==> r == Ok::<(), VaultError>(()) && *final(pool) == (
        VaultPool { is_active, ..*old(pool) }),
        !config.spec_is_owner(*owner) ==> r == Err::<(), VaultError>(VaultError::UnauthorizedOwner)
            && *final(pool) == *old(pool),
{
    if !config.is_owner(owner) {
        return Err(VaultError::UnauthorizedOwner);
    }
    pool.is_active = is_active;
    Ok(())
}

/// An emergency withdrawal by the owner: returns the amount to move to
/// `destination`, everything the pool's token vault holds. Every granted
/// emergency withdrawal pauses the vault; when the amount is nonzero the
/// pool's assets also drop to zero and the pool is deactivated (with an empty
/// vault the pool is left as it is). Refused, nothing changes.
pub fn emergency_withdraw_handler(
    config: &mut VaultConfig,
    pool: &mut VaultPool,
    owner: &Pubkey,
    token_vault: &TokenAccountData,
    destination: &TokenAccountData,
) -> (r: Result<u64, VaultError>)
    ensures
        !old(config).spec_is_owner(*owner) ==> r == Err::<u64, VaultError>(
            VaultError::UnauthorizedOwner,
        ),
        old(config).spec_is_owner(*owner) && destination.mint@ != old(pool).token_mint@ ==> r
            == Err::<u64, VaultError>(VaultError::InvalidTokenMint),
        old(config).spec_is_owner(*owner) && destination.mint@ == old(pool).token_mint@ ==> r
            == Ok::<u64, VaultError>(token_vault.amount),
        r is Err ==> *final(config) == *old(config) && *final(pool) == *old(pool),
        r is Ok ==> *final(config) == (VaultConfig { is_paused: true, ..*old(config) }),
        r is Ok && token_vault.amount == 0 ==> *final(pool) == *old(pool),
        r is Ok && token_vault.amount > 0 ==> *final(pool) == (VaultPool {
            total_assets: 0,
            is_active: false,
            ..*old(pool)
        }),
{
    if !config.is_owner(owner) {
        return Err(VaultError::UnauthorizedOwner);
    }
    if destination.mint != pool.token_mint {
        return Err(VaultError::InvalidTokenMint);
    }
    let amount = token_vault.amount;
    config.is_paused = true;
    if amount > 0 {
        pool.total_assets = 0;
        pool.is_active = false;
    }
    Ok(amount)
}

/// Hands ownership to `new_owner`; only the owner may.
pub fn transfer_ownership_handler(
    config: &mut VaultConfig,
    owner: &Pubkey,
    new_owner: Pubkey,
) -> (r: Result<(), VaultError>)
    ensures
        old(config).spec_is_owner(*owner) ==> r == Ok::<(), VaultError>(()) && *final(config) == (
        VaultConfig { owner: new_owner, ..*old(config) }),
        !old(config).spec_is_owner(*owner) ==> r == Err::<(), VaultError>(
            VaultError::UnauthorizedOwner,
        ) && *final(config) == *old(config),
{
    if !config.is_owner(owner) {
        return Err(VaultError::UnauthorizedOwner);
    }
    config.owner = new_owner;
    Ok(())
}

/// Sets a pool's daily withdrawal limit (0 = unlimited); only the owner may.
pub fn set_withdrawal_limit_handler(
    config: &VaultConfig,
    pool: &mut VaultPool,
    owner: &Pubkey,
    daily_limit: u64,
) -> (r: Result<(), VaultError>)
    ensures
        config.spec_is_owner(*owner) ==> r == Ok::<(), VaultError>(()) && *final(pool) == (
        VaultPool { daily_withdrawal_limit: daily_limit, ..*old(pool) }),
        !config.spec_is_owner(*owner) ==> r == Err::<(), VaultError>(VaultError::UnauthorizedOwner)
            && *final(pool) == *old(pool),
{
    if !config.is_owner(owner) {
        return Err(VaultError::UnauthorizedOwner);
    }
    pool.daily_withdrawal_limit = daily_limit;
    Ok(())
}

/// Checks that a processed withdrawal request may be closed by `authority`
/// (owner or operator), its rent going back to `user`, the request's user.
pub fn close_withdrawal_request_handler(
    config: &VaultConfig,
    withdrawal_request: &WithdrawalRequest,
    authority: &Pubkey,
    user: &Pubkey,
) -> (r: Result<(), VaultError>)
    ensures
        r == (if !config.spec_is_authorized(*authority) {
            Err(VaultError::Unauthorized)
        } else if !withdrawal_request.is_processed {
            Err(VaultError::WithdrawalRequestNotFound)
        } else if user@ != withdrawal_request.user@ {
            Err(VaultError::UserMismatch)
        } else {
            Ok(())
        }),
{
    if !config.is_authorized(authority) {
        return Err(VaultError::Unauthorized);
    }
    if !withdrawal_request.is_processed {
        return Err(VaultError::WithdrawalRequestNotFound);
    }
    if *user != withdrawal_request.user {
        return Err(VaultError::UserMismatch);
    }
    Ok(())
}

/// Closes an inactive, empty pool (only the owner may) and takes it off the
/// configuration's pool count (which stops at zero).
pub fn close_pool_handler(config: &mut VaultConfig, pool: &VaultPool, owner: &Pubkey) -> (r:
    Result<(), VaultError>)
    ensures
        r == (if !old(config).spec_is_owner(*owner) {
            Err(VaultError::UnauthorizedOwner)
        } else if pool.is_active {
            Err(VaultError::PoolAlreadyActive)
        } else if pool.total_shares != 0 || pool.total_assets != 0 {
            Err(VaultError::InsufficientLiquidity)
        } else {
            Ok(())
        }),
        r is Ok ==> *final(config) == (VaultConfig {
            total_pools: if old(config).total_pools == 0 {
                0
            } else {
                (old(config).total_pools - 1) as u64
            },
            ..*old(config)
        }),
        r is Err ==> *final(config) == *old(config),
{
    if !config.is_owner(owner) {
        return Err(VaultError::UnauthorizedOwner);
    }
    if pool.is_active {
        return Err(VaultError::PoolAlreadyActive);
    }
    if pool.total_shares != 0 {
        return Err(VaultError::InsufficientLiquidity);
    }
    if pool.total_assets != 0 {
        return Err(VaultError::InsufficientLiquidity);
    }
    config.total_pools = config.total_pools.saturating_sub(1);
    Ok(())
}

} // verus!
