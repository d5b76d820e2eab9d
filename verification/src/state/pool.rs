//! A vault pool: the accounting of one token's assets and shares.
use vstd::prelude::*;

use crate::errors::VaultError;
use crate::pubkey::Pubkey;

verus! {

/// The vault pool of one SPL token.
#[derive(Clone, Copy, Debug)]
pub struct VaultPool {
    /// The global configuration this pool belongs to.
    pub config: Pubkey,
    /// The underlying token's mint (e.g. USDC).
    pub token_mint: Pubkey,
    /// The mint of the pool's shares token (e.g. vUSDC).
    pub shares_mint: Pubkey,
    /// The token account holding the pool's idle assets.
    pub token_vault: Pubkey,
    /// Assets under management, idle and deployed.
    pub total_assets: u64,
    /// Shares in circulation.
    pub total_shares: u64,
    /// Daily withdrawal limit; 0 means unlimited.
    pub daily_withdrawal_limit: u64,
    /// Assets withdrawn on the current day.
    pub withdrawn_today: u64,
    /// Timestamp of the withdrawal that opened the current day.
    pub last_withdrawal_day: i64,
    /// Whether the pool accepts deposits and withdrawals.
    pub is_active: bool,
    /// The pool's index among the pools created.
    pub pool_index: u64,
    /// Bump seed of the pool's address.
    pub bump: u8,
    /// Bump seed of the shares mint's address.
    pub shares_mint_bump: u8,
}

impl VaultPool {
    /// Seconds in a day, the period of the withdrawal limit.
    pub const SECONDS_PER_DAY: i64 = 86400;
}

/// The day number of a Unix timestamp: the timestamp divided by a day's
/// seconds, rounded toward zero.
pub open spec fn day_of(timestamp: int) -> int {
    if timestamp >= 0 {
        timestamp / (VaultPool::SECONDS_PER_DAY as int)
    } else {
        -((-timestamp) / (VaultPool::SECONDS_PER_DAY as int))
    }
}

/// `a * b / c`, rounded down, as an `Option<u64>` that is `None` where the
/// quotient does not fit.
pub open spec fn mul_div_u64(a: u64, b: u64, c: u64) -> Option<u64> {
    if (a as int) * (b as int) / (c as int) <= u64::MAX {
        Some(((a as int) * (b as int) / (c as int)) as u64)
    } else {
        None
    }
}

/// Computes `a * b / c`, rounded down, in 128-bit arithmetic.
fn mul_div(a: u64, b: u64, c: u64) -> (r: Option<u64>)
    requires
        c > 0,
    ensures
        r == mul_div_u64(a, b, c),
{
    let x: u128 = a as u128;
    let y: u128 = b as u128;
    assert(x * y <= 0xffff_ffff_ffff_ffffu128 * 0xffff_ffff_ffff_ffffu128) by (nonlinear_arith)
        requires
            x <= 0xffff_ffff_ffff_ffffu128,
            y <= 0xffff_ffff_ffff_ffffu128,
    ;
    let q: u128 = (x * y) / (c as u128);
    if q <= u64::MAX as u128 {
        Some(q as u64)
    } else {
        None
    }
}

impl VaultPool {
    /// Shares minted for a deposit: one for one while the pool holds no
    /// shares or no assets, else `deposit_amount * total_shares / total_assets`
    /// rounded down (`None` where that does not fit in a `u64`).
    pub open spec fn spec_shares_to_mint(self, deposit_amount: u64) -> Option<u64> {
        if self.total_shares == 0 || self.total_assets == 0 {
            Some(deposit_amount)
        } else {
            mul_div_u64(deposit_amount, self.total_shares, self.total_assets)
        }
    }

    /// Assets returned for redeemed shares:
    /// `shares_amount * total_assets / total_shares` rounded down; `None`
    /// while the pool holds no shares or where the result does not fit.
    pub open spec fn spec_assets_to_return(self, shares_amount: u64) -> Option<u64> {
        if self.total_shares == 0 {
            None
        } else {
            mul_div_u64(shares_amount, self.total_assets, self.total_shares)
        }
    }

    /// Whether `current_timestamp` lies on a later day than the last
    /// withdrawal day.
    pub open spec fn spec_should_reset_daily_limit(self, current_timestamp: i64) -> bool {
        day_of(current_timestamp as int) > day_of(self.last_withdrawal_day as int)
    }

    /// Whether withdrawing `amount` more today exceeds a nonzero daily limit:
    /// the day's total with `amount` (an exact sum, never cut off) is above
    /// the limit. A limit of 0 means unlimited.
    pub open spec fn spec_exceeds_daily_limit(self, amount: u64) -> bool {
        self.daily_withdrawal_limit != 0 && self.withdrawn_today + amount
            > self.daily_withdrawal_limit
    }

    /// The pool with the daily counter restarted if `current_timestamp`
    /// opens a new day.
    pub open spec fn with_daily_reset(self, current_timestamp: i64) -> VaultPool {
        if self.spec_should_reset_daily_limit(current_timestamp) {
            VaultPool { withdrawn_today: 0, last_withdrawal_day: current_timestamp, ..self }
        } else {
            self
        }
    }

    /// Whether booking a deposit of `amount` that minted `shares` keeps both
    /// totals within a `u64`.
    pub open spec fn deposit_fits(self, amount: u64, shares: u64) -> bool {
        self.total_assets + amount <= u64::MAX && self.total_shares + shares <= u64::MAX
    }

    /// Whether redeeming `shares` for `assets` keeps both totals at or above
    /// zero.
    pub open spec fn redemption_fits(self, shares: u64, assets: u64) -> bool {
        assets <= self.total_assets && shares <= self.total_shares
    }

    /// Whether booking an instant withdrawal at `current_timestamp` keeps
    /// every total within range.
    pub open spec fn withdrawal_fits(self, shares: u64, assets: u64, current_timestamp: i64) -> bool {
        self.redemption_fits(shares, assets) && self.with_daily_reset(current_timestamp).withdrawn_today
            + assets <= u64::MAX
    }

    /// The pool after a deposit of `amount` that minted `shares`.
    pub open spec fn after_deposit(self, amount: u64, shares: u64) -> VaultPool {
        VaultPool {
            total_assets: (self.total_assets + amount) as u64,
            total_shares: (self.total_shares + shares) as u64,
            ..self
        }
    }

    /// The pool after `shares` were redeemed for `assets`.
    pub open spec fn after_redemption(self, shares: u64, assets: u64) -> VaultPool {
        VaultPool {
            total_assets: (self.total_assets - assets) as u64,
            total_shares: (self.total_shares - shares) as u64,
            ..self
        }
    }

    /// The pool after an instant withdrawal at `current_timestamp`: the
    /// daily counter restarted on a new day, the redemption, and the assets
    /// counted against the day.
    pub open spec fn after_withdrawal(self, shares: u64, assets: u64, current_timestamp: i64) -> VaultPool {
        let p = self.with_daily_reset(current_timestamp);
        VaultPool {
            withdrawn_today: (p.withdrawn_today + assets) as u64,
            ..p.after_redemption(shares, assets)
        }
    }

    /// Calculates the shares to mint for a deposit: one for one on the first
    /// deposit, else `deposit_amount * total_shares / total_assets`.
    pub fn calculate_shares_to_mint(&self, deposit_amount: u64) -> (r: Option<u64>)
        ensures
            r == self.spec_shares_to_mint(deposit_amount),
    {
        if self.total_shares == 0 || self.total_assets == 0 {
            Some(deposit_amount)
        } else {
            mul_div(deposit_amount, self.total_shares, self.total_assets)
        }
    }

    /// Calculates the assets to return for a withdrawal:
    /// `shares_amount * total_assets / total_shares`.
    pub fn calculate_assets_to_return(&self, shares_amount: u64) -> (r: Option<u64>)
        ensures
            r == self.spec_assets_to_return(shares_amount),
    {
        if self.total_shares == 0 {
            return None;
        }
        mul_div(shares_amount, self.total_assets, self.total_shares)
    }

    /// Checks whether the daily withdrawal counter must be restarted.
    pub fn should_reset_daily_limit(&self, current_timestamp: i64) -> (r: bool)
        ensures
            r == self.spec_should_reset_daily_limit(current_timestamp),
    {
        let current_day = current_timestamp / Self::SECONDS_PER_DAY;
        let last_day = self.last_withdrawal_day / Self::SECONDS_PER_DAY;
        current_day > last_day
    }

    /// Checks whether a withdrawal of `amount` exceeds the daily limit.
    pub fn exceeds_daily_limit(&self, amount: u64) -> (r: bool)
        ensures
            r == self.spec_exceeds_daily_limit(amount),
    {
        if self.daily_withdrawal_limit == 0 {
            return false;
        }
        if self.withdrawn_today > self.daily_withdrawal_limit {
            return true;
        }
        amount > self.daily_withdrawal_limit - self.withdrawn_today
    }

    /// The pool's liquidity as its accounting sees it: its total assets.
    pub fn available_liquidity(&self) -> (r: u64)
        ensures
            r == self.total_assets,
    {
        self.total_assets
    }

    /// Books a deposit of `amount` that minted `shares`; refused with
    /// `MathOverflow`, and nothing changed, where a total would overflow.
    pub fn record_deposit(&mut self, amount: u64, shares: u64) -> (r: Result<(), VaultError>)
        ensures
            r is Ok <==> old(self).deposit_fits(amount, shares),
            r is Ok ==> *final(self) == old(self).after_deposit(amount, shares),
            r is Err ==> r == Err::<(), VaultError>(VaultError::MathOverflow) && *final(self) == *old(self),
    {
        let total_assets = match self.total_assets.checked_add(amount) {
            Some(v) => v,
            None => return Err(VaultError::MathOverflow),
        };
        let total_shares = match self.total_shares.checked_add(shares) {
            Some(v) => v,
            None => return Err(VaultError::MathOverflow),
        };
        self.total_assets = total_assets;
        self.total_shares = total_shares;
        Ok(())
    }

    /// Books the redemption of `shares` for `assets`; refused with
    /// `MathOverflow`, and nothing changed, where a total would go below zero.
    pub fn record_redemption(&mut self, shares: u64, assets: u64) -> (r: Result<(), VaultError>)
        ensures
            r is Ok <==> old(self).redemption_fits(shares, assets),
            r is Ok ==> *final(self) == old(self).after_redemption(shares, assets),
            r is Err ==> r == Err::<(), VaultError>(VaultError::MathOverflow) && *final(self) == *old(self),
    {
        let total_assets = match self.total_assets.checked_sub(assets) {
            Some(v) => v,
            None => return Err(VaultError::MathOverflow),
        };
        let total_shares = match self.total_shares.checked_sub(shares) {
            Some(v) => v,
            None => return Err(VaultError::MathOverflow),
        };
        self.total_assets = total_assets;
        self.total_shares = total_shares;
        Ok(())
    }

    /// Books an instant withdrawal at `current_timestamp`: restarts the
    /// daily counter on a new day, redeems `shares` for `assets` and counts
    /// `assets` against the day; refused with `MathOverflow`, and nothing
    /// changed, where a total would overflow.
    pub fn record_withdrawal(&mut self, shares: u64, assets: u64, current_timestamp: i64) -> (r:
        Result<(), VaultError>)
        ensures
            r is Ok <==> old(self).withdrawal_fits(shares, assets, current_timestamp),
            r is Ok ==> *final(self) == old(self).after_withdrawal(shares, assets, current_timestamp),
            r is Err ==> r == Err::<(), VaultError>(VaultError::MathOverflow) && *final(self) == *old(self),
    {
        let reset = self.should_reset_daily_limit(current_timestamp);
        let withdrawn_before = if reset {
            0
        } else {
            self.withdrawn_today
        };
        let total_assets = match self.total_assets.checked_sub(assets) {
            Some(v) => v,
            None => return Err(VaultError::MathOverflow),
        };
        let total_shares = match self.total_shares.checked_sub(shares) {
            Some(v) => v,
            None => return Err(VaultError::MathOverflow),
        };
        let withdrawn_today = match withdrawn_before.checked_add(assets) {
            Some(v) => v,
            None => return Err(VaultError::MathOverflow),
        };
        if reset {
            self.last_withdrawal_day = current_timestamp;
        }
        self.total_assets = total_assets;
        self.total_shares = total_shares;
        self.withdrawn_today = withdrawn_today;
        Ok(())
    }

    /// Books injected yield: `net_yield` more assets for the same shares;
    /// refused with `MathOverflow`, and nothing changed, on overflow.
    pub fn record_yield(&mut self, net_yield: u64) -> (r: Result<(), VaultError>)
        ensures
            r is Ok <==> old(self).total_assets + net_yield <= u64::MAX,
            r is Ok ==> *final(self) == (VaultPool {
                total_assets: (old(self).total_assets + net_yield) as u64,
                ..*old(self)
            }),
            r is Err ==> r == Err::<(), VaultError>(VaultError::MathOverflow) && *final(self) == *old(self),
    {
        match self.total_assets.checked_add(net_yield) {
            Some(v) => {
                self.total_assets = v;
                Ok(())
            },
            None => Err(VaultError::MathOverflow),
        }
    }
}

} // verus!
