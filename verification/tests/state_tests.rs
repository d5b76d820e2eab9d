use vault::state::{VaultConfig, VaultPool, WithdrawalRequest};
use vault::{Pubkey, VaultError};

fn key(b: u8) -> Pubkey {
    Pubkey::new_from_array([b; 32])
}

fn pool(total_assets: u64, total_shares: u64) -> VaultPool {
    VaultPool {
        config: key(1),
        token_mint: key(2),
        shares_mint: key(3),
        token_vault: key(4),
        total_assets,
        total_shares,
        daily_withdrawal_limit: 0,
        withdrawn_today: 0,
        last_withdrawal_day: 0,
        is_active: true,
        pool_index: 0,
        bump: 255,
        shares_mint_bump: 254,
    }
}

fn config() -> VaultConfig {
    VaultConfig {
        owner: key(10),
        operator: key(11),
        is_paused: false,
        performance_fee_bps: 2000,
        withdrawal_fee_bps: 50,
        fee_receiver: key(12),
        total_pools: 1,
        bump: 253,
    }
}

#[test]
fn pubkeys_compare_by_bytes() {
    let mut bytes = [7u8; 32];
    let a = Pubkey::new_from_array(bytes);
    assert!(a == Pubkey::new_from_array([7u8; 32]));
    bytes[31] = 8;
    assert!(a != Pubkey::new_from_array(bytes));
    bytes[31] = 7;
    bytes[0] = 0;
    assert!(a != Pubkey::new_from_array(bytes));
    assert_eq!(a.to_bytes(), [7u8; 32]);
}

#[test]
fn roles() {
    let c = config();
    assert!(c.is_owner(&key(10)));
    assert!(!c.is_owner(&key(11)));
    assert!(c.is_operator(&key(11)));
    assert!(!c.is_operator(&key(10)));
    assert!(c.is_authorized(&key(10)));
    assert!(c.is_authorized(&key(11)));
    assert!(!c.is_authorized(&key(12)));
}

#[test]
fn first_deposit_is_one_for_one() {
    assert_eq!(pool(0, 0).calculate_shares_to_mint(5000), Some(5000));
    // no assets left but shares outstanding: still one for one
    assert_eq!(pool(0, 700).calculate_shares_to_mint(5000), Some(5000));
    // assets but no shares: one for one too
    assert_eq!(pool(900, 0).calculate_shares_to_mint(5000), Some(5000));
}

#[test]
fn shares_follow_the_share_price() {
    assert_eq!(pool(2000, 1000).calculate_shares_to_mint(1000), Some(500));
    assert_eq!(pool(1000, 1000).calculate_shares_to_mint(1234), Some(1234));
    // rounding down
    assert_eq!(pool(3000, 1000).calculate_shares_to_mint(1000), Some(333));
}

#[test]
fn shares_that_do_not_fit_are_refused() {
    assert_eq!(pool(1, u64::MAX).calculate_shares_to_mint(2), None);
    assert_eq!(pool(2, u64::MAX).calculate_shares_to_mint(2), Some(u64::MAX));
}

#[test]
fn assets_follow_the_share_price() {
    assert_eq!(pool(2000, 1000).calculate_assets_to_return(500), Some(1000));
    assert_eq!(pool(1000, 3000).calculate_assets_to_return(1000), Some(333));
    assert_eq!(pool(0, 1000).calculate_assets_to_return(1000), Some(0));
    assert_eq!(pool(1000, 0).calculate_assets_to_return(1000), None);
    assert_eq!(pool(u64::MAX, 1).calculate_assets_to_return(2), None);
}

#[test]
fn daily_reset_by_calendar_day() {
    let mut p = pool(0, 0);
    p.last_withdrawal_day = 86_400 * 3 + 10;
    assert!(!p.should_reset_daily_limit(86_400 * 3 + 86_399));
    assert!(p.should_reset_daily_limit(86_400 * 4));
    assert!(!p.should_reset_daily_limit(86_400 * 2));
    assert_eq!(VaultPool::SECONDS_PER_DAY, 86_400);
}

#[test]
fn daily_reset_rounds_toward_zero() {
    let mut p = pool(0, 0);
    p.last_withdrawal_day = -1;
    // -1 / 86400 is 0, the same day as 0 .. 86399
    assert!(!p.should_reset_daily_limit(86_399));
    assert!(p.should_reset_daily_limit(86_400));
    p.last_withdrawal_day = -86_400;
    assert!(p.should_reset_daily_limit(0));
    assert!(p.should_reset_daily_limit(-1));
    assert!(!p.should_reset_daily_limit(-86_401));
}

#[test]
fn daily_limit_zero_is_unlimited() {
    let mut p = pool(0, 0);
    p.withdrawn_today = u64::MAX;
    assert!(!p.exceeds_daily_limit(u64::MAX));
}

#[test]
fn daily_limit_checks() {
    let mut p = pool(0, 0);
    p.daily_withdrawal_limit = 1000;
    p.withdrawn_today = 400;
    assert!(!p.exceeds_daily_limit(600));
    assert!(p.exceeds_daily_limit(601));
}

#[test]
fn daily_limit_uses_the_exact_running_total() {
    let mut p = pool(0, 0);
    p.daily_withdrawal_limit = u64::MAX;
    p.withdrawn_today = 10;
    // 10 + u64::MAX is above u64::MAX: the limit is exceeded
    assert!(p.exceeds_daily_limit(u64::MAX));
    assert!(p.exceeds_daily_limit(u64::MAX - 9));
    assert!(!p.exceeds_daily_limit(u64::MAX - 10));
    // a counter already above a lowered limit exceeds it with any amount
    p.daily_withdrawal_limit = 5;
    assert!(p.exceeds_daily_limit(0));
}

#[test]
fn liquidity_is_total_assets() {
    assert_eq!(pool(1234, 5).available_liquidity(), 1234);
}

#[test]
fn record_deposit_books_totals() {
    let mut p = pool(2000, 1000);
    assert_eq!(p.record_deposit(1000, 500), Ok(()));
    assert_eq!(p.total_assets, 3000);
    assert_eq!(p.total_shares, 1500);
}

#[test]
fn record_deposit_overflow_changes_nothing() {
    let mut p = pool(u64::MAX, 10);
    assert_eq!(p.record_deposit(1, 1), Err(VaultError::MathOverflow));
    assert_eq!(p.total_assets, u64::MAX);
    assert_eq!(p.total_shares, 10);
    let mut p = pool(10, u64::MAX);
    assert_eq!(p.record_deposit(1, 1), Err(VaultError::MathOverflow));
    assert_eq!(p.total_assets, 10);
    assert_eq!(p.total_shares, u64::MAX);
}

#[test]
fn record_redemption_books_totals() {
    let mut p = pool(2000, 1000);
    assert_eq!(p.record_redemption(500, 1000), Ok(()));
    assert_eq!(p.total_assets, 1000);
    assert_eq!(p.total_shares, 500);
    assert_eq!(p.record_redemption(501, 0), Err(VaultError::MathOverflow));
    assert_eq!(p.record_redemption(0, 1001), Err(VaultError::MathOverflow));
    assert_eq!(p.total_assets, 1000);
    assert_eq!(p.total_shares, 500);
}

#[test]
fn record_withdrawal_counts_the_day() {
    let mut p = pool(2000, 1000);
    p.daily_withdrawal_limit = 5000;
    p.withdrawn_today = 300;
    p.last_withdrawal_day = 100;
    assert_eq!(p.record_withdrawal(100, 200, 200), Ok(()));
    assert_eq!(p.total_assets, 1800);
    assert_eq!(p.total_shares, 900);
    assert_eq!(p.withdrawn_today, 500);
    assert_eq!(p.last_withdrawal_day, 100);
}

#[test]
fn record_withdrawal_on_a_new_day_restarts_the_count() {
    let mut p = pool(2000, 1000);
    p.withdrawn_today = 300;
    p.last_withdrawal_day = 100;
    assert_eq!(p.record_withdrawal(100, 200, 86_400 + 5), Ok(()));
    assert_eq!(p.withdrawn_today, 200);
    assert_eq!(p.last_withdrawal_day, 86_405);
}

#[test]
fn record_withdrawal_overflow_changes_nothing() {
    let mut p = pool(2000, 1000);
    p.withdrawn_today = u64::MAX;
    p.last_withdrawal_day = 100;
    assert_eq!(p.record_withdrawal(1, 1, 200), Err(VaultError::MathOverflow));
    assert_eq!(p.total_assets, 2000);
    assert_eq!(p.withdrawn_today, u64::MAX);
    // on a new day the count restarts, so it fits
    assert_eq!(p.record_withdrawal(1, 1, 86_400 * 2), Ok(()));
    assert_eq!(p.withdrawn_today, 1);
}

#[test]
fn record_yield_compounds() {
    let mut p = pool(2000, 1000);
    assert_eq!(p.record_yield(800), Ok(()));
    assert_eq!(p.total_assets, 2800);
    assert_eq!(p.total_shares, 1000);
    let mut p = pool(u64::MAX, 1000);
    assert_eq!(p.record_yield(1), Err(VaultError::MathOverflow));
    assert_eq!(p.total_assets, u64::MAX);
}

#[test]
fn request_pending_until_processed() {
    let mut r = WithdrawalRequest {
        user: key(20),
        vault_pool: key(21),
        shares_amount: 10,
        requested_at: 5,
        is_processed: false,
        bump: 1,
    };
    assert!(r.is_pending());
    r.is_processed = true;
    assert!(!r.is_pending());
}
