use vault::instructions::admin::{
    close_pool_handler, close_withdrawal_request_handler, create_pool_handler,
    emergency_withdraw_handler, initialize_handler, pause_handler, set_pool_active_handler,
    set_withdrawal_limit_handler, transfer_ownership_handler, unpause_handler,
    update_config_handler, CreatePoolParams, InitializeParams, UpdateConfigParams,
};
use vault::instructions::operator::{
    inject_yield_handler, process_withdrawal_queue_handler, return_from_strategy_handler,
    withdraw_for_strategy_handler, YieldPlan,
};
use vault::instructions::user::{
    cancel_withdrawal_handler, deposit_handler, request_withdrawal_handler, withdraw_handler,
    WithdrawOutcome, WithdrawPlan,
};
use vault::instructions::views::{preview_deposit_handler, preview_withdraw_handler};
use vault::state::{TokenAccountData, VaultConfig, VaultPool, WithdrawalRequest};
use vault::{Pubkey, VaultError};

const OWNER: u8 = 10;
const OPERATOR: u8 = 11;
const FEE_RECEIVER: u8 = 12;
const USER: u8 = 20;
const STRANGER: u8 = 99;
const TOKEN_MINT: u8 = 2;
const SHARES_MINT: u8 = 3;

fn key(b: u8) -> Pubkey {
    Pubkey::new_from_array([b; 32])
}

fn pool(total_assets: u64, total_shares: u64) -> VaultPool {
    VaultPool {
        config: key(1),
        token_mint: key(TOKEN_MINT),
        shares_mint: key(SHARES_MINT),
        token_vault: key(4),
        total_assets,
        total_shares,
        daily_withdrawal_limit: 0,
        withdrawn_today: 0,
        last_withdrawal_day: 0,
        is_active: true,
        pool_index: 0,
        bump: 255,
        shares_mint_bump: 254,
    }
}

fn config() -> VaultConfig {
    VaultConfig {
        owner: key(OWNER),
        operator: key(OPERATOR),
        is_paused: false,
        performance_fee_bps: 2000,
        withdrawal_fee_bps: 50,
        fee_receiver: key(FEE_RECEIVER),
        total_pools: 1,
        bump: 253,
    }
}

fn account(mint: u8, owner: u8, amount: u64) -> TokenAccountData {
    TokenAccountData { mint: key(mint), owner: key(owner), amount }
}

fn request(is_processed: bool) -> WithdrawalRequest {
    WithdrawalRequest {
        user: key(USER),
        vault_pool: key(5),
        shares_amount: 500,
        requested_at: 1_000,
        is_processed,
        bump: 7,
    }
}

// ---------- deposit ----------

fn deposit(c: &VaultConfig, p: &mut VaultPool, amount: u64) -> Result<u64, VaultError> {
    let uta = account(TOKEN_MINT, USER, 5000);
    let usa = account(SHARES_MINT, USER, 0);
    deposit_handler(c, p, &uta, &usa, amount)
}

#[test]
fn deposit_mints_shares_at_the_share_price_and_books_them() {
    let mut p = pool(2000, 1000);
    assert_eq!(deposit(&config(), &mut p, 1000), Ok(500));
    assert_eq!(p.total_assets, 3000);
    assert_eq!(p.total_shares, 1500);
}

#[test]
fn first_deposit_mints_one_for_one() {
    let mut p = pool(0, 0);
    assert_eq!(deposit(&config(), &mut p, 1000), Ok(1000));
    assert_eq!((p.total_assets, p.total_shares), (1000, 1000));
}

#[test]
fn deposit_refusals_in_order_change_nothing() {
    let mut p = pool(2000, 1000);
    let uta = account(TOKEN_MINT, USER, 5000);
    let usa = account(SHARES_MINT, USER, 0);
    let mut paused = config();
    paused.is_paused = true;
    let mut inactive = pool(2000, 1000);
    inactive.is_active = false;
    assert_eq!(deposit_handler(&paused, &mut inactive, &uta, &usa, 0), Err(VaultError::VaultPaused));
    assert_eq!(deposit_handler(&config(), &mut inactive, &uta, &usa, 0), Err(VaultError::PoolNotActive));
    let wrong = account(SHARES_MINT, USER, 5000);
    assert_eq!(deposit_handler(&config(), &mut p, &wrong, &usa, 1000), Err(VaultError::InvalidTokenMint));
    let wrong = account(TOKEN_MINT, USER, 0);
    assert_eq!(deposit_handler(&config(), &mut p, &uta, &wrong, 1000), Err(VaultError::InvalidTokenMint));
    assert_eq!(deposit_handler(&config(), &mut p, &uta, &usa, 0), Err(VaultError::ZeroDeposit));
    assert_eq!(deposit_handler(&config(), &mut p, &uta, &usa, 999), Err(VaultError::MinimumDepositNotMet));
    assert_eq!((p.total_assets, p.total_shares), (2000, 1000));
}

#[test]
fn deposit_that_mints_nothing_is_refused() {
    // 1000 * 1 / 2000 rounds down to zero shares
    let mut p = pool(2000, 1);
    assert_eq!(deposit(&config(), &mut p, 1000), Err(VaultError::InvalidSharesCalculation));
    // 1000 * u64::MAX / 1 does not fit
    let mut p = pool(1, u64::MAX);
    assert_eq!(deposit(&config(), &mut p, 1000), Err(VaultError::InvalidSharesCalculation));
}

#[test]
fn deposit_overflowing_the_totals_changes_nothing() {
    let mut p = pool(u64::MAX - 10, u64::MAX - 10);
    assert_eq!(deposit(&config(), &mut p, 1000), Err(VaultError::MathOverflow));
    assert_eq!((p.total_assets, p.total_shares), (u64::MAX - 10, u64::MAX - 10));
}

#[test]
fn preview_deposit_matches_deposit() {
    let p = pool(3000, 1000);
    let preview = preview_deposit_handler(&p, 2500).unwrap();
    let mut booked = p;
    let shares = deposit(&config(), &mut booked, 2500).unwrap();
    assert_eq!(preview.shares_to_mint, shares);
    assert_eq!(preview.new_total_assets, booked.total_assets);
    assert_eq!(preview.new_total_shares, booked.total_shares);
}

#[test]
fn deposit_does_not_dilute_holders() {
    let mut p = pool(3000, 1000);
    let before = (p.total_assets as u128, p.total_shares as u128);
    deposit(&config(), &mut p, 2500).unwrap();
    assert!((p.total_assets as u128) * before.1 >= before.0 * (p.total_shares as u128));
}

#[test]
fn deposit_then_withdraw_returns_no_more_than_deposited() {
    let mut p = pool(3001, 1000);
    let shares = deposit(&config(), &mut p, 2500).unwrap();
    let back = p.calculate_assets_to_return(shares).unwrap();
    assert!(back <= 2500);
    assert_eq!(shares, 833);
    assert_eq!(back, 2499);
}

#[test]
fn first_depositor_takes_assets_of_a_pool_without_shares() {
    // the one case where a round trip returns more than was deposited
    let mut p = pool(500, 0);
    let shares = deposit(&config(), &mut p, 1000).unwrap();
    assert_eq!(p.calculate_assets_to_return(shares), Some(1500));
}

// ---------- withdraw ----------

fn withdraw_accounts() -> (TokenAccountData, TokenAccountData, TokenAccountData, TokenAccountData) {
    (
        account(TOKEN_MINT, USER, 0),
        account(SHARES_MINT, USER, 1000),
        account(TOKEN_MINT, FEE_RECEIVER, 0),
        account(TOKEN_MINT, 4, 10_000),
    )
}

fn withdraw_with(
    c: &VaultConfig,
    p: &mut VaultPool,
    accounts: (TokenAccountData, TokenAccountData, TokenAccountData, TokenAccountData),
    shares: u64,
    now: i64,
    request_exists: bool,
) -> Result<WithdrawOutcome, VaultError> {
    let (uta, usa, fra, vault) = accounts;
    withdraw_handler(c, p, &uta, &usa, &fra, &vault, key(USER), key(5), shares, now, 7, request_exists)
}

fn withdraw(c: &VaultConfig, p: &mut VaultPool, shares: u64, now: i64) -> Result<WithdrawOutcome, VaultError> {
    withdraw_with(c, p, withdraw_accounts(), shares, now, false)
}

fn paid(outcome: Result<WithdrawOutcome, VaultError>) -> WithdrawPlan {
    match outcome {
        Ok(WithdrawOutcome::Paid(plan)) => plan,
        other => panic!("expected a payout, got {:?}", other),
    }
}

fn err(outcome: Result<WithdrawOutcome, VaultError>) -> VaultError {
    match outcome {
        Err(e) => e,
        other => panic!("expected a refusal, got {:?}", other),
    }
}

#[test]
fn withdraw_pays_net_and_fee_and_books_it() {
    let mut p = pool(2000, 1000);
    let plan = paid(withdraw(&config(), &mut p, 500, 100));
    assert_eq!(plan, WithdrawPlan { assets_to_return: 1000, net_amount: 995, fee_amount: 5 });
    assert_eq!(p.total_assets, 1000);
    assert_eq!(p.total_shares, 500);
    assert_eq!(p.withdrawn_today, 1000);
}

#[test]
fn withdraw_refusals_in_order() {
    let mut p = pool(2000, 1000);
    let (uta, usa, fra, vault) = withdraw_accounts();
    let c = config();
    let mut paused = config();
    paused.is_paused = true;
    assert_eq!(err(withdraw(&paused, &mut p, 0, 0)), VaultError::VaultPaused);
    let mut inactive = p;
    inactive.is_active = false;
    assert_eq!(err(withdraw(&c, &mut inactive, 0, 0)), VaultError::PoolNotActive);
    let bad = account(SHARES_MINT, USER, 0);
    assert_eq!(err(withdraw_with(&c, &mut p, (bad, usa, fra, vault), 1, 0, false)), VaultError::InvalidTokenMint);
    let bad = account(TOKEN_MINT, USER, 1000);
    assert_eq!(err(withdraw_with(&c, &mut p, (uta, bad, fra, vault), 1, 0, false)), VaultError::InvalidTokenMint);
    let bad = account(SHARES_MINT, FEE_RECEIVER, 0);
    assert_eq!(err(withdraw_with(&c, &mut p, (uta, usa, bad, vault), 1, 0, false)), VaultError::InvalidTokenMint);
    assert_eq!(err(withdraw(&c, &mut p, 0, 0)), VaultError::ZeroWithdrawal);
    assert_eq!(err(withdraw(&c, &mut p, 1001, 0)), VaultError::InsufficientShares);
    let mut empty = pool(2000, 0);
    assert_eq!(err(withdraw(&c, &mut empty, 10, 0)), VaultError::InvalidSharesCalculation);
    let low = account(TOKEN_MINT, 4, 999);
    assert_eq!(err(withdraw_with(&c, &mut p, (uta, usa, fra, low), 500, 0, false)), VaultError::InsufficientLiquidity);
    assert_eq!((p.total_assets, p.total_shares, p.withdrawn_today), (2000, 1000, 0));
}

#[test]
fn withdraw_over_the_daily_limit_is_queued() {
    let mut p = pool(2000, 1000);
    p.daily_withdrawal_limit = 1500;
    p.withdrawn_today = 600;
    p.last_withdrawal_day = 86_400 * 5 + 1;
    let c = config();
    // same day: 600 + 1000 > 1500, so the withdrawal enters the queue
    match withdraw(&c, &mut p, 500, 86_400 * 5 + 100) {
        Ok(WithdrawOutcome::Queued(r)) => {
            assert!(r.user == key(USER));
            assert!(r.vault_pool == key(5));
            assert_eq!(r.shares_amount, 500);
            assert_eq!(r.requested_at, 86_400 * 5 + 100);
            assert!(!r.is_processed);
            assert_eq!(r.bump, 7);
        }
        other => panic!("expected a queued request, got {:?}", other),
    }
    // nothing was booked
    assert_eq!((p.total_assets, p.total_shares, p.withdrawn_today), (2000, 1000, 600));
    // a user who already has a request cannot queue another
    assert_eq!(
        err(withdraw_with(&c, &mut p, withdraw_accounts(), 500, 86_400 * 5 + 100, true)),
        VaultError::WithdrawalRequestExists
    );
    // same day, smaller: 600 + 800 <= 1500 is paid
    let mut q = p;
    let plan = paid(withdraw(&c, &mut q, 400, 86_400 * 5 + 100));
    assert_eq!(plan.assets_to_return, 800);
    assert_eq!(q.withdrawn_today, 1400);
    // next day the count restarts
    let plan = paid(withdraw(&c, &mut p, 500, 86_400 * 6));
    assert_eq!(plan.assets_to_return, 1000);
    assert_eq!(p.withdrawn_today, 1000);
    assert_eq!(p.last_withdrawal_day, 86_400 * 6);
    assert!(p.withdrawn_today <= p.daily_withdrawal_limit);
}

#[test]
fn queued_withdrawal_is_the_request_the_user_could_make() {
    let mut p = pool(2000, 1000);
    p.daily_withdrawal_limit = 100;
    let queued = match withdraw(&config(), &mut p, 500, 1_000) {
        Ok(WithdrawOutcome::Queued(r)) => r,
        other => panic!("expected a queued request, got {:?}", other),
    };
    let requested = request_withdrawal_handler(&config(), &p, key(USER), key(5), 500, 1_000, 7).unwrap();
    assert!(queued.user == requested.user);
    assert!(queued.vault_pool == requested.vault_pool);
    assert_eq!(queued.shares_amount, requested.shares_amount);
    assert_eq!(queued.requested_at, requested.requested_at);
    assert_eq!(queued.is_processed, requested.is_processed);
    assert_eq!(queued.bump, requested.bump);
}

#[test]
fn withdraw_over_the_largest_limit_is_queued_not_overflowed() {
    let mut p = pool(2000, 1000);
    p.daily_withdrawal_limit = u64::MAX;
    p.withdrawn_today = u64::MAX - 10;
    p.last_withdrawal_day = 0;
    match withdraw(&config(), &mut p, 500, 10) {
        Ok(WithdrawOutcome::Queued(r)) => assert_eq!(r.shares_amount, 500),
        other => panic!("expected a queued request, got {:?}", other),
    }
    assert_eq!((p.total_assets, p.total_shares, p.withdrawn_today), (2000, 1000, u64::MAX - 10));
}

#[test]
fn withdraw_with_fee_above_one_hundred_percent_overflows() {
    let mut p = pool(2000, 1000);
    let mut c = config();
    c.withdrawal_fee_bps = 20000;
    assert_eq!(err(withdraw(&c, &mut p, 500, 0)), VaultError::MathOverflow);
    assert_eq!((p.total_assets, p.total_shares), (2000, 1000));
}

#[test]
fn withdraw_overflowing_the_day_count_changes_nothing() {
    let mut p = pool(2000, 1000);
    p.withdrawn_today = u64::MAX;
    p.last_withdrawal_day = 0;
    assert_eq!(err(withdraw(&config(), &mut p, 500, 10)), VaultError::MathOverflow);
    assert_eq!((p.total_assets, p.total_shares, p.withdrawn_today), (2000, 1000, u64::MAX));
}

#[test]
fn preview_withdraw_matches_withdraw() {
    let p = pool(3000, 1000);
    let preview = preview_withdraw_handler(&config(), &p, 777).unwrap();
    let mut booked = p;
    let plan = paid(withdraw(&config(), &mut booked, 777, 0));
    assert_eq!(preview.gross_assets, plan.assets_to_return);
    assert_eq!(preview.fee_amount, plan.fee_amount);
    assert_eq!(preview.net_assets, plan.net_amount);
    assert_eq!(plan.net_amount + plan.fee_amount, plan.assets_to_return);
}

#[test]
fn withdraw_does_not_dilute_remaining_holders() {
    let mut p = pool(3001, 1000);
    let before = (p.total_assets as u128, p.total_shares as u128);
    paid(withdraw(&config(), &mut p, 333, 0));
    assert!((p.total_assets as u128) * before.1 >= before.0 * (p.total_shares as u128));
}

// ---------- withdrawal queue ----------

#[test]
fn request_withdrawal_creates_pending_request() {
    let p = pool(2000, 1000);
    let r = request_withdrawal_handler(&config(), &p, key(USER), key(5), 500, 1_000, 7).unwrap();
    assert!(r.user == key(USER));
    assert!(r.vault_pool == key(5));
    assert_eq!(r.shares_amount, 500);
    assert_eq!(r.requested_at, 1_000);
    assert!(!r.is_processed);
    assert_eq!(r.bump, 7);
}

#[test]
fn request_withdrawal_refusals() {
    let p = pool(2000, 1000);
    let mut paused = config();
    paused.is_paused = true;
    assert_eq!(
        request_withdrawal_handler(&paused, &p, key(USER), key(5), 500, 0, 7).unwrap_err(),
        VaultError::VaultPaused
    );
    let mut inactive = p;
    inactive.is_active = false;
    assert_eq!(
        request_withdrawal_handler(&config(), &inactive, key(USER), key(5), 500, 0, 7).unwrap_err(),
        VaultError::PoolNotActive
    );
    assert_eq!(
        request_withdrawal_handler(&config(), &p, key(USER), key(5), 0, 0, 7).unwrap_err(),
        VaultError::ZeroWithdrawal
    );
}

#[test]
fn cancel_only_own_pending_requests() {
    assert_eq!(cancel_withdrawal_handler(&request(false), &key(USER)), Ok(()));
    assert_eq!(cancel_withdrawal_handler(&request(false), &key(STRANGER)), Err(VaultError::UserMismatch));
    assert_eq!(cancel_withdrawal_handler(&request(true), &key(USER)), Err(VaultError::WithdrawalAlreadyProcessed));
}

fn process(
    c: &VaultConfig,
    p: &mut VaultPool,
    r: &mut WithdrawalRequest,
    authority: u8,
    user: u8,
    accounts: (TokenAccountData, TokenAccountData, TokenAccountData, TokenAccountData),
) -> Result<WithdrawPlan, VaultError> {
    let (uta, usa, fra, vault) = accounts;
    process_withdrawal_queue_handler(c, p, r, &key(authority), &key(user), &uta, &usa, &fra, &vault)
}

#[test]
fn process_queue_pays_books_and_marks_processed() {
    let mut p = pool(2000, 1000);
    let mut r = request(false);
    let plan = process(&config(), &mut p, &mut r, OPERATOR, USER, withdraw_accounts()).unwrap();
    assert_eq!(plan, WithdrawPlan { assets_to_return: 1000, net_amount: 995, fee_amount: 5 });
    assert!(r.is_processed);
    assert_eq!(p.total_assets, 1000);
    assert_eq!(p.total_shares, 500);
    assert_eq!(p.withdrawn_today, 0);
    // a processed request is final
    assert_eq!(
        process(&config(), &mut p, &mut r, OPERATOR, USER, withdraw_accounts()),
        Err(VaultError::WithdrawalAlreadyProcessed)
    );
    assert_eq!(cancel_withdrawal_handler(&r, &key(USER)), Err(VaultError::WithdrawalAlreadyProcessed));
    assert_eq!(close_withdrawal_request_handler(&config(), &r, &key(OWNER), &key(USER)), Ok(()));
}

#[test]
fn process_queue_refusals_in_order() {
    let p = pool(2000, 1000);
    let (uta, usa, fra, vault) = withdraw_accounts();
    let c = config();
    let run = |c: &VaultConfig, p: &VaultPool, r: WithdrawalRequest, auth: u8, user: u8,
               accounts: (TokenAccountData, TokenAccountData, TokenAccountData, TokenAccountData)| {
        let mut p = *p;
        let mut r = r;
        let before = (p.total_assets, p.total_shares);
        let out = process(c, &mut p, &mut r, auth, user, accounts);
        assert_eq!((p.total_assets, p.total_shares), before);
        assert!(!r.is_processed);
        out
    };
    let r = request(false);
    assert_eq!(run(&c, &p, r, STRANGER, USER, (uta, usa, fra, vault)), Err(VaultError::Unauthorized));
    let mut paused = config();
    paused.is_paused = true;
    assert_eq!(run(&paused, &p, r, OWNER, USER, (uta, usa, fra, vault)), Err(VaultError::VaultPaused));
    let mut inactive = p;
    inactive.is_active = false;
    assert_eq!(run(&c, &inactive, r, OWNER, USER, (uta, usa, fra, vault)), Err(VaultError::PoolNotActive));
    let bad = account(SHARES_MINT, USER, 0);
    assert_eq!(run(&c, &p, r, OWNER, USER, (bad, usa, fra, vault)), Err(VaultError::InvalidTokenMint));
    let not_users = account(TOKEN_MINT, STRANGER, 0);
    assert_eq!(run(&c, &p, r, OWNER, USER, (not_users, usa, fra, vault)), Err(VaultError::UserMismatch));
    let bad_shares = account(TOKEN_MINT, USER, 1000);
    assert_eq!(run(&c, &p, r, OWNER, USER, (uta, bad_shares, fra, vault)), Err(VaultError::InvalidTokenMint));
    let not_users_shares = account(SHARES_MINT, STRANGER, 1000);
    assert_eq!(run(&c, &p, r, OWNER, USER, (uta, not_users_shares, fra, vault)), Err(VaultError::UserMismatch));
    assert_eq!(run(&c, &p, r, OWNER, USER, (uta, usa, bad, vault)), Err(VaultError::InvalidTokenMint));
    let not_receiver = account(TOKEN_MINT, STRANGER, 0);
    assert_eq!(run(&c, &p, r, OWNER, USER, (uta, usa, not_receiver, vault)), Err(VaultError::InvalidFeeReceiverAccount));
    assert_eq!(run(&c, &p, r, OWNER, STRANGER, (uta, usa, fra, vault)), Err(VaultError::UserMismatch));
    let few = account(SHARES_MINT, USER, 499);
    assert_eq!(run(&c, &p, r, OWNER, USER, (uta, few, fra, vault)), Err(VaultError::InsufficientShares));
    let empty = pool(2000, 0);
    assert_eq!(run(&c, &empty, r, OWNER, USER, (uta, usa, fra, vault)), Err(VaultError::InvalidSharesCalculation));
    let low = account(TOKEN_MINT, 4, 999);
    assert_eq!(run(&c, &p, r, OWNER, USER, (uta, usa, fra, low)), Err(VaultError::InsufficientLiquidity));
    let mut bad_fee = config();
    bad_fee.withdrawal_fee_bps = 20000;
    assert_eq!(run(&bad_fee, &p, r, OWNER, USER, (uta, usa, fra, vault)), Err(VaultError::MathOverflow));
}

#[test]
fn queued_and_instant_withdrawals_pay_alike() {
    let p = pool(3001, 1000);
    let mut r = request(false);
    let mut queue_pool = p;
    let queued = process(&config(), &mut queue_pool, &mut r, OPERATOR, USER, withdraw_accounts()).unwrap();
    let mut instant_pool = p;
    let instant = paid(withdraw(&config(), &mut instant_pool, r.shares_amount, 0));
    assert_eq!(queued, instant);
}

#[test]
fn process_queue_overflow_changes_nothing() {
    // the pool books fewer shares (100) than the request redeems (500)
    let mut p = pool(2000, 100);
    let mut r = request(false);
    let (uta, usa, fra, _) = withdraw_accounts();
    let vault = account(TOKEN_MINT, 4, 10_000);
    assert_eq!(process(&config(), &mut p, &mut r, OWNER, USER, (uta, usa, fra, vault)), Err(VaultError::MathOverflow));
    assert!(!r.is_processed);
    assert_eq!((p.total_assets, p.total_shares), (2000, 100));
}

#[test]
fn close_withdrawal_request_refusals() {
    let c = config();
    assert_eq!(close_withdrawal_request_handler(&c, &request(true), &key(STRANGER), &key(USER)), Err(VaultError::Unauthorized));
    assert_eq!(close_withdrawal_request_handler(&c, &request(false), &key(OPERATOR), &key(USER)), Err(VaultError::WithdrawalRequestNotFound));
    assert_eq!(close_withdrawal_request_handler(&c, &request(true), &key(OPERATOR), &key(STRANGER)), Err(VaultError::UserMismatch));
}

// ---------- operator ----------

#[test]
fn inject_yield_takes_performance_fee_and_compounds() {
    let mut p = pool(2000, 1000);
    let source = account(TOKEN_MINT, OPERATOR, 10_000);
    let fra = account(TOKEN_MINT, FEE_RECEIVER, 0);
    let plan = inject_yield_handler(&config(), &mut p, &key(OPERATOR), &source, &fra, 1000).unwrap();
    assert_eq!(plan, YieldPlan { fee_amount: 200, net_yield: 800 });
    assert_eq!(p.total_assets, 2800);
    assert_eq!(p.total_shares, 1000);
}

#[test]
fn inject_yield_refusals_change_nothing() {
    let mut p = pool(2000, 1000);
    let source = account(TOKEN_MINT, OPERATOR, 10_000);
    let fra = account(TOKEN_MINT, FEE_RECEIVER, 0);
    let c = config();
    assert_eq!(inject_yield_handler(&c, &mut p, &key(STRANGER), &source, &fra, 1000), Err(VaultError::Unauthorized));
    let mut paused = config();
    paused.is_paused = true;
    assert_eq!(inject_yield_handler(&paused, &mut p, &key(OWNER), &source, &fra, 1000), Err(VaultError::VaultPaused));
    let mut inactive = p;
    inactive.is_active = false;
    assert_eq!(inject_yield_handler(&c, &mut inactive, &key(OWNER), &source, &fra, 1000), Err(VaultError::PoolNotActive));
    let bad = account(SHARES_MINT, OPERATOR, 0);
    assert_eq!(inject_yield_handler(&c, &mut p, &key(OWNER), &bad, &fra, 1000), Err(VaultError::InvalidTokenMint));
    assert_eq!(inject_yield_handler(&c, &mut p, &key(OWNER), &source, &bad, 1000), Err(VaultError::InvalidTokenMint));
    assert_eq!(inject_yield_handler(&c, &mut p, &key(OWNER), &source, &fra, 0), Err(VaultError::ZeroDeposit));
    let mut greedy = config();
    greedy.performance_fee_bps = 10001;
    assert_eq!(inject_yield_handler(&greedy, &mut p, &key(OWNER), &source, &fra, 10_000), Err(VaultError::MathOverflow));
    let mut full = pool(u64::MAX, 1000);
    assert_eq!(inject_yield_handler(&c, &mut full, &key(OWNER), &source, &fra, 1000), Err(VaultError::MathOverflow));
    assert_eq!(full.total_assets, u64::MAX);
    assert_eq!(p.total_assets, 2000);
}

#[test]
fn strategy_movements() {
    let p = pool(2000, 1000);
    let vault = account(TOKEN_MINT, 4, 1500);
    let dest = account(TOKEN_MINT, OPERATOR, 0);
    let c = config();
    assert_eq!(withdraw_for_strategy_handler(&c, &p, &key(OPERATOR), &vault, &dest, 1500), Ok(()));
    assert_eq!(withdraw_for_strategy_handler(&c, &p, &key(STRANGER), &vault, &dest, 1500), Err(VaultError::Unauthorized));
    let bad = account(SHARES_MINT, OPERATOR, 0);
    assert_eq!(withdraw_for_strategy_handler(&c, &p, &key(OPERATOR), &vault, &bad, 1500), Err(VaultError::InvalidTokenMint));
    assert_eq!(withdraw_for_strategy_handler(&c, &p, &key(OPERATOR), &vault, &dest, 0), Err(VaultError::ZeroWithdrawal));
    assert_eq!(withdraw_for_strategy_handler(&c, &p, &key(OPERATOR), &vault, &dest, 1501), Err(VaultError::InsufficientLiquidity));
    assert_eq!(return_from_strategy_handler(&c, &p, &key(OWNER), &dest, 1500), Ok(()));
    assert_eq!(return_from_strategy_handler(&c, &p, &key(STRANGER), &dest, 1500), Err(VaultError::Unauthorized));
    assert_eq!(return_from_strategy_handler(&c, &p, &key(OWNER), &bad, 1500), Err(VaultError::InvalidTokenMint));
    assert_eq!(return_from_strategy_handler(&c, &p, &key(OWNER), &dest, 0), Err(VaultError::ZeroDeposit));
}

#[test]
fn strategy_movements_halt_while_paused_or_inactive() {
    let p = pool(2000, 1000);
    let vault = account(TOKEN_MINT, 4, 1500);
    let dest = account(TOKEN_MINT, OPERATOR, 0);
    let mut paused = config();
    paused.is_paused = true;
    assert_eq!(withdraw_for_strategy_handler(&paused, &p, &key(OPERATOR), &vault, &dest, 1500), Err(VaultError::VaultPaused));
    assert_eq!(return_from_strategy_handler(&paused, &p, &key(OPERATOR), &dest, 1500), Err(VaultError::VaultPaused));
    let mut inactive = p;
    inactive.is_active = false;
    assert_eq!(withdraw_for_strategy_handler(&config(), &inactive, &key(OPERATOR), &vault, &dest, 1500), Err(VaultError::PoolNotActive));
    assert_eq!(return_from_strategy_handler(&config(), &inactive, &key(OPERATOR), &dest, 1500), Err(VaultError::PoolNotActive));
}

// ---------- admin ----------

#[test]
fn initialize_creates_unpaused_config() {
    let params = InitializeParams {
        operator: key(OPERATOR),
        fee_receiver: key(FEE_RECEIVER),
        performance_fee_bps: 2000,
        withdrawal_fee_bps: 50,
    };
    let c = initialize_handler(key(OWNER), params, 9).unwrap();
    assert!(c.owner == key(OWNER));
    assert!(c.operator == key(OPERATOR));
    assert!(c.fee_receiver == key(FEE_RECEIVER));
    assert!(!c.is_paused);
    assert_eq!(c.performance_fee_bps, 2000);
    assert_eq!(c.withdrawal_fee_bps, 50);
    assert_eq!(c.total_pools, 0);
    assert_eq!(c.bump, 9);
}

#[test]
fn initialize_rejects_invalid_fees() {
    let mut params = InitializeParams {
        operator: key(OPERATOR),
        fee_receiver: key(FEE_RECEIVER),
        performance_fee_bps: 10001,
        withdrawal_fee_bps: 50,
    };
    assert_eq!(initialize_handler(key(OWNER), params, 9).unwrap_err(), VaultError::InvalidFee);
    params.performance_fee_bps = 10000;
    params.withdrawal_fee_bps = 10001;
    assert_eq!(initialize_handler(key(OWNER), params, 9).unwrap_err(), VaultError::InvalidFee);
}

#[test]
fn update_config_applies_given_fields() {
    let mut c = config();
    let params = UpdateConfigParams {
        new_operator: Some(key(30)),
        new_fee_receiver: None,
        new_performance_fee_bps: Some(1000),
        new_withdrawal_fee_bps: None,
    };
    assert_eq!(update_config_handler(&mut c, &key(OWNER), params), Ok(()));
    assert!(c.operator == key(30));
    assert!(c.fee_receiver == key(FEE_RECEIVER));
    assert_eq!(c.performance_fee_bps, 1000);
    assert_eq!(c.withdrawal_fee_bps, 50);
}

#[test]
fn update_config_refusals_change_nothing() {
    let mut c = config();
    let params = UpdateConfigParams {
        new_operator: Some(key(30)),
        new_fee_receiver: Some(key(31)),
        new_performance_fee_bps: Some(1000),
        new_withdrawal_fee_bps: Some(10001),
    };
    assert_eq!(update_config_handler(&mut c, &key(OWNER), params), Err(VaultError::InvalidFee));
    assert!(c.operator == key(OPERATOR));
    assert_eq!(c.performance_fee_bps, 2000);
    assert_eq!(update_config_handler(&mut c, &key(OPERATOR), params), Err(VaultError::UnauthorizedOwner));
}

#[test]
fn create_pool_counts_pools() {
    let mut c = config();
    let p = create_pool_handler(
        &mut c, &key(OWNER), key(1), key(TOKEN_MINT), key(SHARES_MINT), key(4),
        CreatePoolParams { daily_withdrawal_limit: 777 }, 250, 249,
    )
    .unwrap();
    assert_eq!(c.total_pools, 2);
    assert_eq!(p.pool_index, 1);
    assert_eq!(p.total_assets, 0);
    assert_eq!(p.total_shares, 0);
    assert_eq!(p.daily_withdrawal_limit, 777);
    assert_eq!(p.withdrawn_today, 0);
    assert_eq!(p.last_withdrawal_day, 0);
    assert!(p.is_active);
    assert!(p.token_mint == key(TOKEN_MINT));
    assert_eq!((p.bump, p.shares_mint_bump), (250, 249));
}

#[test]
fn create_pool_refusals() {
    let mut c = config();
    let params = CreatePoolParams { daily_withdrawal_limit: 0 };
    assert_eq!(
        create_pool_handler(&mut c, &key(OPERATOR), key(1), key(2), key(3), key(4), params, 1, 1).unwrap_err(),
        VaultError::UnauthorizedOwner
    );
    c.total_pools = u64::MAX;
    assert_eq!(
        create_pool_handler(&mut c, &key(OWNER), key(1), key(2), key(3), key(4), params, 1, 1).unwrap_err(),
        VaultError::MathOverflow
    );
    assert_eq!(c.total_pools, u64::MAX);
}

#[test]
fn pause_and_unpause() {
    let mut c = config();
    assert_eq!(pause_handler(&mut c, &key(OPERATOR)), Err(VaultError::UnauthorizedOwner));
    assert!(!c.is_paused);
    assert_eq!(pause_handler(&mut c, &key(OWNER)), Ok(()));
    assert!(c.is_paused);
    let mut p = pool(2000, 1000);
    assert_eq!(deposit(&c, &mut p, 1000), Err(VaultError::VaultPaused));
    assert_eq!(unpause_handler(&mut c, &key(OPERATOR)), Err(VaultError::UnauthorizedOwner));
    assert_eq!(unpause_handler(&mut c, &key(OWNER)), Ok(()));
    assert!(!c.is_paused);
    assert_eq!(deposit(&c, &mut p, 1000), Ok(500));
}

#[test]
fn pool_status_and_limit_are_owner_only() {
    let c = config();
    let mut p = pool(0, 0);
    assert_eq!(set_pool_active_handler(&c, &mut p, &key(OPERATOR), false), Err(VaultError::UnauthorizedOwner));
    assert!(p.is_active);
    assert_eq!(set_pool_active_handler(&c, &mut p, &key(OWNER), false), Ok(()));
    assert!(!p.is_active);
    assert_eq!(set_withdrawal_limit_handler(&c, &mut p, &key(OPERATOR), 5), Err(VaultError::UnauthorizedOwner));
    assert_eq!(p.daily_withdrawal_limit, 0);
    assert_eq!(set_withdrawal_limit_handler(&c, &mut p, &key(OWNER), 5), Ok(()));
    assert_eq!(p.daily_withdrawal_limit, 5);
}

#[test]
fn emergency_withdraw_empties_and_pauses() {
    let mut c = config();
    let mut p = pool(5000, 1000);
    let vault = account(TOKEN_MINT, 4, 3000);
    let dest = account(TOKEN_MINT, OWNER, 0);
    assert_eq!(emergency_withdraw_handler(&mut c, &mut p, &key(OWNER), &vault, &dest), Ok(3000));
    assert!(c.is_paused);
    assert!(!p.is_active);
    assert_eq!(p.total_assets, 0);
    assert_eq!(p.total_shares, 1000);
    assert_eq!(deposit(&c, &mut p, 1000), Err(VaultError::VaultPaused));
}

#[test]
fn emergency_withdraw_of_empty_vault_still_pauses() {
    // e.g. every asset is deployed to a strategy
    let mut c = config();
    let mut p = pool(5000, 1000);
    let vault = account(TOKEN_MINT, 4, 0);
    let dest = account(TOKEN_MINT, OWNER, 0);
    assert_eq!(emergency_withdraw_handler(&mut c, &mut p, &key(OWNER), &vault, &dest), Ok(0));
    assert!(c.is_paused);
    assert!(p.is_active);
    assert_eq!(p.total_assets, 5000);
    assert_eq!(deposit(&c, &mut p, 1000), Err(VaultError::VaultPaused));
}

#[test]
fn emergency_withdraw_refusals() {
    let mut c = config();
    let mut p = pool(5000, 1000);
    let vault = account(TOKEN_MINT, 4, 10);
    let dest = account(TOKEN_MINT, OWNER, 0);
    assert_eq!(emergency_withdraw_handler(&mut c, &mut p, &key(OPERATOR), &vault, &dest), Err(VaultError::UnauthorizedOwner));
    let bad = account(SHARES_MINT, OWNER, 0);
    assert_eq!(emergency_withdraw_handler(&mut c, &mut p, &key(OWNER), &vault, &bad), Err(VaultError::InvalidTokenMint));
    assert!(!c.is_paused);
    assert_eq!(p.total_assets, 5000);
}

#[test]
fn ownership_transfer_moves_owner_rights() {
    let mut c = config();
    assert_eq!(transfer_ownership_handler(&mut c, &key(OPERATOR), key(40)), Err(VaultError::UnauthorizedOwner));
    assert_eq!(transfer_ownership_handler(&mut c, &key(OWNER), key(40)), Ok(()));
    assert!(c.owner == key(40));
    assert_eq!(pause_handler(&mut c, &key(OWNER)), Err(VaultError::UnauthorizedOwner));
    assert_eq!(pause_handler(&mut c, &key(40)), Ok(()));
}

#[test]
fn close_pool_only_when_inactive_and_empty() {
    let mut c = config();
    let mut p = pool(0, 0);
    assert_eq!(close_pool_handler(&mut c, &p, &key(OPERATOR)), Err(VaultError::UnauthorizedOwner));
    assert_eq!(close_pool_handler(&mut c, &p, &key(OWNER)), Err(VaultError::PoolAlreadyActive));
    p.is_active = false;
    p.total_shares = 1;
    assert_eq!(close_pool_handler(&mut c, &p, &key(OWNER)), Err(VaultError::InsufficientLiquidity));
    p.total_shares = 0;
    p.total_assets = 1;
    assert_eq!(close_pool_handler(&mut c, &p, &key(OWNER)), Err(VaultError::InsufficientLiquidity));
    assert_eq!(c.total_pools, 1);
    p.total_assets = 0;
    assert_eq!(close_pool_handler(&mut c, &p, &key(OWNER)), Ok(()));
    assert_eq!(c.total_pools, 0);
    // the count stops at zero
    assert_eq!(close_pool_handler(&mut c, &p, &key(OWNER)), Ok(()));
    assert_eq!(c.total_pools, 0);
}
