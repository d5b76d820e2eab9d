use vault::utils::{calculate_fee, calculate_net_after_fee, is_valid_fee, MAX_FEE_BPS, MIN_DEPOSIT_AMOUNT};

#[test]
fn test_calculate_fee() {
    // 20% of 1000 = 200
    assert_eq!(calculate_fee(1000, 2000), Some(200));

    // 0.5% of 10000 = 50
    assert_eq!(calculate_fee(10000, 50), Some(50));

    // 0% fee
    assert_eq!(calculate_fee(1000, 0), Some(0));

    // 100% fee
    assert_eq!(calculate_fee(1000, 10000), Some(1000));
}

#[test]
fn test_calculate_net_after_fee() {
    // 20% fee on 1000 = 200 fee, 800 net
    assert_eq!(calculate_net_after_fee(1000, 2000), Some((800, 200)));

    // 0% fee
    assert_eq!(calculate_net_after_fee(1000, 0), Some((1000, 0)));
}

#[test]
fn test_is_valid_fee() {
    assert!(is_valid_fee(0));
    assert!(is_valid_fee(5000));
    assert!(is_valid_fee(10000));
    assert!(!is_valid_fee(10001));
}

#[test]
fn fee_rounds_down() {
    // 0.5% of 199 = 0.995, rounded down
    assert_eq!(calculate_fee(199, 50), Some(0));
    assert_eq!(calculate_fee(201, 50), Some(1));
}

#[test]
fn fee_on_largest_amount() {
    assert_eq!(calculate_fee(u64::MAX, 10000), Some(u64::MAX));
    assert_eq!(calculate_fee(u64::MAX, 5000), Some(u64::MAX / 2));
}

#[test]
fn fee_above_one_hundred_percent() {
    // 200% of 1000 is computed, but cannot be taken from the amount
    assert_eq!(calculate_fee(1000, 20000), Some(2000));
    assert_eq!(calculate_net_after_fee(1000, 20000), None);
    // the fee itself overflows a u64
    assert_eq!(calculate_fee(u64::MAX, 20000), None);
    assert_eq!(calculate_net_after_fee(u64::MAX, 20000), None);
}

#[test]
fn net_and_fee_add_up_with_valid_fees() {
    for &amount in &[0u64, 1, 999, 1000, 123_456_789, u64::MAX] {
        for &bps in &[0u16, 1, 50, 2000, 9999, 10000] {
            let (net, fee) = calculate_net_after_fee(amount, bps).unwrap();
            assert_eq!(net + fee, amount);
            assert!(fee <= amount);
            assert_eq!(Some(fee), calculate_fee(amount, bps));
        }
    }
}

#[test]
fn protocol_limits() {
    assert_eq!(MAX_FEE_BPS, 10000);
    assert_eq!(MIN_DEPOSIT_AMOUNT, 1000);
    assert!(is_valid_fee(MAX_FEE_BPS));
    assert!(!is_valid_fee(u16::MAX));
}
