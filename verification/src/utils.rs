//! Fee arithmetic and the protocol's limits.
use vstd::prelude::*;

verus! {

/// The largest fee in basis points: 10000 basis points are 100%.
pub const MAX_FEE_BPS: u16 = 10000;

/// The smallest deposit accepted, in the token's smallest unit.
pub const MIN_DEPOSIT_AMOUNT: u64 = 1000;

/// `amount * fee_bps / 10000`, rounded down.
pub open spec fn fee_of(amount: int, fee_bps: int) -> int {
    amount * fee_bps / 10000
}

/// The fee on `amount`, or `None` where it does not fit in a `u64`.
pub open spec fn spec_calculate_fee(amount: u64, fee_bps: u16) -> Option<u64> {
    if fee_of(amount as int, fee_bps as int) <= u64::MAX {
        Some(fee_of(amount as int, fee_bps as int) as u64)
    } else {
        None
    }
}

/// `(net, fee)` for `amount`, or `None` where the fee cannot be computed or
/// exceeds the amount.
pub open spec fn spec_calculate_net_after_fee(amount: u64, fee_bps: u16) -> Option<(u64, u64)> {
    match spec_calculate_fee(amount, fee_bps) {
        Some(fee) => if fee <= amount {
            Some(((amount - fee) as u64, fee))
        } else {
            None
        },
        None => None,
    }
}

/// Whether a fee lies in 0..=10000 basis points.
pub open spec fn spec_is_valid_fee(fee_bps: u16) -> bool {
    fee_bps <= MAX_FEE_BPS
}

/// Fee on a gross amount: `amount * fee_bps / 10000`, rounded down.
pub fn calculate_fee(amount: u64, fee_bps: u16) -> (r: Option<u64>)
    ensures
        r == spec_calculate_fee(amount, fee_bps),
{
    let a: u128 = amount as u128;
    let b: u128 = fee_bps as u128;
    assert(a * b <= 0xffff_ffff_ffff_ffffu128 * 0xffffu128) by (nonlinear_arith)
        requires
            a <= 0xffff_ffff_ffff_ffffu128,
            b <= 0xffffu128,
    ;
    let fee: u128 = (a * b) / (MAX_FEE_BPS as u128);
    if fee <= u64::MAX as u128 {
        Some(fee as u64)
    } else {
        None
    }
}

/// Splits a gross amount into `(net, fee)`.
pub fn calculate_net_after_fee(amount: u64, fee_bps: u16) -> (r: Option<(u64, u64)>)
    ensures
        r == spec_calculate_net_after_fee(amount, fee_bps),
{
    let fee = match calculate_fee(amount, fee_bps) {
        Some(f) => f,
        None => return None,
    };
    let net = match amount.checked_sub(fee) {
        Some(n) => n,
        None => return None,
    };
    Some((net, fee))
}

/// Whether a fee value is valid (0..=10000 basis points).
pub fn is_valid_fee(fee_bps: u16) -> (r: bool)
    ensures
        r == spec_is_valid_fee(fee_bps),
{
    fee_bps <= MAX_FEE_BPS
}

} // verus!
