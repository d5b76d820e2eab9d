//! A user's queued withdrawal request.
use vstd::prelude::*;

use crate::pubkey::Pubkey;

verus! {

/// A pending (or processed) request to redeem shares through the queue.
#[derive(Clone, Copy, Debug)]
pub struct WithdrawalRequest {
    /// The user who made the request.
    pub user: Pubkey,
    /// The pool the request is for.
    pub vault_pool: Pubkey,
    /// Shares to redeem.
    pub shares_amount: u64,
    /// When the request was made (Unix seconds).
    pub requested_at: i64,
    /// Whether the request has been processed.
    pub is_processed: bool,
    /// Bump seed of the request's address.
    pub bump: u8,
}

impl WithdrawalRequest {
    /// Whether the request still waits to be processed.
    pub fn is_pending(&self) -> (r: bool)
        ensures
            r == !self.is_processed,
    {
        !self.is_processed
    }
}

} // verus!
