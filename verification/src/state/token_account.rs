//! What the vault's rules read of an SPL token account.
use vstd::prelude::*;

use crate::pubkey::Pubkey;

verus! {

/// The mint, owner and balance of a token account.
#[derive(Clone, Copy, Debug)]
pub struct TokenAccountData {
    /// The mint whose tokens the account holds.
    pub mint: Pubkey,
    /// The account's owner.
    pub owner: Pubkey,
    /// The balance, in the mint's smallest unit.
    pub amount: u64,
}

} // verus!
