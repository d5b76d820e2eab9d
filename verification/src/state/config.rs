//! The global configuration of the vault.
use vstd::prelude::*;

use crate::pubkey::Pubkey;

verus! {

/// Global configuration of the vault protocol (one per program).
#[derive(Clone, Copy, Debug)]
pub struct VaultConfig {
    /// Holds the highest privilege (pools, ownership, emergencies).
    pub owner: Pubkey,
    /// Runs daily operations (yield, strategies, withdrawal queue).
    pub operator: Pubkey,
    /// When set, deposits and withdrawals are refused.
    pub is_paused: bool,
    /// Fee on injected yield, in basis points.
    pub performance_fee_bps: u16,
    /// Fee on withdrawals, in basis points.
    pub withdrawal_fee_bps: u16,
    /// The address that receives collected fees.
    pub fee_receiver: Pubkey,
    /// Number of pools created (and not closed).
    pub total_pools: u64,
    /// Bump seed of the configuration's address.
    pub bump: u8,
}

impl VaultConfig {
    /// Whether `signer` is the owner.
    pub open spec fn spec_is_owner(self, signer: Pubkey) -> bool {
        self.owner@ == signer@
    }

    /// Whether `signer` is the operator.
    pub open spec fn spec_is_operator(self, signer: Pubkey) -> bool {
        self.operator@ == signer@
    }

    /// Whether `signer` is the owner or the operator.
    pub open spec fn spec_is_authorized(self, signer: Pubkey) -> bool {
        self.spec_is_owner(signer) || self.spec_is_operator(signer)
    }

    /// Checks whether the signer is the owner.
    pub fn is_owner(&self, signer: &Pubkey) -> (r: bool)
        ensures
            r == self.spec_is_owner(*signer),
    {
        self.owner == *signer
    }

    /// Checks whether the signer is the operator.
    pub fn is_operator(&self, signer: &Pubkey) -> (r: bool)
        ensures
            r == self.spec_is_operator(*signer),
    {
        self.operator == *signer
    }

    /// Checks whether the signer is either the owner or the operator.
    pub fn is_authorized(&self, signer: &Pubkey) -> (r: bool)
        ensures
            r == self.spec_is_authorized(*signer),
    {
        self.is_owner(signer) || self.is_operator(signer)
    }
}

} // verus!
