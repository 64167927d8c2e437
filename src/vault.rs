//! Vault custody: two single-asset balances held by the pool.
//!
//! A deposit is authorized by the depositor and moves an amount from the
//! depositor's balance into the vault. A withdrawal moves an amount out of the
//! vault and needs the vault's own authority, a capability that only the pool
//! can create. Neither creates nor destroys tokens: the vault's balance and
//! the other party's balance change by the same amount in opposite
//! directions.
use vstd::prelude::*;

use crate::error::TokenSwapError;

verus! {

/// One of the pool's two assets.
#[derive(Debug, Clone, Copy, PartialEq, Eq, Structural)]
pub enum Asset {
    A,
    B,
}

/// Whether a transfer of `amount` from a balance `from` into a balance `to`
/// can be made: the source covers it and the destination stays within 64 bits.
pub open spec fn transfer_possible(from: nat, to: nat, amount: nat) -> bool {
    amount <= from && to + amount <= u64::MAX
}

/// The capability to move funds out of the vault of one asset. It is derived
/// once from the asset when the pool is built and handed to each withdrawal.
pub struct VaultAuthority {
    asset: Asset,
}

impl VaultAuthority {
    /// The asset whose vault this authority controls.
    pub closed spec fn authorizes(&self) -> Asset {
        self.asset
    }

    pub(crate) fn derive(asset: Asset) -> (r: VaultAuthority)
        ensures
            r.authorizes() == asset,
    {
        VaultAuthority { asset }
    }

    pub fn asset(&self) -> (r: Asset)
        ensures
            r == self.authorizes(),
    {
        self.asset
    }
}

/// The custodial balance of one asset.
pub struct Vault {
    asset: Asset,
    balance: u64,
}

impl Vault {
    pub closed spec fn spec_asset(&self) -> Asset {
        self.asset
    }

    pub closed spec fn spec_balance(&self) -> nat {
        self.balance as nat
    }

    /// An empty vault for `asset`.
    pub fn new(asset: Asset) -> (r: Vault)
        ensures
            r.spec_asset() == asset,
            r.spec_balance() == 0,
    {
        Vault { asset, balance: 0 }
    }

    /// The vault of `asset` as it stands, holding `balance`.
    pub fn with_balance(asset: Asset, balance: u64) -> (r: Vault)
        ensures
            r.spec_asset() == asset,
            r.spec_balance() == balance,
    {
        Vault { asset, balance }
    }

    pub fn asset(&self) -> (r: Asset)
        ensures
            r == self.spec_asset(),
    {
        self.asset
    }

    pub fn balance(&self) -> (r: u64)
        ensures
            r == self.spec_balance(),
    {
        self.balance
    }

    /// Whether a deposit of `amount` from a balance `from` would succeed.
    pub fn can_deposit(&self, from: u64, amount: u64) -> (r: bool)
        ensures
            r == transfer_possible(from as nat, self.spec_balance(), amount as nat),
    {
        amount <= from && amount <= u64::MAX - self.balance
    }

    /// Whether a withdrawal of `amount` into a balance `to` would succeed.
    pub fn can_withdraw(&self, to: u64, amount: u64) -> (r: bool)
        ensures
            r == transfer_possible(self.spec_balance(), to as nat, amount as nat),
    {
        amount <= self.balance && amount <= u64::MAX - to
    }

    /// Moves `amount` from the depositor's balance `from` into the vault.
    pub fn deposit(&mut self, from: &mut u64, amount: u64) -> (r: Result<(), TokenSwapError>)
        ensures
            r is Ok <==> transfer_possible(*old(from) as nat, old(self).spec_balance(), amount as nat),
            r is Err ==> r == Err::<(), TokenSwapError>(TokenSwapError::TransferFailed),
            r is Ok ==> *final(from) == *old(from) - amount && final(self).spec_balance()
                == old(self).spec_balance() + amount,
            r is Err ==> *final(from) == *old(from) && final(self).spec_balance()
                == old(self).spec_balance(),
            final(self).spec_asset() == old(self).spec_asset(),
            final(self).spec_balance() + *final(from) == old(self).spec_balance() + *old(from),
    {
        if !self.can_deposit(*from, amount) {
            return Err(TokenSwapError::TransferFailed);
        }
        *from = *from - amount;
        self.balance = self.balance + amount;
        Ok(())
    }

    /// Moves `amount` from the vault into the recipient's balance `to`, under
    /// the vault's own authority.
    pub fn withdraw(&mut self, authority: &VaultAuthority, to: &mut u64, amount: u64) -> (r: Result<(), TokenSwapError>)
        requires
            authority.authorizes() == old(self).spec_asset(),
        ensures
            r is Ok <==> transfer_possible(old(self).spec_balance(), *old(to) as nat, amount as nat),
            r is Err ==> r == Err::<(), TokenSwapError>(TokenSwapError::TransferFailed),
            r is Ok ==> *final(to) == *old(to) + amount && final(self).spec_balance()
                == old(self).spec_balance() - amount,
            r is Err ==> *final(to) == *old(to) && final(self).spec_balance()
                == old(self).spec_balance(),
            final(self).spec_asset() == old(self).spec_asset(),
            final(self).spec_balance() + *final(to) == old(self).spec_balance() + *old(to),
    {
        if !self.can_withdraw(*to, amount) {
            return Err(TokenSwapError::TransferFailed);
        }
        self.balance = self.balance - amount;
        *to = *to + amount;
        Ok(())
    }
}

/// The empty vault of asset A.
pub fn initialize_vault_token_a() -> (r: Vault)
    ensures
        r.spec_asset() == Asset::A,
        r.spec_balance() == 0,
{
    Vault::new(Asset::A)
}

/// The empty vault of asset B.
pub fn initialize_vault_token_b() -> (r: Vault)
    ensures
        r.spec_asset() == Asset::B,
        r.spec_balance() == 0,
{
    Vault::new(Asset::B)
}

} // verus!
