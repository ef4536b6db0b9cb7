//! The custody vault: the one escrow balance of a deployment.

use vstd::prelude::*;
use crate::errors::TransferError;

verus! {

/// A balance that the ledger holds for a party outside the engine.
#[derive(Clone, Copy, Debug)]
pub struct TokenAccount {
    pub amount: u64,
}

/// Whether `amount` can move from a balance of `from` to a balance of `to`.
pub open spec fn transfer_outcome(from: nat, to: nat, amount: nat) -> Result<(), TransferError> {
    if from < amount {
        Err(TransferError::InsufficientFunds)
    } else if to + amount > u64::MAX {
        Err(TransferError::Overflow)
    } else {
        Ok(())
    }
}

/// Moves `amount` from one balance to the other, or changes neither.
fn move_funds(from: &mut u64, to: &mut u64, amount: u64) -> (moved: Result<(), TransferError>)
    ensures
        moved == transfer_outcome(*old(from) as nat, *old(to) as nat, amount as nat),
        moved is Ok ==> *final(from) == *old(from) - amount && *final(to) == *old(to) + amount,
        moved is Err ==> *final(from) == *old(from) && *final(to) == *old(to),
{
    if *from < amount {
        return Err(TransferError::InsufficientFunds);
    }
    if *to > u64::MAX - amount {
        return Err(TransferError::Overflow);
    }
    *from = *from - amount;
    *to = *to + amount;
    Ok(())
}

impl TokenAccount {
    /// Pays `amount` from this account straight to `destination`.
    pub fn transfer(&mut self, destination: &mut TokenAccount, amount: u64) -> (moved: Result<
        (),
        TransferError,
    >)
        ensures
            moved == transfer_outcome(
                old(self).amount as nat,
                old(destination).amount as nat,
                amount as nat,
            ),
            moved is Ok ==> final(self).amount == old(self).amount - amount
                && final(destination).amount == old(destination).amount + amount,
            moved is Err ==> *final(self) == *old(self) && *final(destination) == *old(destination),
    {
        move_funds(&mut self.amount, &mut destination.amount, amount)
    }
}

/// The engine's own signing authority over the vault. Only the engine can
/// make one: it derives it from the seed kept in its configuration.
#[derive(Debug)]
pub struct VaultAuthority {
    bump: u8,
}

impl VaultAuthority {
    /// The seed that this authority was derived from.
    pub closed spec fn bump_seed(&self) -> u8 {
        self.bump
    }

    pub(crate) fn derive(bump: u8) -> (authority: VaultAuthority)
        ensures
            authority.bump_seed() == bump,
    {
        VaultAuthority { bump }
    }
}

/// The escrow balance of a deployment. Anyone may pay in; only the engine,
/// by its own authority, pays out.
#[derive(Clone, Copy, Debug)]
pub struct Vault {
    balance: u64,
}

impl View for Vault {
    type V = nat;

    closed spec fn view(&self) -> nat {
        self.balance as nat
    }
}

impl Vault {
    /// The vault as the ledger holds it, with `balance` in escrow.
    pub fn open(balance: u64) -> (vault: Vault)
        ensures
            vault@ == balance,
    {
        Vault { balance }
    }

    /// The funds in escrow.
    pub fn balance(&self) -> (balance: u64)
        ensures
            balance == self@,
    {
        self.balance
    }

    /// Takes `amount` from `source` into escrow.
    pub fn deposit(&mut self, source: &mut TokenAccount, amount: u64) -> (moved: Result<
        (),
        TransferError,
    >)
        ensures
            moved == transfer_outcome(old(source).amount as nat, old(self)@, amount as nat),
            moved is Ok ==> final(self)@ == old(self)@ + amount
                && final(source).amount == old(source).amount - amount,
            moved is Err ==> *final(self) == *old(self) && *final(source) == *old(source),
    {
        move_funds(&mut source.amount, &mut self.balance, amount)
    }

    /// Pays `amount` out of escrow to `destination`, to settle a payment. The
    /// authority shows that it is the engine that asks.
    pub fn release(
        &mut self,
        authority: &VaultAuthority,
        destination: &mut TokenAccount,
        amount: u64,
    ) -> (moved: Result<(), TransferError>)
        ensures
            moved == transfer_outcome(old(self)@, old(destination).amount as nat, amount as nat),
            moved is Ok ==> final(self)@ == old(self)@ - amount
                && final(destination).amount == old(destination).amount + amount,
            moved is Err ==> *final(self) == *old(self) && *final(destination) == *old(destination),
    {
        move_funds(&mut self.balance, &mut destination.amount, amount)
    }

    /// Pays `amount` out of escrow back to `destination`, to undo a payment.
    /// The authority shows that it is the engine that asks.
    pub fn refund(
        &mut self,
        authority: &VaultAuthority,
        destination: &mut TokenAccount,
        amount: u64,
    ) -> (moved: Result<(), TransferError>)
        ensures
            moved == transfer_outcome(old(self)@, old(destination).amount as nat, amount as nat),
            moved is Ok ==> final(self)@ == old(self)@ - amount
                && final(destination).amount == old(destination).amount + amount,
            moved is Err ==> *final(self) == *old(self) && *final(destination) == *old(destination),
    {
        move_funds(&mut self.balance, &mut destination.amount, amount)
    }
}

} // verus!
