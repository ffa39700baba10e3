//! Custody of fungible balances: token holdings, native wallets, and the
//! one primitive that moves an amount from one balance to another.

use vstd::prelude::*;
use crate::shared::Identity;

verus! {

/// A balance of one token, with the mint it belongs to and its owner.
#[derive(Clone, Copy, PartialEq, Eq, Structural, Debug)]
pub struct Holding {
    pub mint: Identity,
    pub owner: Identity,
    pub amount: u64,
}

/// An account that holds the native currency.
#[derive(Clone, Copy, PartialEq, Eq, Structural, Debug)]
pub struct Wallet {
    pub key: Identity,
    pub lamports: u64,
}

/// Why a transfer did not happen.
#[derive(Clone, Copy, PartialEq, Eq, Structural, Debug)]
pub enum TransferError {
    /// The source cannot cover the amount.
    InsufficientBalance,
    /// The destination cannot hold the amount on top of what it has.
    BalanceOverflow,
}

/// Whether `from` covers `amount`.
pub open spec fn can_pay(from: u64, amount: u64) -> bool {
    from >= amount
}

/// Whether `to` can take `amount` on top of what it has.
pub open spec fn can_receive(to: u64, amount: u64) -> bool {
    to + amount <= u64::MAX
}

/// The two balances after `amount` has moved from the first to the second,
/// or the reason why it cannot move. A source that is short is reported
/// before a destination that is full.
pub open spec fn transfer_outcome(from: u64, to: u64, amount: u64) -> Result<(u64, u64), TransferError> {
    if !can_pay(from, amount) {
        Err(TransferError::InsufficientBalance)
    } else if !can_receive(to, amount) {
        Err(TransferError::BalanceOverflow)
    } else {
        Ok(((from - amount) as u64, (to + amount) as u64))
    }
}

/// Moves `amount` from one balance to another, or moves nothing.
pub fn move_balance(from: &mut u64, to: &mut u64, amount: u64) -> (r: Result<(), TransferError>)
    ensures
        match transfer_outcome(*old(from), *old(to), amount) {
            Ok((f, t)) => r == Ok::<(), TransferError>(()) && *final(from) == f && *final(to) == t,
            Err(e) => r == Err::<(), TransferError>(e) && *final(from) == *old(from) && *final(to) == *old(
                to,
            ),
        },
{
    if *from < amount {
        return Err(TransferError::InsufficientBalance);
    }
    if *to > u64::MAX - amount {
        return Err(TransferError::BalanceOverflow);
    }
    *from = *from - amount;
    *to = *to + amount;
    Ok(())
}

impl Holding {
    /// Whether this holding covers `amount`.
    pub fn covers(&self, amount: u64) -> (b: bool)
        ensures
            b == can_pay(self.amount, amount),
    {
        self.amount >= amount
    }

    /// Whether this holding can take `amount` more.
    pub fn has_room_for(&self, amount: u64) -> (b: bool)
        ensures
            b == can_receive(self.amount, amount),
    {
        self.amount <= u64::MAX - amount
    }

    /// This holding with another amount.
    pub open spec fn with_amount(self, amount: u64) -> Holding {
        Holding { mint: self.mint, owner: self.owner, amount }
    }

    /// How much this holding has gained over what it was `before`; zero
    /// where it has not gained.
    pub fn received_since(&self, before: &Holding) -> (gain: u64)
        ensures
            gain == if self.amount >= before.amount {
                self.amount - before.amount
            } else {
                0
            },
    {
        self.amount.saturating_sub(before.amount)
    }

    /// How much this holding has lost from what it was `before`; zero where
    /// it has not lost.
    pub fn paid_since(&self, before: &Holding) -> (loss: u64)
        ensures
            loss == if before.amount >= self.amount {
                before.amount - self.amount
            } else {
                0
            },
    {
        before.amount.saturating_sub(self.amount)
    }
}

/// Moves `amount` of a token from one holding to another. Only the two
/// amounts change, and on failure nothing does.
pub fn transfer(from: &mut Holding, to: &mut Holding, amount: u64) -> (r: Result<(), TransferError>)
    ensures
        match transfer_outcome(old(from).amount, old(to).amount, amount) {
            Ok((f, t)) => r == Ok::<(), TransferError>(()) && *final(from) == old(from).with_amount(f)
                && *final(to) == old(to).with_amount(t),
            Err(e) => r == Err::<(), TransferError>(e) && *final(from) == *old(from) && *final(to) == *old(
                to,
            ),
        },
{
    move_balance(&mut from.amount, &mut to.amount, amount)
}

impl Wallet {
    /// Whether this wallet covers `amount`.
    pub fn covers(&self, amount: u64) -> (b: bool)
        ensures
            b == can_pay(self.lamports, amount),
    {
        self.lamports >= amount
    }
}

} // verus!
