//! Accounts as an operation sees them: a balance at an address, or a record
//! at an address.

use vstd::prelude::*;
use crate::error::DeSerHubError;
use crate::pubkey::Pubkey;

verus! {

/// An account that holds value and no record: a wallet, or an escrow.
#[derive(Clone, Copy, Debug, PartialEq, Eq)]
pub struct SystemAccount {
    pub key: Pubkey,
    /// The balance, in the smallest unit of value.
    pub lamports: u64,
}

/// An address that holds a record of type `T`, or none yet.
#[derive(Debug, PartialEq, Eq)]
pub struct Account<T> {
    pub key: Pubkey,
    /// The record, `None` while nothing has been created at `key`.
    pub data: Option<T>,
}

/// Why `amount` cannot move from `from` to `to`, if it cannot.
///
/// The payer must hold the amount, and the payee's balance must stay within
/// 64 bits. Where both accounts are one, only the first is asked.
pub open spec fn transfer_error(from: SystemAccount, to: SystemAccount, amount: u64) -> Option<
    DeSerHubError,
> {
    if from.lamports < amount {
        Some(DeSerHubError::InsufficientFunds)
    } else if from.key != to.key && to.lamports + amount > u64::MAX {
        Some(DeSerHubError::ArithmeticOverflow)
    } else {
        None
    }
}

/// The payer after `amount` has moved. An account that pays itself keeps its
/// balance.
pub open spec fn debited(from: SystemAccount, to: SystemAccount, amount: u64) -> SystemAccount {
    if from.key == to.key {
        from
    } else {
        SystemAccount { key: from.key, lamports: (from.lamports - amount) as u64 }
    }
}

/// The payee after `amount` has moved.
pub open spec fn credited(from: SystemAccount, to: SystemAccount, amount: u64) -> SystemAccount {
    if from.key == to.key {
        to
    } else {
        SystemAccount { key: to.key, lamports: (to.lamports + amount) as u64 }
    }
}

/// Moves `amount` from `from` to `to`, or fails and moves nothing.
pub fn transfer(from: &mut SystemAccount, to: &mut SystemAccount, amount: u64) -> (r: Result<
    (),
    DeSerHubError,
>)
    ensures
        match r {
            Ok(()) => {
                &&& transfer_error(*old(from), *old(to), amount) is None
                &&& *final(from) == debited(*old(from), *old(to), amount)
                &&& *final(to) == credited(*old(from), *old(to), amount)
            },
            Err(e) => {
                &&& transfer_error(*old(from), *old(to), amount) == Some(e)
                &&& *final(from) == *old(from)
                &&& *final(to) == *old(to)
            },
        },
{
    if from.lamports < amount {
        return Err(DeSerHubError::InsufficientFunds);
    }
    if from.key == to.key {
        return Ok(());
    }
    if to.lamports > u64::MAX - amount {
        return Err(DeSerHubError::ArithmeticOverflow);
    }
    from.lamports = from.lamports - amount;
    to.lamports = to.lamports + amount;
    Ok(())
}

} // verus!
