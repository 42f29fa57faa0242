//! Taking collected fees out of the escrow.

use vstd::prelude::*;
use crate::account::{credited, debited, transfer, transfer_error, Account, SystemAccount};
use crate::error::DeSerHubError;
use crate::states::platform::Platform;

verus! {

/// The least amount that can be withdrawn, and the least balance from which
/// anything can be.
pub const MIN_WITHDRAW: u64 = 50_000_000_000;

/// The accounts of a withdrawal.
#[derive(Debug)]
pub struct Withdraw {
    /// The caller, who receives the amount.
    pub admin: SystemAccount,
    /// The platform whose fees are withdrawn.
    pub platform: Account<Platform>,
    /// The escrow that pays.
    pub treasury: SystemAccount,
}

impl Withdraw {
    /// Why the withdrawal is refused, if it is. The first failing check, in
    /// this order, decides: the platform exists, the caller is its operator,
    /// the escrow is the platform's, the amount and the escrow balance reach
    /// the floor, the escrow holds the amount, and the payment goes through.
    pub open spec fn rejection(&self, amount: u64) -> Option<DeSerHubError> {
        if self.platform.data is None {
            Some(DeSerHubError::AccountNotInitialized)
        } else if self.platform.data.unwrap().admin != self.admin.key {
            Some(DeSerHubError::ConstraintRaw)
        } else if self.treasury.key != self.platform.data.unwrap().treasury {
            Some(DeSerHubError::ConstraintSeeds)
        } else if amount < MIN_WITHDRAW || self.treasury.lamports < MIN_WITHDRAW {
            Some(DeSerHubError::WithdrawalBelowMinimumThreshold)
        } else if self.treasury.lamports < amount {
            Some(DeSerHubError::InsufficientBalanceForWithdraw)
        } else {
            transfer_error(self.treasury, self.admin, amount)
        }
    }

    /// The accounts as an accepted withdrawal leaves them.
    pub open spec fn withdrawn(&self, amount: u64) -> Withdraw {
        Withdraw {
            admin: credited(self.treasury, self.admin, amount),
            platform: self.platform,
            treasury: debited(self.treasury, self.admin, amount),
        }
    }

    /// The caller is the operator that the platform records, and the escrow
    /// is the platform's.
    pub open spec fn authorized(&self) -> bool {
        &&& self.platform.data is Some
        &&& self.platform.data.unwrap().admin == self.admin.key
        &&& self.platform.data.unwrap().treasury == self.treasury.key
    }

    /// An amount under the floor is refused however much the escrow holds,
    /// and so is an amount that the escrow does not hold. Any other amount
    /// that the operator asks for is paid out, to the unit, unless it would
    /// take the operator's balance beyond 64 bits.
    pub proof fn lemma_withdraw_rule(&self, amount: u64)
        ensures
            amount < MIN_WITHDRAW ==> self.rejection(amount) is Some,
            amount < MIN_WITHDRAW && self.authorized() ==> self.rejection(amount) == Some(
                DeSerHubError::WithdrawalBelowMinimumThreshold,
            ),
            self.treasury.lamports < amount ==> self.rejection(amount) is Some,
            self.authorized() && amount >= MIN_WITHDRAW && self.treasury.lamports >= amount && (
            self.admin.key == self.treasury.key || self.admin.lamports + amount <= u64::MAX) ==> {
                &&& self.rejection(amount) is None
                &&& self.admin.key != self.treasury.key ==> {
                    &&& self.withdrawn(amount).treasury.lamports == self.treasury.lamports
                        - amount
                    &&& self.withdrawn(amount).admin.lamports == self.admin.lamports + amount
                }
            },
    {
    }

    /// Pays `amount` from the escrow to the platform's operator, or fails and
    /// pays nothing.
    pub fn withdraw(&mut self, amount: u64) -> (r: Result<(), DeSerHubError>)
        ensures
            match r {
                Ok(()) => {
                    &&& old(self).rejection(amount) is None
                    &&& *final(self) == old(self).withdrawn(amount)
                },
                Err(e) => {
                    &&& old(self).rejection(amount) == Some(e)
                    &&& *final(self) == *old(self)
                },
            },
    {
        let (operator, treasury_key) = match &self.platform.data {
            Some(platform) => (platform.admin, platform.treasury),
            None => {
                return Err(DeSerHubError::AccountNotInitialized);
            },
        };
        if operator != self.admin.key {
            return Err(DeSerHubError::ConstraintRaw);
        }
        if self.treasury.key != treasury_key {
            return Err(DeSerHubError::ConstraintSeeds);
        }
        if amount < MIN_WITHDRAW || self.treasury.lamports < MIN_WITHDRAW {
            return Err(DeSerHubError::WithdrawalBelowMinimumThreshold);
        }
        if self.treasury.lamports < amount {
            return Err(DeSerHubError::InsufficientBalanceForWithdraw);
        }
        transfer(&mut self.treasury, &mut self.admin, amount)
    }
}

} // verus!
