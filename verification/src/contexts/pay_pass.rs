//! Buying access to a paper.

use vstd::prelude::*;
use crate::account::{credited, debited, transfer, transfer_error, Account, SystemAccount};
use crate::error::DeSerHubError;
use crate::pubkey::Pubkey;
use crate::states::paper_access_pass::PaperAccessPass;
use crate::states::paper_entry::PaperEntry;
use crate::states::platform::Platform;

verus! {

/// The accounts of a purchase.
#[derive(Debug)]
pub struct PayPass {
    /// The reader, who pays.
    pub owner: SystemAccount,
    /// The paper that the reader wants access to.
    pub paper_entry: Account<PaperEntry>,
    /// Where the access pass is created: the one address that belongs to
    /// this reader and this paper.
    pub paper_access_pass: Account<PaperAccessPass>,
    /// The platform on which the paper is listed.
    pub platform: Account<Platform>,
    /// The account that the reader names as the author's.
    pub researcher: SystemAccount,
}

/// Tells that an access pass has been bought.
#[derive(Clone, Copy, Debug, PartialEq, Eq)]
pub struct PaperAccessPassCreated {
    pub paper_entry: Pubkey,
    pub paper_access_pass: Pubkey,
    pub owner: Pubkey,
    pub price: u64,
    pub purchased_at: i64,
}

impl PayPass {
    /// What the reader pays the author: the paper's price, or nothing for an
    /// open-access paper.
    pub open spec fn payment(&self) -> u64 {
        if self.paper_entry.data.unwrap().is_open_access {
            0
        } else {
            self.paper_entry.data.unwrap().price
        }
    }

    /// Why the purchase is refused, if it is. The first failing check, in
    /// this order, decides: the paper exists, the reader holds no pass for it
    /// yet, the platform exists, the named recipient is the author, the
    /// reader holds more than the price, and the payment goes through.
    pub open spec fn rejection(&self) -> Option<DeSerHubError> {
        if self.paper_entry.data is None {
            Some(DeSerHubError::AccountNotInitialized)
        } else if self.paper_access_pass.data is Some {
            Some(DeSerHubError::AccountAlreadyInUse)
        } else if self.platform.data is None {
            Some(DeSerHubError::AccountNotInitialized)
        } else if self.researcher.key != self.paper_entry.data.unwrap().researcher {
            Some(DeSerHubError::PayPassInvalidResearcher)
        } else if !self.paper_entry.data.unwrap().is_open_access && self.owner.lamports
            <= self.paper_entry.data.unwrap().price {
            Some(DeSerHubError::InsufficientBalanceForListing)
        } else {
            transfer_error(self.owner, self.researcher, self.payment())
        }
    }

    /// The access pass that the operation creates: not yet redeemed.
    pub open spec fn new_pass(&self, purchased_at: i64) -> PaperAccessPass {
        PaperAccessPass {
            mint: None,
            paper_entry: self.paper_entry.key,
            owner: self.owner.key,
            price: self.paper_entry.data.unwrap().price,
            bump: self.platform.data.unwrap().bump,
            purchased_at,
        }
    }

    /// The accounts as an accepted purchase leaves them.
    pub open spec fn purchased(&self, purchased_at: i64) -> PayPass {
        PayPass {
            owner: debited(self.owner, self.researcher, self.payment()),
            paper_entry: self.paper_entry,
            paper_access_pass: Account {
                key: self.paper_access_pass.key,
                data: Some(self.new_pass(purchased_at)),
            },
            platform: self.platform,
            researcher: credited(self.owner, self.researcher, self.payment()),
        }
    }

    /// What an accepted purchase reports.
    pub open spec fn receipt(&self, purchased_at: i64) -> PaperAccessPassCreated {
        PaperAccessPassCreated {
            paper_entry: self.paper_entry.key,
            paper_access_pass: self.paper_access_pass.key,
            owner: self.owner.key,
            price: self.paper_entry.data.unwrap().price,
            purchased_at,
        }
    }

    /// Buys the reader an access pass at the time `purchased_at`. Unless the
    /// paper is open access, the price goes from the reader straight to the
    /// author. Either the price is paid and the pass created, or nothing
    /// happens at all.
    pub fn pay_pass(&mut self, purchased_at: i64) -> (r: Result<
        PaperAccessPassCreated,
        DeSerHubError,
    >)
        ensures
            match r {
                Ok(event) => {
                    &&& old(self).rejection() is None
                    &&& *final(self) == old(self).purchased(purchased_at)
                    &&& event == old(self).receipt(purchased_at)
                },
                Err(e) => {
                    &&& old(self).rejection() == Some(e)
                    &&& *final(self) == *old(self)
                },
            },
    {
        let (author, price, is_open_access) = match &self.paper_entry.data {
            Some(entry) => (entry.researcher, entry.price, entry.is_open_access),
            None => {
                return Err(DeSerHubError::AccountNotInitialized);
            },
        };
        if self.paper_access_pass.data.is_some() {
            return Err(DeSerHubError::AccountAlreadyInUse);
        }
        let bump = match &self.platform.data {
            Some(platform) => platform.bump,
            None => {
                return Err(DeSerHubError::AccountNotInitialized);
            },
        };
        if self.researcher.key != author {
            return Err(DeSerHubError::PayPassInvalidResearcher);
        }
        if !is_open_access {
            if self.owner.lamports <= price {
                return Err(DeSerHubError::InsufficientBalanceForListing);
            }
            match transfer(&mut self.owner, &mut self.researcher, price) {
                Ok(()) => {},
                Err(e) => {
                    return Err(e);
                },
            }
        }
        self.paper_access_pass.data = Some(
            PaperAccessPass {
                mint: None,
                paper_entry: self.paper_entry.key,
                owner: self.owner.key,
                price,
                bump,
                purchased_at,
            },
        );
        Ok(
            PaperAccessPassCreated {
                paper_entry: self.paper_entry.key,
                paper_access_pass: self.paper_access_pass.key,
                owner: self.owner.key,
                price,
                purchased_at,
            },
        )
    }
}

} // verus!
