//! Listing a paper.

use vstd::prelude::*;
use crate::account::{credited, debited, transfer, transfer_error, Account, SystemAccount};
use crate::error::DeSerHubError;
use crate::fee::{fee, fee_of, lemma_fee_is_the_floor, lemma_fee_within_price, BPS_DENOMINATOR};
use crate::pubkey::Pubkey;
use crate::states::paper_entry::{
    price_matches_access,
    PaperEntry,
    MAX_DESCRIPTION_LEN,
    MAX_TITLE_LEN,
    MAX_URI_LEN,
};
use crate::states::platform::Platform;
use crate::text::{byte_len, fits, stored_len};

verus! {

/// The accounts of a paper's listing.
#[derive(Debug)]
pub struct CreatePaper {
    /// The author, who pays the listing fee.
    pub researcher: SystemAccount,
    /// Where the listing is created.
    pub paper_entry: Account<PaperEntry>,
    /// The platform on which the paper is listed.
    pub platform: Account<Platform>,
    /// The platform's escrow, which receives the listing fee.
    pub treasury: SystemAccount,
}

/// Tells that a paper has been listed.
#[derive(Debug, PartialEq, Eq)]
pub struct PaperCreated {
    pub researcher: Pubkey,
    pub paper_entry: Pubkey,
    pub title: String,
    pub is_open_access: bool,
    pub price: u64,
}

impl CreatePaper {
    /// The listing fee that the author owes: nothing for an open-access
    /// paper, else the platform's share of the price.
    pub open spec fn fee_due(&self, price: u64, is_open_access: bool) -> int {
        if is_open_access {
            0
        } else {
            fee_of(price as int, self.platform.data.unwrap().listing_fee_bps as int)
        }
    }

    /// Why the listing is refused, if it is. The first failing check, in this
    /// order, decides: the accounts, the presence of each text, the price,
    /// the length of each text, the fee and its payment.
    pub open spec fn rejection(
        &self,
        title: String,
        description: String,
        uri: String,
        is_open_access: bool,
        price: u64,
    ) -> Option<DeSerHubError> {
        if self.paper_entry.data is Some {
            Some(DeSerHubError::AccountAlreadyInUse)
        } else if self.platform.data is None {
            Some(DeSerHubError::AccountNotInitialized)
        } else if self.treasury.key != self.platform.data.unwrap().treasury {
            Some(DeSerHubError::ConstraintSeeds)
        } else if byte_len(title@) == 0 {
            Some(DeSerHubError::EmptyTitle)
        } else if byte_len(description@) == 0 {
            Some(DeSerHubError::EmptyDescription)
        } else if byte_len(uri@) == 0 {
            Some(DeSerHubError::EmptyUri)
        } else if !price_matches_access(is_open_access, price) {
            Some(DeSerHubError::InvalidPrice)
        } else if byte_len(title@) > MAX_TITLE_LEN {
            Some(DeSerHubError::TitleTooLong)
        } else if byte_len(description@) > MAX_DESCRIPTION_LEN {
            Some(DeSerHubError::DescriptionTooLong)
        } else if byte_len(uri@) > MAX_URI_LEN {
            Some(DeSerHubError::UriTooLongOrNull)
        } else if self.fee_due(price, is_open_access) > u64::MAX {
            Some(DeSerHubError::ArithmeticOverflow)
        } else if self.researcher.lamports < self.fee_due(price, is_open_access) {
            Some(DeSerHubError::InsufficientBalanceForListing)
        } else {
            transfer_error(
                self.researcher,
                self.treasury,
                self.fee_due(price, is_open_access) as u64,
            )
        }
    }

    /// The listing that the operation creates.
    pub open spec fn new_entry(
        &self,
        title: String,
        description: String,
        uri: String,
        is_open_access: bool,
        price: u64,
        created_at: i64,
    ) -> PaperEntry {
        PaperEntry {
            researcher: self.researcher.key,
            title,
            description,
            uri,
            price,
            is_open_access,
            created_at,
        }
    }

    /// The accounts as an accepted listing leaves them.
    pub open spec fn listed(
        &self,
        title: String,
        description: String,
        uri: String,
        is_open_access: bool,
        price: u64,
        created_at: i64,
    ) -> CreatePaper {
        let due = self.fee_due(price, is_open_access) as u64;
        CreatePaper {
            researcher: debited(self.researcher, self.treasury, due),
            paper_entry: Account {
                key: self.paper_entry.key,
                data: Some(
                    self.new_entry(title, description, uri, is_open_access, price, created_at),
                ),
            },
            platform: self.platform,
            treasury: credited(self.researcher, self.treasury, due),
        }
    }

    /// A paid listing that meets the rules, by an author who holds the fee,
    /// is accepted, and moves from the author to the escrow exactly the floor
    /// of the platform's share of the price: the one whole amount `f` with
    /// `f * 10_000 <= price * bps < (f + 1) * 10_000`. This is stated of an
    /// author who is not the escrow, and of an escrow whose balance stays
    /// within 64 bits.
    pub proof fn lemma_listing_moves_the_fee(
        &self,
        title: String,
        description: String,
        uri: String,
        price: u64,
        created_at: i64,
    )
        requires
            self.paper_entry.data is None,
            self.platform.data is Some,
            self.treasury.key == self.platform.data.unwrap().treasury,
            fits(title@, MAX_TITLE_LEN as nat),
            fits(description@, MAX_DESCRIPTION_LEN as nat),
            fits(uri@, MAX_URI_LEN as nat),
            price > 0,
            self.platform.data.unwrap().listing_fee_bps <= BPS_DENOMINATOR,
            self.researcher.lamports >= self.fee_due(price, false),
            self.researcher.key != self.treasury.key,
            self.treasury.lamports + self.fee_due(price, false) <= u64::MAX,
        ensures
            self.rejection(title, description, uri, false, price) is None,
            ({
                let after = self.listed(title, description, uri, false, price, created_at);
                let moved = after.treasury.lamports - self.treasury.lamports;
                let bps = self.platform.data.unwrap().listing_fee_bps;
                &&& moved * 10_000 <= price * bps < (moved + 1) * 10_000
                &&& after.researcher.lamports == self.researcher.lamports - moved
                &&& after.paper_entry.data.unwrap().price == price
            }),
    {
        let bps = self.platform.data.unwrap().listing_fee_bps;
        lemma_fee_within_price(price as int, bps as int);
        lemma_fee_is_the_floor(price as int, bps as int);
    }

    /// Lists a paper at the time `created_at`. Unless the paper is open
    /// access, the author pays the platform's share of the price into the
    /// escrow. Either the fee is paid and the listing created, or nothing
    /// happens at all.
    pub fn create_paper(
        &mut self,
        title: String,
        description: String,
        uri: String,
        is_open_access: bool,
        price: u64,
        created_at: i64,
    ) -> (r: Result<PaperCreated, DeSerHubError>)
        ensures
            match r {
                Ok(event) => {
                    &&& old(self).rejection(title, description, uri, is_open_access, price)
                        is None
                    &&& *final(self) == old(self).listed(
                        title,
                        description,
                        uri,
                        is_open_access,
                        price,
                        created_at,
                    )
                    &&& final(self).paper_entry.data.unwrap().valid()
                    &&& event == (PaperCreated {
                        researcher: old(self).researcher.key,
                        paper_entry: old(self).paper_entry.key,
                        title,
                        is_open_access,
                        price,
                    })
                },
                Err(e) => {
                    &&& old(self).rejection(title, description, uri, is_open_access, price)
                        == Some(e)
                    &&& *final(self) == *old(self)
                },
            },
    {
        if self.paper_entry.data.is_some() {
            return Err(DeSerHubError::AccountAlreadyInUse);
        }
        let (fee_bps, treasury_key) = match &self.platform.data {
            Some(platform) => (platform.listing_fee_bps, platform.treasury),
            None => {
                return Err(DeSerHubError::AccountNotInitialized);
            },
        };
        if self.treasury.key != treasury_key {
            return Err(DeSerHubError::ConstraintSeeds);
        }
        let title_len = stored_len(&title);
        let description_len = stored_len(&description);
        let uri_len = stored_len(&uri);
        if title_len == 0 {
            return Err(DeSerHubError::EmptyTitle);
        }
        if description_len == 0 {
            return Err(DeSerHubError::EmptyDescription);
        }
        if uri_len == 0 {
            return Err(DeSerHubError::EmptyUri);
        }
        if is_open_access != (price == 0) {
            return Err(DeSerHubError::InvalidPrice);
        }
        if title_len > MAX_TITLE_LEN {
            return Err(DeSerHubError::TitleTooLong);
        }
        if description_len > MAX_DESCRIPTION_LEN {
            return Err(DeSerHubError::DescriptionTooLong);
        }
        if uri_len > MAX_URI_LEN {
            return Err(DeSerHubError::UriTooLongOrNull);
        }
        let due: u64 = if is_open_access {
            0
        } else {
            match fee(price, fee_bps) {
                Ok(amount) => amount,
                Err(e) => {
                    return Err(e);
                },
            }
        };
        if self.researcher.lamports < due {
            return Err(DeSerHubError::InsufficientBalanceForListing);
        }
        match transfer(&mut self.researcher, &mut self.treasury, due) {
            Ok(()) => {},
            Err(e) => {
                return Err(e);
            },
        }
        let event = PaperCreated {
            researcher: self.researcher.key,
            paper_entry: self.paper_entry.key,
            title: title.clone(),
            is_open_access,
            price,
        };
        self.paper_entry.data = Some(
            PaperEntry {
                researcher: self.researcher.key,
                title,
                description,
                uri,
                price,
                is_open_access,
                created_at,
            },
        );
        Ok(event)
    }
}

} // verus!
