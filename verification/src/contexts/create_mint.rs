//! Listing a paper together with the mint of its credential.

use vstd::prelude::*;
use crate::account::{credited, debited, transfer, transfer_error, Account, SystemAccount};
use crate::error::DeSerHubError;
use crate::fee::{fee, fee_of};
use crate::ids::{token_2022_id, token_2022_program_id};
use crate::pubkey::Pubkey;
use crate::states::credential::{Creator, Credential, CredentialData};
use crate::states::listing::Listing;
use crate::states::paper_entry::price_matches_access;
use crate::states::platform::Platform;
use crate::text::{byte_len, stored_len};

verus! {

/// The bump seeds of the addresses that the operation derives.
#[derive(Clone, Copy, Debug, PartialEq, Eq)]
pub struct CreateMintAndListingBumps {
    pub listing: u8,
    pub metadata_account: u8,
}

/// The accounts of a listing that brings its credential mint with it.
#[derive(Debug)]
pub struct CreateMintAndListing {
    /// The author, who pays the listing fee.
    pub author: SystemAccount,
    /// Where the credential mint is created.
    pub mint: Account<Credential>,
    /// The platform on which the paper is listed.
    pub platform: Account<Platform>,
    /// Where the listing is created.
    pub listing: Account<Listing>,
    /// The platform's escrow, which receives the listing fee.
    pub treasury: SystemAccount,
    /// The token program that is to hold the mint.
    pub token_program: Pubkey,
}

impl CreateMintAndListing {
    /// The listing fee that the author owes: nothing for an open-access
    /// paper, else the platform's share of the price.
    pub open spec fn fee_due(&self, price: u64, is_open_access: bool) -> int {
        if is_open_access {
            0
        } else {
            fee_of(price as int, self.platform.data.unwrap().listing_fee_bps as int)
        }
    }

    /// Why the listing is refused, if it is. The first failing check, in this
    /// order, decides: the accounts, the texts, the price, the token program,
    /// the fee, the author's balance, and the payment.
    pub open spec fn rejection(
        &self,
        uri: String,
        paper_name: String,
        symbol: String,
        price: u64,
        is_open_access: bool,
    ) -> Option<DeSerHubError> {
        if self.mint.data is Some {
            Some(DeSerHubError::AccountAlreadyInUse)
        } else if self.platform.data is None {
            Some(DeSerHubError::AccountNotInitialized)
        } else if self.listing.data is Some {
            Some(DeSerHubError::AccountAlreadyInUse)
        } else if self.treasury.key != self.platform.data.unwrap().treasury {
            Some(DeSerHubError::ConstraintSeeds)
        } else if byte_len(paper_name@) == 0 {
            Some(DeSerHubError::EmptyName)
        } else if byte_len(symbol@) == 0 {
            Some(DeSerHubError::EmptySymbol)
        } else if byte_len(uri@) == 0 {
            Some(DeSerHubError::EmptyUri)
        } else if !price_matches_access(is_open_access, price) {
            Some(DeSerHubError::InvalidPrice)
        } else if self.token_program != token_2022_program_id() {
            Some(DeSerHubError::InvalidTokenProgram)
        } else if self.fee_due(price, is_open_access) > u64::MAX {
            Some(DeSerHubError::ArithmeticOverflow)
        } else if self.author.lamports < self.fee_due(price, is_open_access) {
            Some(DeSerHubError::InsufficientBalanceForListing)
        } else {
            transfer_error(self.author, self.treasury, self.fee_due(price, is_open_access) as u64)
        }
    }

    /// The mint that the operation creates. Nothing has been minted from it
    /// yet; it forbids transfers, answers to the platform, carries no
    /// royalty, and names the author as its sole, verified creator.
    pub open spec fn new_mint(&self, uri: String, paper_name: String, symbol: String) -> Credential {
        Credential {
            authority: self.platform.key,
            decimals: 0,
            supply: 0,
            holder: None,
            pass: None,
            non_transferable: true,
            supply_locked: false,
            is_mutable: true,
            data: CredentialData {
                name: paper_name,
                symbol,
                uri,
                seller_fee_basis_points: 0,
                creator: Some(Creator { address: self.author.key, verified: true, share: 100 }),
            },
        }
    }

    /// The listing that the operation creates.
    pub open spec fn new_listing(
        &self,
        price: u64,
        is_open_access: bool,
        bumps: CreateMintAndListingBumps,
        created_at: i64,
    ) -> Listing {
        Listing {
            author: self.author.key,
            mint: self.mint.key,
            price,
            bump: bumps.listing,
            is_open_access,
            created_at,
        }
    }

    /// The accounts as an accepted listing leaves them.
    pub open spec fn listed(
        &self,
        uri: String,
        paper_name: String,
        symbol: String,
        price: u64,
        is_open_access: bool,
        bumps: CreateMintAndListingBumps,
        created_at: i64,
    ) -> CreateMintAndListing {
        let due = self.fee_due(price, is_open_access) as u64;
        CreateMintAndListing {
            author: debited(self.author, self.treasury, due),
            mint: Account {
                key: self.mint.key,
                data: Some(self.new_mint(uri, paper_name, symbol)),
            },
            platform: self.platform,
            listing: Account {
                key: self.listing.key,
                data: Some(self.new_listing(price, is_open_access, bumps, created_at)),
            },
            treasury: credited(self.author, self.treasury, due),
            token_program: self.token_program,
        }
    }

    /// Lists a paper and creates the mint of its credential, at the time
    /// `created_at`. The author pays the listing fee into the escrow unless
    /// the paper is open access. Either all of it happens or nothing does.
    pub fn create_mint_and_listing(
        &mut self,
        uri: String,
        paper_name: String,
        symbol: String,
        price: u64,
        is_open_access: bool,
        bumps: &CreateMintAndListingBumps,
        created_at: i64,
    ) -> (r: Result<(), DeSerHubError>)
        ensures
            match r {
                Ok(()) => {
                    &&& old(self).rejection(uri, paper_name, symbol, price, is_open_access) is None
                    &&& *final(self) == old(self).listed(
                        uri,
                        paper_name,
                        symbol,
                        price,
                        is_open_access,
                        *bumps,
                        created_at,
                    )
                    &&& price_matches_access(
                        final(self).listing.data.unwrap().is_open_access,
                        final(self).listing.data.unwrap().price,
                    )
                },
                Err(e) => {
                    &&& old(self).rejection(uri, paper_name, symbol, price, is_open_access)
                        == Some(e)
                    &&& *final(self) == *old(self)
                },
            },
    {
        if self.mint.data.is_some() {
            return Err(DeSerHubError::AccountAlreadyInUse);
        }
        let (fee_bps, treasury_key) = match &self.platform.data {
            Some(platform) => (platform.listing_fee_bps, platform.treasury),
            None => {
                return Err(DeSerHubError::AccountNotInitialized);
            },
        };
        if self.listing.data.is_some() {
            return Err(DeSerHubError::AccountAlreadyInUse);
        }
        if self.treasury.key != treasury_key {
            return Err(DeSerHubError::ConstraintSeeds);
        }
        if stored_len(&paper_name) == 0 {
            return Err(DeSerHubError::EmptyName);
        }
        if stored_len(&symbol) == 0 {
            return Err(DeSerHubError::EmptySymbol);
        }
        if stored_len(&uri) == 0 {
            return Err(DeSerHubError::EmptyUri);
        }
        if is_open_access != (price == 0) {
            return Err(DeSerHubError::InvalidPrice);
        }
        if self.token_program != token_2022_id() {
            return Err(DeSerHubError::InvalidTokenProgram);
        }
        let due: u64 = if is_open_access {
            0
        } else {
            match fee(price, fee_bps) {
                Ok(amount) => amount,
                Err(e) => {
                    return Err(e);
                },
            }
        };
        if self.author.lamports < due {
            return Err(DeSerHubError::InsufficientBalanceForListing);
        }
        match transfer(&mut self.author, &mut self.treasury, due) {
            Ok(()) => {},
            Err(e) => {
                return Err(e);
            },
        }
        self.mint.data = Some(
            Credential {
                authority: self.platform.key,
                decimals: 0,
                supply: 0,
                holder: None,
                pass: None,
                non_transferable: true,
                supply_locked: false,
                is_mutable: true,
                data: CredentialData {
                    name: paper_name,
                    symbol,
                    uri,
                    seller_fee_basis_points: 0,
                    creator: Some(
                        Creator { address: self.author.key, verified: true, share: 100 },
                    ),
                },
            },
        );
        self.listing.data = Some(
            Listing {
                author: self.author.key,
                mint: self.mint.key,
                price,
                bump: bumps.listing,
                is_open_access,
                created_at,
            },
        );
        Ok(())
    }
}

} // verus!
