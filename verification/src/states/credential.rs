//! The credential: a token that proves access and cannot change hands.

use vstd::prelude::*;
use crate::pubkey::Pubkey;

verus! {

/// Someone recorded in a credential's metadata as its creator.
#[derive(Clone, Copy, Debug, PartialEq, Eq)]
pub struct Creator {
    pub address: Pubkey,
    pub verified: bool,
    /// The creator's share of royalties, in percent.
    pub share: u8,
}

/// What a credential says of itself.
#[derive(Debug, PartialEq, Eq)]
pub struct CredentialData {
    pub name: String,
    pub symbol: String,
    pub uri: String,
    /// The royalty on resale, in basis points. A credential carries none.
    pub seller_fee_basis_points: u16,
    /// The sole creator, where one is recorded.
    pub creator: Option<Creator>,
}

/// A credential mint with what is attached to it.
#[derive(Debug, PartialEq, Eq)]
pub struct Credential {
    /// The authority that may mint, freeze and update: the platform.
    pub authority: Pubkey,
    /// The number of decimal places. A credential is not divisible.
    pub decimals: u8,
    /// How many units exist.
    pub supply: u64,
    /// Who holds the unit, once it has been minted.
    pub holder: Option<Pubkey>,
    /// The access pass that the credential was issued for, where it was
    /// issued for one.
    pub pass: Option<Pubkey>,
    /// Whether the mint forbids transfers of its units.
    pub non_transferable: bool,
    /// Whether further minting has been shut off for good.
    pub supply_locked: bool,
    /// Whether the metadata can still be edited.
    pub is_mutable: bool,
    pub data: CredentialData,
}

impl Clone for CredentialData {
    fn clone(&self) -> (r: CredentialData)
        ensures
            r == *self,
    {
        CredentialData {
            name: self.name.clone(),
            symbol: self.symbol.clone(),
            uri: self.uri.clone(),
            seller_fee_basis_points: self.seller_fee_basis_points,
            creator: self.creator,
        }
    }
}

impl Clone for Credential {
    fn clone(&self) -> (r: Credential)
        ensures
            r == *self,
    {
        Credential {
            authority: self.authority,
            decimals: self.decimals,
            supply: self.supply,
            holder: self.holder,
            pass: self.pass,
            non_transferable: self.non_transferable,
            supply_locked: self.supply_locked,
            is_mutable: self.is_mutable,
            data: self.data.clone(),
        }
    }
}

} // verus!
