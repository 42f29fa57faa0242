//! A listing whose credential mint is made with it.

use vstd::prelude::*;
use crate::pubkey::Pubkey;

verus! {

/// A paper listed together with the mint of its credential.
#[derive(Clone, Copy, Debug, PartialEq, Eq)]
pub struct Listing {
    pub author: Pubkey,
    /// The mint of the credential that stands for the paper.
    pub mint: Pubkey,
    /// The one-time access price; zero exactly for an open-access paper.
    pub price: u64,
    /// The bump seed of the listing's own address.
    pub bump: u8,
    pub is_open_access: bool,
    /// When the paper was listed, in seconds of Unix time.
    pub created_at: i64,
}

} // verus!
