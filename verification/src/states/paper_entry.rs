//! A listed paper.

use vstd::prelude::*;
use crate::pubkey::Pubkey;
use crate::text::fits;

verus! {

/// The longest title, in bytes.
pub const MAX_TITLE_LEN: usize = 300;

/// The longest description, in bytes.
pub const MAX_DESCRIPTION_LEN: usize = 500;

/// The longest content locator, in bytes.
pub const MAX_URI_LEN: usize = 66;

/// A paper offered on the platform. It is written once, by its author, and
/// never changed.
#[derive(Debug, PartialEq, Eq)]
pub struct PaperEntry {
    /// The author, who receives what readers pay.
    pub researcher: Pubkey,
    pub title: String,
    pub description: String,
    /// Where the encrypted content is found.
    pub uri: String,
    /// The one-time access price; zero exactly for an open-access paper.
    pub price: u64,
    pub is_open_access: bool,
    /// When the paper was listed, in seconds of Unix time.
    pub created_at: i64,
}

/// Whether a price agrees with an open-access flag: an open paper is free,
/// and a paper that is not open has a price.
pub open spec fn price_matches_access(is_open_access: bool, price: u64) -> bool {
    is_open_access <==> price == 0
}

impl PaperEntry {
    /// A listing as its creation leaves it: every text present and within
    /// bounds, and the price in agreement with the open-access flag.
    pub open spec fn valid(&self) -> bool {
        &&& fits(self.title@, MAX_TITLE_LEN as nat)
        &&& fits(self.description@, MAX_DESCRIPTION_LEN as nat)
        &&& fits(self.uri@, MAX_URI_LEN as nat)
        &&& price_matches_access(self.is_open_access, self.price)
    }
}

impl Clone for PaperEntry {
    fn clone(&self) -> (r: PaperEntry)
        ensures
            r == *self,
    {
        PaperEntry {
            researcher: self.researcher,
            title: self.title.clone(),
            description: self.description.clone(),
            uri: self.uri.clone(),
            price: self.price,
            is_open_access: self.is_open_access,
            created_at: self.created_at,
        }
    }
}

} // verus!
