//! A reader's receipt for a paper.

use vstd::prelude::*;
use crate::pubkey::Pubkey;

verus! {

/// The right of one reader to one paper, and to one credential for it.
///
/// Only `mint` ever changes: it is empty when the pass is bought and is set,
/// once, when the credential is issued.
#[derive(Clone, Copy, Debug, PartialEq, Eq)]
pub struct PaperAccessPass {
    /// The credential issued for this pass, if one has been.
    pub mint: Option<Pubkey>,
    /// The paper that the pass gives access to.
    pub paper_entry: Pubkey,
    /// The reader who bought the pass.
    pub owner: Pubkey,
    /// What the reader paid.
    pub price: u64,
    pub bump: u8,
    /// When the pass was bought, in seconds of Unix time.
    pub purchased_at: i64,
}

} // verus!
