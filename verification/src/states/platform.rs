//! The platform: one per operator.

use vstd::prelude::*;
use crate::pubkey::Pubkey;
use crate::text::fits;

verus! {

/// The highest fee rate a platform may set: 8%.
pub const MAX_LISTING_FEE_BPS: u16 = 800;

/// The longest platform name, in bytes.
pub const MAX_NAME_LEN: usize = 20;

/// The configuration of a platform. It is written once, when the platform is
/// initialized, and never changed.
#[derive(Debug, PartialEq, Eq)]
pub struct Platform {
    /// The operator: the only identity that may withdraw from the escrow.
    pub admin: Pubkey,
    /// The listing fee in basis points (250 = 2.5%).
    pub listing_fee_bps: u16,
    /// The bump seed of the platform's own address.
    pub bump: u8,
    /// The bump seed of the escrow's address.
    pub treasury_bump: u8,
    /// A short label for people.
    pub name: String,
    /// The escrow account that collects the listing fees.
    pub treasury: Pubkey,
}

impl Platform {
    /// A platform as initialization leaves it: a name within bounds and a fee
    /// rate within the cap.
    pub open spec fn valid(&self) -> bool {
        &&& fits(self.name@, MAX_NAME_LEN as nat)
        &&& self.listing_fee_bps <= MAX_LISTING_FEE_BPS
    }
}

impl Clone for Platform {
    fn clone(&self) -> (r: Platform)
        ensures
            r == *self,
    {
        Platform {
            admin: self.admin,
            listing_fee_bps: self.listing_fee_bps,
            bump: self.bump,
            treasury_bump: self.treasury_bump,
            name: self.name.clone(),
            treasury: self.treasury,
        }
    }
}

} // verus!
