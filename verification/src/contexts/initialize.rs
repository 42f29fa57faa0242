//! Setting up a platform.

use vstd::prelude::*;
use crate::account::{Account, SystemAccount};
use crate::error::DeSerHubError;
use crate::states::platform::{Platform, MAX_LISTING_FEE_BPS, MAX_NAME_LEN};
use crate::text::{fits, stored_len};

verus! {

/// The bump seeds of the addresses that the operation derives.
#[derive(Clone, Copy, Debug, PartialEq, Eq)]
pub struct InitializeBumps {
    pub platform: u8,
    pub treasury: u8,
}

/// The accounts of a platform's initialization.
#[derive(Debug)]
pub struct Initialize {
    /// The operator of the new platform.
    pub admin: SystemAccount,
    /// Where the platform is created.
    pub platform: Account<Platform>,
    /// The escrow that will collect the platform's fees.
    pub treasury: SystemAccount,
}

/// Tells that a platform has been set up.
#[derive(Debug, PartialEq, Eq)]
pub struct PlatformInitialized {
    pub name: String,
    pub listing_fee_bps: u16,
}

impl Initialize {
    /// Why the initialization is refused, if it is: the platform exists
    /// already, the name is empty or too long, or the fee rate is over the
    /// cap. The first of these that holds decides.
    pub open spec fn rejection(&self, name: String, listing_fee_bps: u16) -> Option<
        DeSerHubError,
    > {
        if self.platform.data is Some {
            Some(DeSerHubError::AccountAlreadyInUse)
        } else if !fits(name@, MAX_NAME_LEN as nat) {
            Some(DeSerHubError::InvalidNameLength)
        } else if listing_fee_bps > MAX_LISTING_FEE_BPS {
            Some(DeSerHubError::InvalidListingFee)
        } else {
            None
        }
    }

    /// The platform that the operation creates.
    pub open spec fn new_platform(
        &self,
        name: String,
        listing_fee_bps: u16,
        bumps: InitializeBumps,
    ) -> Platform {
        Platform {
            admin: self.admin.key,
            listing_fee_bps,
            bump: bumps.platform,
            treasury_bump: bumps.treasury,
            name,
            treasury: self.treasury.key,
        }
    }

    /// Creates the platform of `admin` with the given name and fee rate, and
    /// ties the escrow to it.
    pub fn init_platform(
        &mut self,
        name: String,
        listing_fee_bps: u16,
        bumps: &InitializeBumps,
    ) -> (r: Result<PlatformInitialized, DeSerHubError>)
        ensures
            match r {
                Ok(event) => {
                    &&& old(self).rejection(name, listing_fee_bps) is None
                    &&& final(self).admin == old(self).admin
                    &&& final(self).treasury == old(self).treasury
                    &&& final(self).platform == (Account {
                        key: old(self).platform.key,
                        data: Some(old(self).new_platform(name, listing_fee_bps, *bumps)),
                    })
                    &&& final(self).platform.data.unwrap().valid()
                    &&& event == (PlatformInitialized { name, listing_fee_bps })
                },
                Err(e) => {
                    &&& old(self).rejection(name, listing_fee_bps) == Some(e)
                    &&& *final(self) == *old(self)
                },
            },
    {
        if self.platform.data.is_some() {
            return Err(DeSerHubError::AccountAlreadyInUse);
        }
        let len = stored_len(&name);
        if len == 0 || len > MAX_NAME_LEN {
            return Err(DeSerHubError::InvalidNameLength);
        }
        if listing_fee_bps > MAX_LISTING_FEE_BPS {
            return Err(DeSerHubError::InvalidListingFee);
        }
        self.platform.data = Some(
            Platform {
                admin: self.admin.key,
                listing_fee_bps,
                bump: bumps.platform,
                treasury_bump: bumps.treasury,
                name: name.clone(),
                treasury: self.treasury.key,
            },
        );
        Ok(PlatformInitialized { name, listing_fee_bps })
    }
}

} // verus!
