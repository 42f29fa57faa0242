//! Redeeming an access pass for a credential.

use vstd::prelude::*;
use crate::account::{Account, SystemAccount};
use crate::error::DeSerHubError;
use crate::pubkey::Pubkey;
use crate::states::credential::{Credential, CredentialData};
use crate::states::paper_access_pass::PaperAccessPass;
use crate::states::paper_entry::PaperEntry;
use crate::states::platform::Platform;
use crate::text::{stands_for, text_or_empty};

verus! {

/// The accounts of a credential's issue.
#[derive(Debug)]
pub struct MintNft {
    /// The reader, who receives the credential.
    pub owner: SystemAccount,
    /// Where the credential is created.
    pub mint: Account<Credential>,
    /// The paper that the pass gives access to.
    pub paper_entry: Account<PaperEntry>,
    /// The pass that is redeemed.
    pub paper_access_pass: Account<PaperAccessPass>,
    /// The platform, under whose authority the credential is minted.
    pub platform: Account<Platform>,
    /// The credential that already exists for the pass, if one does. An
    /// issue that was made without the pass coming to name it shows here.
    pub issued: Option<Pubkey>,
}

impl MintNft {
    /// Why the issue is refused, if it is. The first failing check, in this
    /// order, decides: the paper, the pass and the platform exist, the pass
    /// is for this paper, the caller owns the pass, the pass names no
    /// credential, no credential exists for the pass, and nothing exists yet
    /// at the credential's address.
    pub open spec fn rejection(&self) -> Option<DeSerHubError> {
        if self.paper_entry.data is None {
            Some(DeSerHubError::AccountNotInitialized)
        } else if self.paper_access_pass.data is None {
            Some(DeSerHubError::AccountNotInitialized)
        } else if self.platform.data is None {
            Some(DeSerHubError::AccountNotInitialized)
        } else if self.paper_access_pass.data.unwrap().paper_entry != self.paper_entry.key {
            Some(DeSerHubError::ConstraintSeeds)
        } else if self.owner.key != self.paper_access_pass.data.unwrap().owner {
            Some(DeSerHubError::InvalidOwnerForCreateNft)
        } else if self.paper_access_pass.data.unwrap().mint is Some {
            Some(DeSerHubError::NftAlreadyMintedToPaperAccessPass)
        } else if self.issued is Some {
            Some(DeSerHubError::NftAlreadyMintedToPaperAccessPass)
        } else if self.mint.data is Some {
            Some(DeSerHubError::AccountAlreadyInUse)
        } else {
            None
        }
    }

    /// The credential that the operation creates: one indivisible unit, held
    /// by the reader and bound to the pass, that cannot change hands; minted
    /// under the platform's authority, with further minting shut off and the
    /// metadata sealed; no royalty and no creator.
    pub open spec fn new_credential(&self, name: String, symbol: String, uri: String) -> Credential {
        Credential {
            authority: self.platform.key,
            decimals: 0,
            supply: 1,
            holder: Some(self.owner.key),
            pass: Some(self.paper_access_pass.key),
            non_transferable: true,
            supply_locked: true,
            is_mutable: false,
            data: CredentialData { name, symbol, uri, seller_fee_basis_points: 0, creator: None },
        }
    }

    /// The pass once it has been redeemed: it names the credential.
    pub open spec fn redeemed_pass(&self) -> PaperAccessPass {
        PaperAccessPass { mint: Some(self.mint.key), ..self.paper_access_pass.data.unwrap() }
    }

    /// The accounts as an accepted issue leaves them, with the credential
    /// named `name` and `symbol`.
    pub open spec fn issued(&self, name: String, symbol: String, uri: String) -> MintNft {
        MintNft {
            owner: self.owner,
            mint: Account {
                key: self.mint.key,
                data: Some(self.new_credential(name, symbol, uri)),
            },
            paper_entry: self.paper_entry,
            paper_access_pass: Account {
                key: self.paper_access_pass.key,
                data: Some(self.redeemed_pass()),
            },
            platform: self.platform,
            issued: Some(self.mint.key),
        }
    }

    /// A pass for which a credential exists is not redeemed again, whether
    /// or not the pass names the credential and whatever address is given
    /// for a new one.
    pub proof fn lemma_refused_where_issued(&self)
        requires
            self.issued is Some || (self.paper_access_pass.data is Some
                && self.paper_access_pass.data.unwrap().mint is Some),
        ensures
            self.rejection() is Some,
    {
    }

    /// Issues the credential of an access pass to the reader who owns it, and
    /// records it in the pass. A name or symbol that is not given is empty.
    /// A pass can be redeemed once: either the credential is minted and the
    /// pass names it, or nothing happens at all.
    pub fn mint_nft(&mut self, name: Option<String>, symbol: Option<String>, uri: String) -> (r:
        Result<(), DeSerHubError>)
        ensures
            match r {
                Ok(()) => {
                    &&& old(self).rejection() is None
                    &&& final(self).mint.data is Some
                    &&& stands_for(final(self).mint.data.unwrap().data.name, name)
                    &&& stands_for(final(self).mint.data.unwrap().data.symbol, symbol)
                    &&& *final(self) == old(self).issued(
                        final(self).mint.data.unwrap().data.name,
                        final(self).mint.data.unwrap().data.symbol,
                        uri,
                    )
                },
                Err(e) => {
                    &&& old(self).rejection() == Some(e)
                    &&& *final(self) == *old(self)
                },
            },
    {
        if self.paper_entry.data.is_none() {
            return Err(DeSerHubError::AccountNotInitialized);
        }
        let pass = match &self.paper_access_pass.data {
            Some(pass) => *pass,
            None => {
                return Err(DeSerHubError::AccountNotInitialized);
            },
        };
        if self.platform.data.is_none() {
            return Err(DeSerHubError::AccountNotInitialized);
        }
        if pass.paper_entry != self.paper_entry.key {
            return Err(DeSerHubError::ConstraintSeeds);
        }
        if self.owner.key != pass.owner {
            return Err(DeSerHubError::InvalidOwnerForCreateNft);
        }
        if pass.mint.is_some() || self.issued.is_some() {
            return Err(DeSerHubError::NftAlreadyMintedToPaperAccessPass);
        }
        if self.mint.data.is_some() {
            return Err(DeSerHubError::AccountAlreadyInUse);
        }
        self.mint.data = Some(
            Credential {
                authority: self.platform.key,
                decimals: 0,
                supply: 1,
                holder: Some(self.owner.key),
                pass: Some(self.paper_access_pass.key),
                non_transferable: true,
                supply_locked: true,
                is_mutable: false,
                data: CredentialData {
                    name: text_or_empty(name),
                    symbol: text_or_empty(symbol),
                    uri,
                    seller_fee_basis_points: 0,
                    creator: None,
                },
            },
        );
        self.issued = Some(self.mint.key);
        self.paper_access_pass.data = Some(
            PaperAccessPass {
                mint: Some(self.mint.key),
                paper_entry: pass.paper_entry,
                owner: pass.owner,
                price: pass.price,
                bump: pass.bump,
                purchased_at: pass.purchased_at,
            },
        );
        Ok(())
    }
}

} // verus!
