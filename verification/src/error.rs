//! The reasons for which an operation of the marketplace is rejected.

use vstd::prelude::*;

verus! {

/// Why an operation was rejected. A rejected operation changes nothing.
#[derive(Clone, Copy, Debug, PartialEq, Eq, Structural)]
pub enum DeSerHubError {
    /// The platform name is empty or longer than the limit.
    InvalidNameLength,
    /// The fee rate is above the cap.
    InvalidListingFee,
    /// The title is empty.
    EmptyTitle,
    /// The description is empty.
    EmptyDescription,
    /// The content locator is empty.
    EmptyUri,
    /// The credential name is empty.
    EmptyName,
    /// The credential symbol is empty.
    EmptySymbol,
    /// The price does not agree with the open-access flag.
    InvalidPrice,
    /// The title is longer than the limit.
    TitleTooLong,
    /// The description is longer than the limit.
    DescriptionTooLong,
    /// The content locator is longer than the limit.
    UriTooLongOrNull,
    /// The payer's balance does not cover the amount due.
    InsufficientBalanceForListing,
    /// The researcher named as recipient is not the author of the paper.
    PayPassInvalidResearcher,
    /// The caller is not the owner of the access pass.
    InvalidOwnerForCreateNft,
    /// The access pass has already been redeemed for a credential.
    NftAlreadyMintedToPaperAccessPass,
    /// The credential is not to be issued under the expected token program.
    InvalidTokenProgram,
    /// The amount asked for, or the escrow balance, is under the floor.
    WithdrawalBelowMinimumThreshold,
    /// The escrow holds less than the amount asked for.
    InsufficientBalanceForWithdraw,
    /// An amount does not fit in 64 bits.
    ArithmeticOverflow,
    /// A transfer was asked of an account that holds less than the amount.
    InsufficientFunds,
    /// A record was to be created at an address that already holds one.
    AccountAlreadyInUse,
    /// A record was expected at an address that holds none.
    AccountNotInitialized,
    /// An account is not the one that the records of the operation name.
    ConstraintSeeds,
    /// The caller is not the authority that the platform records.
    ConstraintRaw,
    /// No address can be derived from the seeds of the operation.
    InvalidSeeds,
}

impl DeSerHubError {
    /// What `message` says of each reason.
    pub open spec fn message_text(&self) -> Seq<char> {
        match self {
            DeSerHubError::InvalidNameLength => "Invalid name length"@,
            DeSerHubError::InvalidListingFee => "Invalid listing fee"@,
            DeSerHubError::EmptyTitle => "Title is empty"@,
            DeSerHubError::EmptyDescription => "Description is empty"@,
            DeSerHubError::EmptyUri => "Uri is empty"@,
            DeSerHubError::EmptyName => "Name is empty"@,
            DeSerHubError::EmptySymbol => "Symbol is empty"@,
            DeSerHubError::InvalidPrice => "Invalid price"@,
            DeSerHubError::TitleTooLong => "Title is too long"@,
            DeSerHubError::DescriptionTooLong => "Description is too long"@,
            DeSerHubError::UriTooLongOrNull => "Uri is too long or null"@,
            DeSerHubError::InsufficientBalanceForListing => "Insufficient balance for listing"@,
            DeSerHubError::PayPassInvalidResearcher => "The provided researcher is not the author of the paper"@,
            DeSerHubError::InvalidOwnerForCreateNft => "Signer is not the owner of the paper access pass"@,
            DeSerHubError::NftAlreadyMintedToPaperAccessPass => "Paper access pass already has a minted NFT"@,
            DeSerHubError::InvalidTokenProgram => "Invalid token program"@,
            DeSerHubError::WithdrawalBelowMinimumThreshold => "Withdrawal is below the minimum threshold"@,
            DeSerHubError::InsufficientBalanceForWithdraw => "Insufficient balance for withdraw"@,
            DeSerHubError::ArithmeticOverflow => "The arithmetic operation resulted in an overflow."@,
            DeSerHubError::InsufficientFunds => "Insufficient funds for the transfer"@,
            DeSerHubError::AccountAlreadyInUse => "The account is already in use"@,
            DeSerHubError::AccountNotInitialized => "The account is not initialized"@,
            DeSerHubError::ConstraintSeeds => "A seeds constraint was violated"@,
            DeSerHubError::ConstraintRaw => "A raw constraint was violated"@,
            DeSerHubError::InvalidSeeds => "The seeds derive no address"@,
        }
    }

    /// The reason in words, for people.
    pub fn message(&self) -> (text: String)
        ensures
            text@ == self.message_text(),
    {
        match self {
            DeSerHubError::InvalidNameLength => "Invalid name length".to_owned(),
            DeSerHubError::InvalidListingFee => "Invalid listing fee".to_owned(),
            DeSerHubError::EmptyTitle => "Title is empty".to_owned(),
            DeSerHubError::EmptyDescription => "Description is empty".to_owned(),
            DeSerHubError::EmptyUri => "Uri is empty".to_owned(),
            DeSerHubError::EmptyName => "Name is empty".to_owned(),
            DeSerHubError::EmptySymbol => "Symbol is empty".to_owned(),
            DeSerHubError::InvalidPrice => "Invalid price".to_owned(),
            DeSerHubError::TitleTooLong => "Title is too long".to_owned(),
            DeSerHubError::DescriptionTooLong => "Description is too long".to_owned(),
            DeSerHubError::UriTooLongOrNull => "Uri is too long or null".to_owned(),
            DeSerHubError::InsufficientBalanceForListing => "Insufficient balance for listing".to_owned(),
            DeSerHubError::PayPassInvalidResearcher => "The provided researcher is not the author of the paper".to_owned(),
            DeSerHubError::InvalidOwnerForCreateNft => "Signer is not the owner of the paper access pass".to_owned(),
            DeSerHubError::NftAlreadyMintedToPaperAccessPass => "Paper access pass already has a minted NFT".to_owned(),
            DeSerHubError::InvalidTokenProgram => "Invalid token program".to_owned(),
            DeSerHubError::WithdrawalBelowMinimumThreshold => "Withdrawal is below the minimum threshold".to_owned(),
            DeSerHubError::InsufficientBalanceForWithdraw => "Insufficient balance for withdraw".to_owned(),
            DeSerHubError::ArithmeticOverflow => "The arithmetic operation resulted in an overflow.".to_owned(),
            DeSerHubError::InsufficientFunds => "Insufficient funds for the transfer".to_owned(),
            DeSerHubError::AccountAlreadyInUse => "The account is already in use".to_owned(),
            DeSerHubError::AccountNotInitialized => "The account is not initialized".to_owned(),
            DeSerHubError::ConstraintSeeds => "A seeds constraint was violated".to_owned(),
            DeSerHubError::ConstraintRaw => "A raw constraint was violated".to_owned(),
            DeSerHubError::InvalidSeeds => "The seeds derive no address".to_owned(),
        }
    }
}

} // verus!
