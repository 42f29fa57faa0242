//! The operations of the marketplace, each on the accounts it touches.

pub mod create_mint;
pub mod create_paper;
pub mod initialize;
pub mod mint_nft;
pub mod pay_pass;
pub mod withdraw;
