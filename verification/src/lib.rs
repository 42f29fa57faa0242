//! Verified core of a paywalled paper marketplace.
//!
//! Researchers list papers for a one-time access price, or as open access.
//! Readers buy an access pass, and redeem it, once, for a credential that
//! cannot change hands. The operator of a platform sets a fee rate, collects
//! a share of every paid listing in an escrow, and withdraws from it above a
//! floor.
//!
//! The rules live in [`contexts`]: one operation per module, each a function
//! on the accounts that the operation touches, with a contract that says for
//! every input whether it is refused, with which error, and what the accounts
//! hold afterwards. [`program`] runs the same operations on a [`ledger`] that
//! holds all balances and records by address; there the contracts also say
//! that a platform, a pass and a credential exist once and no more.
//!
//! Choices that the rules leave to a deployment are fixed as follows.
//! - The fee rate is capped at 800 basis points, and a platform name takes 1
//!   to 20 bytes. Texts are measured in bytes of UTF-8.
//! - The listing fee is charged to the author when the paper is listed. A
//!   reader pays the price and nothing else.
//! - A credential issued for an access pass records no creator. A mint made
//!   together with a listing records the author as sole, verified creator.
//!
//! Identities arrive authenticated: the library compares them and never
//! checks a signature. The cost of storing a record is not accounted for.

pub mod account;
pub mod address;
pub mod contexts;
pub mod error;
pub mod fee;
pub mod ids;
pub mod ledger;
pub mod program;
pub mod pubkey;
pub mod states;
pub mod table;
pub mod text;
