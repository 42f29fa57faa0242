//! The addresses of the programs that the marketplace deals with.

use vstd::prelude::*;
use crate::pubkey::Pubkey;

verus! {

/// The address of the marketplace program itself, under which the addresses
/// of its records are derived. In base 58 it reads
/// `J4BSb2jYCnLsxAiaEeVktKfSjbAwUiDV8X5KzFhqkR2T`.
pub open spec fn program_id() -> Pubkey {
    Pubkey {
        bytes: [
            253u8, 103, 57, 220, 141, 11, 168, 221, 148, 245, 82, 113, 231, 46, 24, 34,
            8, 1, 167, 244, 149, 15, 19, 152, 51, 108, 241, 149, 47, 243, 172, 108,
        ],
    }
}

/// The address of the token program under which credentials are issued. In
/// base 58 it reads `TokenzQdBNbLqP5VEhdkAS6EPFLC1PHnBqCXEpPxuEb`.
pub open spec fn token_2022_program_id() -> Pubkey {
    Pubkey {
        bytes: [
            6u8, 221, 246, 225, 238, 117, 143, 222, 24, 66, 93, 188, 228, 108, 205, 218,
            182, 26, 252, 77, 131, 185, 13, 39, 254, 189, 249, 40, 216, 161, 139, 252,
        ],
    }
}

/// The address of the marketplace program.
pub fn id() -> (r: Pubkey)
    ensures
        r == program_id(),
{
    Pubkey {
        bytes: [
            253u8, 103, 57, 220, 141, 11, 168, 221, 148, 245, 82, 113, 231, 46, 24, 34,
            8, 1, 167, 244, 149, 15, 19, 152, 51, 108, 241, 149, 47, 243, 172, 108,
        ],
    }
}

/// The address of the token program under which credentials are issued.
pub fn token_2022_id() -> (r: Pubkey)
    ensures
        r == token_2022_program_id(),
{
    Pubkey {
        bytes: [
            6u8, 221, 246, 225, 238, 117, 143, 222, 24, 66, 93, 188, 228, 108, 205, 218,
            182, 26, 252, 77, 131, 185, 13, 39, 254, 189, 249, 40, 216, 161, 139, 252,
        ],
    }
}

} // verus!
