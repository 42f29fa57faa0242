//! The addresses of the marketplace's records.
//!
//! A platform, its escrow and an access pass live at addresses derived from
//! the identities they belong to. The same identities always give the same
//! address, so there is one such record for them and no more.

use vstd::prelude::*;
use crate::pubkey::Pubkey;

verus! {

/// The address, with its bump seed, that the seeds derive under a program,
/// or `None` where they derive none.
pub uninterp spec fn program_address(seeds: Seq<Seq<u8>>, program_id: Seq<u8>) -> Option<
    (Seq<u8>, u8),
>;

/// A derived address and its bump seed, as plain bytes.
pub open spec fn address_bytes(found: Option<(Pubkey, u8)>) -> Option<(Seq<u8>, u8)> {
    match found {
        Some((address, bump)) => Some((address@, bump)),
        None => None,
    }
}

/// Calls `Pubkey::try_find_program_address` of `anchor_lang`, which hashes
/// the seeds, a bump seed and the program's address, and tries the bump seeds
/// from 255 down until the hash is no point of the curve. The contract claims
/// only that the outcome is a function of the seeds and the program's address.
#[verifier::external_body]
fn try_find_program_address(seeds: &Vec<Vec<u8>>, program_id: &Pubkey) -> (found: Option<
    (Pubkey, u8),
>)
    ensures
        address_bytes(found) == program_address(seeds.deep_view(), program_id@),
{
    let parts: Vec<&[u8]> = seeds.iter().map(|seed| seed.as_slice()).collect();
    let program = anchor_lang::prelude::Pubkey::new_from_array(program_id.bytes);
    anchor_lang::prelude::Pubkey::try_find_program_address(&parts, &program).map(
        |(address, bump)| (Pubkey { bytes: address.to_bytes() }, bump),
    )
}

/// The seed that marks a platform: the text `platform`.
pub open spec fn platform_tag() -> Seq<u8> {
    seq![112u8, 108, 97, 116, 102, 111, 114, 109]
}

/// The seed that marks an escrow: the text `treasury`.
pub open spec fn treasury_tag() -> Seq<u8> {
    seq![116u8, 114, 101, 97, 115, 117, 114, 121]
}

/// The seed that marks an access pass: the text `paper_access_pass`.
pub open spec fn pass_tag() -> Seq<u8> {
    seq![112u8, 97, 112, 101, 114, 95, 97, 99, 99, 101, 115, 115, 95, 112, 97, 115, 115]
}

/// The seeds of an operator's platform.
pub open spec fn platform_seeds(admin: Pubkey) -> Seq<Seq<u8>> {
    seq![platform_tag(), admin@]
}

/// The seeds of a platform's escrow.
pub open spec fn treasury_seeds(platform: Pubkey, admin: Pubkey) -> Seq<Seq<u8>> {
    seq![treasury_tag(), platform@, admin@]
}

/// The seeds of a reader's access pass for a paper.
pub open spec fn pass_seeds(owner: Pubkey, paper_entry: Pubkey) -> Seq<Seq<u8>> {
    seq![pass_tag(), owner@, paper_entry@]
}

/// The identity of the given bytes.
pub open spec fn key_of(bytes: Seq<u8>) -> Pubkey {
    choose|key: Pubkey| key@ == bytes
}

/// The address, with its bump seed, that the seeds derive under a program.
pub open spec fn derived(seeds: Seq<Seq<u8>>, program_id: Pubkey) -> Option<(Pubkey, u8)> {
    match program_address(seeds, program_id@) {
        Some((bytes, bump)) => Some((key_of(bytes), bump)),
        None => None,
    }
}

/// The address of the platform of `admin`, with its bump seed.
pub open spec fn platform_address(admin: Pubkey, program_id: Pubkey) -> Option<(Pubkey, u8)> {
    derived(platform_seeds(admin), program_id)
}

/// The address of the escrow of the platform at `platform`, which `admin`
/// operates, with its bump seed.
pub open spec fn treasury_address(platform: Pubkey, admin: Pubkey, program_id: Pubkey) -> Option<
    (Pubkey, u8),
> {
    derived(treasury_seeds(platform, admin), program_id)
}

/// The address of the access pass of `owner` for the paper at `paper_entry`,
/// with its bump seed.
pub open spec fn pass_address(owner: Pubkey, paper_entry: Pubkey, program_id: Pubkey) -> Option<
    (Pubkey, u8),
> {
    derived(pass_seeds(owner, paper_entry), program_id)
}

/// An address that was found is the address that the seeds derive.
proof fn lemma_found(found: Option<(Pubkey, u8)>, seeds: Seq<Seq<u8>>, program_id: Pubkey)
    requires
        address_bytes(found) == program_address(seeds, program_id@),
    ensures
        found == derived(seeds, program_id),
{
    if let Some((address, bump)) = found {
        let other = key_of(address@);
        assert(other@ == address@);
        Pubkey::lemma_view_injective(other, address);
    }
}

/// The bytes of an identity, as a seed.
fn key_seed(key: &Pubkey) -> (seed: Vec<u8>)
    ensures
        seed@ == key@,
{
    let mut seed: Vec<u8> = Vec::new();
    let mut i: usize = 0;
    while i < 32
        invariant
            i <= 32,
            seed@.len() == i,
            forall|j: int| 0 <= j < i ==> seed@[j] == key.bytes[j],
        decreases 32 - i,
    {
        seed.push(key.bytes[i]);
        i = i + 1;
    }
    assert(seed@ =~= key@);
    seed
}

/// Derives the address of the platform of `admin`.
pub fn find_platform_address(admin: &Pubkey, program_id: &Pubkey) -> (found: Option<(Pubkey, u8)>)
    ensures
        found == platform_address(*admin, *program_id),
{
    let tag: Vec<u8> = vec![112u8, 108, 97, 116, 102, 111, 114, 109];
    let mut seeds: Vec<Vec<u8>> = Vec::new();
    seeds.push(tag);
    seeds.push(key_seed(admin));
    assert(seeds.deep_view() =~~= platform_seeds(*admin));
    let found = try_find_program_address(&seeds, program_id);
    proof {
        lemma_found(found, platform_seeds(*admin), *program_id);
    }
    found
}

/// Derives the address of the escrow of the platform at `platform`, which
/// `admin` operates.
pub fn find_treasury_address(platform: &Pubkey, admin: &Pubkey, program_id: &Pubkey) -> (found:
    Option<(Pubkey, u8)>)
    ensures
        found == treasury_address(*platform, *admin, *program_id),
{
    let tag: Vec<u8> = vec![116u8, 114, 101, 97, 115, 117, 114, 121];
    let mut seeds: Vec<Vec<u8>> = Vec::new();
    seeds.push(tag);
    seeds.push(key_seed(platform));
    seeds.push(key_seed(admin));
    assert(seeds.deep_view() =~~= treasury_seeds(*platform, *admin));
    let found = try_find_program_address(&seeds, program_id);
    proof {
        lemma_found(found, treasury_seeds(*platform, *admin), *program_id);
    }
    found
}

/// Derives the address of the access pass of `owner` for the paper at
/// `paper_entry`.
pub fn find_pass_address(owner: &Pubkey, paper_entry: &Pubkey, program_id: &Pubkey) -> (found:
    Option<(Pubkey, u8)>)
    ensures
        found == pass_address(*owner, *paper_entry, *program_id),
{
    let tag: Vec<u8> = vec![
        112u8, 97, 112, 101, 114, 95, 97, 99, 99, 101, 115, 115, 95, 112, 97, 115, 115,
    ];
    let mut seeds: Vec<Vec<u8>> = Vec::new();
    seeds.push(tag);
    seeds.push(key_seed(owner));
    seeds.push(key_seed(paper_entry));
    assert(seeds.deep_view() =~~= pass_seeds(*owner, *paper_entry));
    let found = try_find_program_address(&seeds, program_id);
    proof {
        lemma_found(found, pass_seeds(*owner, *paper_entry), *program_id);
    }
    found
}

} // verus!
