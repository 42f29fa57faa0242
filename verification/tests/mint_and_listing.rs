use deserhub::account::{Account, SystemAccount};
use deserhub::contexts::create_mint::{CreateMintAndListing, CreateMintAndListingBumps};
use deserhub::error::DeSerHubError;
use deserhub::ids::token_2022_id;
use deserhub::pubkey::Pubkey;
use deserhub::states::credential::{Creator, Credential, CredentialData};
use deserhub::states::listing::Listing;
use deserhub::states::platform::Platform;

fn key(tag: u8) -> Pubkey {
    Pubkey::new_from_array([tag; 32])
}

const BUMPS: CreateMintAndListingBumps = CreateMintAndListingBumps { listing: 200, metadata_account: 201 };

fn accounts(balance: u64) -> CreateMintAndListing {
    CreateMintAndListing {
        author: SystemAccount { key: key(1), lamports: balance },
        mint: Account { key: key(7), data: None },
        platform: Account {
            key: key(6),
            data: Some(Platform {
                admin: key(9),
                listing_fee_bps: 800,
                bump: 251,
                treasury_bump: 250,
                name: "DeSerHub".to_string(),
                treasury: key(3),
            }),
        },
        listing: Account { key: key(8), data: None },
        treasury: SystemAccount { key: key(3), lamports: 0 },
        token_program: token_2022_id(),
    }
}

fn list(ctx: &mut CreateMintAndListing, price: u64, open: bool) -> Result<(), DeSerHubError> {
    ctx.create_mint_and_listing(
        "ipfs://paper".to_string(),
        "Paper".to_string(),
        "PPR".to_string(),
        price,
        open,
        &BUMPS,
        1_700_000_000,
    )
}

#[test]
fn create_mint_and_listing_records_mint_and_listing() {
    let mut ctx = accounts(1_000_000);
    assert_eq!(list(&mut ctx, 1_000_000, false), Ok(()));
    assert_eq!(ctx.author.lamports, 920_000);
    assert_eq!(ctx.treasury.lamports, 80_000);
    assert_eq!(
        ctx.listing.data,
        Some(Listing {
            author: key(1),
            mint: key(7),
            price: 1_000_000,
            bump: 200,
            is_open_access: false,
            created_at: 1_700_000_000,
        })
    );
    assert_eq!(
        ctx.mint.data,
        Some(Credential {
            authority: key(6),
            decimals: 0,
            supply: 0,
            holder: None,
            pass: None,
            non_transferable: true,
            supply_locked: false,
            is_mutable: true,
            data: CredentialData {
                name: "Paper".to_string(),
                symbol: "PPR".to_string(),
                uri: "ipfs://paper".to_string(),
                seller_fee_basis_points: 0,
                creator: Some(Creator { address: key(1), verified: true, share: 100 }),
            },
        })
    );
}

#[test]
fn create_mint_and_listing_open_access_is_free_of_charge() {
    let mut ctx = accounts(0);
    assert_eq!(list(&mut ctx, 0, true), Ok(()));
    assert_eq!(ctx.author.lamports, 0);
    assert_eq!(ctx.treasury.lamports, 0);
    let listing = ctx.listing.data.unwrap();
    assert_eq!(listing.price, 0);
    assert!(listing.is_open_access);
}

#[test]
fn create_mint_and_listing_refuses_empty_texts() {
    let mut ctx = accounts(100);
    let t = || "T".to_string();
    assert_eq!(
        ctx.create_mint_and_listing(String::new(), String::new(), String::new(), 0, false, &BUMPS, 0),
        Err(DeSerHubError::EmptyName)
    );
    assert_eq!(
        ctx.create_mint_and_listing(String::new(), t(), String::new(), 0, false, &BUMPS, 0),
        Err(DeSerHubError::EmptySymbol)
    );
    assert_eq!(
        ctx.create_mint_and_listing(String::new(), t(), t(), 0, false, &BUMPS, 0),
        Err(DeSerHubError::EmptyUri)
    );
    assert_eq!(ctx.mint.data, None);
    assert_eq!(ctx.listing.data, None);
}

#[test]
fn create_mint_and_listing_refuses_a_price_that_contradicts_the_flag() {
    let mut ctx = accounts(100);
    assert_eq!(list(&mut ctx, 0, false), Err(DeSerHubError::InvalidPrice));
    assert_eq!(list(&mut ctx, 1, true), Err(DeSerHubError::InvalidPrice));
    assert_eq!(ctx.listing.data, None);
}

#[test]
fn create_mint_and_listing_refuses_another_token_program() {
    let mut ctx = accounts(1_000_000);
    ctx.token_program = key(0);
    assert_eq!(list(&mut ctx, 1_000_000, false), Err(DeSerHubError::InvalidTokenProgram));
    assert_eq!(ctx.author.lamports, 1_000_000);
    assert_eq!(ctx.mint.data, None);
    assert_eq!(ctx.listing.data, None);
}

#[test]
fn create_mint_and_listing_needs_the_fee_in_the_authors_balance() {
    let mut ctx = accounts(79_999);
    assert_eq!(list(&mut ctx, 1_000_000, false), Err(DeSerHubError::InsufficientBalanceForListing));
    assert_eq!(ctx.author.lamports, 79_999);
    assert_eq!(ctx.treasury.lamports, 0);
    assert_eq!(ctx.mint.data, None);
    assert_eq!(ctx.listing.data, None);
    let mut exact = accounts(80_000);
    assert_eq!(list(&mut exact, 1_000_000, false), Ok(()));
    assert_eq!(exact.author.lamports, 0);
}

#[test]
fn create_mint_and_listing_refuses_an_escrow_that_would_overflow() {
    let mut ctx = accounts(1_000_000);
    ctx.treasury.lamports = u64::MAX - 79_999;
    assert_eq!(list(&mut ctx, 1_000_000, false), Err(DeSerHubError::ArithmeticOverflow));
    assert_eq!(ctx.author.lamports, 1_000_000);
    assert_eq!(ctx.treasury.lamports, u64::MAX - 79_999);
    assert_eq!(ctx.mint.data, None);
    assert_eq!(ctx.listing.data, None);
}

#[test]
fn create_mint_and_listing_refuses_addresses_in_use() {
    let mut ctx = accounts(1_000_000);
    assert_eq!(list(&mut ctx, 1_000_000, false), Ok(()));
    assert_eq!(list(&mut ctx, 1_000_000, false), Err(DeSerHubError::AccountAlreadyInUse));
    ctx.mint = Account { key: key(10), data: None };
    assert_eq!(list(&mut ctx, 1_000_000, false), Err(DeSerHubError::AccountAlreadyInUse));
    assert_eq!(ctx.author.lamports, 920_000);
}

#[test]
fn create_mint_and_listing_needs_the_platform_and_its_escrow() {
    let mut ctx = accounts(1_000_000);
    ctx.platform.data = None;
    assert_eq!(list(&mut ctx, 1_000_000, false), Err(DeSerHubError::AccountNotInitialized));
    let mut other = accounts(1_000_000);
    other.treasury.key = key(4);
    assert_eq!(list(&mut other, 1_000_000, false), Err(DeSerHubError::ConstraintSeeds));
}

#[test]
fn create_mint_and_listing_refuses_a_fee_beyond_sixty_four_bits() {
    let mut ctx = accounts(u64::MAX);
    if let Some(platform) = ctx.platform.data.as_mut() {
        platform.listing_fee_bps = 10_001;
    }
    assert_eq!(list(&mut ctx, u64::MAX, false), Err(DeSerHubError::ArithmeticOverflow));
    assert_eq!(ctx.author.lamports, u64::MAX);
}
