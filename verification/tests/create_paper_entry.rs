use deserhub::account::{Account, SystemAccount};
use deserhub::contexts::create_paper::{CreatePaper, PaperCreated};
use deserhub::error::DeSerHubError;
use deserhub::pubkey::Pubkey;
use deserhub::states::paper_entry::{PaperEntry, MAX_DESCRIPTION_LEN, MAX_TITLE_LEN, MAX_URI_LEN};
use deserhub::states::platform::Platform;

fn key(tag: u8) -> Pubkey {
    Pubkey::new_from_array([tag; 32])
}

fn platform(fee_bps: u16) -> Platform {
    Platform {
        admin: key(9),
        listing_fee_bps: fee_bps,
        bump: 255,
        treasury_bump: 254,
        name: "DeSerHub".to_string(),
        treasury: key(3),
    }
}

fn accounts(balance: u64) -> CreatePaper {
    CreatePaper {
        researcher: SystemAccount { key: key(1), lamports: balance },
        paper_entry: Account { key: key(2), data: None },
        platform: Account { key: key(4), data: Some(platform(500)) },
        treasury: SystemAccount { key: key(3), lamports: 7 },
    }
}

fn list(ctx: &mut CreatePaper, open: bool, price: u64) -> Result<PaperCreated, DeSerHubError> {
    ctx.create_paper("T".to_string(), "D".to_string(), "U".to_string(), open, price, 1_700_000_000)
}

fn unchanged(ctx: &CreatePaper, balance: u64) -> bool {
    ctx.researcher == (SystemAccount { key: key(1), lamports: balance })
        && ctx.treasury == (SystemAccount { key: key(3), lamports: 7 })
        && ctx.paper_entry.data.is_none()
}

#[test]
fn create_paper_charges_the_fee_and_records_the_paper() {
    let mut ctx = accounts(10_000_000);
    let event = ctx.create_paper(
        "A title".to_string(),
        "A description".to_string(),
        "ipfs://paper".to_string(),
        false,
        1_000_000,
        1_700_000_000,
    );
    assert_eq!(
        event,
        Ok(PaperCreated {
            researcher: key(1),
            paper_entry: key(2),
            title: "A title".to_string(),
            is_open_access: false,
            price: 1_000_000,
        })
    );
    assert_eq!(ctx.researcher.lamports, 9_950_000);
    assert_eq!(ctx.treasury.lamports, 50_007);
    assert_eq!(
        ctx.paper_entry.data,
        Some(PaperEntry {
            researcher: key(1),
            title: "A title".to_string(),
            description: "A description".to_string(),
            uri: "ipfs://paper".to_string(),
            price: 1_000_000,
            is_open_access: false,
            created_at: 1_700_000_000,
        })
    );
}

#[test]
fn create_paper_open_access_is_free_of_charge() {
    let mut ctx = accounts(0);
    let event = list(&mut ctx, true, 0).unwrap();
    assert_eq!(event.price, 0);
    assert!(event.is_open_access);
    assert_eq!(ctx.researcher.lamports, 0);
    assert_eq!(ctx.treasury.lamports, 7);
    let entry = ctx.paper_entry.data.unwrap();
    assert!(entry.is_open_access);
    assert_eq!(entry.price, 0);
}

#[test]
fn create_paper_refuses_a_price_that_contradicts_the_flag() {
    let mut ctx = accounts(100);
    assert_eq!(list(&mut ctx, false, 0), Err(DeSerHubError::InvalidPrice));
    assert_eq!(list(&mut ctx, true, 1), Err(DeSerHubError::InvalidPrice));
    assert_eq!(list(&mut ctx, true, u64::MAX), Err(DeSerHubError::InvalidPrice));
    assert!(unchanged(&ctx, 100));
}

#[test]
fn create_paper_refuses_empty_texts() {
    let mut ctx = accounts(100);
    let t = || "T".to_string();
    assert_eq!(
        ctx.create_paper(String::new(), String::new(), String::new(), false, 0, 0),
        Err(DeSerHubError::EmptyTitle)
    );
    assert_eq!(
        ctx.create_paper(t(), String::new(), String::new(), false, 0, 0),
        Err(DeSerHubError::EmptyDescription)
    );
    assert_eq!(ctx.create_paper(t(), t(), String::new(), false, 0, 0), Err(DeSerHubError::EmptyUri));
    assert!(unchanged(&ctx, 100));
}

#[test]
fn create_paper_refuses_long_texts() {
    assert_eq!((MAX_TITLE_LEN, MAX_DESCRIPTION_LEN, MAX_URI_LEN), (300, 500, 66));
    let mut ctx = accounts(100);
    assert_eq!(
        ctx.create_paper("t".repeat(301), "d".repeat(501), "u".repeat(67), true, 0, 0),
        Err(DeSerHubError::TitleTooLong)
    );
    assert_eq!(
        ctx.create_paper("t".repeat(300), "d".repeat(501), "u".repeat(67), true, 0, 0),
        Err(DeSerHubError::DescriptionTooLong)
    );
    assert_eq!(
        ctx.create_paper("t".repeat(300), "d".repeat(500), "u".repeat(67), true, 0, 0),
        Err(DeSerHubError::UriTooLongOrNull)
    );
    assert!(unchanged(&ctx, 100));
    assert!(ctx.create_paper("t".repeat(300), "d".repeat(500), "u".repeat(66), true, 0, 0).is_ok());
}

#[test]
fn create_paper_checks_the_price_before_the_lengths() {
    let mut ctx = accounts(100);
    assert_eq!(
        ctx.create_paper("t".repeat(301), "d".to_string(), "u".to_string(), true, 5, 0),
        Err(DeSerHubError::InvalidPrice)
    );
}

#[test]
fn create_paper_needs_the_fee_in_the_authors_balance() {
    let mut ctx = accounts(49_999);
    assert_eq!(list(&mut ctx, false, 1_000_000), Err(DeSerHubError::InsufficientBalanceForListing));
    assert!(unchanged(&ctx, 49_999));
    let mut exact = accounts(50_000);
    assert!(list(&mut exact, false, 1_000_000).is_ok());
    assert_eq!(exact.researcher.lamports, 0);
    assert_eq!(exact.treasury.lamports, 50_007);
}

#[test]
fn create_paper_with_a_fee_that_rounds_to_zero_charges_nothing() {
    let mut ctx = accounts(0);
    assert!(list(&mut ctx, false, 19).is_ok());
    assert_eq!(ctx.researcher.lamports, 0);
    assert_eq!(ctx.treasury.lamports, 7);
    assert_eq!(ctx.paper_entry.data.unwrap().price, 19);
}

#[test]
fn create_paper_refuses_a_fee_beyond_sixty_four_bits() {
    let mut ctx = accounts(u64::MAX);
    ctx.platform.data = Some(platform(20_000));
    assert_eq!(list(&mut ctx, false, u64::MAX), Err(DeSerHubError::ArithmeticOverflow));
    assert!(unchanged(&ctx, u64::MAX));
}

#[test]
fn create_paper_refuses_an_escrow_that_would_overflow() {
    let mut ctx = accounts(1_000_000);
    ctx.treasury.lamports = u64::MAX - 49_999;
    assert_eq!(list(&mut ctx, false, 1_000_000), Err(DeSerHubError::ArithmeticOverflow));
    assert_eq!(ctx.researcher.lamports, 1_000_000);
    assert_eq!(ctx.treasury.lamports, u64::MAX - 49_999);
    assert!(ctx.paper_entry.data.is_none());
}

#[test]
fn create_paper_at_an_address_in_use_is_refused() {
    let mut ctx = accounts(10_000_000);
    assert!(list(&mut ctx, false, 1_000_000).is_ok());
    assert_eq!(list(&mut ctx, false, 2_000_000), Err(DeSerHubError::AccountAlreadyInUse));
    assert_eq!(ctx.researcher.lamports, 9_950_000);
    assert_eq!(ctx.paper_entry.data.unwrap().price, 1_000_000);
}

#[test]
fn create_paper_needs_the_platform_and_its_escrow() {
    let mut ctx = accounts(100);
    ctx.platform.data = None;
    assert_eq!(list(&mut ctx, true, 0), Err(DeSerHubError::AccountNotInitialized));
    let mut other = accounts(100);
    other.treasury.key = key(8);
    assert_eq!(list(&mut other, true, 0), Err(DeSerHubError::ConstraintSeeds));
    assert!(other.paper_entry.data.is_none());
}
