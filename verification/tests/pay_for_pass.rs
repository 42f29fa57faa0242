use deserhub::account::{Account, SystemAccount};
use deserhub::contexts::pay_pass::{PaperAccessPassCreated, PayPass};
use deserhub::error::DeSerHubError;
use deserhub::pubkey::Pubkey;
use deserhub::states::paper_access_pass::PaperAccessPass;
use deserhub::states::paper_entry::PaperEntry;
use deserhub::states::platform::Platform;

fn key(tag: u8) -> Pubkey {
    Pubkey::new_from_array([tag; 32])
}

fn paper(price: u64, open: bool) -> PaperEntry {
    PaperEntry {
        researcher: key(2),
        title: "A title".to_string(),
        description: "A description".to_string(),
        uri: "ipfs://paper".to_string(),
        price,
        is_open_access: open,
        created_at: 1_700_000_000,
    }
}

fn accounts(balance: u64, price: u64, open: bool) -> PayPass {
    PayPass {
        owner: SystemAccount { key: key(1), lamports: balance },
        paper_entry: Account { key: key(4), data: Some(paper(price, open)) },
        paper_access_pass: Account { key: key(5), data: None },
        platform: Account {
            key: key(6),
            data: Some(Platform {
                admin: key(9),
                listing_fee_bps: 500,
                bump: 251,
                treasury_bump: 250,
                name: "DeSerHub".to_string(),
                treasury: key(3),
            }),
        },
        researcher: SystemAccount { key: key(2), lamports: 11 },
    }
}

#[test]
fn pay_pass_pays_the_author_and_records_the_pass() {
    let mut ctx = accounts(5_000_000, 1_000_000, false);
    let event = ctx.pay_pass(1_700_000_100);
    assert_eq!(
        event,
        Ok(PaperAccessPassCreated {
            paper_entry: key(4),
            paper_access_pass: key(5),
            owner: key(1),
            price: 1_000_000,
            purchased_at: 1_700_000_100,
        })
    );
    assert_eq!(ctx.owner.lamports, 4_000_000);
    assert_eq!(ctx.researcher.lamports, 1_000_011);
    assert_eq!(
        ctx.paper_access_pass.data,
        Some(PaperAccessPass {
            mint: None,
            paper_entry: key(4),
            owner: key(1),
            price: 1_000_000,
            bump: 251,
            purchased_at: 1_700_000_100,
        })
    );
    assert_eq!(ctx.paper_entry.data, Some(paper(1_000_000, false)));
}

#[test]
fn pay_pass_for_an_open_paper_moves_nothing() {
    let mut ctx = accounts(0, 0, true);
    let event = ctx.pay_pass(5).unwrap();
    assert_eq!(event.price, 0);
    assert_eq!(ctx.owner.lamports, 0);
    assert_eq!(ctx.researcher.lamports, 11);
    let pass = ctx.paper_access_pass.data.unwrap();
    assert_eq!(pass.price, 0);
    assert_eq!(pass.mint, None);
    assert_eq!(pass.purchased_at, 5);
}

#[test]
fn pay_pass_needs_more_than_the_price() {
    let mut ctx = accounts(1_000_000, 1_000_000, false);
    assert_eq!(ctx.pay_pass(0), Err(DeSerHubError::InsufficientBalanceForListing));
    assert_eq!(ctx.owner.lamports, 1_000_000);
    assert_eq!(ctx.researcher.lamports, 11);
    assert_eq!(ctx.paper_access_pass.data, None);
    let mut poorer = accounts(999_999, 1_000_000, false);
    assert_eq!(poorer.pay_pass(0), Err(DeSerHubError::InsufficientBalanceForListing));
    let mut enough = accounts(1_000_001, 1_000_000, false);
    assert!(enough.pay_pass(0).is_ok());
    assert_eq!(enough.owner.lamports, 1);
    assert_eq!(enough.researcher.lamports, 1_000_011);
}

#[test]
fn pay_pass_refuses_a_recipient_who_is_not_the_author() {
    let mut ctx = accounts(5_000_000, 1_000_000, false);
    ctx.researcher.key = key(7);
    assert_eq!(ctx.pay_pass(0), Err(DeSerHubError::PayPassInvalidResearcher));
    assert_eq!(ctx.owner.lamports, 5_000_000);
    assert_eq!(ctx.researcher.lamports, 11);
    assert_eq!(ctx.paper_access_pass.data, None);
}

#[test]
fn pay_pass_twice_is_refused() {
    let mut ctx = accounts(5_000_000, 1_000_000, false);
    assert!(ctx.pay_pass(1).is_ok());
    assert_eq!(ctx.pay_pass(1), Err(DeSerHubError::AccountAlreadyInUse));
    assert_eq!(ctx.owner.lamports, 4_000_000);
    assert_eq!(ctx.researcher.lamports, 1_000_011);
    assert_eq!(ctx.paper_access_pass.data.unwrap().purchased_at, 1);
}

#[test]
fn pay_pass_needs_the_paper_and_the_platform() {
    let mut ctx = accounts(5_000_000, 1_000_000, false);
    ctx.paper_entry.data = None;
    assert_eq!(ctx.pay_pass(0), Err(DeSerHubError::AccountNotInitialized));
    let mut other = accounts(5_000_000, 1_000_000, false);
    other.platform.data = None;
    assert_eq!(other.pay_pass(0), Err(DeSerHubError::AccountNotInitialized));
    assert_eq!(other.owner.lamports, 5_000_000);
    assert_eq!(other.paper_access_pass.data, None);
}

#[test]
fn pay_pass_refuses_an_author_balance_that_would_overflow() {
    let mut ctx = accounts(5_000_000, 1_000_000, false);
    ctx.researcher.lamports = u64::MAX - 999_999;
    assert_eq!(ctx.pay_pass(0), Err(DeSerHubError::ArithmeticOverflow));
    assert_eq!(ctx.owner.lamports, 5_000_000);
    assert_eq!(ctx.paper_access_pass.data, None);
}

#[test]
fn pay_pass_by_the_author_keeps_the_authors_balance() {
    let mut ctx = accounts(5_000_000, 1_000_000, false);
    ctx.owner = SystemAccount { key: key(2), lamports: 5_000_000 };
    ctx.researcher = SystemAccount { key: key(2), lamports: 5_000_000 };
    assert!(ctx.pay_pass(0).is_ok());
    assert_eq!(ctx.owner.lamports, 5_000_000);
    assert_eq!(ctx.researcher.lamports, 5_000_000);
    assert_eq!(ctx.paper_access_pass.data.unwrap().owner, key(2));
}
