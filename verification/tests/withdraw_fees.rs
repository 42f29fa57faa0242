use deserhub::account::{Account, SystemAccount};
use deserhub::contexts::withdraw::{Withdraw, MIN_WITHDRAW};
use deserhub::error::DeSerHubError;
use deserhub::pubkey::Pubkey;
use deserhub::states::platform::Platform;

fn key(tag: u8) -> Pubkey {
    Pubkey::new_from_array([tag; 32])
}

fn accounts(escrow: u64) -> Withdraw {
    Withdraw {
        admin: SystemAccount { key: key(9), lamports: 5 },
        platform: Account {
            key: key(6),
            data: Some(Platform {
                admin: key(9),
                listing_fee_bps: 500,
                bump: 251,
                treasury_bump: 250,
                name: "DeSerHub".to_string(),
                treasury: key(3),
            }),
        },
        treasury: SystemAccount { key: key(3), lamports: escrow },
    }
}

#[test]
fn withdraw_pays_exactly_the_amount() {
    assert_eq!(MIN_WITHDRAW, 50_000_000_000);
    let mut ctx = accounts(120_000_000_000);
    assert_eq!(ctx.withdraw(50_000_000_000), Ok(()));
    assert_eq!(ctx.treasury.lamports, 70_000_000_000);
    assert_eq!(ctx.admin.lamports, 50_000_000_005);
    assert_eq!(ctx.withdraw(70_000_000_000), Ok(()));
    assert_eq!(ctx.treasury.lamports, 0);
    assert_eq!(ctx.admin.lamports, 120_000_000_005);
}

#[test]
fn withdraw_under_the_floor_is_refused_whatever_the_escrow_holds() {
    let mut ctx = accounts(u64::MAX);
    assert_eq!(ctx.withdraw(49_999_999_999), Err(DeSerHubError::WithdrawalBelowMinimumThreshold));
    assert_eq!(ctx.withdraw(0), Err(DeSerHubError::WithdrawalBelowMinimumThreshold));
    assert_eq!(ctx.withdraw(1), Err(DeSerHubError::WithdrawalBelowMinimumThreshold));
    assert_eq!(ctx.treasury.lamports, u64::MAX);
    assert_eq!(ctx.admin.lamports, 5);
}

#[test]
fn withdraw_from_an_escrow_under_the_floor_is_refused() {
    let mut ctx = accounts(49_999_999_999);
    assert_eq!(ctx.withdraw(50_000_000_000), Err(DeSerHubError::WithdrawalBelowMinimumThreshold));
    assert_eq!(ctx.withdraw(49_999_999_999), Err(DeSerHubError::WithdrawalBelowMinimumThreshold));
    assert_eq!(ctx.treasury.lamports, 49_999_999_999);
}

#[test]
fn withdraw_of_more_than_the_escrow_holds_is_refused() {
    let mut ctx = accounts(60_000_000_000);
    assert_eq!(ctx.withdraw(60_000_000_001), Err(DeSerHubError::InsufficientBalanceForWithdraw));
    assert_eq!(ctx.withdraw(u64::MAX), Err(DeSerHubError::InsufficientBalanceForWithdraw));
    assert_eq!(ctx.treasury.lamports, 60_000_000_000);
    assert_eq!(ctx.admin.lamports, 5);
    assert_eq!(ctx.withdraw(60_000_000_000), Ok(()));
}

#[test]
fn withdraw_by_another_than_the_operator_is_refused() {
    let mut ctx = accounts(120_000_000_000);
    ctx.admin.key = key(1);
    assert_eq!(ctx.withdraw(50_000_000_000), Err(DeSerHubError::ConstraintRaw));
    assert_eq!(ctx.treasury.lamports, 120_000_000_000);
    assert_eq!(ctx.admin.lamports, 5);
}

#[test]
fn withdraw_from_another_escrow_is_refused() {
    let mut ctx = accounts(120_000_000_000);
    ctx.treasury.key = key(4);
    assert_eq!(ctx.withdraw(50_000_000_000), Err(DeSerHubError::ConstraintSeeds));
    assert_eq!(ctx.treasury.lamports, 120_000_000_000);
}

#[test]
fn withdraw_without_a_platform_is_refused() {
    let mut ctx = accounts(120_000_000_000);
    ctx.platform.data = None;
    assert_eq!(ctx.withdraw(50_000_000_000), Err(DeSerHubError::AccountNotInitialized));
}

#[test]
fn withdraw_refuses_an_operator_balance_that_would_overflow() {
    let mut ctx = accounts(120_000_000_000);
    ctx.admin.lamports = u64::MAX - 49_999_999_999;
    assert_eq!(ctx.withdraw(50_000_000_000), Err(DeSerHubError::ArithmeticOverflow));
    assert_eq!(ctx.treasury.lamports, 120_000_000_000);
    assert_eq!(ctx.admin.lamports, u64::MAX - 49_999_999_999);
}
