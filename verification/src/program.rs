//! The operations of the marketplace on its ledger.
//!
//! Each operation finds the accounts it works on, applies its rules to them,
//! and writes the outcome back. An operation that is refused writes nothing.

use vstd::prelude::*;
use crate::address::{
    find_pass_address,
    find_platform_address,
    find_treasury_address,
    pass_address,
    platform_address,
    treasury_address,
};
use crate::contexts::create_paper::{CreatePaper, PaperCreated};
use crate::contexts::initialize::{Initialize, InitializeBumps, PlatformInitialized};
use crate::contexts::mint_nft::MintNft;
use crate::contexts::pay_pass::{PaperAccessPassCreated, PayPass};
use crate::contexts::withdraw::{Withdraw, MIN_WITHDRAW};
use crate::error::DeSerHubError;
use crate::ledger::{account_at, Ledger, LedgerView};
use crate::pubkey::Pubkey;

verus! {

/// The accounts that the initialization of the platform of `admin` works on.
pub open spec fn initialize_accounts(
    before: LedgerView,
    admin: Pubkey,
    platform: Pubkey,
    treasury: Pubkey,
) -> Initialize {
    Initialize {
        admin: before.system_account(admin),
        platform: account_at(before.platforms, platform),
        treasury: before.system_account(treasury),
    }
}

/// The ledger once the platform of `admin` has been initialized.
pub open spec fn initialized(
    before: LedgerView,
    admin: Pubkey,
    platform: (Pubkey, u8),
    treasury: (Pubkey, u8),
    name: String,
    listing_fee_bps: u16,
) -> LedgerView {
    LedgerView {
        platforms: before.platforms.insert(
            platform.0,
            initialize_accounts(before, admin, platform.0, treasury.0).new_platform(
                name,
                listing_fee_bps,
                InitializeBumps { platform: platform.1, treasury: treasury.1 },
            ),
        ),
        ..before
    }
}

/// What an initialization does, given the addresses of the platform and of
/// its escrow: it is refused for the reason that the rules give, and then
/// changes nothing; or it creates the platform.
pub open spec fn initialize_post(
    before: LedgerView,
    after: LedgerView,
    r: Result<PlatformInitialized, DeSerHubError>,
    admin: Pubkey,
    platform: (Pubkey, u8),
    treasury: (Pubkey, u8),
    name: String,
    listing_fee_bps: u16,
) -> bool {
    let accounts = initialize_accounts(before, admin, platform.0, treasury.0);
    match r {
        Ok(event) => {
            &&& accounts.rejection(name, listing_fee_bps) is None
            &&& after == initialized(before, admin, platform, treasury, name, listing_fee_bps)
            &&& event == (PlatformInitialized { name, listing_fee_bps })
        },
        Err(e) => {
            &&& accounts.rejection(name, listing_fee_bps) == Some(e)
            &&& after == before
        },
    }
}

/// Initializes the platform of `admin` at the address `platform`, with its
/// escrow at `treasury`: the addresses derived for `admin`.
pub fn initialize_at(
    ledger: &mut Ledger,
    admin: Pubkey,
    platform: (Pubkey, u8),
    treasury: (Pubkey, u8),
    name: String,
    listing_fee_bps: u16,
) -> (r: Result<PlatformInitialized, DeSerHubError>)
    requires
        old(ledger).valid(),
        platform_address(admin, old(ledger)@.program_id) == Some(platform),
        treasury_address(platform.0, admin, old(ledger)@.program_id) == Some(treasury),
    ensures
        final(ledger).valid(),
        old(ledger)@.extended_by(final(ledger)@),
        final(ledger)@.lamports == old(ledger)@.lamports,
        initialize_post(
            old(ledger)@,
            final(ledger)@,
            r,
            admin,
            platform,
            treasury,
            name,
            listing_fee_bps,
        ),
{
    let mut accounts = Initialize {
        admin: ledger.system_account(admin),
        platform: ledger.platform_account(platform.0),
        treasury: ledger.system_account(treasury.0),
    };
    let bumps = InitializeBumps { platform: platform.1, treasury: treasury.1 };
    match accounts.init_platform(name, listing_fee_bps, &bumps) {
        Ok(event) => {
            if let Some(created) = accounts.platform.data {
                ledger.set_platform(platform.0, created);
            }
            Ok(event)
        },
        Err(e) => Err(e),
    }
}

/// What an initialization does: it derives the addresses of the platform
/// and of its escrow from `admin` and goes on as `initialize_post` says; or
/// the seeds derive no address, and it is refused for that and changes
/// nothing.
pub open spec fn initialize_outcome(
    before: LedgerView,
    after: LedgerView,
    r: Result<PlatformInitialized, DeSerHubError>,
    admin: Pubkey,
    name: String,
    listing_fee_bps: u16,
) -> bool {
    match platform_address(admin, before.program_id) {
        Some(platform) => match treasury_address(platform.0, admin, before.program_id) {
            Some(treasury) => initialize_post(
                before,
                after,
                r,
                admin,
                platform,
                treasury,
                name,
                listing_fee_bps,
            ),
            None => r == Err::<PlatformInitialized, DeSerHubError>(DeSerHubError::InvalidSeeds)
                && after == before,
        },
        None => r == Err::<PlatformInitialized, DeSerHubError>(DeSerHubError::InvalidSeeds)
            && after == before,
    }
}

/// Initializes the platform of `admin`, with the given name and fee rate.
///
/// The platform and its escrow live at addresses derived from `admin`, so an
/// operator has one platform: a second initialization is refused.
pub fn initialize(ledger: &mut Ledger, admin: Pubkey, name: String, listing_fee_bps: u16) -> (r:
    Result<PlatformInitialized, DeSerHubError>)
    requires
        old(ledger).valid(),
    ensures
        final(ledger).valid(),
        old(ledger)@.extended_by(final(ledger)@),
        final(ledger)@.lamports == old(ledger)@.lamports,
        initialize_outcome(old(ledger)@, final(ledger)@, r, admin, name, listing_fee_bps),
{
    let program_id = ledger.program_id();
    let platform = match find_platform_address(&admin, &program_id) {
        Some(found) => found,
        None => {
            return Err(DeSerHubError::InvalidSeeds);
        },
    };
    let treasury = match find_treasury_address(&platform.0, &admin, &program_id) {
        Some(found) => found,
        None => {
            return Err(DeSerHubError::InvalidSeeds);
        },
    };
    initialize_at(ledger, admin, platform, treasury, name, listing_fee_bps)
}

/// The escrow that the platform at `platform` names. Where no platform lives
/// there, the operation is refused whatever stands in the escrow's place.
pub open spec fn treasury_of(before: LedgerView, platform: Pubkey) -> Pubkey {
    if before.platforms.contains_key(platform) {
        before.platforms[platform].treasury
    } else {
        platform
    }
}

/// The accounts that the listing of a paper works on.
pub open spec fn create_paper_accounts(
    before: LedgerView,
    researcher: Pubkey,
    paper_entry: Pubkey,
    platform: Pubkey,
) -> CreatePaper {
    CreatePaper {
        researcher: before.system_account(researcher),
        paper_entry: account_at(before.papers, paper_entry),
        platform: account_at(before.platforms, platform),
        treasury: before.system_account(treasury_of(before, platform)),
    }
}

/// The ledger once `accounts`, which have just seen a paper listed at
/// `paper_entry`, are written back.
pub open spec fn paper_listed(before: LedgerView, accounts: CreatePaper) -> LedgerView {
    LedgerView {
        lamports: before.lamports.insert(
            accounts.researcher.key,
            accounts.researcher.lamports,
        ).insert(accounts.treasury.key, accounts.treasury.lamports),
        papers: before.papers.insert(accounts.paper_entry.key, accounts.paper_entry.data.unwrap()),
        ..before
    }
}

/// Lists a paper of `researcher` at the address `paper_entry`, on the
/// platform at `platform`, at the time `created_at`.
///
/// The listing is refused for the reason that the rules give, and then
/// nothing changes; or the listing fee goes from the author to the
/// platform's escrow and the paper is recorded.
pub fn create_paper(
    ledger: &mut Ledger,
    researcher: Pubkey,
    paper_entry: Pubkey,
    platform: Pubkey,
    title: String,
    description: String,
    uri: String,
    is_open_access: bool,
    price: u64,
    created_at: i64,
) -> (r: Result<PaperCreated, DeSerHubError>)
    requires
        old(ledger).valid(),
    ensures
        final(ledger).valid(),
        old(ledger)@.extended_by(final(ledger)@),
        ({
            let accounts = create_paper_accounts(old(ledger)@, researcher, paper_entry, platform);
            match r {
                Ok(event) => {
                    &&& accounts.rejection(title, description, uri, is_open_access, price)
                        is None
                    &&& final(ledger)@ == paper_listed(
                        old(ledger)@,
                        accounts.listed(
                            title,
                            description,
                            uri,
                            is_open_access,
                            price,
                            created_at,
                        ),
                    )
                    &&& event == (PaperCreated {
                        researcher,
                        paper_entry,
                        title,
                        is_open_access,
                        price,
                    })
                },
                Err(e) => {
                    &&& accounts.rejection(title, description, uri, is_open_access, price)
                        == Some(e)
                    &&& final(ledger)@ == old(ledger)@
                },
            }
        }),
{
    let platform_account = ledger.platform_account(platform);
    let treasury = match &platform_account.data {
        Some(found) => found.treasury,
        None => platform,
    };
    let mut accounts = CreatePaper {
        researcher: ledger.system_account(researcher),
        paper_entry: ledger.paper_account(paper_entry),
        platform: platform_account,
        treasury: ledger.system_account(treasury),
    };
    match accounts.create_paper(title, description, uri, is_open_access, price, created_at) {
        Ok(event) => {
            ledger.set_balance(accounts.researcher);
            ledger.set_balance(accounts.treasury);
            if let Some(created) = accounts.paper_entry.data {
                ledger.set_paper(paper_entry, created);
            }
            Ok(event)
        },
        Err(e) => Err(e),
    }
}

/// The accounts that a purchase works on.
pub open spec fn pay_pass_accounts(
    before: LedgerView,
    owner: Pubkey,
    paper_entry: Pubkey,
    researcher: Pubkey,
    platform: Pubkey,
    pass: Pubkey,
) -> PayPass {
    PayPass {
        owner: before.system_account(owner),
        paper_entry: account_at(before.papers, paper_entry),
        paper_access_pass: account_at(before.passes, pass),
        platform: account_at(before.platforms, platform),
        researcher: before.system_account(researcher),
    }
}

/// The ledger once `accounts`, which have just seen a pass bought, are
/// written back.
pub open spec fn pass_bought(before: LedgerView, accounts: PayPass) -> LedgerView {
    LedgerView {
        lamports: before.lamports.insert(accounts.owner.key, accounts.owner.lamports).insert(
            accounts.researcher.key,
            accounts.researcher.lamports,
        ),
        passes: before.passes.insert(
            accounts.paper_access_pass.key,
            accounts.paper_access_pass.data.unwrap(),
        ),
        ..before
    }
}

/// What a purchase does, given the address of the pass: it is refused for
/// the reason that the rules give, and then changes nothing; or the price
/// goes from the reader to the author and the pass is recorded.
pub open spec fn pay_pass_post(
    before: LedgerView,
    after: LedgerView,
    r: Result<PaperAccessPassCreated, DeSerHubError>,
    owner: Pubkey,
    paper_entry: Pubkey,
    researcher: Pubkey,
    platform: Pubkey,
    pass: Pubkey,
    purchased_at: i64,
) -> bool {
    let accounts = pay_pass_accounts(before, owner, paper_entry, researcher, platform, pass);
    match r {
        Ok(event) => {
            &&& accounts.rejection() is None
            &&& after == pass_bought(before, accounts.purchased(purchased_at))
            &&& event == accounts.receipt(purchased_at)
        },
        Err(e) => {
            &&& accounts.rejection() == Some(e)
            &&& after == before
        },
    }
}

/// Buys `owner` a pass for the paper at `paper_entry`, to be recorded at
/// `pass`: the address derived for this reader and this paper.
pub fn pay_pass_at(
    ledger: &mut Ledger,
    owner: Pubkey,
    paper_entry: Pubkey,
    researcher: Pubkey,
    platform: Pubkey,
    pass: Pubkey,
    purchased_at: i64,
) -> (r: Result<PaperAccessPassCreated, DeSerHubError>)
    requires
        old(ledger).valid(),
        pass_address(owner, paper_entry, old(ledger)@.program_id) matches Some((address, _))
            && address == pass,
    ensures
        final(ledger).valid(),
        old(ledger)@.extended_by(final(ledger)@),
        pay_pass_post(
            old(ledger)@,
            final(ledger)@,
            r,
            owner,
            paper_entry,
            researcher,
            platform,
            pass,
            purchased_at,
        ),
{
    let mut accounts = PayPass {
        owner: ledger.system_account(owner),
        paper_entry: ledger.paper_account(paper_entry),
        paper_access_pass: ledger.pass_account(pass),
        platform: ledger.platform_account(platform),
        researcher: ledger.system_account(researcher),
    };
    match accounts.pay_pass(purchased_at) {
        Ok(event) => {
            ledger.set_balance(accounts.owner);
            ledger.set_balance(accounts.researcher);
            if let Some(created) = accounts.paper_access_pass.data {
                ledger.set_pass(pass, created);
            }
            Ok(event)
        },
        Err(e) => Err(e),
    }
}

/// What a purchase does: it derives the address of the pass from the reader
/// and the paper and goes on as `pay_pass_post` says; or the seeds derive no
/// address, and it is refused for that and changes nothing.
pub open spec fn pay_pass_outcome(
    before: LedgerView,
    after: LedgerView,
    r: Result<PaperAccessPassCreated, DeSerHubError>,
    owner: Pubkey,
    paper_entry: Pubkey,
    researcher: Pubkey,
    platform: Pubkey,
    purchased_at: i64,
) -> bool {
    match pass_address(owner, paper_entry, before.program_id) {
        Some((pass, _)) => pay_pass_post(
            before,
            after,
            r,
            owner,
            paper_entry,
            researcher,
            platform,
            pass,
            purchased_at,
        ),
        None => r == Err::<PaperAccessPassCreated, DeSerHubError>(DeSerHubError::InvalidSeeds)
            && after == before,
    }
}

/// Buys `owner` access to the paper at `paper_entry`, at the time
/// `purchased_at`. `researcher` is the account that the reader expects to
/// pay, and must be the paper's author.
///
/// The pass lives at the address derived from the reader and the paper, so a
/// reader has one pass for a paper: a second purchase is refused.
pub fn pay_pass(
    ledger: &mut Ledger,
    owner: Pubkey,
    paper_entry: Pubkey,
    researcher: Pubkey,
    platform: Pubkey,
    purchased_at: i64,
) -> (r: Result<PaperAccessPassCreated, DeSerHubError>)
    requires
        old(ledger).valid(),
    ensures
        final(ledger).valid(),
        old(ledger)@.extended_by(final(ledger)@),
        pay_pass_outcome(
            old(ledger)@,
            final(ledger)@,
            r,
            owner,
            paper_entry,
            researcher,
            platform,
            purchased_at,
        ),
{
    let program_id = ledger.program_id();
    match find_pass_address(&owner, &paper_entry, &program_id) {
        Some((pass, _)) => pay_pass_at(
            ledger,
            owner,
            paper_entry,
            researcher,
            platform,
            pass,
            purchased_at,
        ),
        None => Err(DeSerHubError::InvalidSeeds),
    }
}

/// The accounts that the issue of a credential works on.
pub open spec fn mint_nft_accounts(
    before: LedgerView,
    owner: Pubkey,
    mint: Pubkey,
    paper_entry: Pubkey,
    platform: Pubkey,
    pass: Pubkey,
) -> MintNft {
    MintNft {
        owner: before.system_account(owner),
        mint: account_at(before.credentials, mint),
        paper_entry: account_at(before.papers, paper_entry),
        paper_access_pass: account_at(before.passes, pass),
        platform: account_at(before.platforms, platform),
        issued: before.credential_of(pass),
    }
}

/// The ledger once `accounts`, which have just seen a credential issued, are
/// written back.
pub open spec fn credential_issued(before: LedgerView, accounts: MintNft) -> LedgerView {
    LedgerView {
        passes: before.passes.insert(
            accounts.paper_access_pass.key,
            accounts.paper_access_pass.data.unwrap(),
        ),
        credentials: before.credentials.insert(accounts.mint.key, accounts.mint.data.unwrap()),
        ..before
    }
}

/// What the issue of a credential does, given the address of the pass: it is
/// refused for the reason that the rules give, and then changes nothing; or
/// the credential is recorded and the pass names it.
pub open spec fn mint_nft_post(
    before: LedgerView,
    after: LedgerView,
    r: Result<(), DeSerHubError>,
    owner: Pubkey,
    mint: Pubkey,
    paper_entry: Pubkey,
    platform: Pubkey,
    pass: Pubkey,
    name: String,
    symbol: String,
    uri: String,
) -> bool {
    let accounts = mint_nft_accounts(before, owner, mint, paper_entry, platform, pass);
    match r {
        Ok(()) => {
            &&& accounts.rejection() is None
            &&& after == credential_issued(before, accounts.issued(name, symbol, uri))
        },
        Err(e) => {
            &&& accounts.rejection() == Some(e)
            &&& after == before
        },
    }
}

/// Writing an accepted issue back leaves the ledger in order: the pass had no
/// credential, so the new one is the only one bound to it.
proof fn lemma_issue_keeps_order(
    before: LedgerView,
    owner: Pubkey,
    mint: Pubkey,
    paper_entry: Pubkey,
    platform: Pubkey,
    pass: Pubkey,
    name: String,
    symbol: String,
    uri: String,
)
    requires
        before.inv(),
        mint_nft_accounts(before, owner, mint, paper_entry, platform, pass).rejection() is None,
    ensures
        credential_issued(
            before,
            mint_nft_accounts(before, owner, mint, paper_entry, platform, pass).issued(
                name,
                symbol,
                uri,
            ),
        ).inv(),
{
    let accounts = mint_nft_accounts(before, owner, mint, paper_entry, platform, pass);
    let after = credential_issued(before, accounts.issued(name, symbol, uri));
    assert forall|other: Pubkey| !before.binds(other, pass) by {
        if before.binds(other, pass) {
            assert(before.credential_of(pass) is Some);
        }
    }
    assert(after.credentials_sound()) by {
        assert forall|first: Pubkey, second: Pubkey|
            after.credentials.contains_key(first) && after.credentials.contains_key(second)
                && after.credentials[first].pass is Some && after.credentials[first].pass
                == after.credentials[second].pass implies first == second by {
            if first != mint && second != mint {
                assert(before.credentials.contains_key(first));
                assert(before.credentials.contains_key(second));
            } else if first != mint {
                assert(before.binds(first, pass));
            } else if second != mint {
                assert(before.binds(second, pass));
            }
        }
    }
}

/// Issues to `owner` the credential of the pass at `pass`, which must be the
/// reader's own pass for the paper at `paper_entry`. The credential is created
/// at `mint`.
pub fn mint_nft_at(
    ledger: &mut Ledger,
    owner: Pubkey,
    mint: Pubkey,
    paper_entry: Pubkey,
    platform: Pubkey,
    pass: Pubkey,
    name: String,
    symbol: String,
    uri: String,
) -> (r: Result<(), DeSerHubError>)
    requires
        old(ledger).valid(),
    ensures
        final(ledger).valid(),
        old(ledger)@.extended_by(final(ledger)@),
        final(ledger)@.lamports == old(ledger)@.lamports,
        mint_nft_post(
            old(ledger)@,
            final(ledger)@,
            r,
            owner,
            mint,
            paper_entry,
            platform,
            pass,
            name,
            symbol,
            uri,
        ),
{
    let mut accounts = MintNft {
        owner: ledger.system_account(owner),
        mint: ledger.credential_account(mint),
        paper_entry: ledger.paper_account(paper_entry),
        paper_access_pass: ledger.pass_account(pass),
        platform: ledger.platform_account(platform),
        issued: ledger.credential_of(&pass),
    };
    match accounts.mint_nft(Some(name), Some(symbol), uri) {
        Ok(()) => {
            proof {
                lemma_issue_keeps_order(
                    ledger@,
                    owner,
                    mint,
                    paper_entry,
                    platform,
                    pass,
                    name,
                    symbol,
                    uri,
                );
            }
            if let Some(redeemed) = accounts.paper_access_pass.data {
                ledger.set_pass(pass, redeemed);
            }
            if let Some(created) = accounts.mint.data {
                ledger.set_credential(mint, created);
            }
            Ok(())
        },
        Err(e) => Err(e),
    }
}

/// What the issue of a credential does: it derives the address of the pass
/// from the reader and the paper and goes on as `mint_nft_post` says; or the
/// seeds derive no address, and it is refused for that and changes nothing.
pub open spec fn mint_nft_outcome(
    before: LedgerView,
    after: LedgerView,
    r: Result<(), DeSerHubError>,
    owner: Pubkey,
    mint: Pubkey,
    paper_entry: Pubkey,
    platform: Pubkey,
    name: String,
    symbol: String,
    uri: String,
) -> bool {
    match pass_address(owner, paper_entry, before.program_id) {
        Some((pass, _)) => mint_nft_post(
            before,
            after,
            r,
            owner,
            mint,
            paper_entry,
            platform,
            pass,
            name,
            symbol,
            uri,
        ),
        None => r == Err::<(), DeSerHubError>(DeSerHubError::InvalidSeeds) && after == before,
    }
}

/// Issues to `owner` the credential of the pass bought for the paper at
/// `paper_entry`, and creates it at the address `mint`.
///
/// A pass is redeemed once: a second issue is refused, whatever address it
/// names for the credential.
pub fn mint_nft(
    ledger: &mut Ledger,
    owner: Pubkey,
    mint: Pubkey,
    paper_entry: Pubkey,
    platform: Pubkey,
    name: String,
    symbol: String,
    uri: String,
) -> (r: Result<(), DeSerHubError>)
    requires
        old(ledger).valid(),
    ensures
        final(ledger).valid(),
        old(ledger)@.extended_by(final(ledger)@),
        final(ledger)@.lamports == old(ledger)@.lamports,
        mint_nft_outcome(
            old(ledger)@,
            final(ledger)@,
            r,
            owner,
            mint,
            paper_entry,
            platform,
            name,
            symbol,
            uri,
        ),
{
    let program_id = ledger.program_id();
    match find_pass_address(&owner, &paper_entry, &program_id) {
        Some((pass, _)) => mint_nft_at(
            ledger,
            owner,
            mint,
            paper_entry,
            platform,
            pass,
            name,
            symbol,
            uri,
        ),
        None => Err(DeSerHubError::InvalidSeeds),
    }
}

/// The accounts that a withdrawal works on.
pub open spec fn withdraw_accounts(before: LedgerView, admin: Pubkey, platform: Pubkey) -> Withdraw {
    Withdraw {
        admin: before.system_account(admin),
        platform: account_at(before.platforms, platform),
        treasury: before.system_account(treasury_of(before, platform)),
    }
}

/// The ledger once `accounts`, which have just seen a withdrawal, are
/// written back.
pub open spec fn fees_withdrawn(before: LedgerView, accounts: Withdraw) -> LedgerView {
    LedgerView {
        lamports: before.lamports.insert(
            accounts.treasury.key,
            accounts.treasury.lamports,
        ).insert(accounts.admin.key, accounts.admin.lamports),
        ..before
    }
}

/// What a withdrawal does, given the address of the platform: it is refused
/// for the reason that the rules give, and then changes nothing; or the
/// amount goes from the escrow to the operator.
pub open spec fn withdraw_post(
    before: LedgerView,
    after: LedgerView,
    r: Result<(), DeSerHubError>,
    admin: Pubkey,
    platform: Pubkey,
    amount: u64,
) -> bool {
    let accounts = withdraw_accounts(before, admin, platform);
    match r {
        Ok(()) => {
            &&& accounts.rejection(amount) is None
            &&& after == fees_withdrawn(before, accounts.withdrawn(amount))
        },
        Err(e) => {
            &&& accounts.rejection(amount) == Some(e)
            &&& after == before
        },
    }
}

/// Withdraws `amount` from the escrow of the platform at `platform` to
/// `admin`, who must be its operator.
pub fn withdraw_at(ledger: &mut Ledger, admin: Pubkey, platform: Pubkey, amount: u64) -> (r: Result<
    (),
    DeSerHubError,
>)
    requires
        old(ledger).valid(),
    ensures
        final(ledger).valid(),
        old(ledger)@.extended_by(final(ledger)@),
        withdraw_post(old(ledger)@, final(ledger)@, r, admin, platform, amount),
{
    let platform_account = ledger.platform_account(platform);
    let treasury = match &platform_account.data {
        Some(found) => found.treasury,
        None => platform,
    };
    let mut accounts = Withdraw {
        admin: ledger.system_account(admin),
        platform: platform_account,
        treasury: ledger.system_account(treasury),
    };
    match accounts.withdraw(amount) {
        Ok(()) => {
            ledger.set_balance(accounts.treasury);
            ledger.set_balance(accounts.admin);
            Ok(())
        },
        Err(e) => Err(e),
    }
}

/// What a withdrawal does: it derives the address of the platform from the
/// caller and goes on as `withdraw_post` says; or the seeds derive no address,
/// and it is refused for that and changes nothing.
pub open spec fn withdraw_outcome(
    before: LedgerView,
    after: LedgerView,
    r: Result<(), DeSerHubError>,
    admin: Pubkey,
    amount: u64,
) -> bool {
    match platform_address(admin, before.program_id) {
        Some((platform, _)) => withdraw_post(before, after, r, admin, platform, amount),
        None => r == Err::<(), DeSerHubError>(DeSerHubError::InvalidSeeds) && after == before,
    }
}

/// Withdraws `amount` of the collected fees to `admin`, the operator.
///
/// The escrow pays only the operator of its platform, and the platform is
/// found at the address derived from the caller: nobody else has an escrow
/// to withdraw from.
pub fn withdraw(ledger: &mut Ledger, admin: Pubkey, amount: u64) -> (r: Result<(), DeSerHubError>)
    requires
        old(ledger).valid(),
    ensures
        final(ledger).valid(),
        old(ledger)@.extended_by(final(ledger)@),
        withdraw_outcome(old(ledger)@, final(ledger)@, r, admin, amount),
{
    let program_id = ledger.program_id();
    match find_platform_address(&admin, &program_id) {
        Some((platform, _)) => withdraw_at(ledger, admin, platform, amount),
        None => Err(DeSerHubError::InvalidSeeds),
    }
}

/// Once a reader has bought a pass for a paper, a further purchase by the
/// same reader for the same paper is refused as a duplicate, whoever is named
/// as the author and whenever it is made, and changes nothing.
pub proof fn lemma_second_purchase_refused(
    before: LedgerView,
    between: LedgerView,
    after: LedgerView,
    first: PaperAccessPassCreated,
    second: Result<PaperAccessPassCreated, DeSerHubError>,
    owner: Pubkey,
    paper_entry: Pubkey,
    pass: Pubkey,
    researchers: (Pubkey, Pubkey),
    platforms: (Pubkey, Pubkey),
    times: (i64, i64),
)
    requires
        pay_pass_post(
            before,
            between,
            Ok(first),
            owner,
            paper_entry,
            researchers.0,
            platforms.0,
            pass,
            times.0,
        ),
        pay_pass_post(
            between,
            after,
            second,
            owner,
            paper_entry,
            researchers.1,
            platforms.1,
            pass,
            times.1,
        ),
    ensures
        second == Err::<PaperAccessPassCreated, DeSerHubError>(DeSerHubError::AccountAlreadyInUse),
        after == between,
{
}

/// Once the credential of a pass has been issued, a further issue for the
/// same pass is refused as already done, whatever address, name, symbol or
/// locator it gives for the credential, and changes nothing: the one
/// credential that the pass names stays the only one.
pub proof fn lemma_second_issue_refused(
    before: LedgerView,
    between: LedgerView,
    after: LedgerView,
    second: Result<(), DeSerHubError>,
    owner: Pubkey,
    paper_entry: Pubkey,
    pass: Pubkey,
    platform: Pubkey,
    mints: (Pubkey, Pubkey),
    names: (String, String),
    symbols: (String, String),
    uris: (String, String),
)
    requires
        mint_nft_post(
            before,
            between,
            Ok(()),
            owner,
            mints.0,
            paper_entry,
            platform,
            pass,
            names.0,
            symbols.0,
            uris.0,
        ),
        mint_nft_post(
            between,
            after,
            second,
            owner,
            mints.1,
            paper_entry,
            platform,
            pass,
            names.1,
            symbols.1,
            uris.1,
        ),
    ensures
        second == Err::<(), DeSerHubError>(DeSerHubError::NftAlreadyMintedToPaperAccessPass),
        after == between,
        between.passes[pass].mint == Some(mints.0),
        between.credentials.contains_key(mints.0),
        between.credentials[mints.0].pass == Some(pass),
        between.credentials[mints.0].holder == Some(owner),
        between.credentials[mints.0].supply == 1,
{
}

/// A pass for which the ledger holds a credential is not redeemed again,
/// even where the pass does not name the credential, and whatever address is
/// given for a new one: the issue is refused and changes nothing.
pub proof fn lemma_issue_refused_where_credential_exists(
    before: LedgerView,
    after: LedgerView,
    r: Result<(), DeSerHubError>,
    owner: Pubkey,
    mint: Pubkey,
    paper_entry: Pubkey,
    platform: Pubkey,
    pass: Pubkey,
    texts: (String, String, String),
    bound: Pubkey,
)
    requires
        mint_nft_post(
            before,
            after,
            r,
            owner,
            mint,
            paper_entry,
            platform,
            pass,
            texts.0,
            texts.1,
            texts.2,
        ),
        before.binds(bound, pass),
    ensures
        r is Err,
        after == before,
{
    assert(before.credential_of(pass) is Some);
}

/// A listing costs its author the listing fee, which the platform's escrow
/// receives, and costs nobody else anything.
pub proof fn lemma_listing_charges_the_author(
    before: LedgerView,
    researcher: Pubkey,
    paper_entry: Pubkey,
    platform: Pubkey,
    title: String,
    description: String,
    uri: String,
    is_open_access: bool,
    price: u64,
    created_at: i64,
)
    requires
        create_paper_accounts(before, researcher, paper_entry, platform).rejection(
            title,
            description,
            uri,
            is_open_access,
            price,
        ) is None,
    ensures
        ({
            let accounts = create_paper_accounts(before, researcher, paper_entry, platform);
            let after = paper_listed(
                before,
                accounts.listed(title, description, uri, is_open_access, price, created_at),
            );
            let treasury = before.platforms[platform].treasury;
            let due = accounts.fee_due(price, is_open_access);
            &&& is_open_access ==> due == 0
            &&& researcher != treasury ==> after.balance(researcher) == before.balance(researcher)
                - due
            &&& researcher != treasury ==> after.balance(treasury) == before.balance(treasury)
                + due
            &&& forall|other: Pubkey|
                other != researcher ==> #[trigger] after.balance(other) >= before.balance(other)
            &&& after.papers[paper_entry].price == price
            &&& after.papers[paper_entry].is_open_access == is_open_access
        }),
{
}

/// A purchase costs the reader the paper's price, which the author receives
/// in full, and costs nobody else anything. For an open-access paper nothing
/// is paid.
pub proof fn lemma_purchase_pays_the_author(
    before: LedgerView,
    owner: Pubkey,
    paper_entry: Pubkey,
    researcher: Pubkey,
    platform: Pubkey,
    pass: Pubkey,
    purchased_at: i64,
)
    requires
        pay_pass_accounts(before, owner, paper_entry, researcher, platform, pass).rejection()
            is None,
    ensures
        ({
            let accounts = pay_pass_accounts(
                before,
                owner,
                paper_entry,
                researcher,
                platform,
                pass,
            );
            let after = pass_bought(before, accounts.purchased(purchased_at));
            let paper = before.papers[paper_entry];
            let paid = if paper.is_open_access {
                0
            } else {
                paper.price as int
            };
            &&& researcher == paper.researcher
            &&& owner != researcher ==> after.balance(owner) == before.balance(owner) - paid
            &&& owner != researcher ==> after.balance(researcher) == before.balance(researcher)
                + paid
            &&& forall|other: Pubkey|
                other != owner ==> #[trigger] after.balance(other) >= before.balance(other)
            &&& after.passes[pass].price == paper.price
            &&& after.passes[pass].owner == owner
            &&& after.passes[pass].paper_entry == paper_entry
            &&& after.passes[pass].mint is None
        }),
{
}

/// A withdrawal is made by the operator of the platform, is of no less than
/// the floor, takes the amount from the platform's escrow and from nobody
/// else, and pays it to the operator in full.
pub proof fn lemma_withdrawal_pays_the_operator(
    before: LedgerView,
    admin: Pubkey,
    platform: Pubkey,
    amount: u64,
)
    requires
        withdraw_accounts(before, admin, platform).rejection(amount) is None,
    ensures
        ({
            let accounts = withdraw_accounts(before, admin, platform);
            let after = fees_withdrawn(before, accounts.withdrawn(amount));
            let treasury = before.platforms[platform].treasury;
            &&& before.platforms[platform].admin == admin
            &&& amount >= MIN_WITHDRAW
            &&& before.balance(treasury) >= amount
            &&& admin != treasury ==> after.balance(treasury) == before.balance(treasury)
                - amount
            &&& admin != treasury ==> after.balance(admin) == before.balance(admin) + amount
            &&& forall|other: Pubkey|
                other != treasury ==> #[trigger] after.balance(other) >= before.balance(other)
        }),
{
}

/// A reader has one pass for a paper: once `pay_pass` has succeeded, a second
/// call for the same reader and paper fails as a duplicate and changes
/// nothing, whatever else it is given.
pub proof fn lemma_pay_pass_succeeds_once(
    before: LedgerView,
    between: LedgerView,
    after: LedgerView,
    first: PaperAccessPassCreated,
    second: Result<PaperAccessPassCreated, DeSerHubError>,
    owner: Pubkey,
    paper_entry: Pubkey,
    researchers: (Pubkey, Pubkey),
    platforms: (Pubkey, Pubkey),
    times: (i64, i64),
)
    requires
        pay_pass_outcome(
            before,
            between,
            Ok(first),
            owner,
            paper_entry,
            researchers.0,
            platforms.0,
            times.0,
        ),
        pay_pass_outcome(
            between,
            after,
            second,
            owner,
            paper_entry,
            researchers.1,
            platforms.1,
            times.1,
        ),
    ensures
        second == Err::<PaperAccessPassCreated, DeSerHubError>(DeSerHubError::AccountAlreadyInUse),
        after == between,
{
}

/// A pass is redeemed once: once `mint_nft` has succeeded, a second call for
/// the same reader and paper fails as already done and changes nothing,
/// whatever else it is given, and the pass goes on naming the one credential.
pub proof fn lemma_mint_nft_succeeds_once(
    before: LedgerView,
    between: LedgerView,
    after: LedgerView,
    second: Result<(), DeSerHubError>,
    owner: Pubkey,
    paper_entry: Pubkey,
    platform: Pubkey,
    mints: (Pubkey, Pubkey),
    names: (String, String),
    symbols: (String, String),
    uris: (String, String),
)
    requires
        mint_nft_outcome(
            before,
            between,
            Ok(()),
            owner,
            mints.0,
            paper_entry,
            platform,
            names.0,
            symbols.0,
            uris.0,
        ),
        mint_nft_outcome(
            between,
            after,
            second,
            owner,
            mints.1,
            paper_entry,
            platform,
            names.1,
            symbols.1,
            uris.1,
        ),
    ensures
        second == Err::<(), DeSerHubError>(DeSerHubError::NftAlreadyMintedToPaperAccessPass),
        after == between,
        between.credentials.contains_key(mints.0),
        between.credentials[mints.0].holder == Some(owner),
        between.credentials[mints.0].supply == 1,
{
}

/// An operator has one platform: once `initialize` has succeeded, a second
/// call by the same operator fails as a duplicate and changes nothing.
pub proof fn lemma_initialize_succeeds_once(
    before: LedgerView,
    between: LedgerView,
    after: LedgerView,
    first: PlatformInitialized,
    second: Result<PlatformInitialized, DeSerHubError>,
    admin: Pubkey,
    names: (String, String),
    fees: (u16, u16),
)
    requires
        initialize_outcome(before, between, Ok(first), admin, names.0, fees.0),
        initialize_outcome(between, after, second, admin, names.1, fees.1),
    ensures
        second == Err::<PlatformInitialized, DeSerHubError>(DeSerHubError::AccountAlreadyInUse),
        after == between,
{
}

} // verus!
