//! The state of the marketplace: balances and records, by address.

use vstd::prelude::*;
use crate::account::{Account, SystemAccount};
use crate::address::{pass_address, platform_address, treasury_address};
use crate::pubkey::Pubkey;
use crate::states::credential::Credential;
use crate::states::paper_access_pass::PaperAccessPass;
use crate::states::paper_entry::PaperEntry;
use crate::states::platform::Platform;
use crate::table::Table;

verus! {

/// Everything the marketplace keeps. Operations change it one at a time, and
/// each either takes effect as a whole or leaves it as it was.
pub struct Ledger {
    program_id: Pubkey,
    lamports: Table<u64>,
    platforms: Table<Platform>,
    papers: Table<PaperEntry>,
    passes: Table<PaperAccessPass>,
    credentials: Table<Credential>,
}

/// What a ledger holds, as maps from addresses.
pub struct LedgerView {
    /// The program under which addresses are derived.
    pub program_id: Pubkey,
    /// The balance of each account that has been paid or has paid.
    pub lamports: Map<Pubkey, u64>,
    pub platforms: Map<Pubkey, Platform>,
    pub papers: Map<Pubkey, PaperEntry>,
    pub passes: Map<Pubkey, PaperAccessPass>,
    pub credentials: Map<Pubkey, Credential>,
}

/// The account at `key` as an operation sees it: the record there, or none.
pub open spec fn account_at<T>(records: Map<Pubkey, T>, key: Pubkey) -> Account<T> {
    Account { key, data: if records.contains_key(key) { Some(records[key]) } else { None } }
}

impl LedgerView {
    /// The balance at `key`: zero for an account that the ledger has never
    /// seen.
    pub open spec fn balance(&self, key: Pubkey) -> u64 {
        if self.lamports.contains_key(key) {
            self.lamports[key]
        } else {
            0
        }
    }

    /// The value-holding account at `key`.
    pub open spec fn system_account(&self, key: Pubkey) -> SystemAccount {
        SystemAccount { key, lamports: self.balance(key) }
    }

    /// Every platform is as its initialization left it, and lives, with its
    /// escrow, at the addresses derived for its operator.
    pub open spec fn platforms_sound(&self) -> bool {
        forall|at: Pubkey| #[trigger]
            self.platforms.contains_key(at) ==> {
                let platform = self.platforms[at];
                &&& platform.valid()
                &&& platform_address(platform.admin, self.program_id) == Some(
                    (at, platform.bump),
                )
                &&& treasury_address(at, platform.admin, self.program_id) == Some(
                    (platform.treasury, platform.treasury_bump),
                )
            }
    }

    /// Every paper is as its listing left it: in particular, it is open
    /// access exactly if its price is zero.
    pub open spec fn papers_sound(&self) -> bool {
        forall|at: Pubkey| #[trigger] self.papers.contains_key(at) ==> self.papers[at].valid()
    }

    /// Every access pass lives at the address derived for its reader and its
    /// paper, the paper exists, and the pass records the paper's price.
    pub open spec fn passes_sound(&self) -> bool {
        forall|at: Pubkey| #[trigger]
            self.passes.contains_key(at) ==> {
                let pass = self.passes[at];
                &&& pass_address(pass.owner, pass.paper_entry, self.program_id) matches Some(
                    (address, _),
                ) && address == at
                &&& self.papers.contains_key(pass.paper_entry)
                &&& pass.price == self.papers[pass.paper_entry].price
            }
    }

    /// A pass that has been redeemed names a credential that exists, is bound
    /// to the pass, and whose single unit the reader holds.
    pub open spec fn redeemed_sound(&self) -> bool {
        forall|at: Pubkey| #[trigger]
            self.passes.contains_key(at) ==> (self.passes[at].mint matches Some(mint) ==> {
                &&& self.credentials.contains_key(mint)
                &&& self.credentials[mint].pass == Some(at)
                &&& self.credentials[mint].holder == Some(self.passes[at].owner)
                &&& self.credentials[mint].supply == 1
            })
    }

    /// Whether the credential at `mint` is bound to the pass at `pass`.
    pub open spec fn binds(&self, mint: Pubkey, pass: Pubkey) -> bool {
        self.credentials.contains_key(mint) && self.credentials[mint].pass == Some(pass)
    }

    /// The credential that is bound to the pass at `pass`, if there is one,
    /// whether or not the pass names it.
    pub open spec fn credential_of(&self, pass: Pubkey) -> Option<Pubkey> {
        if exists|mint: Pubkey| self.binds(mint, pass) {
            Some(choose|mint: Pubkey| self.binds(mint, pass))
        } else {
            None
        }
    }

    /// At most one credential is bound to any pass.
    pub open spec fn credentials_sound(&self) -> bool {
        forall|first: Pubkey, second: Pubkey|
            #![trigger self.credentials.contains_key(first), self.credentials.contains_key(second)]
            self.credentials.contains_key(first) && self.credentials.contains_key(second)
                && self.credentials[first].pass is Some && self.credentials[first].pass
                == self.credentials[second].pass ==> first == second
    }

    /// Whether `after` keeps what this ledger records: every platform, paper
    /// and credential as it is, and every access pass as it is but for a
    /// credential that it may have come to name. Nothing is ever removed, and
    /// a pass that names a credential names it for good.
    pub open spec fn extended_by(&self, after: LedgerView) -> bool {
        &&& after.program_id == self.program_id
        &&& forall|at: Pubkey| #[trigger]
            self.platforms.contains_key(at) ==> after.platforms.contains_key(at)
                && after.platforms[at] == self.platforms[at]
        &&& forall|at: Pubkey| #[trigger]
            self.papers.contains_key(at) ==> after.papers.contains_key(at) && after.papers[at]
                == self.papers[at]
        &&& forall|at: Pubkey| #[trigger]
            self.credentials.contains_key(at) ==> after.credentials.contains_key(at)
                && after.credentials[at] == self.credentials[at]
        &&& forall|at: Pubkey| #[trigger]
            self.passes.contains_key(at) ==> after.passes.contains_key(at) && (after.passes[at]
                == self.passes[at] || (self.passes[at].mint is None && after.passes[at] == (
            PaperAccessPass { mint: after.passes[at].mint, ..self.passes[at] })))
    }

    /// What holds of the ledger between any two operations.
    pub open spec fn inv(&self) -> bool {
        &&& self.platforms_sound()
        &&& self.papers_sound()
        &&& self.passes_sound()
        &&& self.redeemed_sound()
        &&& self.credentials_sound()
    }
}

/// In a ledger that operations have left, a paper is open access exactly if
/// its price is zero.
pub proof fn lemma_open_access_is_free(ledger: LedgerView, paper_entry: Pubkey)
    requires
        ledger.inv(),
        ledger.papers.contains_key(paper_entry),
    ensures
        ledger.papers[paper_entry].is_open_access <==> ledger.papers[paper_entry].price == 0,
{
}

/// In a ledger that operations have left, a reader holds at most one access
/// pass for a paper.
pub proof fn lemma_one_pass_per_reader_and_paper(ledger: LedgerView, first: Pubkey, second: Pubkey)
    requires
        ledger.inv(),
        ledger.passes.contains_key(first),
        ledger.passes.contains_key(second),
        ledger.passes[first].owner == ledger.passes[second].owner,
        ledger.passes[first].paper_entry == ledger.passes[second].paper_entry,
    ensures
        first == second,
{
}

/// In a ledger that operations have left, at most one credential is bound
/// to an access pass; and where the pass names a credential, that is the one.
pub proof fn lemma_one_credential_per_pass(ledger: LedgerView, first: Pubkey, second: Pubkey)
    requires
        ledger.inv(),
        ledger.credentials.contains_key(first),
        ledger.credentials.contains_key(second),
        ledger.credentials[first].pass is Some,
        ledger.credentials[first].pass == ledger.credentials[second].pass,
    ensures
        first == second,
        ledger.credential_of(ledger.credentials[first].pass.unwrap()) == Some(first),
        ({
            let pass = ledger.credentials[first].pass.unwrap();
            ledger.passes.contains_key(pass) && ledger.passes[pass].mint is Some
                ==> ledger.passes[pass].mint == Some(first)
        }),
{
    let pass = ledger.credentials[first].pass.unwrap();
    assert(ledger.binds(first, pass));
    let found = choose|mint: Pubkey| ledger.binds(mint, pass);
    assert(ledger.credentials.contains_key(found));
}

impl View for Ledger {
    type V = LedgerView;

    closed spec fn view(&self) -> LedgerView {
        LedgerView {
            program_id: self.program_id,
            lamports: self.lamports@,
            platforms: self.platforms@,
            papers: self.papers@,
            passes: self.passes@,
            credentials: self.credentials@,
        }
    }
}

impl Ledger {
    /// The tables are in order.
    pub closed spec fn wf(&self) -> bool {
        &&& self.lamports.wf()
        &&& self.platforms.wf()
        &&& self.papers.wf()
        &&& self.passes.wf()
        &&& self.credentials.wf()
    }

    /// The ledger is in order and in a state that operations leave.
    pub open spec fn valid(&self) -> bool {
        self.wf() && self@.inv()
    }

    /// An empty ledger for the program at `program_id`.
    pub fn new(program_id: Pubkey) -> (r: Ledger)
        ensures
            r.valid(),
            r@ == (LedgerView {
                program_id,
                lamports: Map::empty(),
                platforms: Map::empty(),
                papers: Map::empty(),
                passes: Map::empty(),
                credentials: Map::empty(),
            }),
    {
        Ledger {
            program_id,
            lamports: Table::new(),
            platforms: Table::new(),
            papers: Table::new(),
            passes: Table::new(),
            credentials: Table::new(),
        }
    }

    /// The program under which the ledger derives addresses.
    pub fn program_id(&self) -> (r: Pubkey)
        ensures
            r == self@.program_id,
    {
        self.program_id
    }

    /// The balance at `key`.
    pub fn balance(&self, key: &Pubkey) -> (r: u64)
        requires
            self.wf(),
        ensures
            r == self@.balance(*key),
    {
        match self.lamports.get(key) {
            Some(lamports) => *lamports,
            None => 0,
        }
    }

    /// The platform at `key`, if there is one.
    pub fn platform(&self, key: &Pubkey) -> (r: Option<&Platform>)
        requires
            self.wf(),
        ensures
            match r {
                Some(platform) => self@.platforms.contains_key(*key) && *platform
                    == self@.platforms[*key],
                None => !self@.platforms.contains_key(*key),
            },
    {
        self.platforms.get(key)
    }

    /// The paper at `key`, if there is one.
    pub fn paper_entry(&self, key: &Pubkey) -> (r: Option<&PaperEntry>)
        requires
            self.wf(),
        ensures
            match r {
                Some(entry) => self@.papers.contains_key(*key) && *entry == self@.papers[*key],
                None => !self@.papers.contains_key(*key),
            },
    {
        self.papers.get(key)
    }

    /// The access pass at `key`, if there is one.
    pub fn paper_access_pass(&self, key: &Pubkey) -> (r: Option<&PaperAccessPass>)
        requires
            self.wf(),
        ensures
            match r {
                Some(pass) => self@.passes.contains_key(*key) && *pass == self@.passes[*key],
                None => !self@.passes.contains_key(*key),
            },
    {
        self.passes.get(key)
    }

    /// The credential at `key`, if there is one.
    pub fn credential(&self, key: &Pubkey) -> (r: Option<&Credential>)
        requires
            self.wf(),
        ensures
            match r {
                Some(credential) => self@.credentials.contains_key(*key) && *credential
                    == self@.credentials[*key],
                None => !self@.credentials.contains_key(*key),
            },
    {
        self.credentials.get(key)
    }

    /// The credential that is bound to the pass at `pass`, if the ledger
    /// holds one, whether or not the pass names it.
    pub fn credential_of(&self, pass: &Pubkey) -> (r: Option<Pubkey>)
        requires
            self.valid(),
        ensures
            r == self@.credential_of(*pass),
    {
        let n = self.credentials.len();
        proof {
            self.credentials.lemma_keys();
        }
        let mut i: usize = 0;
        while i < n
            invariant
                self.valid(),
                n == self.credentials.keys().len(),
                i <= n,
                forall|j: int|
                    0 <= j < i ==> !self@.binds(#[trigger] self.credentials.keys()[j], *pass),
            decreases n - i,
        {
            let (mint, credential) = self.credentials.entry_at(i);
            if let Some(bound) = credential.pass {
                if bound == *pass {
                    proof {
                        assert(self@.binds(*mint, *pass));
                        let found = choose|other: Pubkey| self@.binds(other, *pass);
                        assert(self@.credentials.contains_key(found));
                        assert(self@.credentials.contains_key(*mint));
                    }
                    return Some(*mint);
                }
            }
            i = i + 1;
        }
        proof {
            self.credentials.lemma_keys();
            assert forall|mint: Pubkey| !self@.binds(mint, *pass) by {
                if self@.credentials.contains_key(mint) {
                    assert(self.credentials.keys().contains(mint));
                    let j = choose|j: int|
                        0 <= j < self.credentials.keys().len() && self.credentials.keys()[j]
                            == mint;
                    assert(!self@.binds(self.credentials.keys()[j], *pass));
                }
            }
        }
        None
    }

    /// Pays `amount` into the account at `key` from outside the marketplace.
    /// A payment that would take the balance beyond 64 bits is refused: the
    /// answer is then `false` and nothing changes.
    pub fn deposit(&mut self, key: Pubkey, amount: u64) -> (paid: bool)
        requires
            old(self).valid(),
        ensures
            final(self).valid(),
            old(self)@.extended_by(final(self)@),
            paid == (old(self)@.balance(key) + amount <= u64::MAX),
            paid ==> final(self)@ == (LedgerView {
                lamports: old(self)@.lamports.insert(
                    key,
                    (old(self)@.balance(key) + amount) as u64,
                ),
                ..old(self)@
            }),
            !paid ==> final(self)@ == old(self)@,
    {
        let held = self.balance(&key);
        if held > u64::MAX - amount {
            return false;
        }
        self.lamports.set(key, held + amount);
        true
    }

    /// The value-holding account at `key`, for an operation to work on.
    pub(crate) fn system_account(&self, key: Pubkey) -> (r: SystemAccount)
        requires
            self.wf(),
        ensures
            r == self@.system_account(key),
    {
        SystemAccount { key, lamports: self.balance(&key) }
    }

    /// A copy of the platform account at `key`.
    pub(crate) fn platform_account(&self, key: Pubkey) -> (r: Account<Platform>)
        requires
            self.wf(),
        ensures
            r == account_at(self@.platforms, key),
    {
        let data = match self.platforms.get(&key) {
            Some(platform) => Some(platform.clone()),
            None => None,
        };
        Account { key, data }
    }

    /// A copy of the paper account at `key`.
    pub(crate) fn paper_account(&self, key: Pubkey) -> (r: Account<PaperEntry>)
        requires
            self.wf(),
        ensures
            r == account_at(self@.papers, key),
    {
        let data = match self.papers.get(&key) {
            Some(entry) => Some(entry.clone()),
            None => None,
        };
        Account { key, data }
    }

    /// A copy of the access pass account at `key`.
    pub(crate) fn pass_account(&self, key: Pubkey) -> (r: Account<PaperAccessPass>)
        requires
            self.wf(),
        ensures
            r == account_at(self@.passes, key),
    {
        let data = match self.passes.get(&key) {
            Some(pass) => Some(*pass),
            None => None,
        };
        Account { key, data }
    }

    /// A copy of the credential account at `key`.
    pub(crate) fn credential_account(&self, key: Pubkey) -> (r: Account<Credential>)
        requires
            self.wf(),
        ensures
            r == account_at(self@.credentials, key),
    {
        let data = match self.credentials.get(&key) {
            Some(credential) => Some(credential.clone()),
            None => None,
        };
        Account { key, data }
    }

    /// Records the balance of an account.
    pub(crate) fn set_balance(&mut self, account: SystemAccount)
        requires
            old(self).wf(),
        ensures
            final(self).wf(),
            final(self)@ == (LedgerView {
                lamports: old(self)@.lamports.insert(account.key, account.lamports),
                ..old(self)@
            }),
    {
        self.lamports.set(account.key, account.lamports);
    }

    /// Records a platform.
    pub(crate) fn set_platform(&mut self, key: Pubkey, platform: Platform)
        requires
            old(self).wf(),
        ensures
            final(self).wf(),
            final(self)@ == (LedgerView {
                platforms: old(self)@.platforms.insert(key, platform),
                ..old(self)@
            }),
    {
        self.platforms.set(key, platform);
    }

    /// Records a paper.
    pub(crate) fn set_paper(&mut self, key: Pubkey, entry: PaperEntry)
        requires
            old(self).wf(),
        ensures
            final(self).wf(),
            final(self)@ == (LedgerView {
                papers: old(self)@.papers.insert(key, entry),
                ..old(self)@
            }),
    {
        self.papers.set(key, entry);
    }

    /// Records an access pass.
    pub(crate) fn set_pass(&mut self, key: Pubkey, pass: PaperAccessPass)
        requires
            old(self).wf(),
        ensures
            final(self).wf(),
            final(self)@ == (LedgerView {
                passes: old(self)@.passes.insert(key, pass),
                ..old(self)@
            }),
    {
        self.passes.set(key, pass);
    }

    /// Records a credential.
    pub(crate) fn set_credential(&mut self, key: Pubkey, credential: Credential)
        requires
            old(self).wf(),
        ensures
            final(self).wf(),
            final(self)@ == (LedgerView {
                credentials: old(self)@.credentials.insert(key, credential),
                ..old(self)@
            }),
    {
        self.credentials.set(key, credential);
    }
}

} // verus!
