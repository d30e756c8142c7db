//! Accounts as an instruction sees them: an address, the program that controls
//! the account, its balance and its data.
use vstd::prelude::*;
use crate::pubkey::Pubkey;

verus! {

/// The state of one account.
#[derive(Debug, PartialEq, Eq)]
pub struct AccountInfo {
    /// The address of the account.
    pub key: Pubkey,
    /// The program that controls the account.
    pub owner: Pubkey,
    /// The balance that pays for the account's storage.
    pub lamports: u64,
    /// The stored bytes; an account that does not exist has none.
    pub data: Vec<u8>,
}

/// The mathematical value of an account.
pub struct AccountState {
    pub key: Pubkey,
    pub owner: Pubkey,
    pub lamports: u64,
    pub data: Seq<u8>,
}

impl View for AccountInfo {
    type V = AccountState;

    open spec fn view(&self) -> AccountState {
        AccountState { key: self.key, owner: self.owner, lamports: self.lamports, data: self.data@ }
    }
}

impl DeepView for AccountInfo {
    type V = AccountState;

    open spec fn deep_view(&self) -> AccountState {
        self@
    }
}

impl AccountState {
    /// Whether the account holds no data, as an account that was never created
    /// or has been removed does.
    pub open spec fn data_is_empty(self) -> bool {
        self.data.len() == 0
    }

    /// What the host leaves of the account once the transaction that touched it
    /// has ended: an account without balance is removed, its address free again.
    pub open spec fn settled(self) -> AccountState {
        if self.lamports == 0 {
            AccountState {
                key: self.key,
                owner: Pubkey::spec_default(),
                lamports: 0,
                data: Seq::empty(),
            }
        } else {
            self
        }
    }
}

impl AccountInfo {
    /// Whether the account holds no data.
    pub fn data_is_empty(&self) -> (r: bool)
        ensures
            r == self@.data_is_empty(),
    {
        self.data.len() == 0
    }

    /// A copy of the account's state.
    pub fn duplicate(&self) -> (r: AccountInfo)
        ensures
            r@ == self@,
    {
        AccountInfo {
            key: self.key,
            owner: self.owner,
            lamports: self.lamports,
            data: self.data.clone(),
        }
    }

    /// Ends the transaction for this account: an account left without balance is
    /// removed by the host.
    pub fn settle(&mut self)
        ensures
            final(self)@ == old(self)@.settled(),
    {
        if self.lamports == 0 {
            self.owner = Pubkey::default();
            self.data = Vec::new();
        }
    }
}

/// The states of a list of accounts.
pub open spec fn account_states(accounts: Seq<AccountInfo>) -> Seq<AccountState> {
    Seq::new(accounts.len(), |i: int| accounts[i]@)
}

/// A copy of a list of accounts.
pub fn duplicate_accounts(accounts: &Vec<AccountInfo>) -> (r: Vec<AccountInfo>)
    ensures
        r@.len() == accounts@.len(),
        account_states(r@) == account_states(accounts@),
{
    let mut out: Vec<AccountInfo> = Vec::new();
    let mut i: usize = 0;
    while i < accounts.len()
        invariant
            i <= accounts@.len(),
            out@.len() == i,
            forall|j: int| 0 <= j < i ==> out@[j]@ == accounts@[j]@,
        decreases accounts@.len() - i,
    {
        out.push(accounts[i].duplicate());
        i += 1;
    }
    assert(account_states(out@) =~= account_states(accounts@));
    out
}

/// The accounts after the account `written` has been stored: every account at
/// its address shows its state.
pub open spec fn spec_store(accounts: Seq<AccountState>, written: AccountState) -> Seq<
    AccountState,
> {
    Seq::new(
        accounts.len(),
        |i: int|
            if accounts[i].key == written.key {
                written
            } else {
                accounts[i]
            },
    )
}

/// Stores the account `written` among `accounts`.
pub fn store(accounts: &mut Vec<AccountInfo>, written: &AccountInfo)
    ensures
        final(accounts)@.len() == old(accounts)@.len(),
        account_states(final(accounts)@) == spec_store(account_states(old(accounts)@), written@),
{
    let mut i: usize = 0;
    while i < accounts.len()
        invariant
            i <= accounts@.len(),
            accounts@.len() == old(accounts)@.len(),
            forall|j: int|
                0 <= j < i ==> accounts@[j]@ == spec_store(
                    account_states(old(accounts)@),
                    written@,
                )[j],
            forall|j: int| i <= j < accounts@.len() ==> accounts@[j]@ == old(accounts)@[j]@,
        decreases accounts@.len() - i,
    {
        if accounts[i].key == written.key {
            accounts.set(i, written.duplicate());
        }
        i += 1;
    }
    assert(account_states(accounts@) =~= spec_store(account_states(old(accounts)@), written@));
}

/// The balance a new account is created with: the minimum the host asks for
/// its size, and at least one lamport.
pub open spec fn spec_rent_exempt_lamports(rent_minimum: u64) -> u64 {
    if rent_minimum < 1 {
        1
    } else {
        rent_minimum
    }
}

/// How the host is asked to bring a new account into being.
#[derive(Clone, Copy, Debug, PartialEq, Eq, Structural)]
pub enum Funding {
    /// The account holds nothing: it is created with this balance.
    Create { lamports: u64 },
    /// The account already holds lamports, so that it cannot be created any
    /// more: it receives this balance on top, which may be none, and is then
    /// given its size and its program.
    TopUp { lamports: u64 },
}

impl Funding {
    /// What the payer hands over.
    pub open spec fn spec_lamports(&self) -> u64 {
        match *self {
            Funding::Create { lamports } => lamports,
            Funding::TopUp { lamports } => lamports,
        }
    }

    /// What the payer hands over.
    #[verifier::when_used_as_spec(spec_lamports)]
    pub fn lamports(&self) -> (r: u64)
        ensures
            r == self.spec_lamports(),
    {
        match *self {
            Funding::Create { lamports } => lamports,
            Funding::TopUp { lamports } => lamports,
        }
    }
}

/// How an account that holds `lamports` is funded: created with the balance a
/// new account needs where it holds nothing, and else topped up to that
/// balance. Anybody can send lamports to an address; the account can then still
/// be set up, though no longer created.
pub open spec fn spec_funding(lamports: u64, rent_minimum: u64) -> Funding {
    let rent = spec_rent_exempt_lamports(rent_minimum);
    if lamports > 0 {
        if rent > lamports {
            Funding::TopUp { lamports: (rent - lamports) as u64 }
        } else {
            Funding::TopUp { lamports: 0 }
        }
    } else {
        Funding::Create { lamports: rent }
    }
}

/// How a new account that holds `lamports` is funded. `rent_minimum` is the
/// balance the host asks for an account of its size.
pub fn funding(lamports: u64, rent_minimum: u64) -> (r: Funding)
    ensures
        r == spec_funding(lamports, rent_minimum),
{
    let rent_exempt_lamports: u64 = if rent_minimum < 1 {
        1
    } else {
        rent_minimum
    };
    // If the account has some lamports already it can't be created any more.
    if lamports > 0 {
        if rent_exempt_lamports > lamports {
            Funding::TopUp { lamports: rent_exempt_lamports - lamports }
        } else {
            Funding::TopUp { lamports: 0 }
        }
    } else {
        Funding::Create { lamports: rent_exempt_lamports }
    }
}

} // verus!
