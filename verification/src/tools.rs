//! Disposal of accounts.
use vstd::prelude::*;
use crate::account::{AccountInfo, AccountState};

verus! {

/// An account after its disposal: without balance, every byte of its data zero.
pub open spec fn spec_disposed(account: AccountState) -> AccountState {
    AccountState {
        key: account.key,
        owner: account.owner,
        lamports: 0,
        data: Seq::new(account.data.len(), |i: int| 0u8),
    }
}

/// A beneficiary after it has received `lamports`.
pub open spec fn spec_credited(beneficiary: AccountState, lamports: u64) -> AccountState {
    AccountState {
        key: beneficiary.key,
        owner: beneficiary.owner,
        lamports: (beneficiary.lamports + lamports) as u64,
        data: beneficiary.data,
    }
}

/// Disposes account by transferring its lamports to the beneficiary account and
/// zeros its data. Once the transaction has ended the host removes the account,
/// which has no lamports left.
pub fn dispose_account(account_info: &mut AccountInfo, beneficiary_info: &mut AccountInfo)
    requires
        old(beneficiary_info).lamports + old(account_info).lamports <= u64::MAX,
    ensures
        final(account_info)@ == spec_disposed(old(account_info)@),
        final(beneficiary_info)@ == spec_credited(old(beneficiary_info)@, old(account_info).lamports),
{
    let account_lamports = account_info.lamports;
    account_info.lamports = 0;
    beneficiary_info.lamports = beneficiary_info.lamports + account_lamports;
    let len = account_info.data.len();
    let mut i: usize = 0;
    while i < len
        invariant
            i <= len == account_info.data@.len(),
            account_info.data@.len() == old(account_info).data@.len(),
            account_info.key == old(account_info).key,
            account_info.owner == old(account_info).owner,
            account_info.lamports == 0,
            forall|j: int| 0 <= j < i ==> account_info.data@[j] == 0u8,
        decreases len - i,
    {
        account_info.data.set(i, 0);
        i += 1;
    }
    assert(account_info.data@ =~= Seq::new(old(account_info).data@.len(), |i: int| 0u8));
}

} // verus!
