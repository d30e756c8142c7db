//! The delegation record: the receipt that one delegator's voter weight has been
//! added to a delegate's voter weight record.
use vstd::prelude::*;
use vstd::bytes::*;
use crate::account::{funding, spec_funding, AccountInfo, AccountState, Funding};
use crate::codec::{append_bytes, read_pubkey, read_u64, spec_pubkey_from, starts_with};
use crate::error::{DataError, DelegationError, Error};
use crate::pubkey::{find_program_address, program_address, Pubkey};
use crate::state::voter_weight_record::{
    encode_action, spec_encode_action, spec_tagged_seeds, tagged_seeds, VoterWeightAction,
};

verus! {

/// The receipt of one contribution to a delegate's voter weight record.
#[derive(Clone, Copy, Debug, PartialEq, Eq)]
pub struct Delegation {
    /// The delegate whose record received the weight.
    pub delegate: Pubkey,
    /// The weight that was contributed.
    pub voter_weight: u64,
}

/// The seed that marks the address of a delegation record.
pub open spec fn spec_delegation_tag() -> Seq<u8> {
    seq![
        118u8, 111, 116, 101, 114, 45, 119, 101, 105, 103, 104, 116, 45, 114, 101, 99, 111, 114,
        100, 45, 100, 101, 108, 101, 103, 97, 116, 105, 111, 110,
    ]
}

/// The 8 bytes that open the stored form of a delegation record.
pub open spec fn spec_delegation_discriminator() -> Seq<u8> {
    seq![237u8, 90, 140, 159, 124, 255, 243, 80]
}

impl Delegation {
    /// The stored form of the record: the discriminator, the delegate and the
    /// weight in little endian.
    pub open spec fn spec_pack(self) -> Seq<u8> {
        spec_delegation_discriminator() + self.delegate@ + spec_u64_to_le_bytes(self.voter_weight)
    }

    /// The record that account data holds, or why it holds none; bytes after the
    /// record are ignored.
    pub open spec fn spec_unpack(data: Seq<u8>) -> Result<Delegation, DataError> {
        if data.len() < 8 {
            Err(DataError::DiscriminatorNotFound)
        } else if data.subrange(0, 8) != spec_delegation_discriminator() {
            Err(DataError::DiscriminatorMismatch)
        } else if data.len() < 48 {
            Err(DataError::DidNotDeserialize)
        } else {
            Ok(
                Delegation {
                    delegate: spec_pubkey_from(data.subrange(8, 40)),
                    voter_weight: spec_u64_from_le_bytes(data.subrange(40, 48)),
                },
            )
        }
    }

    /// The stored form of the record.
    pub fn pack(&self) -> (r: Vec<u8>)
        ensures
            r@ == self.spec_pack(),
            r@.len() == 48,
    {
        let mut out: Vec<u8> = vec![237u8, 90, 140, 159, 124, 255, 243, 80];
        assert(out@ =~= spec_delegation_discriminator());
        append_bytes(&mut out, &self.delegate.to_vec());
        append_bytes(&mut out, &u64_to_le_bytes(self.voter_weight));
        proof {
            lemma_auto_spec_u64_to_from_le_bytes();
        }
        out
    }

    /// Reads a record from account data.
    pub fn unpack(data: &Vec<u8>) -> (r: Result<Delegation, DataError>)
        ensures
            r == Self::spec_unpack(data@),
    {
        let len = data.len();
        if len < 8 {
            return Err(DataError::DiscriminatorNotFound);
        }
        let discriminator: Vec<u8> = vec![237u8, 90, 140, 159, 124, 255, 243, 80];
        assert(discriminator@ =~= spec_delegation_discriminator());
        if !starts_with(data, &discriminator) {
            return Err(DataError::DiscriminatorMismatch);
        }
        if len < 48 {
            return Err(DataError::DidNotDeserialize);
        }
        Ok(Delegation { delegate: read_pubkey(data, 8), voter_weight: read_u64(data, 40) })
    }

    /// Account data that begins with the stored form of a record holds that
    /// record, and the stored form has the stored size.
    pub proof fn lemma_unpack_pack(self, tail: Seq<u8>)
        ensures
            self.spec_pack().len() == 48,
            Self::spec_unpack(self.spec_pack() + tail) == Ok::<Delegation, DataError>(self),
    {
        lemma_auto_spec_u64_to_from_le_bytes();
        let data = self.spec_pack() + tail;
        assert(data.subrange(0, 8) =~= spec_delegation_discriminator());
        assert(data.subrange(8, 40) =~= self.delegate@);
        assert(data.subrange(40, 48) =~= spec_u64_to_le_bytes(self.voter_weight));
        crate::codec::lemma_pubkey_from_view(self.delegate);
    }

    /// Data of which every byte is zero, as disposal leaves it, holds no record.
    pub proof fn lemma_unpack_zeroed(data: Seq<u8>)
        requires
            forall|i: int| 0 <= i < data.len() ==> data[i] == 0u8,
        ensures
            Self::spec_unpack(data) is Err,
    {
        if data.len() >= 8 {
            assert(data.subrange(0, 8)[0] == 0u8);
            assert(spec_delegation_discriminator()[0] == 237u8);
        }
    }

    /// The size of the stored form, discriminator included.
    pub fn size() -> (r: usize)
        ensures
            r == 48,
    {
        48
    }

    /// The seeds of a delegation record's address; the owner is the delegator.
    pub open spec fn spec_pda_seeds(
        realm: Pubkey,
        governing_token_mint: Pubkey,
        governing_token_owner: Pubkey,
        target: Pubkey,
        action: Seq<u8>,
    ) -> Seq<Seq<u8>> {
        spec_tagged_seeds(
            spec_delegation_tag(),
            realm,
            governing_token_mint,
            governing_token_owner,
            target,
            action,
        )
    }

    /// The seeds of a delegation record's address; `action` is the encoded
    /// action.
    pub fn get_pda_seeds(
        realm: &Pubkey,
        governing_token_mint: &Pubkey,
        governing_token_owner: &Pubkey,
        target: &Pubkey,
        action: &Vec<u8>,
    ) -> (r: Vec<Vec<u8>>)
        ensures
            r.deep_view() == Self::spec_pda_seeds(
                *realm,
                *governing_token_mint,
                *governing_token_owner,
                *target,
                action@,
            ),
    {
        let tag: Vec<u8> = vec![
            118u8, 111, 116, 101, 114, 45, 119, 101, 105, 103, 104, 116, 45, 114, 101, 99, 111,
            114, 100, 45, 100, 101, 108, 101, 103, 97, 116, 105, 111, 110,
        ];
        assert(tag@ =~= spec_delegation_tag());
        tagged_seeds(tag, realm, governing_token_mint, governing_token_owner, target, action)
    }

    /// The address search for a delegation record, as a mathematical value.
    pub open spec fn spec_pda_address(
        realm: Pubkey,
        governing_token_mint: Pubkey,
        governing_token_owner: Pubkey,
        target: Pubkey,
        action: Option<VoterWeightAction>,
    ) -> Option<(Seq<u8>, u8)> {
        program_address(
            Self::spec_pda_seeds(
                realm,
                governing_token_mint,
                governing_token_owner,
                target,
                spec_encode_action(action),
            ),
            crate::spec_id()@,
        )
    }

    /// The address of the delegation record of a delegator for an action on a
    /// target, for inputs whose address search succeeds.
    pub fn get_pda_address(
        realm: &Pubkey,
        governing_token_mint: &Pubkey,
        governing_token_owner: &Pubkey,
        target: &Pubkey,
        action: Option<VoterWeightAction>,
    ) -> (r: Pubkey)
        requires
            Self::spec_pda_address(
                *realm,
                *governing_token_mint,
                *governing_token_owner,
                *target,
                action,
            ) is Some,
        ensures
            Self::spec_pda_address(
                *realm,
                *governing_token_mint,
                *governing_token_owner,
                *target,
                action,
            ) matches Some(found) && found.0 == r@,
    {
        let encoded = encode_action(action);
        let seeds = Self::get_pda_seeds(
            realm,
            governing_token_mint,
            governing_token_owner,
            target,
            &encoded,
        );
        find_program_address(&seeds, &crate::id()).unwrap().0
    }

    /// The address of the delegation record of a delegator for an action on a
    /// target, or `None` where the address search finds none.
    pub fn try_get_pda_address(
        realm: &Pubkey,
        governing_token_mint: &Pubkey,
        governing_token_owner: &Pubkey,
        target: &Pubkey,
        action: Option<VoterWeightAction>,
    ) -> (r: Option<Pubkey>)
        ensures
            match Self::spec_pda_address(
                *realm,
                *governing_token_mint,
                *governing_token_owner,
                *target,
                action,
            ) {
                Some(found) => r matches Some(key) && key@ == found.0,
                None => r is None,
            },
    {
        let encoded = encode_action(action);
        let seeds = Self::get_pda_seeds(
            realm,
            governing_token_mint,
            governing_token_owner,
            target,
            &encoded,
        );
        if find_program_address(&seeds, &crate::id()).is_some() {
            Some(
                Self::get_pda_address(
                    realm,
                    governing_token_mint,
                    governing_token_owner,
                    target,
                    action,
                ),
            )
        } else {
            None
        }
    }

    /// How the account of a new delegation record that holds `lamports` is
    /// funded. `rent_minimum` is the balance the host asks for an account of the
    /// stored size.
    pub fn funding(lamports: u64, rent_minimum: u64) -> (r: Funding)
        ensures
            r == spec_funding(lamports, rent_minimum),
    {
        funding(lamports, rent_minimum)
    }

    /// The outcome of creating a delegation record: the account and the payer
    /// after a creation, or the error.
    ///
    /// The account must lie at the address that `seeds` derive, with `bump` as
    /// the bump seed of that address; it must not exist yet, which shows in its
    /// being without data and under the system program; and the payer must hold
    /// what the account lacks of the balance that a new account needs.
    pub open spec fn spec_try_create(
        account: AccountState,
        payer: AccountState,
        seeds: Seq<Seq<u8>>,
        bump: u8,
        data: Delegation,
        rent_minimum: u64,
    ) -> Result<(AccountState, AccountState), Error> {
        let funding = spec_funding(account.lamports, rent_minimum).spec_lamports();
        if program_address(seeds, crate::spec_id()@) != Some((account.key@, bump)) {
            Err(Error::Delegation(DelegationError::IncorrectDelegationAddress))
        } else if !account.data_is_empty() || account.owner != Pubkey::spec_default() {
            Err(Error::Delegation(DelegationError::VoterWeightAlreadyDelegated))
        } else if payer.lamports < funding {
            Err(Error::InsufficientFunds)
        } else {
            Ok(
                (
                    AccountState {
                        key: account.key,
                        owner: crate::spec_id(),
                        lamports: (account.lamports + funding) as u64,
                        data: data.spec_pack(),
                    },
                    AccountState {
                        key: payer.key,
                        owner: payer.owner,
                        lamports: (payer.lamports - funding) as u64,
                        data: payer.data,
                    },
                ),
            )
        }
    }

    /// Creates the delegation record `data` in the account at the address that
    /// `seeds` and `bump` derive, funded by the payer. `rent_minimum` is the
    /// balance the host asks for an account of the stored size. On an error
    /// neither account changes.
    pub fn try_create(
        account_info: &mut AccountInfo,
        payer_info: &mut AccountInfo,
        seeds: &Vec<Vec<u8>>,
        bump: u8,
        data: &Delegation,
        rent_minimum: u64,
    ) -> (r: Result<(), Error>)
        ensures
            match Self::spec_try_create(
                old(account_info)@,
                old(payer_info)@,
                seeds.deep_view(),
                bump,
                *data,
                rent_minimum,
            ) {
                Ok((account, payer)) => r is Ok && final(account_info)@ == account
                    && final(payer_info)@ == payer,
                Err(e) => r == Err::<(), Error>(e) && final(account_info)@ == old(account_info)@
                    && final(payer_info)@ == old(payer_info)@,
            },
    {
        let serialized_data = data.pack();
        let funding = Self::funding(account_info.lamports, rent_minimum).lamports();
        match find_program_address(seeds, &crate::id()) {
            Some((key, found_bump)) => {
                proof {
                    crate::pubkey::lemma_pubkey_ext(key, account_info.key);
                }
                if key != account_info.key || found_bump != bump {
                    return Err(Error::Delegation(DelegationError::IncorrectDelegationAddress));
                }
            },
            None => {
                return Err(Error::Delegation(DelegationError::IncorrectDelegationAddress));
            },
        }
        if !account_info.data_is_empty() || account_info.owner != Pubkey::default() {
            return Err(Error::Delegation(DelegationError::VoterWeightAlreadyDelegated));
        }
        if payer_info.lamports < funding {
            return Err(Error::InsufficientFunds);
        }
        payer_info.lamports = payer_info.lamports - funding;
        account_info.lamports = account_info.lamports + funding;
        account_info.owner = crate::id();
        account_info.data = serialized_data;
        Ok(())
    }
}

} // verus!
