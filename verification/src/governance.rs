//! What the program reads from the governance program: realms, governances,
//! proposals and token owner records, and the instruction that relinquishes a
//! vote.
use vstd::prelude::*;
use crate::account::{AccountInfo, AccountState};
use crate::codec::spec_pubkey_from;
use crate::pubkey::{program_address, Pubkey};
use solana_program::account_info::AccountInfo as HostAccount;
use solana_program::pubkey::Pubkey as HostKey;
use spl_governance::instruction::relinquish_vote;
use spl_governance::state::governance::{get_governance_data, get_governance_data_for_realm};
use spl_governance::state::proposal::{
    get_proposal_data, get_proposal_data_for_governance_and_governing_mint,
};
use spl_governance::state::realm::{get_realm_data, get_realm_data_for_governing_token_mint};
use spl_governance::state::token_owner_record::get_token_owner_record_data_for_realm_and_governing_mint;

verus! {

/// What the program reads of a token owner record.
#[derive(Clone, Copy, Debug, PartialEq, Eq)]
pub struct TokenOwnerRecord {
    /// The owner of the governing tokens.
    pub governing_token_owner: Pubkey,
    /// Whom the owner has delegated the use of the tokens to, if anyone.
    pub governance_delegate: Option<Pubkey>,
}

/// The state of a proposal.
#[derive(Clone, Copy, Debug, PartialEq, Eq, Structural)]
pub enum ProposalState {
    Draft,
    SigningOff,
    Voting,
    Succeeded,
    Executing,
    Completed,
    Cancelled,
    Defeated,
    ExecutingWithErrors,
    Vetoed,
}

impl ProposalState {
    /// The state at a position among the states, if there is one.
    pub open spec fn spec_from_index(index: u8) -> Option<ProposalState> {
        match index {
            0 => Some(ProposalState::Draft),
            1 => Some(ProposalState::SigningOff),
            2 => Some(ProposalState::Voting),
            3 => Some(ProposalState::Succeeded),
            4 => Some(ProposalState::Executing),
            5 => Some(ProposalState::Completed),
            6 => Some(ProposalState::Cancelled),
            7 => Some(ProposalState::Defeated),
            8 => Some(ProposalState::ExecutingWithErrors),
            9 => Some(ProposalState::Vetoed),
            _ => None,
        }
    }

    /// The state at a position among the states, or `None` where the position
    /// names no state.
    #[verifier::when_used_as_spec(spec_from_index)]
    pub fn from_index(index: u8) -> (r: Option<ProposalState>)
        ensures
            r == ProposalState::spec_from_index(index),
    {
        match index {
            0 => Some(ProposalState::Draft),
            1 => Some(ProposalState::SigningOff),
            2 => Some(ProposalState::Voting),
            3 => Some(ProposalState::Succeeded),
            4 => Some(ProposalState::Executing),
            5 => Some(ProposalState::Completed),
            6 => Some(ProposalState::Cancelled),
            7 => Some(ProposalState::Defeated),
            8 => Some(ProposalState::ExecutingWithErrors),
            9 => Some(ProposalState::Vetoed),
            _ => None,
        }
    }

    /// Whether a proposal in this state can still be signed off: only a draft
    /// and a proposal that is being signed off can.
    pub open spec fn spec_can_sign_off(&self) -> bool {
        *self == ProposalState::Draft || *self == ProposalState::SigningOff
    }

    /// Whether a proposal in this state can still be signed off.
    #[verifier::when_used_as_spec(spec_can_sign_off)]
    pub fn can_sign_off(&self) -> (r: bool)
        ensures
            r == self.spec_can_sign_off(),
    {
        match self {
            ProposalState::Draft | ProposalState::SigningOff => true,
            _ => false,
        }
    }
}

/// The authority of the realm held in account data under `owner`, as the
/// governance program `program_id` reads it, or the program error code of the
/// refusal.
pub uninterp spec fn realm_authority(program_id: Seq<u8>, owner: Seq<u8>, data: Seq<u8>) -> Result<
    Option<Seq<u8>>,
    u64,
>;

/// Whether account data under `owner` holds a realm of the governance program
/// `program_id` that has `mint` as one of its governing token mints, or the
/// program error code of the refusal.
pub uninterp spec fn realm_for_mint(
    program_id: Seq<u8>,
    owner: Seq<u8>,
    data: Seq<u8>,
    mint: Seq<u8>,
) -> Result<(), u64>;

/// Whether account data under `owner` holds a governance of `realm`, or the
/// program error code of the refusal.
pub uninterp spec fn governance_for_realm(
    program_id: Seq<u8>,
    owner: Seq<u8>,
    data: Seq<u8>,
    realm: Seq<u8>,
) -> Result<(), u64>;

/// Whether account data under `owner` holds a governance at all, or the program
/// error code of the refusal.
pub uninterp spec fn governance_data(program_id: Seq<u8>, owner: Seq<u8>, data: Seq<u8>) -> Result<
    (),
    u64,
>;

/// Whether account data under `owner` holds a proposal of `governance` for
/// `mint`, or the program error code of the refusal.
pub uninterp spec fn proposal_for_governance_and_mint(
    program_id: Seq<u8>,
    owner: Seq<u8>,
    data: Seq<u8>,
    governance: Seq<u8>,
    mint: Seq<u8>,
) -> Result<(), u64>;

/// The position, among the proposal states, of the state of the proposal held in
/// account data under `owner`, or the program error code of the refusal.
pub uninterp spec fn proposal_state(program_id: Seq<u8>, owner: Seq<u8>, data: Seq<u8>) -> Result<
    u8,
    u64,
>;

/// The owner and the delegate of the token owner record of `realm` and `mint`
/// held in account data under `owner`, or the program error code of the refusal.
pub uninterp spec fn token_owner_record(
    program_id: Seq<u8>,
    owner: Seq<u8>,
    data: Seq<u8>,
    realm: Seq<u8>,
    mint: Seq<u8>,
) -> Result<(Seq<u8>, Option<Seq<u8>>), u64>;

/// The authority of the realm in `realm_info`, as addresses.
pub open spec fn spec_realm_authority(program_id: Pubkey, realm_info: AccountState) -> Result<
    Option<Pubkey>,
    u64,
> {
    match realm_authority(program_id@, realm_info.owner@, realm_info.data) {
        Ok(Some(authority)) => Ok(Some(spec_pubkey_from(authority))),
        Ok(None) => Ok(None),
        Err(code) => Err(code),
    }
}

/// Whether `realm_info` holds a realm that governs with `mint`.
pub open spec fn spec_realm_for_mint(
    program_id: Pubkey,
    realm_info: AccountState,
    mint: Pubkey,
) -> Result<(), u64> {
    realm_for_mint(program_id@, realm_info.owner@, realm_info.data, mint@)
}

/// Whether `governance_info` holds a governance of `realm`.
pub open spec fn spec_governance_for_realm(
    program_id: Pubkey,
    governance_info: AccountState,
    realm: Pubkey,
) -> Result<(), u64> {
    governance_for_realm(program_id@, governance_info.owner@, governance_info.data, realm@)
}

/// Whether `governance_info` holds a governance.
pub open spec fn spec_governance_data(program_id: Pubkey, governance_info: AccountState) -> Result<
    (),
    u64,
> {
    governance_data(program_id@, governance_info.owner@, governance_info.data)
}

/// Whether `proposal_info` holds a proposal of `governance` for `mint`.
pub open spec fn spec_proposal_for_governance_and_mint(
    program_id: Pubkey,
    proposal_info: AccountState,
    governance: Pubkey,
    mint: Pubkey,
) -> Result<(), u64> {
    proposal_for_governance_and_mint(
        program_id@,
        proposal_info.owner@,
        proposal_info.data,
        governance@,
        mint@,
    )
}

/// The state of the proposal in `proposal_info`; `Ok(None)` stands for a state
/// that this library does not know.
pub open spec fn spec_proposal_state(program_id: Pubkey, proposal_info: AccountState) -> Result<
    Option<ProposalState>,
    u64,
> {
    match proposal_state(program_id@, proposal_info.owner@, proposal_info.data) {
        Ok(index) => Ok(ProposalState::spec_from_index(index)),
        Err(code) => Err(code),
    }
}

/// The token owner record of `realm` and `mint` in `record_info`.
pub open spec fn spec_token_owner_record(
    program_id: Pubkey,
    record_info: AccountState,
    realm: Pubkey,
    mint: Pubkey,
) -> Result<TokenOwnerRecord, u64> {
    match token_owner_record(program_id@, record_info.owner@, record_info.data, realm@, mint@) {
        Ok((owner, delegate)) => Ok(
            TokenOwnerRecord {
                governing_token_owner: spec_pubkey_from(owner),
                governance_delegate: match delegate {
                    Some(key) => Some(spec_pubkey_from(key)),
                    None => None,
                },
            },
        ),
        Err(code) => Err(code),
    }
}

/// Calls `spl_governance::state::realm::get_realm_data`.
///
/// The call reads the owner and the data of the account and nothing else: it
/// refuses an account without data, one that `program_id` does not own and data
/// that is no realm, and otherwise yields the realm, whose authority is handed
/// on. So the outcome is `realm_authority` of those values.
#[verifier::external_body]
pub(crate) fn lookup_realm_authority(program_id: &Pubkey, realm_info: &AccountInfo) -> (r: Result<
    Option<Pubkey>,
    u64,
>)
    ensures
        match r {
            Ok(Some(authority)) => realm_authority(
                program_id@,
                realm_info.owner@,
                realm_info.data@,
            ) == Ok::<Option<Seq<u8>>, u64>(Some(authority@)),
            Ok(None) => realm_authority(program_id@, realm_info.owner@, realm_info.data@) == Ok::<
                Option<Seq<u8>>,
                u64,
            >(None),
            Err(code) => realm_authority(program_id@, realm_info.owner@, realm_info.data@)
                == Err::<Option<Seq<u8>>, u64>(code),
        },
{
    let (key, owner) = (HostKey::from(realm_info.key.bytes), HostKey::from(realm_info.owner.bytes));
    let (mut lamports, mut data) = (realm_info.lamports, realm_info.data.clone());
    let info = HostAccount::new(&key, false, false, &mut lamports, &mut data, &owner, false, 0);
    let realm = get_realm_data(&HostKey::from(program_id.bytes), &info).map_err(u64::from)?;
    Ok(realm.authority.map(|k| Pubkey { bytes: k.to_bytes() }))
}

/// Calls `spl_governance::state::realm::get_realm_data_for_governing_token_mint`.
///
/// The call reads the owner and the data of the account and compares the realm's
/// mints with `mint`; its outcome, the realm apart, is `realm_for_mint` of those
/// values.
#[verifier::external_body]
pub(crate) fn lookup_realm_for_mint(
    program_id: &Pubkey,
    realm_info: &AccountInfo,
    mint: &Pubkey,
) -> (r: Result<(), u64>)
    ensures
        r == realm_for_mint(program_id@, realm_info.owner@, realm_info.data@, mint@),
{
    let (key, owner) = (HostKey::from(realm_info.key.bytes), HostKey::from(realm_info.owner.bytes));
    let (mut lamports, mut data) = (realm_info.lamports, realm_info.data.clone());
    let info = HostAccount::new(&key, false, false, &mut lamports, &mut data, &owner, false, 0);
    get_realm_data_for_governing_token_mint(
        &HostKey::from(program_id.bytes),
        &info,
        &HostKey::from(mint.bytes),
    ).map_err(u64::from)?;
    Ok(())
}

/// Calls `spl_governance::state::governance::get_governance_data_for_realm`.
///
/// The call reads the owner and the data of the account and compares the
/// governance's realm with `realm`; its outcome is `governance_for_realm` of those
/// values.
#[verifier::external_body]
pub(crate) fn lookup_governance_for_realm(
    program_id: &Pubkey,
    governance_info: &AccountInfo,
    realm: &Pubkey,
) -> (r: Result<(), u64>)
    ensures
        r == governance_for_realm(
            program_id@,
            governance_info.owner@,
            governance_info.data@,
            realm@,
        ),
{
    let (key, owner) = (HostKey::from(governance_info.key.bytes), HostKey::from(governance_info.owner.bytes));
    let (mut lamports, mut data) = (governance_info.lamports, governance_info.data.clone());
    let info = HostAccount::new(&key, false, false, &mut lamports, &mut data, &owner, false, 0);
    get_governance_data_for_realm(
        &HostKey::from(program_id.bytes),
        &info,
        &HostKey::from(realm.bytes),
    ).map_err(u64::from)?;
    Ok(())
}

/// Calls `spl_governance::state::governance::get_governance_data`.
///
/// The call reads the owner and the data of the account; its outcome is
/// `governance_data` of those values.
#[verifier::external_body]
pub(crate) fn lookup_governance(program_id: &Pubkey, governance_info: &AccountInfo) -> (r: Result<
    (),
    u64,
>)
    ensures
        r == governance_data(program_id@, governance_info.owner@, governance_info.data@),
{
    let (key, owner) = (HostKey::from(governance_info.key.bytes), HostKey::from(governance_info.owner.bytes));
    let (mut lamports, mut data) = (governance_info.lamports, governance_info.data.clone());
    let info = HostAccount::new(&key, false, false, &mut lamports, &mut data, &owner, false, 0);
    get_governance_data(&HostKey::from(program_id.bytes), &info).map_err(u64::from)?;
    Ok(())
}

/// Calls
/// `spl_governance::state::proposal::get_proposal_data_for_governance_and_governing_mint`.
///
/// The call reads the owner and the data of the account and compares the
/// proposal's governance and mint with the given ones; its outcome, the proposal
/// apart, is `proposal_for_governance_and_mint` of those values.
#[verifier::external_body]
pub(crate) fn lookup_proposal_for_governance_and_mint(
    program_id: &Pubkey,
    proposal_info: &AccountInfo,
    governance: &Pubkey,
    mint: &Pubkey,
) -> (r: Result<(), u64>)
    ensures
        r == proposal_for_governance_and_mint(
            program_id@,
            proposal_info.owner@,
            proposal_info.data@,
            governance@,
            mint@,
        ),
{
    let (key, owner) = (HostKey::from(proposal_info.key.bytes), HostKey::from(proposal_info.owner.bytes));
    let (mut lamports, mut data) = (proposal_info.lamports, proposal_info.data.clone());
    let info = HostAccount::new(&key, false, false, &mut lamports, &mut data, &owner, false, 0);
    get_proposal_data_for_governance_and_governing_mint(
        &HostKey::from(program_id.bytes),
        &info,
        &HostKey::from(governance.bytes),
        &HostKey::from(mint.bytes),
    ).map_err(u64::from)?;
    Ok(())
}

/// Calls `spl_governance::state::proposal::get_proposal_data`.
///
/// The call reads the owner and the data of the account. Of the proposal that it
/// yields, the state is handed on as its position among the ten proposal states,
/// in the order in which `ProposalState` lists them here. The outcome is
/// `proposal_state` of the values read.
#[verifier::external_body]
pub(crate) fn lookup_proposal_state(program_id: &Pubkey, proposal_info: &AccountInfo) -> (r: Result<
    u8,
    u64,
>)
    ensures
        r == proposal_state(program_id@, proposal_info.owner@, proposal_info.data@),
{
    let (key, owner) = (HostKey::from(proposal_info.key.bytes), HostKey::from(proposal_info.owner.bytes));
    let (mut lamports, mut data) = (proposal_info.lamports, proposal_info.data.clone());
    let info = HostAccount::new(&key, false, false, &mut lamports, &mut data, &owner, false, 0);
    let proposal = get_proposal_data(&HostKey::from(program_id.bytes), &info).map_err(u64::from)?;
    Ok(proposal.state as u8)
}

/// Calls
/// `spl_governance::state::token_owner_record::get_token_owner_record_data_for_realm_and_governing_mint`.
///
/// The call reads the owner and the data of the account and compares the
/// record's realm and mint with the given ones. The owner and the delegate of the
/// record that it yields are `token_owner_record` of those values.
#[verifier::external_body]
pub(crate) fn lookup_token_owner_record(
    program_id: &Pubkey,
    record_info: &AccountInfo,
    realm: &Pubkey,
    mint: &Pubkey,
) -> (r: Result<TokenOwnerRecord, u64>)
    ensures
        match r {
            Ok(record) => token_owner_record(
                program_id@,
                record_info.owner@,
                record_info.data@,
                realm@,
                mint@,
            ) == Ok::<(Seq<u8>, Option<Seq<u8>>), u64>(
                (
                    record.governing_token_owner@,
                    match record.governance_delegate {
                        Some(delegate) => Some(delegate@),
                        None => None,
                    },
                ),
            ),
            Err(code) => token_owner_record(
                program_id@,
                record_info.owner@,
                record_info.data@,
                realm@,
                mint@,
            ) == Err::<(Seq<u8>, Option<Seq<u8>>), u64>(code),
        },
{
    let (key, owner) = (HostKey::from(record_info.key.bytes), HostKey::from(record_info.owner.bytes));
    let (mut lamports, mut data) = (record_info.lamports, record_info.data.clone());
    let info = HostAccount::new(&key, false, false, &mut lamports, &mut data, &owner, false, 0);
    let found = get_token_owner_record_data_for_realm_and_governing_mint(
        &HostKey::from(program_id.bytes),
        &info,
        &HostKey::from(realm.bytes),
        &HostKey::from(mint.bytes),
    ).map_err(u64::from)?;
    let governing_token_owner = Pubkey { bytes: found.governing_token_owner.to_bytes() };
    let governance_delegate = found.governance_delegate.map(|k| Pubkey { bytes: k.to_bytes() });
    Ok(TokenOwnerRecord { governing_token_owner, governance_delegate })
}

/// One account of an instruction: its address, and whether it signs and may be
/// written.
#[derive(Clone, Copy, Debug, PartialEq, Eq)]
pub struct AccountMeta {
    pub pubkey: Pubkey,
    pub is_signer: bool,
    pub is_writable: bool,
}

/// An instruction for another program: the program, its accounts in order, and
/// its data.
#[derive(Debug, PartialEq, Eq)]
pub struct Instruction {
    pub program_id: Pubkey,
    pub accounts: Vec<AccountMeta>,
    pub data: Vec<u8>,
}

/// The mathematical value of an instruction.
pub struct InstructionView {
    pub program_id: Pubkey,
    pub accounts: Seq<AccountMeta>,
    pub data: Seq<u8>,
}

impl View for Instruction {
    type V = InstructionView;

    open spec fn view(&self) -> InstructionView {
        InstructionView { program_id: self.program_id, accounts: self.accounts@, data: self.data@ }
    }
}

/// The seed that marks the addresses of the governance program.
pub open spec fn spec_governance_tag() -> Seq<u8> {
    seq![103u8, 111, 118, 101, 114, 110, 97, 110, 99, 101]
}

/// The seeds of the address of the record of the vote that a token owner cast
/// on a proposal.
pub open spec fn spec_vote_record_seeds(proposal: Pubkey, token_owner_record: Pubkey) -> Seq<
    Seq<u8>,
> {
    seq![spec_governance_tag(), proposal@, token_owner_record@]
}

/// The instruction by which `governance_authority` relinquishes the vote that
/// the owner of `token_owner_record` cast on `proposal`: the realm, the
/// governance, the proposal, the token owner record, the vote record at its
/// derived address, the mint, the signing authority and the beneficiary, and as
/// data the position of the instruction among those of the governance program.
pub open spec fn spec_relinquish_vote(
    program_id: Pubkey,
    realm: Pubkey,
    governance: Pubkey,
    proposal: Pubkey,
    token_owner_record: Pubkey,
    governing_token_mint: Pubkey,
    governance_authority: Pubkey,
    beneficiary: Pubkey,
) -> InstructionView {
    let vote_record = spec_pubkey_from(
        program_address(spec_vote_record_seeds(proposal, token_owner_record), program_id@).unwrap().0,
    );
    InstructionView {
        program_id,
        accounts: seq![
            AccountMeta { pubkey: realm, is_signer: false, is_writable: false },
            AccountMeta { pubkey: governance, is_signer: false, is_writable: false },
            AccountMeta { pubkey: proposal, is_signer: false, is_writable: true },
            AccountMeta { pubkey: token_owner_record, is_signer: false, is_writable: true },
            AccountMeta { pubkey: vote_record, is_signer: false, is_writable: true },
            AccountMeta { pubkey: governing_token_mint, is_signer: false, is_writable: false },
            AccountMeta { pubkey: governance_authority, is_signer: true, is_writable: false },
            AccountMeta { pubkey: beneficiary, is_signer: false, is_writable: true },
        ],
        data: seq![15u8],
    }
}

/// Calls `spl_governance::instruction::relinquish_vote` with an authority and a
/// beneficiary.
///
/// The call derives the address of the vote record from the proposal and the
/// token owner record, and panics where that address search finds none, which
/// `requires` leaves out. It lists the eight accounts in the order and with the
/// flags stated, and serialises the instruction, a variant without fields that
/// fifteen variants precede among the governance program's instructions, into
/// the one byte 15.
#[verifier::external_body]
pub(crate) fn relinquish_vote_instruction(
    program_id: &Pubkey,
    realm: &Pubkey,
    governance: &Pubkey,
    proposal: &Pubkey,
    token_owner_record: &Pubkey,
    governing_token_mint: &Pubkey,
    governance_authority: &Pubkey,
    beneficiary: &Pubkey,
) -> (r: Instruction)
    requires
        program_address(spec_vote_record_seeds(*proposal, *token_owner_record), program_id@)
            is Some,
    ensures
        r@ == spec_relinquish_vote(
            *program_id,
            *realm,
            *governance,
            *proposal,
            *token_owner_record,
            *governing_token_mint,
            *governance_authority,
            *beneficiary,
        ),
{
    let built = relinquish_vote(
        &HostKey::from(program_id.bytes),
        &HostKey::from(realm.bytes),
        &HostKey::from(governance.bytes),
        &HostKey::from(proposal.bytes),
        &HostKey::from(token_owner_record.bytes),
        &HostKey::from(governing_token_mint.bytes),
        Some(HostKey::from(governance_authority.bytes)),
        Some(HostKey::from(beneficiary.bytes)),
    );
    let accounts = built.accounts.iter().map(|m| AccountMeta { pubkey: Pubkey { bytes: m.pubkey.to_bytes() }, is_signer: m.is_signer, is_writable: m.is_writable }).collect();
    Instruction { program_id: Pubkey { bytes: built.program_id.to_bytes() }, accounts, data: built.data }
}

} // verus!
