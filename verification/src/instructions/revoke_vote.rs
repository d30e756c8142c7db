//! Revocation: takes one delegator's contribution out of a delegate's voter
//! weight record once the record has expired, asks the governance program to
//! undo a vote that was cast with it, and disposes of the delegation record.
use vstd::prelude::*;
use crate::account::{AccountInfo, AccountState};
use crate::error::{DelegationError, Error};
use crate::governance::{
    governance_for_realm, lookup_governance_for_realm,
    lookup_proposal_for_governance_and_mint, lookup_realm_for_mint, lookup_token_owner_record,
    proposal_for_governance_and_mint, realm_for_mint, relinquish_vote_instruction,
    spec_relinquish_vote, spec_vote_record_seeds, token_owner_record, AccountMeta, Instruction,
    InstructionView,
};
use crate::pubkey::{find_program_address, program_address, Pubkey};
use crate::state::delegation::Delegation;
use crate::state::voter_weight_record::{VoterWeightAction, VoterWeightRecord};
use crate::governance::TokenOwnerRecord;
use crate::instructions::update_voter_weight_record::{
    lemma_aggregation_effect, spec_aggregate_delegator, spec_delegator_overflows, UpdateState,
    APPROX_SLOTS_PER_MINUTE,
};
use crate::tools::{dispose_account, spec_credited, spec_disposed};

verus! {

/// The accounts of a revocation. Each field is the state of an account of its
/// own.
#[derive(Debug)]
pub struct RevokeVote {
    /// Receives the balance of the one-time revocation record.
    pub payer: AccountInfo,
    /// The account of the one-time record that is evidence of the revocation.
    /// It is needed only where a vote is undone, and is disposed of then.
    pub revoke_weight_record: AccountInfo,
    /// The delegate whose record is debited.
    pub delegate: Pubkey,
    /// The account of the delegator's delegation record.
    pub delegation_record: AccountInfo,
    /// The delegate's voter weight record.
    pub delegated_voter_weight_record: VoterWeightRecord,
    /// The governance program the realm belongs to.
    pub governance_program_id: Pubkey,
    /// The account of the record of the vote that the delegate cast, if any.
    pub vote_record_info: AccountInfo,
    /// The account of the realm.
    pub realm_info: AccountInfo,
    /// The account of the governance of the proposal.
    pub governance_info: AccountInfo,
    /// The account of the proposal.
    pub proposal_info: AccountInfo,
    /// The account of the delegate's token owner record.
    pub delegate_token_owner_record_info: AccountInfo,
    /// Either the realm community mint or the council mint.
    pub realm_governing_token_mint: Pubkey,
    /// The delegator, who revokes, and receives the balance of the delegation
    /// record.
    pub governing_token_owner: AccountInfo,
}

/// The mathematical value of the accounts of a revocation.
pub struct RevokeState {
    pub payer: AccountState,
    pub revoke_weight_record: AccountState,
    pub delegate: Pubkey,
    pub delegation_record: AccountState,
    pub delegated_voter_weight_record: VoterWeightRecord,
    pub governance_program_id: Pubkey,
    pub vote_record_info: AccountState,
    pub realm_info: AccountState,
    pub governance_info: AccountState,
    pub proposal_info: AccountState,
    pub delegate_token_owner_record_info: AccountState,
    pub realm_governing_token_mint: Pubkey,
    pub governing_token_owner: AccountState,
}

impl View for RevokeVote {
    type V = RevokeState;

    open spec fn view(&self) -> RevokeState {
        RevokeState {
            payer: self.payer@,
            revoke_weight_record: self.revoke_weight_record@,
            delegate: self.delegate,
            delegation_record: self.delegation_record@,
            delegated_voter_weight_record: self.delegated_voter_weight_record,
            governance_program_id: self.governance_program_id,
            vote_record_info: self.vote_record_info@,
            realm_info: self.realm_info@,
            governance_info: self.governance_info@,
            proposal_info: self.proposal_info@,
            delegate_token_owner_record_info: self.delegate_token_owner_record_info@,
            realm_governing_token_mint: self.realm_governing_token_mint,
            governing_token_owner: self.governing_token_owner@,
        }
    }
}

/// What the governance program answered to the lookups of a revocation: for
/// each, the unit, or the program error code of the refusal.
#[derive(Clone, Copy, Debug, PartialEq, Eq)]
pub struct RevokeLookups {
    /// The realm, for the governing token mint.
    pub realm: Result<(), u64>,
    /// The governance, for the realm.
    pub governance: Result<(), u64>,
    /// The proposal, for the governance and the mint.
    pub proposal: Result<(), u64>,
    /// The delegate's token owner record, for the realm and the mint.
    pub token_owner_record: Result<(), u64>,
    /// The record of the delegate's vote on the proposal; consulted only where
    /// the account of the vote record holds data.
    pub vote_record: Result<(), u64>,
}

/// A request to the governance program to undo a vote, with its evidence.
#[derive(Debug, PartialEq, Eq)]
pub struct Unvote {
    /// The one-time voter weight record that carries the revoked weight.
    pub evidence: VoterWeightRecord,
    /// The instruction that relinquishes the vote.
    pub instruction: Instruction,
}

/// The mathematical value of a request to undo a vote.
pub struct UnvoteView {
    pub evidence: VoterWeightRecord,
    pub instruction: InstructionView,
}

impl View for Unvote {
    type V = UnvoteView;

    open spec fn view(&self) -> UnvoteView {
        UnvoteView { evidence: self.evidence, instruction: self.instruction@ }
    }
}

/// The view of an optional request.
pub open spec fn spec_unvote_view(unvote: Option<Unvote>) -> Option<UnvoteView> {
    match unvote {
        Some(u) => Some(u@),
        None => None,
    }
}

impl RevokeVote {
    /// Whether the address of the record of the delegate's vote can be derived,
    /// as the instruction that relinquishes the vote needs it.
    pub open spec fn spec_relinquishable(ctx: RevokeState) -> bool {
        program_address(
            spec_vote_record_seeds(ctx.proposal_info.key, ctx.delegate_token_owner_record_info.key),
            ctx.governance_program_id@,
        ) is Some
    }

    /// The account by which the request to relinquish a vote carries its
    /// evidence: the one-time revocation record, which the governance program
    /// reads and neither signs for nor writes to.
    pub open spec fn spec_evidence_account(ctx: RevokeState) -> AccountMeta {
        AccountMeta { pubkey: ctx.revoke_weight_record.key, is_signer: false, is_writable: false }
    }

    /// The instruction that relinquishes the delegate's vote: the governance
    /// program's own, with the delegate as authority and as beneficiary,
    /// followed by the one-time revocation record as evidence. Its nine accounts
    /// are those of `spec_relinquish_accounts`, in that order.
    pub open spec fn spec_relinquish_instruction(ctx: RevokeState) -> InstructionView {
        let built = spec_relinquish_vote(
            ctx.governance_program_id,
            ctx.realm_info.key,
            ctx.governance_info.key,
            ctx.proposal_info.key,
            ctx.delegate_token_owner_record_info.key,
            ctx.realm_governing_token_mint,
            ctx.delegate,
            ctx.delegate,
        );
        InstructionView {
            program_id: built.program_id,
            accounts: built.accounts.push(Self::spec_evidence_account(ctx)),
            data: built.data,
        }
    }

    /// The instruction that relinquishes the delegate's vote with the one-time
    /// revocation record as evidence, for accounts whose vote record has an
    /// address.
    pub fn get_relinquish_instruction(&self) -> (r: Instruction)
        requires
            Self::spec_relinquishable(self@),
        ensures
            r@ == Self::spec_relinquish_instruction(self@),
            r@.accounts.len() == 9,
            r@.accounts[8].pubkey == self.revoke_weight_record.key,
    {
        let mut instruction = relinquish_vote_instruction(
            &self.governance_program_id,
            &self.realm_info.key,
            &self.governance_info.key,
            &self.proposal_info.key,
            &self.delegate_token_owner_record_info.key,
            &self.realm_governing_token_mint,
            &self.delegate,
            &self.delegate,
        );
        // The governance program is handed the evidence as a last account.
        instruction.accounts.push(
            AccountMeta {
                pubkey: self.revoke_weight_record.key,
                is_signer: false,
                is_writable: false,
            },
        );
        instruction
    }

    /// The instruction that relinquishes the delegate's vote, or `None` where
    /// the vote record has no address.
    pub fn try_get_relinquish_instruction(&self) -> (r: Option<Instruction>)
        ensures
            match r {
                Some(instruction) => Self::spec_relinquishable(self@) && instruction@
                    == Self::spec_relinquish_instruction(self@),
                None => !Self::spec_relinquishable(self@),
            },
    {
        if self.relinquishable() {
            Some(self.get_relinquish_instruction())
        } else {
            None
        }
    }

    /// Whether the address of the record of the delegate's vote can be derived.
    fn relinquishable(&self) -> (r: bool)
        ensures
            r == Self::spec_relinquishable(self@),
    {
        let tag: Vec<u8> = vec![103u8, 111, 118, 101, 114, 110, 97, 110, 99, 101];
        assert(tag@ =~= crate::governance::spec_governance_tag());
        let mut seeds: Vec<Vec<u8>> = Vec::new();
        seeds.push(tag);
        seeds.push(self.proposal_info.key.to_vec());
        seeds.push(self.delegate_token_owner_record_info.key.to_vec());
        proof {
            let expected = spec_vote_record_seeds(
                self.proposal_info.key,
                self.delegate_token_owner_record_info.key,
            );
            crate::pubkey::lemma_seeds_view(seeds);
            assert(seeds.deep_view() =~= expected);
        }
        find_program_address(&seeds, &self.governance_program_id).is_some()
    }
}

/// The addresses of the accounts that the request to relinquish a vote is sent
/// with, in order: the realm, the governance, the proposal, the delegate's token
/// owner record, the vote record, the mint, the delegate twice, as authority and
/// as beneficiary, and the one-time revocation record, which is the evidence of
/// the revocation.
pub open spec fn spec_relinquish_accounts(ctx: RevokeState) -> Seq<Pubkey> {
    seq![
        ctx.realm_info.key,
        ctx.governance_info.key,
        ctx.proposal_info.key,
        ctx.delegate_token_owner_record_info.key,
        ctx.vote_record_info.key,
        ctx.realm_governing_token_mint,
        ctx.delegate,
        ctx.delegate,
        ctx.revoke_weight_record.key,
    ]
}

/// The addresses of the accounts that the request to relinquish a vote is sent
/// with, in order.
pub fn get_relinquish_accounts(ctx: &RevokeVote) -> (r: Vec<Pubkey>)
    ensures
        r@ == spec_relinquish_accounts(ctx@),
{
    let accounts: Vec<Pubkey> = vec![
        ctx.realm_info.key,
        ctx.governance_info.key,
        ctx.proposal_info.key,
        ctx.delegate_token_owner_record_info.key,
        ctx.vote_record_info.key,
        ctx.realm_governing_token_mint,
        ctx.delegate,
        ctx.delegate,
        ctx.revoke_weight_record.key,
    ];
    assert(accounts@ =~= spec_relinquish_accounts(ctx@));
    accounts
}

/// The first refusal among the lookups that every revocation makes, in the
/// order in which it makes them.
pub open spec fn spec_first_refusal(lookups: RevokeLookups) -> Option<u64> {
    match lookups.realm {
        Err(code) => Some(code),
        Ok(_) => match lookups.governance {
            Err(code) => Some(code),
            Ok(_) => match lookups.proposal {
                Err(code) => Some(code),
                Ok(_) => match lookups.token_owner_record {
                    Err(code) => Some(code),
                    Ok(_) => None,
                },
            },
        },
    }
}

/// The one-time record that is evidence of a revocation: the revoked weight of
/// the delegator, without expiry, for revoking the vote in the vote record.
pub open spec fn spec_evidence(ctx: RevokeState, revoked: u64) -> VoterWeightRecord {
    VoterWeightRecord {
        realm: ctx.realm_info.key,
        governing_token_mint: ctx.realm_governing_token_mint,
        governing_token_owner: ctx.governing_token_owner.key,
        voter_weight: revoked,
        voter_weight_expiry: None,
        weight_action: Some(VoterWeightAction::RevokeVote),
        weight_action_target: Some(ctx.vote_record_info.key),
        reserved: crate::codec::spec_reserved_from(Seq::new(8, |i: int| 0u8)),
    }
}

/// Whether a record with this expiry is still fresh at `slot`, so that nothing
/// may be revoked from it: it expires at `slot` or later. A record without
/// expiry counts as expired.
pub open spec fn spec_is_fresh(expiry: Option<u64>, slot: u64) -> bool {
    expiry matches Some(until) && until >= slot
}

/// The accounts after the delegation record has been taken out of the
/// delegate's record and disposed of.
pub open spec fn spec_debited(ctx: RevokeState, revoked: u64) -> RevokeState {
    RevokeState {
        governing_token_owner: spec_credited(
            ctx.governing_token_owner,
            ctx.delegation_record.lamports,
        ),
        delegation_record: spec_disposed(ctx.delegation_record),
        delegated_voter_weight_record: VoterWeightRecord {
            voter_weight: (ctx.delegated_voter_weight_record.voter_weight - revoked) as u64,
            ..ctx.delegated_voter_weight_record
        },
        ..ctx
    }
}

/// The accounts after the one-time revocation record has been disposed of.
pub open spec fn spec_evidence_disposed(ctx: RevokeState) -> RevokeState {
    RevokeState {
        payer: spec_credited(ctx.payer, ctx.revoke_weight_record.lamports),
        revoke_weight_record: spec_disposed(ctx.revoke_weight_record),
        ..ctx
    }
}

/// The outcome of a revocation at slot `slot`, given what the governance
/// program answered: the accounts after it and the request to undo a vote, if
/// one is due; or the error; or `None` where the revocation cannot be carried
/// out, because the expired record holds less weight than is revoked, a balance
/// would leave `u64`, or the vote record has no address.
///
/// The delegation record must name the delegate; the realm, the governance, the
/// proposal and the delegate's token owner record must resolve; the delegate's
/// record must have expired before `slot`. Only then the weight of the
/// delegation record is taken from the delegate's record. Where the account of the vote
/// record holds data, the vote record must resolve too; the one-time revocation
/// record is evidence for the request to relinquish the vote, and is disposed of
/// in favour of the payer. The delegation record is disposed of in favour of
/// the delegator.
pub open spec fn spec_revoke(ctx: RevokeState, slot: u64, lookups: RevokeLookups) -> Option<
    Result<(RevokeState, Option<UnvoteView>), Error>,
> {
    match Delegation::spec_unpack(ctx.delegation_record.data) {
        Err(e) => Some(Err(Error::Data(e))),
        Ok(delegation) => if delegation.delegate != ctx.delegate {
            Some(Err(Error::Delegation(DelegationError::NonMatchingDelegationRecordProvided)))
        } else if let Some(code) = spec_first_refusal(lookups) {
            Some(Err(Error::Governance(code)))
        } else if spec_is_fresh(ctx.delegated_voter_weight_record.voter_weight_expiry, slot) {
            Some(Err(Error::Delegation(DelegationError::VoterWeightRecordMustBeExpired)))
        } else if ctx.delegated_voter_weight_record.voter_weight < delegation.voter_weight {
            None
        } else if ctx.vote_record_info.data_is_empty() {
            if ctx.governing_token_owner.lamports + ctx.delegation_record.lamports > u64::MAX {
                None
            } else {
                Some(Ok((spec_debited(ctx, delegation.voter_weight), None)))
            }
        } else {
            match lookups.vote_record {
                Err(code) => Some(Err(Error::Governance(code))),
                Ok(_) => if !RevokeVote::spec_relinquishable(ctx) || ctx.payer.lamports
                    + ctx.revoke_weight_record.lamports > u64::MAX
                    || ctx.governing_token_owner.lamports + ctx.delegation_record.lamports
                    > u64::MAX {
                    None
                } else {
                    Some(
                        Ok(
                            (
                                spec_debited(
                                    spec_evidence_disposed(ctx),
                                    delegation.voter_weight,
                                ),
                                Some(
                                    UnvoteView {
                                        evidence: spec_evidence(ctx, delegation.voter_weight),
                                        instruction: RevokeVote::spec_relinquish_instruction(
                                            ctx,
                                        ),
                                    },
                                ),
                            ),
                        ),
                    )
                },
            }
        },
    }
}

/// Whether an instruction ended as `expected` says: with the accounts and the
/// request that it names, or with its error and the accounts unchanged.
pub open spec fn spec_ended_as(
    expected: Result<(RevokeState, Option<UnvoteView>), Error>,
    before: RevokeState,
    after: RevokeState,
    r: Result<Option<Unvote>, Error>,
) -> bool {
    match expected {
        Ok((state, unvote)) => r matches Ok(request) && spec_unvote_view(request) == unvote
            && after == state,
        Err(e) => r matches Err(found) && found == e && after == before,
    }
}

/// Carries out a revocation, and reports `None`, with nothing changed, where it
/// cannot be carried out.
fn run_revoke(ctx: &mut RevokeVote, slot: u64, lookups: &RevokeLookups) -> (r: Option<
    Result<Option<Unvote>, Error>,
>)
    ensures
        match spec_revoke(old(ctx)@, slot, *lookups) {
            Some(expected) => r matches Some(outcome) && spec_ended_as(
                expected,
                old(ctx)@,
                final(ctx)@,
                outcome,
            ),
            None => r is None && final(ctx)@ == old(ctx)@,
        },
{
    let delegation = match Delegation::unpack(&ctx.delegation_record.data) {
        Ok(delegation) => delegation,
        Err(e) => {
            return Some(Err(Error::Data(e)));
        },
    };
    if delegation.delegate != ctx.delegate {
        return Some(
            Err(Error::Delegation(DelegationError::NonMatchingDelegationRecordProvided)),
        );
    }
    if let Err(code) = lookups.realm {
        return Some(Err(Error::Governance(code)));
    }
    if let Err(code) = lookups.governance {
        return Some(Err(Error::Governance(code)));
    }
    if let Err(code) = lookups.proposal {
        return Some(Err(Error::Governance(code)));
    }
    if let Err(code) = lookups.token_owner_record {
        return Some(Err(Error::Governance(code)));
    }
    // This is needed to prevent double-voting when stacking voter weight plugins:
    // a record that is still fresh could be raised again by another aggregation
    // after the revocation and before the vote.
    let fresh = match ctx.delegated_voter_weight_record.voter_weight_expiry {
        Some(until) => until >= slot,
        None => false,
    };
    if fresh {
        return Some(Err(Error::Delegation(DelegationError::VoterWeightRecordMustBeExpired)));
    }
    if ctx.delegated_voter_weight_record.voter_weight < delegation.voter_weight {
        return None;
    }
    // We only need to unvote if a vote has actually been cast.
    let mut request: Option<Unvote> = None;
    if !ctx.vote_record_info.data_is_empty() {
        if let Err(code) = lookups.vote_record {
            return Some(Err(Error::Governance(code)));
        }
        if !ctx.relinquishable() || ctx.revoke_weight_record.lamports > u64::MAX
            - ctx.payer.lamports || ctx.delegation_record.lamports > u64::MAX
            - ctx.governing_token_owner.lamports {
            return None;
        }
        let reserved: [u8; 8] = [0u8;8];
        proof {
            assert(reserved@ =~= Seq::new(8, |i: int| 0u8));
            crate::codec::lemma_reserved_from_view(reserved);
        }
        let evidence = VoterWeightRecord {
            realm: ctx.realm_info.key,
            governing_token_mint: ctx.realm_governing_token_mint,
            governing_token_owner: ctx.governing_token_owner.key,
            voter_weight: delegation.voter_weight,
            voter_weight_expiry: None,
            weight_action: Some(VoterWeightAction::RevokeVote),
            weight_action_target: Some(ctx.vote_record_info.key),
            reserved,
        };
        let instruction = ctx.get_relinquish_instruction();
        request = Some(Unvote { evidence, instruction });
        // The evidence is disposed here to prevent double-relinquishment.
        dispose_account(&mut ctx.revoke_weight_record, &mut ctx.payer);
    } else if ctx.delegation_record.lamports > u64::MAX - ctx.governing_token_owner.lamports {
        return None;
    }
    ctx.delegated_voter_weight_record.voter_weight =
        ctx.delegated_voter_weight_record.voter_weight - delegation.voter_weight;
    // The storage of the delegation record goes back to the delegator.
    dispose_account(&mut ctx.delegation_record, &mut ctx.governing_token_owner);
    Some(Ok(request))
}

/// Whether the weights and the balances allow a revocation, whatever the
/// governance program answers and whatever the slot: the record holds the
/// weight of the delegation record, the delegator's balance takes that of the
/// delegation record, and, where the account of the vote record holds data, the
/// payer's balance takes that of the revocation record and the vote record has
/// an address.
fn fits(ctx: &RevokeVote) -> (r: bool)
    ensures
        r ==> forall|slot: u64, lookups: RevokeLookups|
            #![trigger spec_revoke(ctx@, slot, lookups)]
            spec_revoke(ctx@, slot, lookups) is Some,
{
    let holds_weight = match Delegation::unpack(&ctx.delegation_record.data) {
        Ok(delegation) => ctx.delegated_voter_weight_record.voter_weight
            >= delegation.voter_weight,
        Err(_) => true,
    };
    let refund_fits = ctx.delegation_record.lamports <= u64::MAX
        - ctx.governing_token_owner.lamports;
    let unvote_fits = ctx.vote_record_info.data_is_empty() || (ctx.revoke_weight_record.lamports
        <= u64::MAX - ctx.payer.lamports && ctx.relinquishable());
    holds_weight && refund_fits && unvote_fits
}

/// Revokes one delegator's contribution, given what the governance program
/// answered to the lookups. `slot` is the slot of the clock. On an error nothing
/// changes.
pub fn revoke_vote_with_lookups(ctx: &mut RevokeVote, slot: u64, lookups: &RevokeLookups) -> (r:
    Result<Option<Unvote>, Error>)
    requires
        spec_revoke(old(ctx)@, slot, *lookups) is Some,
    ensures
        spec_ended_as(spec_revoke(old(ctx)@, slot, *lookups).unwrap(), old(ctx)@, final(ctx)@, r),
{
    run_revoke(ctx, slot, lookups).unwrap()
}

/// Revokes one delegator's contribution, given what the governance program
/// answered to the lookups, where the revocation can be carried out, and reports
/// `None`, with nothing changed, where it cannot.
pub fn try_revoke_vote_with_lookups(ctx: &mut RevokeVote, slot: u64, lookups: &RevokeLookups) -> (r:
    Option<Result<Option<Unvote>, Error>>)
    ensures
        match spec_revoke(old(ctx)@, slot, *lookups) {
            Some(expected) => r matches Some(outcome) && spec_ended_as(
                expected,
                old(ctx)@,
                final(ctx)@,
                outcome,
            ),
            None => r is None && final(ctx)@ == old(ctx)@,
        },
{
    if fits(ctx) {
        Some(revoke_vote_with_lookups(ctx, slot, lookups))
    } else {
        // The revocation fails or cannot be carried out.
        run_revoke(ctx, slot, lookups)
    }
}

/// What the governance program answers to the lookups of a revocation, with
/// `vote_record` as its answer on the vote record.
pub open spec fn spec_lookups(ctx: RevokeState, vote_record: Result<(), u64>) -> RevokeLookups {
    RevokeLookups {
        realm: realm_for_mint(
            ctx.governance_program_id@,
            ctx.realm_info.owner@,
            ctx.realm_info.data,
            ctx.realm_governing_token_mint@,
        ),
        governance: governance_for_realm(
            ctx.governance_program_id@,
            ctx.governance_info.owner@,
            ctx.governance_info.data,
            ctx.realm_info.key@,
        ),
        proposal: proposal_for_governance_and_mint(
            ctx.governance_program_id@,
            ctx.proposal_info.owner@,
            ctx.proposal_info.data,
            ctx.governance_info.key@,
            ctx.realm_governing_token_mint@,
        ),
        token_owner_record: match token_owner_record(
            ctx.governance_program_id@,
            ctx.delegate_token_owner_record_info.owner@,
            ctx.delegate_token_owner_record_info.data,
            ctx.realm_info.key@,
            ctx.realm_governing_token_mint@,
        ) {
            Ok(_) => Ok(()),
            Err(code) => Err(code),
        },
        vote_record,
    }
}

/// The outcome of a revocation depends on the answers of the governance
/// program only through which of them are refusals, and with which codes.
pub proof fn lemma_revoke_by_refusals(
    ctx: RevokeState,
    slot: u64,
    first: RevokeLookups,
    second: RevokeLookups,
)
    requires
        first.realm is Err <==> second.realm is Err,
        first.realm is Err ==> first.realm->Err_0 == second.realm->Err_0,
        first.governance is Err <==> second.governance is Err,
        first.governance is Err ==> first.governance->Err_0 == second.governance->Err_0,
        first.proposal is Err <==> second.proposal is Err,
        first.proposal is Err ==> first.proposal->Err_0 == second.proposal->Err_0,
        first.token_owner_record is Err <==> second.token_owner_record is Err,
        first.token_owner_record is Err ==> first.token_owner_record->Err_0
            == second.token_owner_record->Err_0,
        first.vote_record is Err <==> second.vote_record is Err,
        first.vote_record is Err ==> first.vote_record->Err_0 == second.vote_record->Err_0,
    ensures
        spec_revoke(ctx, slot, first) == spec_revoke(ctx, slot, second),
{
}

/// Asks the governance program for the realm, the governance, the proposal and
/// the delegate's token owner record.
fn resolve(ctx: &RevokeVote, vote_record: Result<(), u64>) -> (r: RevokeLookups)
    ensures
        forall|slot: u64|
            #![trigger spec_revoke(ctx@, slot, r)]
            spec_revoke(ctx@, slot, r) == spec_revoke(
                ctx@,
                slot,
                spec_lookups(ctx@, vote_record),
            ),
{
    let realm = lookup_realm_for_mint(
        &ctx.governance_program_id,
        &ctx.realm_info,
        &ctx.realm_governing_token_mint,
    );
    let governance = lookup_governance_for_realm(
        &ctx.governance_program_id,
        &ctx.governance_info,
        &ctx.realm_info.key,
    );
    let proposal = lookup_proposal_for_governance_and_mint(
        &ctx.governance_program_id,
        &ctx.proposal_info,
        &ctx.governance_info.key,
        &ctx.realm_governing_token_mint,
    );
    let token_owner_record = match lookup_token_owner_record(
        &ctx.governance_program_id,
        &ctx.delegate_token_owner_record_info,
        &ctx.realm_info.key,
        &ctx.realm_governing_token_mint,
    ) {
        Ok(_) => Ok(()),
        Err(code) => Err(code),
    };
    let lookups = RevokeLookups { realm, governance, proposal, token_owner_record, vote_record };
    proof {
        assert forall|slot: u64| #![trigger spec_revoke(ctx@, slot, lookups)]
            spec_revoke(ctx@, slot, lookups) == spec_revoke(
                ctx@,
                slot,
                spec_lookups(ctx@, vote_record),
            ) by {
            lemma_revoke_by_refusals(ctx@, slot, lookups, spec_lookups(ctx@, vote_record));
        }
    }
    lookups
}

/// Revokes one delegator's contribution from the delegate's voter weight
/// record: subtracts the weight of the delegation record, hands back the request
/// to relinquish a vote that was cast, and disposes of the delegation record.
/// On an error nothing changes.
///
/// `slot` is the slot of the clock. `vote_record` is what the governance program
/// answers when asked for the record of the delegate's vote on the proposal; it
/// is consulted only where the account of the vote record holds data. The realm,
/// the governance, the proposal and the delegate's token owner record are what
/// the governance program reads from their accounts.
pub fn revoke_vote(ctx: &mut RevokeVote, slot: u64, vote_record: Result<(), u64>) -> (r: Result<
    Option<Unvote>,
    Error,
>)
    requires
        spec_revoke(old(ctx)@, slot, spec_lookups(old(ctx)@, vote_record)) is Some,
    ensures
        spec_ended_as(
            spec_revoke(old(ctx)@, slot, spec_lookups(old(ctx)@, vote_record)).unwrap(),
            old(ctx)@,
            final(ctx)@,
            r,
        ),
{
    let lookups = resolve(ctx, vote_record);
    revoke_vote_with_lookups(ctx, slot, &lookups)
}

/// Revokes one delegator's contribution where the revocation can be carried
/// out, and reports `None`, with nothing changed, where it cannot: where the
/// record holds less weight than is revoked, a balance would leave `u64`, or the
/// vote record has no address.
pub fn try_revoke_vote(ctx: &mut RevokeVote, slot: u64, vote_record: Result<(), u64>) -> (r:
    Option<Result<Option<Unvote>, Error>>)
    ensures
        match spec_revoke(old(ctx)@, slot, spec_lookups(old(ctx)@, vote_record)) {
            Some(expected) => r matches Some(outcome) && spec_ended_as(
                expected,
                old(ctx)@,
                final(ctx)@,
                outcome,
            ),
            None => r is None && final(ctx)@ == old(ctx)@,
        },
{
    if fits(ctx) {
        Some(revoke_vote(ctx, slot, vote_record))
    } else {
        // The revocation fails or cannot be carried out.
        let lookups = resolve(ctx, vote_record);
        run_revoke(ctx, slot, &lookups)
    }
}

/// Where the delegation record names the delegate and the lookups resolve, a
/// revocation from a record that is still fresh fails as not expired, whatever
/// the weights; from a record that has expired and holds the weight to revoke it
/// goes through, provided the vote record resolves where there is one.
pub proof fn lemma_revoke_waits_for_expiry(ctx: RevokeState, slot: u64, lookups: RevokeLookups)
    requires
        Delegation::spec_unpack(ctx.delegation_record.data) matches Ok(delegation)
            && delegation.delegate == ctx.delegate,
        spec_first_refusal(lookups) is None,
    ensures
        spec_is_fresh(ctx.delegated_voter_weight_record.voter_weight_expiry, slot) ==> spec_revoke(
            ctx,
            slot,
            lookups,
        ) == Some(
            Err::<(RevokeState, Option<UnvoteView>), Error>(
                Error::Delegation(DelegationError::VoterWeightRecordMustBeExpired),
            ),
        ),
        !spec_is_fresh(ctx.delegated_voter_weight_record.voter_weight_expiry, slot) && (
        ctx.vote_record_info.data_is_empty() || lookups.vote_record is Ok) && spec_revoke(
            ctx,
            slot,
            lookups,
        ) is Some ==> spec_revoke(ctx, slot, lookups) matches Some(Ok(_)),
{
}

/// The request to relinquish a vote names the accounts that it is sent with:
/// the addresses of its accounts are those of `spec_relinquish_accounts`, in
/// that order, but for the vote record, whose address the governance program
/// derives itself; the last of them is the evidence.
pub proof fn lemma_relinquish_names_its_accounts(ctx: RevokeState)
    ensures
        RevokeVote::spec_relinquish_instruction(ctx).accounts.len() == 9,
        spec_relinquish_accounts(ctx).len() == 9,
        forall|i: int|
            0 <= i < 9 && i != 4 ==> (#[trigger] RevokeVote::spec_relinquish_instruction(
                ctx,
            ).accounts[i]).pubkey == spec_relinquish_accounts(ctx)[i],
        RevokeVote::spec_relinquish_instruction(ctx).accounts[8]
            == RevokeVote::spec_evidence_account(ctx),
{
}

/// A record that an aggregation at slot `aggregated` has refreshed is fresh up
/// to and including the slot `APPROX_SLOTS_PER_MINUTE` later, and expired from
/// the slot after that.
pub proof fn lemma_window(aggregated: u64, slot: u64)
    requires
        aggregated + APPROX_SLOTS_PER_MINUTE <= u64::MAX,
    ensures
        spec_is_fresh(Some((aggregated + APPROX_SLOTS_PER_MINUTE) as u64), slot) <==> slot
            <= aggregated + APPROX_SLOTS_PER_MINUTE,
{
}

/// Revoking the weight that an aggregation has folded in gives the record the
/// weight that it had before the aggregation, and removes the delegation record,
/// so that the same revocation cannot be repeated.
///
/// A fold for a delegator goes through. A revocation is given the delegation
/// account as the fold left it, the delegate of the fold, and a record with the
/// weight that the fold left; the lookups resolve, the record has expired, and
/// the revocation can be carried out. Then it goes through and leaves the weight
/// from before the fold. The delegation account is left without balance and is
/// removed once the transaction has ended; a revocation that is given it again,
/// removed or not, fails.
pub proof fn lemma_revoke_undoes_fold(
    before: UpdateState,
    source: AccountState,
    token_owner: TokenOwnerRecord,
    delegation: AccountState,
    rent_minimum: u64,
    ctx: RevokeState,
    slot: u64,
    lookups: RevokeLookups,
    again: RevokeState,
    later_slot: u64,
    later_lookups: RevokeLookups,
)
    requires
        !spec_delegator_overflows(before, source, token_owner, delegation),
        spec_aggregate_delegator(before, source, token_owner, delegation, rent_minimum) is Ok,
        ctx.delegation_record == spec_aggregate_delegator(
            before,
            source,
            token_owner,
            delegation,
            rent_minimum,
        ).unwrap().1,
        ctx.delegate == before.delegate,
        ctx.delegated_voter_weight_record.voter_weight == spec_aggregate_delegator(
            before,
            source,
            token_owner,
            delegation,
            rent_minimum,
        ).unwrap().0.voter_weight_record.voter_weight,
        spec_first_refusal(lookups) is None,
        ctx.vote_record_info.data_is_empty() || lookups.vote_record is Ok,
        !spec_is_fresh(ctx.delegated_voter_weight_record.voter_weight_expiry, slot),
        spec_revoke(ctx, slot, lookups) is Some,
        spec_revoke(ctx, slot, lookups) matches Some(Ok(done)) ==> again.delegation_record
            == done.0.delegation_record || again.delegation_record
            == done.0.delegation_record.settled(),
    ensures
        spec_revoke(ctx, slot, lookups) matches Some(Ok(done)) && {
            &&& done.0.delegated_voter_weight_record.voter_weight
                == before.voter_weight_record.voter_weight
            &&& done.0.delegation_record.lamports == 0
            &&& done.0.delegation_record.settled().data_is_empty()
            &&& done.0.governing_token_owner.lamports == ctx.governing_token_owner.lamports
                + ctx.delegation_record.lamports
        },
        spec_revoke(again, later_slot, later_lookups) matches Some(Err(Error::Data(_))),
{
    lemma_aggregation_effect(before, source, token_owner, delegation, rent_minimum);
    let done = spec_revoke(ctx, slot, lookups).unwrap().unwrap();
    Delegation::lemma_unpack_zeroed(done.0.delegation_record.data);
    Delegation::lemma_unpack_zeroed(done.0.delegation_record.settled().data);
}

/// A revocation from an expired record goes through wherever nothing stands
/// against it, and takes from the record the weight that the delegation record
/// holds, whatever the source holds by now.
///
/// The delegation record names the delegate; the realm, the governance, the
/// proposal and the delegate's token owner record resolve, and so does the vote
/// record where its account holds data; the record holds the weight of the
/// delegation record; the balances fit, and the vote record has an address where
/// a vote is undone.
pub proof fn lemma_revoke_subtracts_entry(ctx: RevokeState, slot: u64, lookups: RevokeLookups)
    requires
        Delegation::spec_unpack(ctx.delegation_record.data) matches Ok(entry) && entry.delegate
            == ctx.delegate && ctx.delegated_voter_weight_record.voter_weight
            >= entry.voter_weight,
        spec_first_refusal(lookups) is None,
        !spec_is_fresh(ctx.delegated_voter_weight_record.voter_weight_expiry, slot),
        ctx.governing_token_owner.lamports + ctx.delegation_record.lamports <= u64::MAX,
        !ctx.vote_record_info.data_is_empty() ==> (lookups.vote_record is Ok
            && RevokeVote::spec_relinquishable(ctx) && ctx.payer.lamports
            + ctx.revoke_weight_record.lamports <= u64::MAX),
    ensures
        spec_revoke(ctx, slot, lookups) matches Some(Ok(done)) && {
            &&& done.0.delegated_voter_weight_record.voter_weight
                == ctx.delegated_voter_weight_record.voter_weight - Delegation::spec_unpack(
                ctx.delegation_record.data,
            ).unwrap().voter_weight
            &&& done.0.delegation_record == spec_disposed(ctx.delegation_record)
            &&& done.0.governing_token_owner.lamports == ctx.governing_token_owner.lamports
                + ctx.delegation_record.lamports
            &&& (done.1 is Some <==> !ctx.vote_record_info.data_is_empty())
        },
{
}

} // verus!
