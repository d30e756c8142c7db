//! Reclamation of a voter weight record that is dead.
use vstd::prelude::*;
use crate::account::{AccountInfo, AccountState};
use crate::error::{DelegationError, Error};
use crate::pubkey::Pubkey;
use crate::state::voter_weight_record::VoterWeightRecord;
use crate::tools::{dispose_account, spec_credited, spec_disposed};

verus! {

/// The accounts of the reclamation of a voter weight record. Each field is the
/// state of an account of its own.
#[derive(Debug)]
pub struct ReclaimVoterWeightRecord {
    /// Who reclaims, and receives the balance of the record.
    pub caller: AccountInfo,
    /// The account of the record.
    pub voter_weight_record: AccountInfo,
    /// The account of the target of the record's action.
    pub target: AccountInfo,
    /// The governance program the realm belongs to.
    pub governance_program_id: Pubkey,
}

/// The mathematical value of the accounts of a reclamation.
pub struct ReclaimRecordState {
    pub caller: AccountState,
    pub voter_weight_record: AccountState,
    pub target: AccountState,
    pub governance_program_id: Pubkey,
}

impl View for ReclaimVoterWeightRecord {
    type V = ReclaimRecordState;

    open spec fn view(&self) -> ReclaimRecordState {
        ReclaimRecordState {
            caller: self.caller@,
            voter_weight_record: self.voter_weight_record@,
            target: self.target@,
            governance_program_id: self.governance_program_id,
        }
    }
}

/// Whether a reclamation cannot be carried out: the caller owns the record, and
/// the record names no action, or is dead while the caller's balance would leave
/// `u64`.
pub open spec fn spec_reclaim_record_aborts(ctx: ReclaimRecordState) -> bool {
    &&& VoterWeightRecord::spec_unpack(ctx.voter_weight_record.data) matches Ok(record)
    &&& record.governing_token_owner == ctx.caller.key
    &&& (record.weight_action is None || (record.spec_can_reclaim(
        ctx.target,
        ctx.governance_program_id,
    ) && ctx.caller.lamports + ctx.voter_weight_record.lamports > u64::MAX))
}

/// The outcome of a reclamation: the accounts after it, or the error. Only the
/// owner of a record reclaims it, and only once the record is dead. The record
/// is disposed of in favour of the caller.
pub open spec fn spec_reclaim_record(ctx: ReclaimRecordState) -> Result<ReclaimRecordState, Error> {
    match VoterWeightRecord::spec_unpack(ctx.voter_weight_record.data) {
        Err(e) => Err(Error::Data(e)),
        Ok(record) => if record.governing_token_owner != ctx.caller.key {
            Err(Error::Delegation(DelegationError::VoterWeightRecordWrongOwner))
        } else if !record.spec_can_reclaim(ctx.target, ctx.governance_program_id) {
            Err(Error::Delegation(DelegationError::ReclaimTargetWrongState))
        } else {
            Ok(
                ReclaimRecordState {
                    caller: spec_credited(ctx.caller, ctx.voter_weight_record.lamports),
                    voter_weight_record: spec_disposed(ctx.voter_weight_record),
                    ..ctx
                },
            )
        },
    }
}

/// Carries out a reclamation, and reports `None`, with nothing changed, where it
/// cannot be carried out.
fn run_reclaim(ctx: &mut ReclaimVoterWeightRecord) -> (r: Option<Result<(), Error>>)
    ensures
        r is None <==> spec_reclaim_record_aborts(old(ctx)@),
        r is None ==> final(ctx)@ == old(ctx)@,
        r matches Some(outcome) ==> match spec_reclaim_record(old(ctx)@) {
            Ok(state) => outcome is Ok && final(ctx)@ == state,
            Err(e) => outcome == Err::<(), Error>(e) && final(ctx)@ == old(ctx)@,
        },
{
    let record = match VoterWeightRecord::unpack(&ctx.voter_weight_record.data) {
        Ok(record) => record,
        Err(e) => {
            return Some(Err(Error::Data(e)));
        },
    };
    if record.governing_token_owner != ctx.caller.key {
        return Some(Err(Error::Delegation(DelegationError::VoterWeightRecordWrongOwner)));
    }
    if record.weight_action.is_none() {
        return None;
    }
    match record.assert_can_reclaim(&ctx.target, &ctx.governance_program_id) {
        Ok(()) => {},
        Err(e) => {
            return Some(Err(e));
        },
    }
    if ctx.voter_weight_record.lamports > u64::MAX - ctx.caller.lamports {
        return None;
    }
    dispose_account(&mut ctx.voter_weight_record, &mut ctx.caller);
    Some(Ok(()))
}

/// Reclaims the storage of a voter weight record that is no longer needed. On an
/// error nothing changes.
pub fn reclaim_voter_weight_record(ctx: &mut ReclaimVoterWeightRecord) -> (r: Result<(), Error>)
    requires
        !spec_reclaim_record_aborts(old(ctx)@),
    ensures
        match spec_reclaim_record(old(ctx)@) {
            Ok(state) => r is Ok && final(ctx)@ == state,
            Err(e) => r == Err::<(), Error>(e) && final(ctx)@ == old(ctx)@,
        },
{
    run_reclaim(ctx).unwrap()
}

/// Reclaims the storage of a voter weight record where the reclamation can be
/// carried out, and reports `None`, with nothing changed, where it cannot:
/// where the caller owns the record, and the record names no action or is dead
/// but the caller's balance would leave `u64`.
pub fn try_reclaim_voter_weight_record(ctx: &mut ReclaimVoterWeightRecord) -> (r: Option<
    Result<(), Error>,
>)
    ensures
        r is None <==> spec_reclaim_record_aborts(old(ctx)@),
        r is None ==> final(ctx)@ == old(ctx)@,
        r matches Some(outcome) ==> match spec_reclaim_record(old(ctx)@) {
            Ok(state) => outcome is Ok && final(ctx)@ == state,
            Err(e) => outcome == Err::<(), Error>(e) && final(ctx)@ == old(ctx)@,
        },
{
    let fits = ctx.voter_weight_record.lamports <= u64::MAX - ctx.caller.lamports;
    let names_action = match VoterWeightRecord::unpack(&ctx.voter_weight_record.data) {
        Ok(record) => record.governing_token_owner != ctx.caller.key
            || record.weight_action.is_some(),
        Err(_) => true,
    };
    if fits && names_action {
        // The reclamation can be carried out, whatever the target holds.
        Some(reclaim_voter_weight_record(ctx))
    } else {
        // It fails or cannot be carried out.
        run_reclaim(ctx)
    }
}

} // verus!
