//! Reclamation of a delegation record whose voter weight record is gone. A
//! delegation record stores neither the address of that record nor what it was
//! created for; the instruction is told the coordinates and derives from them
//! the address of the delegation record and that of the delegate's voter weight
//! record, so that only the record that the entry was folded into counts.
use vstd::prelude::*;
use crate::account::{AccountInfo, AccountState};
use crate::error::{DelegationError, Error};
use crate::instructions::reclaim_voter_weight_record::{spec_reclaim_record, ReclaimRecordState};
use crate::pubkey::Pubkey;
use crate::state::delegation::Delegation;
use crate::state::voter_weight_record::{VoterWeightAction, VoterWeightRecord};
use crate::tools::{dispose_account, spec_credited, spec_disposed};

verus! {

/// The accounts of the reclamation of a delegation record. Each field is the
/// state of an account of its own.
#[derive(Debug)]
pub struct ReclaimDelegation {
    /// The delegate, who receives the balance of the delegation record.
    pub delegate: AccountInfo,
    /// The account of the delegate's voter weight record, which must be gone.
    pub voter_weight_record: AccountInfo,
    /// The account of the delegation record.
    pub delegation: AccountInfo,
}

/// The mathematical value of the accounts of a reclamation.
pub struct ReclaimDelegationState {
    pub delegate: AccountState,
    pub voter_weight_record: AccountState,
    pub delegation: AccountState,
}

impl View for ReclaimDelegation {
    type V = ReclaimDelegationState;

    open spec fn view(&self) -> ReclaimDelegationState {
        ReclaimDelegationState {
            delegate: self.delegate@,
            voter_weight_record: self.voter_weight_record@,
            delegation: self.delegation@,
        }
    }
}

/// What a delegation record was created for: the realm, the mint, the
/// delegator, and the target and the action of the delegate's voter weight
/// record. The record does not store them; its address and the address of the
/// delegate's voter weight record are derived from them.
#[derive(Clone, Copy, Debug, PartialEq, Eq)]
pub struct DelegationCoordinates {
    pub realm: Pubkey,
    pub governing_token_mint: Pubkey,
    /// The delegator.
    pub governing_token_owner: Pubkey,
    pub target: Pubkey,
    pub action: Option<VoterWeightAction>,
}

/// Whether the accounts are those of the coordinates: the delegation account
/// lies at the address derived for the delegator, and the account of the voter
/// weight record at the address derived for `delegate`, both for the same realm,
/// mint, target and action.
pub open spec fn spec_accounts_belong(
    ctx: ReclaimDelegationState,
    coordinates: DelegationCoordinates,
    delegate: Pubkey,
) -> bool {
    &&& Delegation::spec_pda_address(
        coordinates.realm,
        coordinates.governing_token_mint,
        coordinates.governing_token_owner,
        coordinates.target,
        coordinates.action,
    ) matches Some(found) && found.0 == ctx.delegation.key@
    &&& VoterWeightRecord::spec_pda_address(
        coordinates.realm,
        coordinates.governing_token_mint,
        delegate,
        coordinates.target,
        coordinates.action,
    ) matches Some(found) && found.0 == ctx.voter_weight_record.key@
}

/// The outcome of a reclamation: the accounts after it, or the error.
///
/// A delegation record is reclaimed only after its voter weight record is gone.
/// That record is the one of the delegate that the delegation record names, for
/// the realm, mint, target and action that the delegation record was created
/// for: the delegation account must lie at the address derived from the
/// coordinates, and the account that is shown to be gone at the address derived
/// from them for that delegate. The balance goes to the delegate that the
/// delegation record names.
pub open spec fn spec_reclaim_delegation(
    ctx: ReclaimDelegationState,
    coordinates: DelegationCoordinates,
) -> Result<ReclaimDelegationState, Error> {
    match Delegation::spec_unpack(ctx.delegation.data) {
        Err(e) => Err(Error::Data(e)),
        Ok(delegation) => if !ctx.voter_weight_record.data_is_empty() {
            Err(Error::Delegation(DelegationError::CannotReclaimDelegationRecordYet))
        } else if !spec_accounts_belong(ctx, coordinates, delegation.delegate) {
            Err(Error::Delegation(DelegationError::IncorrectDelegationAddress))
        } else if delegation.delegate != ctx.delegate.key {
            Err(Error::Delegation(DelegationError::NonMatchingDelegationRecordProvided))
        } else {
            Ok(
                ReclaimDelegationState {
                    delegate: spec_credited(ctx.delegate, ctx.delegation.lamports),
                    voter_weight_record: ctx.voter_weight_record,
                    delegation: spec_disposed(ctx.delegation),
                },
            )
        },
    }
}

/// Whether a reclamation cannot be carried out: it would go through, but the
/// delegate's balance would leave `u64`.
pub open spec fn spec_reclaim_delegation_aborts(
    ctx: ReclaimDelegationState,
    coordinates: DelegationCoordinates,
) -> bool {
    spec_reclaim_delegation(ctx, coordinates) is Ok && ctx.delegate.lamports
        + ctx.delegation.lamports > u64::MAX
}

/// Whether the accounts are those of the coordinates.
fn accounts_belong(
    ctx: &ReclaimDelegation,
    coordinates: &DelegationCoordinates,
    delegate: &Pubkey,
) -> (r: bool)
    ensures
        r == spec_accounts_belong(ctx@, *coordinates, *delegate),
{
    let delegation_address = Delegation::try_get_pda_address(
        &coordinates.realm,
        &coordinates.governing_token_mint,
        &coordinates.governing_token_owner,
        &coordinates.target,
        coordinates.action,
    );
    let record_address = VoterWeightRecord::try_get_pda_address(
        &coordinates.realm,
        &coordinates.governing_token_mint,
        delegate,
        &coordinates.target,
        coordinates.action,
    );
    proof {
        if let Some(key) = delegation_address {
            crate::pubkey::lemma_pubkey_ext(key, ctx.delegation.key);
        }
        if let Some(key) = record_address {
            crate::pubkey::lemma_pubkey_ext(key, ctx.voter_weight_record.key);
        }
    }
    match (delegation_address, record_address) {
        (Some(delegation_key), Some(record_key)) => delegation_key == ctx.delegation.key
            && record_key == ctx.voter_weight_record.key,
        _ => false,
    }
}

/// Carries out a reclamation, and reports `None`, with nothing changed, where it
/// cannot be carried out.
fn run_reclaim(ctx: &mut ReclaimDelegation, coordinates: &DelegationCoordinates) -> (r: Option<
    Result<(), Error>,
>)
    ensures
        r is None <==> spec_reclaim_delegation_aborts(old(ctx)@, *coordinates),
        r is None ==> final(ctx)@ == old(ctx)@,
        r matches Some(outcome) ==> match spec_reclaim_delegation(old(ctx)@, *coordinates) {
            Ok(state) => outcome is Ok && final(ctx)@ == state,
            Err(e) => outcome == Err::<(), Error>(e) && final(ctx)@ == old(ctx)@,
        },
{
    let delegation = match Delegation::unpack(&ctx.delegation.data) {
        Ok(delegation) => delegation,
        Err(e) => {
            return Some(Err(Error::Data(e)));
        },
    };
    if !ctx.voter_weight_record.data_is_empty() {
        return Some(Err(Error::Delegation(DelegationError::CannotReclaimDelegationRecordYet)));
    }
    if !accounts_belong(ctx, coordinates, &delegation.delegate) {
        return Some(Err(Error::Delegation(DelegationError::IncorrectDelegationAddress)));
    }
    if delegation.delegate != ctx.delegate.key {
        return Some(
            Err(Error::Delegation(DelegationError::NonMatchingDelegationRecordProvided)),
        );
    }
    if ctx.delegation.lamports > u64::MAX - ctx.delegate.lamports {
        return None;
    }
    dispose_account(&mut ctx.delegation, &mut ctx.delegate);
    Some(Ok(()))
}

/// Reclaims the storage of the delegation record that was created for
/// `coordinates`. On an error nothing changes.
pub fn reclaim_delegation(ctx: &mut ReclaimDelegation, coordinates: &DelegationCoordinates) -> (r:
    Result<(), Error>)
    requires
        !spec_reclaim_delegation_aborts(old(ctx)@, *coordinates),
    ensures
        match spec_reclaim_delegation(old(ctx)@, *coordinates) {
            Ok(state) => r is Ok && final(ctx)@ == state,
            Err(e) => r == Err::<(), Error>(e) && final(ctx)@ == old(ctx)@,
        },
{
    run_reclaim(ctx, coordinates).unwrap()
}

/// Reclaims the storage of a delegation record where the reclamation can be
/// carried out, and reports `None`, with nothing changed, where it cannot:
/// where it would go through, but the delegate's balance would leave `u64`.
pub fn try_reclaim_delegation(
    ctx: &mut ReclaimDelegation,
    coordinates: &DelegationCoordinates,
) -> (r: Option<Result<(), Error>>)
    ensures
        r is None <==> spec_reclaim_delegation_aborts(old(ctx)@, *coordinates),
        r is None ==> final(ctx)@ == old(ctx)@,
        r matches Some(outcome) ==> match spec_reclaim_delegation(old(ctx)@, *coordinates) {
            Ok(state) => outcome is Ok && final(ctx)@ == state,
            Err(e) => outcome == Err::<(), Error>(e) && final(ctx)@ == old(ctx)@,
        },
{
    if ctx.delegation.lamports <= u64::MAX - ctx.delegate.lamports {
        // The balances fit, so the reclamation can be carried out.
        Some(reclaim_delegation(ctx, coordinates))
    } else {
        // They do not: the reclamation fails or cannot be carried out.
        run_reclaim(ctx, coordinates)
    }
}

/// As long as the account of the voter weight record holds data, a delegation
/// record is not reclaimed; once that account is gone, the delegate it names
/// reclaims it, provided the accounts are those of the coordinates.
pub proof fn lemma_record_goes_first(ctx: ReclaimDelegationState, coordinates: DelegationCoordinates)
    requires
        Delegation::spec_unpack(ctx.delegation.data) is Ok,
    ensures
        !ctx.voter_weight_record.data_is_empty() ==> spec_reclaim_delegation(ctx, coordinates)
            == Err::<ReclaimDelegationState, Error>(
            Error::Delegation(DelegationError::CannotReclaimDelegationRecordYet),
        ),
        ctx.voter_weight_record.data_is_empty() && spec_accounts_belong(
            ctx,
            coordinates,
            ctx.delegate.key,
        ) && Delegation::spec_unpack(ctx.delegation.data).unwrap().delegate == ctx.delegate.key
            ==> spec_reclaim_delegation(ctx, coordinates) is Ok,
        spec_reclaim_delegation(ctx, coordinates) is Ok ==> spec_accounts_belong(
            ctx,
            coordinates,
            ctx.delegate.key,
        ),
{
}

/// A voter weight record that is stored keeps its delegation records from being
/// reclaimed, and so does one that has been reclaimed in the transaction that is
/// still under way; once that transaction has ended, the account is gone.
pub proof fn lemma_record_blocks_reclamation(
    record: VoterWeightRecord,
    tail: Seq<u8>,
    reclaimed: ReclaimRecordState,
)
    requires
        reclaimed.voter_weight_record.data == record.spec_pack() + tail,
        spec_reclaim_record(reclaimed) is Ok,
    ensures
        !reclaimed.voter_weight_record.data_is_empty(),
        !spec_reclaim_record(reclaimed).unwrap().voter_weight_record.data_is_empty(),
        spec_reclaim_record(reclaimed).unwrap().voter_weight_record.settled().data_is_empty(),
{
    assert(record.spec_pack().len() >= 8);
}

} // verus!
