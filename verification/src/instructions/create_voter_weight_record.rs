//! Creation of a voter weight record. A record must be created for each target
//! and action it is used for, and starts with no weight.
use vstd::prelude::*;
use crate::account::{funding, spec_funding, AccountInfo, AccountState};
use crate::error::{DataError, DelegationError, Error};
use crate::governance::{lookup_realm_for_mint, spec_realm_for_mint};
use crate::pubkey::Pubkey;
use crate::state::voter_weight_record::{VoterWeightAction, VoterWeightRecord};

verus! {

/// The accounts of the creation of a voter weight record. Each field is the
/// state of an account of its own.
#[derive(Debug)]
pub struct CreateVoterWeightRecord {
    /// Pays for the storage of the record.
    pub payer: AccountInfo,
    /// The account that is to hold the record, at the address of the owner, the
    /// target and the action.
    pub voter_weight_record: AccountInfo,
    /// The governance program the realm belongs to.
    pub governance_program_id: Pubkey,
    /// The account of the realm.
    pub realm: AccountInfo,
    /// Either the realm community mint or the council mint.
    pub realm_governing_token_mint: Pubkey,
}

/// The mathematical value of the accounts of a creation.
pub struct CreateState {
    pub payer: AccountState,
    pub voter_weight_record: AccountState,
    pub governance_program_id: Pubkey,
    pub realm: AccountState,
    pub realm_governing_token_mint: Pubkey,
}

impl View for CreateVoterWeightRecord {
    type V = CreateState;

    open spec fn view(&self) -> CreateState {
        CreateState {
            payer: self.payer@,
            voter_weight_record: self.voter_weight_record@,
            governance_program_id: self.governance_program_id,
            realm: self.realm@,
            realm_governing_token_mint: self.realm_governing_token_mint,
        }
    }
}

/// The record that a creation stores: of the realm and the mint of the
/// accounts, without weight, and expired from the start.
pub open spec fn spec_created(
    ctx: CreateState,
    governing_token_owner: Pubkey,
    target: Pubkey,
    action: VoterWeightAction,
) -> VoterWeightRecord {
    VoterWeightRecord {
        realm: ctx.realm.key,
        governing_token_mint: ctx.realm_governing_token_mint,
        governing_token_owner,
        voter_weight: 0,
        voter_weight_expiry: Some(0u64),
        weight_action: Some(action),
        weight_action_target: Some(target),
        reserved: crate::codec::spec_reserved_from(Seq::new(8, |i: int| 0u8)),
    }
}

/// Whether the account of the record lies at the address derived for the realm
/// and the mint of the accounts and the owner, the target and the action.
pub open spec fn spec_at_address(
    ctx: CreateState,
    governing_token_owner: Pubkey,
    target: Pubkey,
    action: VoterWeightAction,
) -> bool {
    VoterWeightRecord::spec_pda_address(
        ctx.realm.key,
        ctx.realm_governing_token_mint,
        governing_token_owner,
        target,
        Some(action),
    ) matches Some(found) && found.0 == ctx.voter_weight_record.key@
}

/// The outcome of a creation: the accounts after it, or the error.
///
/// No record is created for revoking a vote, nor in a realm that the governance
/// program does not hold with this mint. The account must lie at the address
/// derived for the record, and must not exist yet, which shows in its being
/// without data and under the system program: a record that exists is never
/// created anew. The payer must hold what the account lacks of the balance that
/// a new account needs. Then the account holds the record, without weight and
/// expired from the start, under this program.
pub open spec fn spec_create(
    ctx: CreateState,
    governing_token_owner: Pubkey,
    target: Pubkey,
    action: VoterWeightAction,
    rent_minimum: u64,
) -> Result<CreateState, Error> {
    let paid = spec_funding(ctx.voter_weight_record.lamports, rent_minimum).spec_lamports();
    if action == VoterWeightAction::RevokeVote {
        Err(Error::Delegation(DelegationError::InvalidActionType))
    } else if let Err(code) = spec_realm_for_mint(
        ctx.governance_program_id,
        ctx.realm,
        ctx.realm_governing_token_mint,
    ) {
        Err(Error::Governance(code))
    } else if !spec_at_address(ctx, governing_token_owner, target, action) {
        Err(Error::InvalidAddress)
    } else if !ctx.voter_weight_record.data_is_empty() || ctx.voter_weight_record.owner
        != Pubkey::spec_default() {
        Err(Error::AccountInUse)
    } else if ctx.payer.lamports < paid {
        Err(Error::InsufficientFunds)
    } else {
        Ok(
            CreateState {
                payer: AccountState {
                    key: ctx.payer.key,
                    owner: ctx.payer.owner,
                    lamports: (ctx.payer.lamports - paid) as u64,
                    data: ctx.payer.data,
                },
                voter_weight_record: AccountState {
                    key: ctx.voter_weight_record.key,
                    owner: crate::spec_id(),
                    lamports: (ctx.voter_weight_record.lamports + paid) as u64,
                    data: spec_created(ctx, governing_token_owner, target, action).spec_stored(),
                },
                ..ctx
            },
        )
    }
}

/// Creates the voter weight record of `governing_token_owner` for `action` on
/// `target`. `rent_minimum` is the balance the host asks for an account of the
/// size of a voter weight record. On an error nothing changes.
pub fn create_voter_weight_record(
    ctx: &mut CreateVoterWeightRecord,
    governing_token_owner: Pubkey,
    target: Pubkey,
    action: VoterWeightAction,
    rent_minimum: u64,
) -> (r: Result<(), Error>)
    ensures
        match spec_create(old(ctx)@, governing_token_owner, target, action, rent_minimum) {
            Ok(state) => r is Ok && final(ctx)@ == state,
            Err(e) => r == Err::<(), Error>(e) && final(ctx)@ == old(ctx)@,
        },
{
    if action == VoterWeightAction::RevokeVote {
        return Err(Error::Delegation(DelegationError::InvalidActionType));
    }
    match lookup_realm_for_mint(
        &ctx.governance_program_id,
        &ctx.realm,
        &ctx.realm_governing_token_mint,
    ) {
        Ok(_) => {},
        Err(code) => {
            return Err(Error::Governance(code));
        },
    }
    match VoterWeightRecord::try_get_pda_address(
        &ctx.realm.key,
        &ctx.realm_governing_token_mint,
        &governing_token_owner,
        &target,
        Some(action),
    ) {
        Some(address) => {
            proof {
                crate::pubkey::lemma_pubkey_ext(address, ctx.voter_weight_record.key);
            }
            if address != ctx.voter_weight_record.key {
                return Err(Error::InvalidAddress);
            }
        },
        None => {
            return Err(Error::InvalidAddress);
        },
    }
    if !ctx.voter_weight_record.data_is_empty() || ctx.voter_weight_record.owner
        != Pubkey::default() {
        return Err(Error::AccountInUse);
    }
    let paid = funding(ctx.voter_weight_record.lamports, rent_minimum).lamports();
    if ctx.payer.lamports < paid {
        return Err(Error::InsufficientFunds);
    }
    let reserved: [u8; 8] = [0u8;8];
    proof {
        assert(reserved@ =~= Seq::new(8, |i: int| 0u8));
        crate::codec::lemma_reserved_from_view(reserved);
    }
    let record = VoterWeightRecord {
        realm: ctx.realm.key,
        governing_token_mint: ctx.realm_governing_token_mint,
        governing_token_owner,
        voter_weight: 0,
        // Set expiry to expired
        voter_weight_expiry: Some(0),
        weight_action: Some(action),
        weight_action_target: Some(target),
        reserved,
    };
    ctx.payer.lamports = ctx.payer.lamports - paid;
    ctx.voter_weight_record.lamports = ctx.voter_weight_record.lamports + paid;
    ctx.voter_weight_record.owner = crate::id();
    ctx.voter_weight_record.data = record.stored();
    Ok(())
}

/// A creation that goes through leaves an account that holds the new record,
/// without weight and expired from the start.
pub proof fn lemma_create_stores_record(
    ctx: CreateState,
    governing_token_owner: Pubkey,
    target: Pubkey,
    action: VoterWeightAction,
    rent_minimum: u64,
)
    requires
        spec_create(ctx, governing_token_owner, target, action, rent_minimum) is Ok,
    ensures
        ({
            let done = spec_create(
                ctx,
                governing_token_owner,
                target,
                action,
                rent_minimum,
            ).unwrap();
            let record = spec_created(ctx, governing_token_owner, target, action);
            &&& VoterWeightRecord::spec_unpack(done.voter_weight_record.data) == Ok::<
                VoterWeightRecord,
                DataError,
            >(record)
            &&& record.voter_weight == 0
            &&& record.voter_weight_expiry == Some(0u64)
            &&& done.voter_weight_record.data.len() == VoterWeightRecord::spec_size()
            &&& done.voter_weight_record.lamports >= rent_minimum
            &&& spec_at_address(ctx, governing_token_owner, target, action)
        }),
{
    spec_created(ctx, governing_token_owner, target, action).lemma_stored();
}

/// A record that exists is never created anew: where the account holds data,
/// the creation fails and leaves the record with the weight and the expiry that
/// it has, whatever the owner, the target and the action.
pub proof fn lemma_create_keeps_what_exists(
    ctx: CreateState,
    governing_token_owner: Pubkey,
    target: Pubkey,
    action: VoterWeightAction,
    rent_minimum: u64,
)
    requires
        !ctx.voter_weight_record.data_is_empty(),
    ensures
        spec_create(ctx, governing_token_owner, target, action, rent_minimum) is Err,
        action != VoterWeightAction::RevokeVote && spec_realm_for_mint(
            ctx.governance_program_id,
            ctx.realm,
            ctx.realm_governing_token_mint,
        ) is Ok && spec_at_address(ctx, governing_token_owner, target, action) ==> spec_create(
            ctx,
            governing_token_owner,
            target,
            action,
            rent_minimum,
        ) == Err::<CreateState, Error>(Error::AccountInUse),
{
}

} // verus!
