//! Aggregation: folds delegators' voter weight into a delegate's voter weight
//! record, each source once, and opens the window in which the record is fresh.
use vstd::prelude::*;
use crate::account::{
    account_states, duplicate_accounts, spec_store, store, AccountInfo, AccountState,
};
use crate::error::{DelegationError, Error};
use crate::governance::{
    lookup_token_owner_record, spec_token_owner_record, token_owner_record, TokenOwnerRecord,
};
use crate::pubkey::{find_program_address, program_address, Pubkey};
use crate::state::delegation::Delegation;
use crate::state::settings::Settings;
use crate::state::voter_weight_record::{
    encode_action, spec_encode_action, VoterWeightAction, VoterWeightRecord,
};

verus! {

/// For how many slots an aggregated record stays fresh: about a minute, enough
/// to aggregate over several transactions and then cast the vote.
pub const APPROX_SLOTS_PER_MINUTE: u64 = 150;

/// The accounts of an aggregation. Each field is the state of an account of its
/// own.
///
/// For each source of voter weight, the further accounts hold three accounts in
/// this order: the voter weight record that the voter weight source produced,
/// the token owner record of the delegator, and the account at the address of
/// the delegator's delegation record.
#[derive(Debug)]
pub struct UpdateVoterWeightRecord {
    /// The delegate, who aggregates.
    pub delegate: Pubkey,
    /// Pays for the storage of the delegation records.
    pub payer: AccountInfo,
    /// The settings of the realm and mint of the record.
    pub settings: Settings,
    /// The delegate's voter weight record.
    pub voter_weight_record: VoterWeightRecord,
    /// The governance program the realm belongs to.
    pub governance_program_id: Pubkey,
    /// The realm.
    pub realm: Pubkey,
}

/// The mathematical value of the accounts of an aggregation.
pub struct UpdateState {
    pub delegate: Pubkey,
    pub payer: AccountState,
    pub settings: Settings,
    pub voter_weight_record: VoterWeightRecord,
    pub governance_program_id: Pubkey,
    pub realm: Pubkey,
}

impl View for UpdateVoterWeightRecord {
    type V = UpdateState;

    open spec fn view(&self) -> UpdateState {
        UpdateState {
            delegate: self.delegate,
            payer: self.payer@,
            settings: self.settings,
            voter_weight_record: self.voter_weight_record,
            governance_program_id: self.governance_program_id,
            realm: self.realm,
        }
    }
}

impl UpdateVoterWeightRecord {
    /// A copy of the accounts.
    pub fn duplicate(&self) -> (r: UpdateVoterWeightRecord)
        ensures
            r@ == self@,
    {
        UpdateVoterWeightRecord {
            delegate: self.delegate,
            payer: self.payer.duplicate(),
            settings: self.settings,
            voter_weight_record: self.voter_weight_record,
            governance_program_id: self.governance_program_id,
            realm: self.realm,
        }
    }
}

/// The seeds of the address of the delegation record that an aggregation
/// creates for a delegator: those of the realm, the mint, the action and the
/// target of the delegate's record, and of the delegator.
pub open spec fn spec_delegation_seeds(ctx: UpdateState, delegator: Pubkey) -> Seq<Seq<u8>> {
    Delegation::spec_pda_seeds(
        ctx.realm,
        ctx.voter_weight_record.governing_token_mint,
        delegator,
        ctx.voter_weight_record.weight_action_target.unwrap(),
        spec_encode_action(ctx.voter_weight_record.weight_action),
    )
}

/// Whether the delegate may aggregate the weight of a token owner: the owner's
/// own, always; another's, where that owner has named the delegate.
pub open spec fn spec_may_aggregate(delegate: Pubkey, token_owner: TokenOwnerRecord) -> bool {
    token_owner.governing_token_owner == delegate || token_owner.governance_delegate == Some(
        delegate,
    )
}

/// Whether folding in one source would take the weight of the record beyond
/// `u64`: the source passes every check, and the sum is too large.
pub open spec fn spec_delegator_overflows(
    ctx: UpdateState,
    source: AccountState,
    token_owner: TokenOwnerRecord,
    delegation: AccountState,
) -> bool {
    &&& spec_may_aggregate(ctx.delegate, token_owner)
    &&& source.owner == ctx.settings.voter_weight_source
    &&& delegation.data_is_empty()
    &&& VoterWeightRecord::spec_unpack(source.data) matches Ok(to_aggregate)
    &&& ctx.voter_weight_record.aggregate_overflows(to_aggregate)
}

/// The outcome of folding in one source, given the delegator's token owner
/// record: the accounts of the aggregation and the delegation account after
/// it, or the error.
///
/// The delegate must be entitled to the owner's weight; the source must be
/// under the program that the settings name; the delegation account must hold
/// no data; the source must hold a voter weight record of the same mint and
/// realm as the delegate's. Then the weight of the source is added to the
/// delegate's record, and a delegation record with the delegate and that weight
/// is created at the delegator's address.
pub open spec fn spec_aggregate_delegator(
    ctx: UpdateState,
    source: AccountState,
    token_owner: TokenOwnerRecord,
    delegation: AccountState,
    rent_minimum: u64,
) -> Result<(UpdateState, AccountState), Error> {
    if !spec_may_aggregate(ctx.delegate, token_owner) {
        Err(Error::Delegation(DelegationError::VoterWeightNotDelegatedToDelegate))
    } else if source.owner != ctx.settings.voter_weight_source {
        Err(Error::Delegation(DelegationError::InvalidVoterWeightRecordSource))
    } else if !delegation.data_is_empty() {
        Err(Error::Delegation(DelegationError::VoterWeightAlreadyDelegated))
    } else {
        match VoterWeightRecord::spec_unpack(source.data) {
            Err(e) => Err(Error::Data(e)),
            Ok(to_aggregate) => match ctx.voter_weight_record.spec_try_aggregate(to_aggregate) {
                Err(e) => Err(Error::Delegation(e)),
                Ok(sum) => {
                    let seeds = spec_delegation_seeds(ctx, token_owner.governing_token_owner);
                    match program_address(seeds, crate::spec_id()@) {
                        None => Err(
                            Error::Delegation(DelegationError::IncorrectDelegationAddress),
                        ),
                        Some((_, bump)) => match Delegation::spec_try_create(
                            delegation,
                            ctx.payer,
                            seeds,
                            bump,
                            Delegation {
                                delegate: ctx.delegate,
                                voter_weight: to_aggregate.voter_weight,
                            },
                            rent_minimum,
                        ) {
                            Err(e) => Err(e),
                            Ok((created, payer)) => Ok(
                                (
                                    UpdateState {
                                        delegate: ctx.delegate,
                                        payer,
                                        settings: ctx.settings,
                                        voter_weight_record: VoterWeightRecord {
                                            voter_weight: sum,
                                            ..ctx.voter_weight_record
                                        },
                                        governance_program_id: ctx.governance_program_id,
                                        realm: ctx.realm,
                                    },
                                    created,
                                ),
                            ),
                        },
                    }
                },
            },
        }
    }
}

/// Folds in one source where the sum stays within `u64`, and reports `None`,
/// with nothing changed, where it would not.
fn fold_delegator(
    ctx: &mut UpdateVoterWeightRecord,
    source_info: &AccountInfo,
    token_owner_record: &TokenOwnerRecord,
    delegation_info: &mut AccountInfo,
    rent_minimum: u64,
) -> (r: Option<Result<(), Error>>)
    requires
        old(ctx).voter_weight_record.weight_action_target is Some,
    ensures
        r is None <==> spec_delegator_overflows(
            old(ctx)@,
            source_info@,
            *token_owner_record,
            old(delegation_info)@,
        ),
        r is None ==> final(ctx)@ == old(ctx)@ && final(delegation_info)@ == old(delegation_info)@,
        r matches Some(outcome) ==> match spec_aggregate_delegator(
            old(ctx)@,
            source_info@,
            *token_owner_record,
            old(delegation_info)@,
            rent_minimum,
        ) {
            Ok((state, created)) => outcome is Ok && final(ctx)@ == state && final(delegation_info)@ == created,
            Err(e) => outcome == Err::<(), Error>(e) && final(ctx)@ == old(ctx)@ && final(delegation_info)@ == old(delegation_info)@,
        },
{
    // You can always aggregate your own voter weight.
    if token_owner_record.governing_token_owner != ctx.delegate {
        match token_owner_record.governance_delegate {
            None => {
                return Some(
                    Err(Error::Delegation(DelegationError::VoterWeightNotDelegatedToDelegate)),
                );
            },
            Some(named) => {
                if named != ctx.delegate {
                    return Some(
                        Err(
                            Error::Delegation(DelegationError::VoterWeightNotDelegatedToDelegate),
                        ),
                    );
                }
            },
        }
    }
    if source_info.owner != ctx.settings.voter_weight_source {
        return Some(Err(Error::Delegation(DelegationError::InvalidVoterWeightRecordSource)));
    }
    if !delegation_info.data_is_empty() {
        return Some(Err(Error::Delegation(DelegationError::VoterWeightAlreadyDelegated)));
    }
    let to_aggregate = match VoterWeightRecord::unpack(&source_info.data) {
        Ok(record) => record,
        Err(e) => {
            return Some(Err(Error::Data(e)));
        },
    };
    if ctx.voter_weight_record.governing_token_mint == to_aggregate.governing_token_mint
        && ctx.voter_weight_record.realm == to_aggregate.realm && to_aggregate.voter_weight
        > u64::MAX - ctx.voter_weight_record.voter_weight {
        return None;
    }
    let sum = match ctx.voter_weight_record.try_aggregate(&to_aggregate) {
        Ok(sum) => sum,
        Err(e) => {
            return Some(Err(Error::Delegation(e)));
        },
    };
    let encoded_action = encode_action(ctx.voter_weight_record.weight_action);
    let target = ctx.voter_weight_record.weight_action_target.unwrap();
    let seeds = Delegation::get_pda_seeds(
        &ctx.realm,
        &ctx.voter_weight_record.governing_token_mint,
        &token_owner_record.governing_token_owner,
        &target,
        &encoded_action,
    );
    let bump = match find_program_address(&seeds, &crate::id()) {
        Some((_, bump)) => bump,
        None => {
            return Some(Err(Error::Delegation(DelegationError::IncorrectDelegationAddress)));
        },
    };
    let delegation = Delegation {
        delegate: ctx.delegate,
        voter_weight: to_aggregate.voter_weight,
    };
    match Delegation::try_create(
        delegation_info,
        &mut ctx.payer,
        &seeds,
        bump,
        &delegation,
        rent_minimum,
    ) {
        Ok(()) => {},
        Err(e) => {
            return Some(Err(e));
        },
    }
    ctx.voter_weight_record.voter_weight = sum;
    Some(Ok(()))
}

/// Folds the voter weight of one source into the delegate's record, given the
/// delegator's token owner record, and creates the delegator's delegation
/// record. `rent_minimum` is the balance the host asks for an account of the
/// size of a delegation record. On an error nothing changes.
pub fn aggregate_delegator(
    ctx: &mut UpdateVoterWeightRecord,
    source_info: &AccountInfo,
    token_owner_record: &TokenOwnerRecord,
    delegation_info: &mut AccountInfo,
    rent_minimum: u64,
) -> (r: Result<(), Error>)
    requires
        old(ctx).voter_weight_record.weight_action_target is Some,
        !spec_delegator_overflows(
            old(ctx)@,
            source_info@,
            *token_owner_record,
            old(delegation_info)@,
        ),
    ensures
        match spec_aggregate_delegator(
            old(ctx)@,
            source_info@,
            *token_owner_record,
            old(delegation_info)@,
            rent_minimum,
        ) {
            Ok((state, created)) => r is Ok && final(ctx)@ == state && final(delegation_info)@
                == created,
            Err(e) => r == Err::<(), Error>(e) && final(ctx)@ == old(ctx)@ && final(delegation_info)@ == old(delegation_info)@,
        },
{
    fold_delegator(ctx, source_info, token_owner_record, delegation_info, rent_minimum).unwrap()
}

/// The source of the group at position `group`: the first of its three
/// accounts.
pub open spec fn spec_group_source(accounts: Seq<AccountState>, group: int) -> AccountState {
    accounts[3 * group]
}

/// The account of the delegator's token owner record of the group at position
/// `group`: the second of its three accounts.
pub open spec fn spec_group_owner(accounts: Seq<AccountState>, group: int) -> AccountState {
    accounts[3 * group + 1]
}

/// The delegation account of the group at position `group`: the third of its
/// three accounts.
pub open spec fn spec_group_delegation(accounts: Seq<AccountState>, group: int) -> AccountState {
    accounts[3 * group + 2]
}

/// The outcome of folding in the group of accounts at position `group`: the
/// accounts after it, or the error, or `None` where the weight would leave
/// `u64`. The delegator's token owner record is what the governance program
/// reads from the second account of the group, for the realm and mint of the
/// delegate's record.
pub open spec fn spec_aggregate_group(
    ctx: UpdateState,
    accounts: Seq<AccountState>,
    group: int,
    rent_minimum: u64,
) -> Option<Result<(UpdateState, Seq<AccountState>), Error>> {
    let source = spec_group_source(accounts, group);
    let delegation = spec_group_delegation(accounts, group);
    match spec_token_owner_record(
        ctx.governance_program_id,
        spec_group_owner(accounts, group),
        ctx.voter_weight_record.realm,
        ctx.voter_weight_record.governing_token_mint,
    ) {
        Err(code) => Some(Err(Error::Governance(code))),
        Ok(token_owner) => if spec_delegator_overflows(ctx, source, token_owner, delegation) {
            None
        } else {
            match spec_aggregate_delegator(ctx, source, token_owner, delegation, rent_minimum) {
                Err(e) => Some(Err(e)),
                Ok((state, created)) => Some(Ok((state, spec_store(accounts, created)))),
            }
        },
    }
}

/// The outcome of folding in the first `groups` groups of accounts, in order,
/// stopping at the first that fails.
pub open spec fn spec_aggregate_groups(
    ctx: UpdateState,
    accounts: Seq<AccountState>,
    groups: nat,
    rent_minimum: u64,
) -> Option<Result<(UpdateState, Seq<AccountState>), Error>>
    decreases groups,
{
    if groups == 0 {
        Some(Ok((ctx, accounts)))
    } else {
        match spec_aggregate_groups(ctx, accounts, (groups - 1) as nat, rent_minimum) {
            Some(Ok((state, stored))) => spec_aggregate_group(
                state,
                stored,
                groups - 1,
                rent_minimum,
            ),
            other => other,
        }
    }
}

/// The outcome of an aggregation at slot `slot`: the accounts after it, or the
/// error, or `None` where the aggregation cannot be carried out: the record
/// names no target, so that no delegation record has an address, or the weight
/// or the expiry would leave `u64`.
///
/// The realm must be that of the record, and the further accounts must come in
/// groups of three. Every group is folded in, in order. Then the record expires
/// `APPROX_SLOTS_PER_MINUTE` slots after `slot`, and takes the action and the
/// target that the aggregation declares.
pub open spec fn spec_update(
    ctx: UpdateState,
    accounts: Seq<AccountState>,
    voter_weight_action: VoterWeightAction,
    target: Option<Pubkey>,
    slot: u64,
    rent_minimum: u64,
) -> Option<Result<(UpdateState, Seq<AccountState>), Error>> {
    if ctx.voter_weight_record.weight_action_target is None {
        None
    } else if ctx.realm != ctx.voter_weight_record.realm {
        Some(Err(Error::Delegation(DelegationError::InvalidRealm)))
    } else if accounts.len() % 3 != 0 {
        Some(Err(Error::Delegation(DelegationError::MissingDelegatorAccounts)))
    } else {
        match spec_aggregate_groups(ctx, accounts, accounts.len() / 3, rent_minimum) {
            Some(Ok((state, stored))) => if slot + APPROX_SLOTS_PER_MINUTE > u64::MAX {
                None
            } else {
                Some(
                    Ok(
                        (
                            UpdateState {
                                delegate: state.delegate,
                                payer: state.payer,
                                settings: state.settings,
                                voter_weight_record: VoterWeightRecord {
                                    voter_weight_expiry: Some(
                                        (slot + APPROX_SLOTS_PER_MINUTE) as u64,
                                    ),
                                    weight_action: Some(voter_weight_action),
                                    weight_action_target: target,
                                    ..state.voter_weight_record
                                },
                                governance_program_id: state.governance_program_id,
                                realm: state.realm,
                            },
                            stored,
                        ),
                    ),
                )
            },
            other => other,
        }
    }
}

/// Once a group has failed, or the weight has left `u64`, further groups change
/// nothing of the outcome.
pub proof fn lemma_groups_stop(
    ctx: UpdateState,
    accounts: Seq<AccountState>,
    failed: nat,
    groups: nat,
    rent_minimum: u64,
)
    requires
        failed <= groups,
        !(spec_aggregate_groups(ctx, accounts, failed, rent_minimum) matches Some(Ok(_))),
    ensures
        spec_aggregate_groups(ctx, accounts, groups, rent_minimum) == spec_aggregate_groups(
            ctx,
            accounts,
            failed,
            rent_minimum,
        ),
    decreases groups,
{
    if groups > failed {
        lemma_groups_stop(ctx, accounts, failed, (groups - 1) as nat, rent_minimum);
    }
}

/// Folds in every group of `accounts`, in order, until one fails.
#[verifier::loop_isolation(false)]
fn fold_groups(
    ctx: &mut UpdateVoterWeightRecord,
    accounts: &mut Vec<AccountInfo>,
    rent_minimum: u64,
) -> (r: Option<Result<(), Error>>)
    requires
        old(ctx).voter_weight_record.weight_action_target is Some,
        old(accounts)@.len() % 3 == 0,
    ensures
        match spec_aggregate_groups(
            old(ctx)@,
            account_states(old(accounts)@),
            old(accounts)@.len() / 3,
            rent_minimum,
        ) {
            Some(Ok((state, stored))) => r matches Some(Ok(_)) && final(ctx)@ == state
                && account_states(final(accounts)@) == stored,
            Some(Err(e)) => r == Some(Err::<(), Error>(e)),
            None => r is None,
        },
{
    let groups: usize = accounts.len() / 3;
    let mut i: usize = 0;
    while i < groups
        invariant
            i <= groups,
            groups == old(accounts)@.len() / 3,
            accounts@.len() == old(accounts)@.len(),
            ctx.voter_weight_record.weight_action_target is Some,
            spec_aggregate_groups(
                old(ctx)@,
                account_states(old(accounts)@),
                i as nat,
                rent_minimum,
            ) == Some(
                Ok::<(UpdateState, Seq<AccountState>), Error>((ctx@, account_states(accounts@))),
            ),
        decreases groups - i,
    {
        let ghost before = ctx@;
        let ghost stored = account_states(accounts@);
        let found = lookup_token_owner_record(
            &ctx.governance_program_id,
            &accounts[3 * i + 1],
            &ctx.voter_weight_record.realm,
            &ctx.voter_weight_record.governing_token_mint,
        );
        let token_owner = match found {
            Ok(record) => record,
            Err(code) => {
                proof {
                    lemma_groups_stop(
                        old(ctx)@,
                        account_states(old(accounts)@),
                        (i + 1) as nat,
                        groups as nat,
                        rent_minimum,
                    );
                }
                return Some(Err(Error::Governance(code)));
            },
        };
        proof {
            crate::codec::lemma_pubkey_from_view(token_owner.governing_token_owner);
            if let Some(named) = token_owner.governance_delegate {
                crate::codec::lemma_pubkey_from_view(named);
            }
            assert(spec_token_owner_record(
                before.governance_program_id,
                stored[3 * i + 1],
                before.voter_weight_record.realm,
                before.voter_weight_record.governing_token_mint,
            ) == Ok::<TokenOwnerRecord, u64>(token_owner));
        }
        let source = accounts[3 * i].duplicate();
        let mut delegation = accounts[3 * i + 2].duplicate();
        match fold_delegator(ctx, &source, &token_owner, &mut delegation, rent_minimum) {
            None => {
                proof {
                    lemma_groups_stop(
                        old(ctx)@,
                        account_states(old(accounts)@),
                        (i + 1) as nat,
                        groups as nat,
                        rent_minimum,
                    );
                }
                return None;
            },
            Some(Err(e)) => {
                proof {
                    lemma_groups_stop(
                        old(ctx)@,
                        account_states(old(accounts)@),
                        (i + 1) as nat,
                        groups as nat,
                        rent_minimum,
                    );
                }
                return Some(Err(e));
            },
            Some(Ok(())) => {
                store(accounts, &delegation);
            },
        }
        i += 1;
    }
    Some(Ok(()))
}

/// Carries out an aggregation, and reports `None`, with nothing changed, where
/// it cannot be carried out.
fn run_update(
    ctx: &mut UpdateVoterWeightRecord,
    remaining_accounts: &mut Vec<AccountInfo>,
    voter_weight_action: VoterWeightAction,
    target: Option<Pubkey>,
    slot: u64,
    rent_minimum: u64,
) -> (r: Option<Result<(), Error>>)
    ensures
        match spec_update(
            old(ctx)@,
            account_states(old(remaining_accounts)@),
            voter_weight_action,
            target,
            slot,
            rent_minimum,
        ) {
            Some(Ok((state, stored))) => r matches Some(Ok(_)) && final(ctx)@ == state
                && account_states(final(remaining_accounts)@) == stored,
            Some(Err(e)) => r == Some(Err::<(), Error>(e)) && final(ctx)@ == old(ctx)@
                && account_states(final(remaining_accounts)@) == account_states(
                old(remaining_accounts)@,
            ),
            None => r is None && final(ctx)@ == old(ctx)@ && account_states(
                final(remaining_accounts)@,
            ) == account_states(old(remaining_accounts)@),
        },
{
    if ctx.voter_weight_record.weight_action_target.is_none() {
        return None;
    }
    if ctx.realm != ctx.voter_weight_record.realm {
        return Some(Err(Error::Delegation(DelegationError::InvalidRealm)));
    }
    if remaining_accounts.len() % 3 != 0 {
        return Some(Err(Error::Delegation(DelegationError::MissingDelegatorAccounts)));
    }
    let mut state = ctx.duplicate();
    let mut accounts = duplicate_accounts(remaining_accounts);
    match fold_groups(&mut state, &mut accounts, rent_minimum) {
        None => {
            return None;
        },
        Some(Err(e)) => {
            return Some(Err(e));
        },
        Some(Ok(())) => {},
    }
    // Give some time to spend multiple transactions aggregating.
    if slot > u64::MAX - APPROX_SLOTS_PER_MINUTE {
        return None;
    }
    state.voter_weight_record.voter_weight_expiry = Some(slot + APPROX_SLOTS_PER_MINUTE);
    state.voter_weight_record.weight_action = Some(voter_weight_action);
    state.voter_weight_record.weight_action_target = target;
    *ctx = state;
    *remaining_accounts = accounts;
    Some(Ok(()))
}

/// Aggregates delegated voter weight into the delegate's voter weight record.
///
/// `remaining_accounts` holds, for each source of voter weight, the voter
/// weight record of the voter weight source, the token owner record of the
/// delegator and the account of the delegator's delegation record. `slot` is
/// the slot of the clock, `rent_minimum` the balance the host asks for an
/// account of the size of a delegation record. On an error nothing changes.
pub fn update_voter_weight_record(
    ctx: &mut UpdateVoterWeightRecord,
    remaining_accounts: &mut Vec<AccountInfo>,
    voter_weight_action: VoterWeightAction,
    target: Option<Pubkey>,
    slot: u64,
    rent_minimum: u64,
) -> (r: Result<(), Error>)
    requires
        spec_update(
            old(ctx)@,
            account_states(old(remaining_accounts)@),
            voter_weight_action,
            target,
            slot,
            rent_minimum,
        ) is Some,
    ensures
        match spec_update(
            old(ctx)@,
            account_states(old(remaining_accounts)@),
            voter_weight_action,
            target,
            slot,
            rent_minimum,
        ).unwrap() {
            Ok((state, stored)) => r is Ok && final(ctx)@ == state && account_states(
                final(remaining_accounts)@,
            ) == stored,
            Err(e) => r == Err::<(), Error>(e) && final(ctx)@ == old(ctx)@ && account_states(
                final(remaining_accounts)@,
            ) == account_states(old(remaining_accounts)@),
        },
{
    run_update(ctx, remaining_accounts, voter_weight_action, target, slot, rent_minimum).unwrap()
}

/// Aggregates delegated voter weight where the aggregation can be carried out,
/// and reports `None`, with nothing changed, where it cannot: where the record
/// names no target, or the weight or the expiry would leave `u64`.
pub fn try_update_voter_weight_record(
    ctx: &mut UpdateVoterWeightRecord,
    remaining_accounts: &mut Vec<AccountInfo>,
    voter_weight_action: VoterWeightAction,
    target: Option<Pubkey>,
    slot: u64,
    rent_minimum: u64,
) -> (r: Option<Result<(), Error>>)
    ensures
        match spec_update(
            old(ctx)@,
            account_states(old(remaining_accounts)@),
            voter_weight_action,
            target,
            slot,
            rent_minimum,
        ) {
            Some(Ok((state, stored))) => r matches Some(Ok(_)) && final(ctx)@ == state
                && account_states(final(remaining_accounts)@) == stored,
            Some(Err(e)) => r == Some(Err::<(), Error>(e)) && final(ctx)@ == old(ctx)@
                && account_states(final(remaining_accounts)@) == account_states(
                old(remaining_accounts)@,
            ),
            None => r is None && final(ctx)@ == old(ctx)@ && account_states(
                final(remaining_accounts)@,
            ) == account_states(old(remaining_accounts)@),
        },
{
    if ctx.voter_weight_record.weight_action_target.is_some() && slot <= u64::MAX
        - APPROX_SLOTS_PER_MINUTE && weights_fit(ctx, remaining_accounts) {
        proof {
            lemma_groups_go_on(
                ctx@,
                account_states(remaining_accounts@),
                remaining_accounts@.len() / 3,
                remaining_accounts@.len() / 3,
                rent_minimum,
            );
        }
        Some(
            update_voter_weight_record(
                ctx,
                remaining_accounts,
                voter_weight_action,
                target,
                slot,
                rent_minimum,
            ),
        )
    } else {
        // The aggregation fails or cannot be carried out.
        run_update(ctx, remaining_accounts, voter_weight_action, target, slot, rent_minimum)
    }
}

/// Whether the weight of the record and the weights of all the sources fit in
/// `u64` together, so that no fold can take the weight beyond it.
fn weights_fit(ctx: &UpdateVoterWeightRecord, accounts: &Vec<AccountInfo>) -> (r: bool)
    ensures
        r == (ctx.voter_weight_record.voter_weight + spec_weights(
            account_states(accounts@),
            accounts@.len() / 3,
        ) <= u64::MAX),
{
    let len: usize = accounts.len();
    let groups: usize = len / 3;
    let mut total: u64 = ctx.voter_weight_record.voter_weight;
    let mut i: usize = 0;
    while i < groups
        invariant
            i <= groups,
            groups == accounts@.len() / 3,
            accounts@.len() == len,
            total == ctx.voter_weight_record.voter_weight + spec_weights(
                account_states(accounts@),
                i as nat,
            ),
        decreases groups - i,
    {
        let weight = match VoterWeightRecord::unpack(&accounts[3 * i].data) {
            Ok(record) => record.voter_weight,
            Err(_) => 0,
        };
        assert(weight == spec_source_weight(
            spec_group_source(account_states(accounts@), i as int),
        ));
        if weight > u64::MAX - total {
            proof {
                lemma_weights_grow(
                    account_states(accounts@),
                    (i + 1) as nat,
                    groups as nat,
                );
            }
            return false;
        }
        total = total + weight;
        i += 1;
    }
    true
}

/// The sum of the weights of the sources grows with the number of groups.
pub proof fn lemma_weights_grow(accounts: Seq<AccountState>, fewer: nat, groups: nat)
    requires
        fewer <= groups,
    ensures
        0 <= spec_weights(accounts, fewer) <= spec_weights(accounts, groups),
    decreases groups,
{
    if groups > fewer {
        lemma_weights_grow(accounts, fewer, (groups - 1) as nat);
    } else if groups > 0 {
        lemma_weights_grow(accounts, (fewer - 1) as nat, (groups - 1) as nat);
    }
}

/// Where the weight of the record and the weights of all the sources fit in
/// `u64` together, no fold takes the weight beyond it: folding in the groups
/// goes through or fails, with an error.
pub proof fn lemma_groups_go_on(
    ctx: UpdateState,
    accounts: Seq<AccountState>,
    groups: nat,
    all: nat,
    rent_minimum: u64,
)
    requires
        groups <= all,
        3 * all <= accounts.len(),
        ctx.voter_weight_record.voter_weight + spec_weights(accounts, all) <= u64::MAX,
    ensures
        spec_aggregate_groups(ctx, accounts, groups, rent_minimum) is Some,
    decreases groups,
{
    if groups > 0 {
        let last = (groups - 1) as int;
        lemma_groups_go_on(ctx, accounts, (groups - 1) as nat, all, rent_minimum);
        match spec_aggregate_groups(ctx, accounts, (groups - 1) as nat, rent_minimum) {
            Some(Ok((mid, before))) => {
                lemma_groups_trace(ctx, accounts, (groups - 1) as nat, rent_minimum);
                lemma_weights_grow(accounts, groups, all);
                assert(before[3 * last] == accounts[3 * last] || spec_holds_delegation(
                    before[3 * last],
                ));
                if spec_holds_delegation(before[3 * last]) {
                    lemma_delegation_is_no_source(before[3 * last]);
                }
            },
            _ => {},
        }
    }
}

/// A source that is not under the program that the settings name is refused as
/// an invalid source, however well-formed it is otherwise, whenever the delegate
/// is entitled to the owner's weight.
pub proof fn lemma_untrusted_source_is_refused(
    ctx: UpdateState,
    source: AccountState,
    token_owner: TokenOwnerRecord,
    delegation: AccountState,
    rent_minimum: u64,
)
    requires
        spec_may_aggregate(ctx.delegate, token_owner),
        source.owner != ctx.settings.voter_weight_source,
    ensures
        !spec_delegator_overflows(ctx, source, token_owner, delegation),
        spec_aggregate_delegator(ctx, source, token_owner, delegation, rent_minimum) == Err::<
            (UpdateState, AccountState),
            Error,
        >(Error::Delegation(DelegationError::InvalidVoterWeightRecordSource)),
{
}

/// A delegation account that already holds data is refused as already
/// delegated, whenever the delegate is entitled to the owner's weight and the
/// source is trusted.
pub proof fn lemma_populated_slot_is_refused(
    ctx: UpdateState,
    source: AccountState,
    token_owner: TokenOwnerRecord,
    delegation: AccountState,
    rent_minimum: u64,
)
    requires
        spec_may_aggregate(ctx.delegate, token_owner),
        source.owner == ctx.settings.voter_weight_source,
        !delegation.data_is_empty(),
    ensures
        !spec_delegator_overflows(ctx, source, token_owner, delegation),
        spec_aggregate_delegator(ctx, source, token_owner, delegation, rent_minimum) == Err::<
            (UpdateState, AccountState),
            Error,
        >(Error::Delegation(DelegationError::VoterWeightAlreadyDelegated)),
{
}

/// What a successful fold leaves: the delegation account lies at the address
/// derived for the delegator, whichever delegate aggregates; it holds the
/// delegation record with the delegate and the weight of the source; and the
/// record has gained exactly that weight.
pub proof fn lemma_aggregation_effect(
    ctx: UpdateState,
    source: AccountState,
    token_owner: TokenOwnerRecord,
    delegation: AccountState,
    rent_minimum: u64,
)
    requires
        !spec_delegator_overflows(ctx, source, token_owner, delegation),
        spec_aggregate_delegator(ctx, source, token_owner, delegation, rent_minimum) is Ok,
    ensures
        ({
            let (state, created) = spec_aggregate_delegator(
                ctx,
                source,
                token_owner,
                delegation,
                rent_minimum,
            ).unwrap();
            let folded = VoterWeightRecord::spec_unpack(source.data).unwrap();
            &&& VoterWeightRecord::spec_unpack(source.data) is Ok
            &&& delegation.data_is_empty()
            &&& created.key == delegation.key
            &&& program_address(
                spec_delegation_seeds(ctx, token_owner.governing_token_owner),
                crate::spec_id()@,
            ) matches Some(found) && found.0 == created.key@
            &&& created.owner == crate::spec_id()
            &&& !created.data_is_empty()
            &&& Delegation::spec_unpack(created.data) == Ok::<Delegation, crate::error::DataError>(
                Delegation { delegate: ctx.delegate, voter_weight: folded.voter_weight },
            )
            &&& state.voter_weight_record.voter_weight == ctx.voter_weight_record.voter_weight
                + folded.voter_weight
            &&& state.voter_weight_record == VoterWeightRecord {
                voter_weight: state.voter_weight_record.voter_weight,
                ..ctx.voter_weight_record
            }
        }),
{
    let folded = VoterWeightRecord::spec_unpack(source.data).unwrap();
    let delegation_record = Delegation { delegate: ctx.delegate, voter_weight: folded.voter_weight };
    delegation_record.lemma_unpack_pack(Seq::empty());
    assert(delegation_record.spec_pack() + Seq::<u8>::empty() =~= delegation_record.spec_pack());
}

/// Once a delegator's weight has been folded into a record for an action on a
/// target, no aggregation folds that delegator's weight in again for that action
/// and target, by the same delegate or by another.
///
/// The first fold succeeds for a delegator. A later fold is for the same realm,
/// mint, delegator, target and action, with any delegate, settings and source;
/// its delegation account, where it lies at the address of the first, shows
/// what the first fold left there. Then the later fold does not succeed; with
/// the account at that address, an entitled delegate and a trusted source it
/// fails as already delegated.
pub proof fn lemma_delegator_counts_once(
    first: UpdateState,
    first_source: AccountState,
    first_owner: TokenOwnerRecord,
    first_delegation: AccountState,
    later: UpdateState,
    later_source: AccountState,
    later_owner: TokenOwnerRecord,
    later_delegation: AccountState,
    rent_minimum: u64,
)
    requires
        !spec_delegator_overflows(first, first_source, first_owner, first_delegation),
        spec_aggregate_delegator(first, first_source, first_owner, first_delegation, rent_minimum)
            is Ok,
        later.realm == first.realm,
        later.voter_weight_record.governing_token_mint
            == first.voter_weight_record.governing_token_mint,
        later.voter_weight_record.weight_action_target
            == first.voter_weight_record.weight_action_target,
        later.voter_weight_record.weight_action == first.voter_weight_record.weight_action,
        later_owner.governing_token_owner == first_owner.governing_token_owner,
        later_delegation.key == first_delegation.key ==> later_delegation
            == spec_aggregate_delegator(
            first,
            first_source,
            first_owner,
            first_delegation,
            rent_minimum,
        ).unwrap().1,
    ensures
        spec_delegator_overflows(later, later_source, later_owner, later_delegation)
            || spec_aggregate_delegator(
            later,
            later_source,
            later_owner,
            later_delegation,
            rent_minimum,
        ) is Err,
        later_delegation.key == first_delegation.key && spec_may_aggregate(
            later.delegate,
            later_owner,
        ) && later_source.owner == later.settings.voter_weight_source ==> !spec_delegator_overflows(
            later,
            later_source,
            later_owner,
            later_delegation,
        ) && spec_aggregate_delegator(
            later,
            later_source,
            later_owner,
            later_delegation,
            rent_minimum,
        ) == Err::<(UpdateState, AccountState), Error>(
            Error::Delegation(DelegationError::VoterWeightAlreadyDelegated),
        ),
{
    lemma_aggregation_effect(first, first_source, first_owner, first_delegation, rent_minimum);
    crate::pubkey::lemma_pubkey_ext(later_delegation.key, first_delegation.key);
    assert(spec_delegation_seeds(later, later_owner.governing_token_owner)
        == spec_delegation_seeds(first, first_owner.governing_token_owner));
}

/// Whether an account holds a delegation record as a creation leaves it.
pub open spec fn spec_holds_delegation(account: AccountState) -> bool {
    account.data.len() == 48 && account.data.subrange(0, 8)
        == crate::state::delegation::spec_delegation_discriminator()
}

/// The weight that a source contributes: that of the voter weight record it
/// holds.
pub open spec fn spec_source_weight(source: AccountState) -> u64 {
    match VoterWeightRecord::spec_unpack(source.data) {
        Ok(record) => record.voter_weight,
        Err(_) => 0,
    }
}

/// The sum of the weights of the sources of the first `groups` groups.
pub open spec fn spec_weights(accounts: Seq<AccountState>, groups: nat) -> int
    decreases groups,
{
    if groups == 0 {
        0
    } else {
        spec_weights(accounts, (groups - 1) as nat) + spec_source_weight(
            spec_group_source(accounts, groups - 1),
        )
    }
}

/// An account that holds a delegation record holds no voter weight record.
pub proof fn lemma_delegation_is_no_source(account: AccountState)
    requires
        spec_holds_delegation(account),
    ensures
        VoterWeightRecord::spec_unpack(account.data) is Err,
        !account.data_is_empty(),
{
    assert(account.data.subrange(0, 8)[0] == 237u8);
    assert(crate::state::voter_weight_record::spec_record_discriminator()[0] == 46u8);
}

/// What folding in one group leaves of the accounts: every account keeps its
/// address; the accounts at the address of the group's delegation account hold
/// a delegation record, and the others are as before; the record has gained the
/// weight of the group's source.
pub proof fn lemma_group_trace(
    ctx: UpdateState,
    accounts: Seq<AccountState>,
    group: int,
    rent_minimum: u64,
)
    requires
        0 <= group,
        3 * group + 2 < accounts.len(),
        spec_aggregate_group(ctx, accounts, group, rent_minimum) matches Some(Ok(_)),
    ensures
        ({
            let (state, stored) = spec_aggregate_group(
                ctx,
                accounts,
                group,
                rent_minimum,
            ).unwrap().unwrap();
            &&& stored.len() == accounts.len()
            &&& accounts[3 * group].owner == ctx.settings.voter_weight_source
            &&& VoterWeightRecord::spec_unpack(accounts[3 * group].data) is Ok
            &&& accounts[3 * group + 2].data_is_empty()
            &&& forall|p: int|
                0 <= p < accounts.len() ==> (#[trigger] stored[p]).key == accounts[p].key && (
                if accounts[p].key == accounts[3 * group + 2].key {
                    spec_holds_delegation(stored[p])
                } else {
                    stored[p] == accounts[p]
                })
            &&& state.voter_weight_record.voter_weight == ctx.voter_weight_record.voter_weight
                + spec_source_weight(accounts[3 * group])
            &&& state.voter_weight_record == VoterWeightRecord {
                voter_weight: state.voter_weight_record.voter_weight,
                ..ctx.voter_weight_record
            }
            &&& state.delegate == ctx.delegate
            &&& state.settings == ctx.settings
            &&& state.governance_program_id == ctx.governance_program_id
            &&& state.realm == ctx.realm
        }),
{
    let token_owner = spec_token_owner_record(
        ctx.governance_program_id,
        accounts[3 * group + 1],
        ctx.voter_weight_record.realm,
        ctx.voter_weight_record.governing_token_mint,
    ).unwrap();
    lemma_aggregation_effect(
        ctx,
        accounts[3 * group],
        token_owner,
        accounts[3 * group + 2],
        rent_minimum,
    );
    let folded = VoterWeightRecord::spec_unpack(accounts[3 * group].data).unwrap();
    let record = Delegation { delegate: ctx.delegate, voter_weight: folded.voter_weight };
    record.lemma_unpack_pack(Seq::empty());
    assert(record.spec_pack().subrange(0, 8)
        =~= crate::state::delegation::spec_delegation_discriminator());
}

/// What folding in the first `groups` groups leaves, where all of them go
/// through.
///
/// Every account keeps its address and is as it was or holds a delegation
/// record. The delegation accounts of the groups were without data, lie at
/// addresses that differ from group to group, and hold a delegation record
/// afterwards, as does every account at one of their addresses. The sources are
/// under the program that the settings name and hold voter weight records. The
/// record has gained the weights of the sources, and nothing else of it has
/// changed.
pub proof fn lemma_groups_trace(
    ctx: UpdateState,
    accounts: Seq<AccountState>,
    groups: nat,
    rent_minimum: u64,
)
    requires
        3 * groups <= accounts.len(),
        spec_aggregate_groups(ctx, accounts, groups, rent_minimum) matches Some(Ok(_)),
    ensures
        ({
            let (state, stored) = spec_aggregate_groups(
                ctx,
                accounts,
                groups,
                rent_minimum,
            ).unwrap().unwrap();
            &&& stored.len() == accounts.len()
            &&& forall|p: int|
                0 <= p < accounts.len() ==> (#[trigger] stored[p]).key == accounts[p].key && (
                stored[p] == accounts[p] || spec_holds_delegation(stored[p]))
            &&& forall|g: int, p: int|
                0 <= g < groups && 0 <= p < accounts.len() && accounts[p].key == (
                #[trigger] spec_group_delegation(accounts, g)).key ==> spec_holds_delegation(
                    #[trigger] stored[p],
                )
            &&& forall|g: int|
                0 <= g < groups ==> (#[trigger] spec_group_delegation(
                    accounts,
                    g,
                )).data_is_empty()
            &&& forall|g: int|
                0 <= g < groups ==> (#[trigger] spec_group_source(accounts, g)).owner
                    == ctx.settings.voter_weight_source && VoterWeightRecord::spec_unpack(
                    spec_group_source(accounts, g).data,
                ) is Ok
            &&& forall|g: int, h: int|
                0 <= g < h < groups ==> (#[trigger] spec_group_delegation(accounts, g)).key != (
                #[trigger] spec_group_delegation(accounts, h)).key
            &&& state.voter_weight_record.voter_weight == ctx.voter_weight_record.voter_weight
                + spec_weights(accounts, groups)
            &&& state.voter_weight_record == VoterWeightRecord {
                voter_weight: state.voter_weight_record.voter_weight,
                ..ctx.voter_weight_record
            }
            &&& state.delegate == ctx.delegate
            &&& state.settings == ctx.settings
            &&& state.governance_program_id == ctx.governance_program_id
            &&& state.realm == ctx.realm
        }),
    decreases groups,
{
    if groups > 0 {
        let last = (groups - 1) as int;
        lemma_groups_trace(ctx, accounts, (groups - 1) as nat, rent_minimum);
        let (mid, before) = spec_aggregate_groups(
            ctx,
            accounts,
            (groups - 1) as nat,
            rent_minimum,
        ).unwrap().unwrap();
        lemma_group_trace(mid, before, last, rent_minimum);
        let (state, stored) = spec_aggregate_group(mid, before, last, rent_minimum).unwrap().unwrap();
        // The source of the last group was read as it was at the start.
        assert(before[3 * last] == accounts[3 * last]) by {
            if spec_holds_delegation(before[3 * last]) {
                lemma_delegation_is_no_source(before[3 * last]);
            }
        }
        // Its delegation account was without data, so no earlier group had
        // written to its address.
        assert(before[3 * last + 2] == accounts[3 * last + 2]) by {
            if spec_holds_delegation(before[3 * last + 2]) {
                lemma_delegation_is_no_source(before[3 * last + 2]);
            }
        }
        assert forall|g: int| 0 <= g < last implies (#[trigger] spec_group_delegation(
            accounts,
            g,
        )).key != accounts[3 * last + 2].key by {
            if accounts[3 * g + 2].key == accounts[3 * last + 2].key {
                assert(accounts[3 * last + 2].key == spec_group_delegation(accounts, g).key);
                assert(spec_holds_delegation(before[3 * last + 2]));
                lemma_delegation_is_no_source(before[3 * last + 2]);
            }
        }
        assert forall|p: int| 0 <= p < accounts.len() implies (#[trigger] stored[p]).key
            == accounts[p].key && (stored[p] == accounts[p] || spec_holds_delegation(
            stored[p],
        )) by {
            assert(before[p].key == accounts[p].key);
        }
        assert forall|g: int, p: int|
            0 <= g < groups && 0 <= p < accounts.len() && accounts[p].key == (
            #[trigger] spec_group_delegation(accounts, g)).key implies spec_holds_delegation(
            #[trigger] stored[p],
        ) by {
            assert(before[p].key == accounts[p].key);
            if g < last {
                assert(accounts[p].key == spec_group_delegation(accounts, g).key);
                assert(spec_holds_delegation(before[p]));
            }
        }
    }
}

/// An aggregation that goes through adds to the weight of the record exactly
/// the sum of the weights of its sources, so that an aggregation into a record
/// without weight yields that sum.
pub proof fn lemma_update_adds_weights(
    ctx: UpdateState,
    accounts: Seq<AccountState>,
    voter_weight_action: VoterWeightAction,
    target: Option<Pubkey>,
    slot: u64,
    rent_minimum: u64,
)
    requires
        spec_update(ctx, accounts, voter_weight_action, target, slot, rent_minimum) matches Some(
            Ok(_),
        ),
    ensures
        ({
            let (state, stored) = spec_update(
                ctx,
                accounts,
                voter_weight_action,
                target,
                slot,
                rent_minimum,
            ).unwrap().unwrap();
            &&& state.voter_weight_record.voter_weight == ctx.voter_weight_record.voter_weight
                + spec_weights(accounts, accounts.len() / 3)
            &&& state.voter_weight_record.voter_weight_expiry == Some(
                (slot + APPROX_SLOTS_PER_MINUTE) as u64,
            )
            &&& state.voter_weight_record.weight_action == Some(voter_weight_action)
            &&& state.voter_weight_record.weight_action_target == target
        }),
{
    lemma_groups_trace(ctx, accounts, accounts.len() / 3, rent_minimum);
}

/// The weights of the sources of two lists of groups, one after the other, are
/// those of the first plus those of the second.
pub proof fn lemma_weights_of_concatenation(
    first: Seq<AccountState>,
    second: Seq<AccountState>,
    groups: nat,
)
    requires
        first.len() % 3 == 0,
        3 * groups <= second.len(),
    ensures
        spec_weights(first + second, first.len() / 3 + groups) == spec_weights(
            first,
            first.len() / 3,
        ) + spec_weights(second, groups),
    decreases groups,
{
    if groups == 0 {
        lemma_weights_of_prefix(first, second, first.len() / 3);
    } else {
        lemma_weights_of_concatenation(first, second, (groups - 1) as nat);
        let whole = first + second;
        assert(whole[3 * (first.len() / 3 + groups - 1)] == second[3 * (groups - 1)]);
    }
}

/// The weights of the sources of the first groups of a list do not depend on
/// what follows the list.
pub proof fn lemma_weights_of_prefix(first: Seq<AccountState>, second: Seq<AccountState>, groups: nat)
    requires
        3 * groups <= first.len(),
    ensures
        spec_weights(first + second, groups) == spec_weights(first, groups),
    decreases groups,
{
    if groups > 0 {
        lemma_weights_of_prefix(first, second, (groups - 1) as nat);
        assert((first + second)[3 * (groups - 1)] == first[3 * (groups - 1)]);
    }
}

/// The sum does not depend on batching: where one aggregation folds in two
/// lists of groups at once, and two aggregations fold them in one after the
/// other, the weight of the record is the same in the end.
///
/// The second of the two aggregations starts from the record as the first left
/// it; its accounts hold the sources of the second list.
pub proof fn lemma_update_in_batches(
    ctx: UpdateState,
    first: Seq<AccountState>,
    second: Seq<AccountState>,
    between: UpdateState,
    seen: Seq<AccountState>,
    voter_weight_action: VoterWeightAction,
    target: Option<Pubkey>,
    slots: (u64, u64, u64),
    rent_minimum: u64,
)
    requires
        spec_update(ctx, first + second, voter_weight_action, target, slots.0, rent_minimum)
            matches Some(Ok(_)),
        spec_update(ctx, first, voter_weight_action, target, slots.1, rent_minimum) matches Some(
            Ok(_),
        ),
        between.voter_weight_record.voter_weight == spec_update(
            ctx,
            first,
            voter_weight_action,
            target,
            slots.1,
            rent_minimum,
        ).unwrap().unwrap().0.voter_weight_record.voter_weight,
        spec_update(between, seen, voter_weight_action, target, slots.2, rent_minimum)
            matches Some(Ok(_)),
        seen.len() == second.len(),
        forall|g: int|
            0 <= g < second.len() / 3 ==> spec_source_weight(
                #[trigger] spec_group_source(seen, g),
            ) == spec_source_weight(spec_group_source(second, g)),
    ensures
        spec_update(
            between,
            seen,
            voter_weight_action,
            target,
            slots.2,
            rent_minimum,
        ).unwrap().unwrap().0.voter_weight_record.voter_weight == spec_update(
            ctx,
            first + second,
            voter_weight_action,
            target,
            slots.0,
            rent_minimum,
        ).unwrap().unwrap().0.voter_weight_record.voter_weight,
{
    lemma_update_adds_weights(
        ctx,
        first + second,
        voter_weight_action,
        target,
        slots.0,
        rent_minimum,
    );
    lemma_update_adds_weights(ctx, first, voter_weight_action, target, slots.1, rent_minimum);
    lemma_update_adds_weights(between, seen, voter_weight_action, target, slots.2, rent_minimum);
    lemma_weights_of_concatenation(first, second, second.len() / 3);
    lemma_same_weights(seen, second, second.len() / 3);
    assert((first + second).len() / 3 == first.len() / 3 + second.len() / 3);
}

/// Lists whose sources have the same weights, group by group, have the same sum
/// of weights.
pub proof fn lemma_same_weights(first: Seq<AccountState>, second: Seq<AccountState>, groups: nat)
    requires
        forall|g: int|
            0 <= g < groups ==> spec_source_weight(#[trigger] spec_group_source(first, g))
                == spec_source_weight(spec_group_source(second, g)),
    ensures
        spec_weights(first, groups) == spec_weights(second, groups),
    decreases groups,
{
    if groups > 0 {
        lemma_same_weights(first, second, (groups - 1) as nat);
    }
}

/// Every source counts once: an aggregation goes through only if the delegation
/// account of each of its groups is without data and lies at an address of its
/// own, and it leaves a delegation record in each of them. So an aggregation
/// that is given an account that an earlier one has filled, or the same
/// delegation account twice, does not go through.
pub proof fn lemma_update_counts_once(
    ctx: UpdateState,
    accounts: Seq<AccountState>,
    voter_weight_action: VoterWeightAction,
    target: Option<Pubkey>,
    slot: u64,
    rent_minimum: u64,
)
    requires
        spec_update(ctx, accounts, voter_weight_action, target, slot, rent_minimum) matches Some(
            Ok(_),
        ),
    ensures
        ({
            let (state, stored) = spec_update(
                ctx,
                accounts,
                voter_weight_action,
                target,
                slot,
                rent_minimum,
            ).unwrap().unwrap();
            &&& stored.len() == accounts.len()
            &&& forall|g: int|
                0 <= g < accounts.len() / 3 ==> (#[trigger] spec_group_delegation(
                    accounts,
                    g,
                )).data_is_empty()
            &&& forall|g: int|
                0 <= g < accounts.len() / 3 ==> !(#[trigger] spec_group_delegation(
                    stored,
                    g,
                )).data_is_empty()
            &&& forall|g: int, h: int|
                0 <= g < h < accounts.len() / 3 ==> (#[trigger] spec_group_delegation(
                    accounts,
                    g,
                )).key != (#[trigger] spec_group_delegation(accounts, h)).key
        }),
{
    lemma_groups_trace(ctx, accounts, accounts.len() / 3, rent_minimum);
    let (state, stored) = spec_aggregate_groups(
        ctx,
        accounts,
        accounts.len() / 3,
        rent_minimum,
    ).unwrap().unwrap();
    assert forall|g: int| 0 <= g < accounts.len() / 3 implies !(#[trigger] spec_group_delegation(
        stored,
        g,
    )).data_is_empty() by {
        assert(accounts[3 * g + 2].key == spec_group_delegation(accounts, g).key);
        assert(spec_holds_delegation(stored[3 * g + 2]));
    }
}

/// Only trusted sources count: an aggregation goes through only if every one of
/// its sources is under the program that the settings name. So an aggregation
/// with a source of another program does not go through.
pub proof fn lemma_update_trusts_its_sources(
    ctx: UpdateState,
    accounts: Seq<AccountState>,
    voter_weight_action: VoterWeightAction,
    target: Option<Pubkey>,
    slot: u64,
    rent_minimum: u64,
)
    requires
        spec_update(ctx, accounts, voter_weight_action, target, slot, rent_minimum) matches Some(
            Ok(_),
        ),
    ensures
        forall|g: int|
            0 <= g < accounts.len() / 3 ==> (#[trigger] spec_group_source(accounts, g)).owner
                == ctx.settings.voter_weight_source,
{
    lemma_groups_trace(ctx, accounts, accounts.len() / 3, rent_minimum);
}

/// What a delegation account holds after the fold of its group: the delegation
/// record with the delegate and the weight of the group's source, under this
/// program, with at least the balance that the host asks for.
pub open spec fn spec_is_entry(
    account: AccountState,
    delegate: Pubkey,
    source: AccountState,
    rent_minimum: u64,
) -> bool {
    &&& account.data == Delegation {
        delegate,
        voter_weight: spec_source_weight(source),
    }.spec_pack()
    &&& account.owner == crate::spec_id()
    &&& account.lamports >= rent_minimum
}

/// The fold of a group leaves its delegation account as the entry of its
/// source.
pub proof fn lemma_group_entry(
    ctx: UpdateState,
    accounts: Seq<AccountState>,
    group: int,
    rent_minimum: u64,
)
    requires
        0 <= group,
        3 * group + 2 < accounts.len(),
        spec_aggregate_group(ctx, accounts, group, rent_minimum) matches Some(Ok(_)),
    ensures
        spec_is_entry(
            spec_group_delegation(
                spec_aggregate_group(ctx, accounts, group, rent_minimum).unwrap().unwrap().1,
                group,
            ),
            ctx.delegate,
            spec_group_source(accounts, group),
            rent_minimum,
        ),
{
    let token_owner = spec_token_owner_record(
        ctx.governance_program_id,
        accounts[3 * group + 1],
        ctx.voter_weight_record.realm,
        ctx.voter_weight_record.governing_token_mint,
    ).unwrap();
    lemma_aggregation_effect(
        ctx,
        accounts[3 * group],
        token_owner,
        accounts[3 * group + 2],
        rent_minimum,
    );
    let (state, created) = spec_aggregate_delegator(
        ctx,
        accounts[3 * group],
        token_owner,
        accounts[3 * group + 2],
        rent_minimum,
    ).unwrap();
    let stored = spec_store(accounts, created);
    assert(stored[3 * group + 2] == created);
}

/// What an aggregation leaves in the delegation accounts of its groups, where
/// all of them go through: in each the entry of the group's source, whatever
/// other groups were folded in with it, before it or after it.
pub proof fn lemma_groups_entries(
    ctx: UpdateState,
    accounts: Seq<AccountState>,
    groups: nat,
    rent_minimum: u64,
)
    requires
        3 * groups <= accounts.len(),
        spec_aggregate_groups(ctx, accounts, groups, rent_minimum) matches Some(Ok(_)),
    ensures
        forall|g: int|
            0 <= g < groups ==> spec_is_entry(
                #[trigger] spec_group_delegation(
                    spec_aggregate_groups(
                        ctx,
                        accounts,
                        groups,
                        rent_minimum,
                    ).unwrap().unwrap().1,
                    g,
                ),
                ctx.delegate,
                spec_group_source(accounts, g),
                rent_minimum,
            ),
    decreases groups,
{
    if groups > 0 {
        let last = (groups - 1) as int;
        lemma_groups_entries(ctx, accounts, (groups - 1) as nat, rent_minimum);
        lemma_groups_trace(ctx, accounts, (groups - 1) as nat, rent_minimum);
        lemma_groups_trace(ctx, accounts, groups, rent_minimum);
        let (mid, before) = spec_aggregate_groups(
            ctx,
            accounts,
            (groups - 1) as nat,
            rent_minimum,
        ).unwrap().unwrap();
        lemma_group_trace(mid, before, last, rent_minimum);
        lemma_group_entry(mid, before, last, rent_minimum);
        let (state, stored) = spec_aggregate_group(mid, before, last, rent_minimum).unwrap().unwrap();
        assert(before[3 * last] == accounts[3 * last]) by {
            if spec_holds_delegation(before[3 * last]) {
                lemma_delegation_is_no_source(before[3 * last]);
            }
        }
        assert forall|g: int| 0 <= g < groups implies spec_is_entry(
            #[trigger] spec_group_delegation(stored, g),
            ctx.delegate,
            spec_group_source(accounts, g),
            rent_minimum,
        ) by {
            if g < last {
                assert(spec_group_delegation(accounts, g).key != spec_group_delegation(
                    accounts,
                    last,
                ).key);
                assert(before[3 * g + 2].key == accounts[3 * g + 2].key);
                assert(before[3 * last + 2].key == accounts[3 * last + 2].key);
                assert(stored[3 * g + 2] == before[3 * g + 2]);
                assert(spec_is_entry(
                    spec_group_delegation(before, g),
                    ctx.delegate,
                    spec_group_source(accounts, g),
                    rent_minimum,
                ));
            }
        }
    }
}

/// An aggregation that goes through leaves, in the delegation account of each of
/// its groups, the entry of the group's source: the delegate and the weight of
/// that source. What an entry holds does not depend on the groups that were
/// folded in with it.
pub proof fn lemma_update_leaves_entries(
    ctx: UpdateState,
    accounts: Seq<AccountState>,
    voter_weight_action: VoterWeightAction,
    target: Option<Pubkey>,
    slot: u64,
    rent_minimum: u64,
)
    requires
        spec_update(ctx, accounts, voter_weight_action, target, slot, rent_minimum) matches Some(
            Ok(_),
        ),
    ensures
        forall|g: int|
            0 <= g < accounts.len() / 3 ==> spec_is_entry(
                #[trigger] spec_group_delegation(
                    spec_update(
                        ctx,
                        accounts,
                        voter_weight_action,
                        target,
                        slot,
                        rent_minimum,
                    ).unwrap().unwrap().1,
                    g,
                ),
                ctx.delegate,
                spec_group_source(accounts, g),
                rent_minimum,
            ),
{
    lemma_groups_entries(ctx, accounts, accounts.len() / 3, rent_minimum);
}

/// The entries do not depend on batching: where one aggregation folds in two
/// lists of groups at once, and two aggregations of the same delegate fold them
/// in one after the other, each delegation account holds the same delegation
/// record in the end.
pub proof fn lemma_entries_in_batches(
    ctx: UpdateState,
    first: Seq<AccountState>,
    second: Seq<AccountState>,
    between: UpdateState,
    seen: Seq<AccountState>,
    voter_weight_action: VoterWeightAction,
    target: Option<Pubkey>,
    slots: (u64, u64, u64),
    rent_minimum: u64,
)
    requires
        first.len() % 3 == 0,
        spec_update(ctx, first + second, voter_weight_action, target, slots.0, rent_minimum)
            matches Some(Ok(_)),
        spec_update(ctx, first, voter_weight_action, target, slots.1, rent_minimum) matches Some(
            Ok(_),
        ),
        between.delegate == ctx.delegate,
        spec_update(between, seen, voter_weight_action, target, slots.2, rent_minimum)
            matches Some(Ok(_)),
        seen.len() == second.len(),
        forall|g: int|
            0 <= g < second.len() / 3 ==> spec_source_weight(
                #[trigger] spec_group_source(seen, g),
            ) == spec_source_weight(spec_group_source(second, g)),
    ensures
        ({
            let at_once = spec_update(
                ctx,
                first + second,
                voter_weight_action,
                target,
                slots.0,
                rent_minimum,
            ).unwrap().unwrap().1;
            let earlier = spec_update(
                ctx,
                first,
                voter_weight_action,
                target,
                slots.1,
                rent_minimum,
            ).unwrap().unwrap().1;
            let later = spec_update(
                between,
                seen,
                voter_weight_action,
                target,
                slots.2,
                rent_minimum,
            ).unwrap().unwrap().1;
            &&& forall|g: int|
                0 <= g < first.len() / 3 ==> (#[trigger] spec_group_delegation(at_once, g)).data
                    == spec_group_delegation(earlier, g).data
            &&& forall|g: int|
                0 <= g < second.len() / 3 ==> (#[trigger] spec_group_delegation(later, g)).data
                    == spec_group_delegation(at_once, first.len() / 3 + g).data
        }),
{
    let whole = first + second;
    lemma_update_leaves_entries(ctx, whole, voter_weight_action, target, slots.0, rent_minimum);
    lemma_update_leaves_entries(ctx, first, voter_weight_action, target, slots.1, rent_minimum);
    lemma_update_leaves_entries(between, seen, voter_weight_action, target, slots.2, rent_minimum);
    let at_once = spec_update(
        ctx,
        whole,
        voter_weight_action,
        target,
        slots.0,
        rent_minimum,
    ).unwrap().unwrap().1;
    let earlier = spec_update(
        ctx,
        first,
        voter_weight_action,
        target,
        slots.1,
        rent_minimum,
    ).unwrap().unwrap().1;
    let later = spec_update(
        between,
        seen,
        voter_weight_action,
        target,
        slots.2,
        rent_minimum,
    ).unwrap().unwrap().1;
    assert(whole.len() / 3 == first.len() / 3 + second.len() / 3);
    assert forall|g: int| 0 <= g < first.len() / 3 implies (#[trigger] spec_group_delegation(
        at_once,
        g,
    )).data == spec_group_delegation(earlier, g).data by {
        assert(spec_group_source(whole, g) == spec_group_source(first, g));
        assert(spec_is_entry(
            spec_group_delegation(earlier, g),
            ctx.delegate,
            spec_group_source(first, g),
            rent_minimum,
        ));
    }
    assert forall|g: int| 0 <= g < second.len() / 3 implies (#[trigger] spec_group_delegation(
        later,
        g,
    )).data == spec_group_delegation(at_once, first.len() / 3 + g).data by {
        let h = first.len() / 3 + g;
        assert(spec_group_source(whole, h) == spec_group_source(second, g));
        assert(spec_is_entry(
            spec_group_delegation(at_once, h),
            ctx.delegate,
            spec_group_source(whole, h),
            rent_minimum,
        ));
        assert(spec_source_weight(spec_group_source(seen, g)) == spec_source_weight(
            spec_group_source(second, g),
        ));
    }
}

/// An aggregation of one group goes through wherever nothing stands against
/// it, and leaves what it is meant to leave.
///
/// The realm is that of the record, which names a target. The token owner
/// record of the group resolves, and its owner is the delegate or has named the
/// delegate. The source is under the program that the settings name and holds a
/// voter weight record of the record's mint and realm. The delegation account
/// does not exist yet and lies at the address derived for the delegator, and
/// the payer can fund it. The weight and the expiry fit in `u64`. Then the
/// record gains the weight of the source, expires `APPROX_SLOTS_PER_MINUTE`
/// slots after `slot`, and takes the action and the target that the aggregation
/// declares; the delegation account holds the delegate and the weight of the
/// source, with at least the balance that the host asks for.
pub proof fn lemma_single_aggregation(
    ctx: UpdateState,
    accounts: Seq<AccountState>,
    voter_weight_action: VoterWeightAction,
    target: Option<Pubkey>,
    slot: u64,
    rent_minimum: u64,
)
    requires
        accounts.len() == 3,
        ctx.voter_weight_record.weight_action_target is Some,
        ctx.realm == ctx.voter_weight_record.realm,
        spec_token_owner_record(
            ctx.governance_program_id,
            accounts[1],
            ctx.voter_weight_record.realm,
            ctx.voter_weight_record.governing_token_mint,
        ) matches Ok(owner) && spec_may_aggregate(ctx.delegate, owner) && (program_address(
            spec_delegation_seeds(ctx, owner.governing_token_owner),
            crate::spec_id()@,
        ) matches Some(address) && address.0 == accounts[2].key@),
        accounts[0].owner == ctx.settings.voter_weight_source,
        VoterWeightRecord::spec_unpack(accounts[0].data) matches Ok(source)
            && source.governing_token_mint == ctx.voter_weight_record.governing_token_mint
            && source.realm == ctx.voter_weight_record.realm
            && ctx.voter_weight_record.voter_weight + source.voter_weight <= u64::MAX,
        accounts[2].data_is_empty(),
        accounts[2].owner == Pubkey::spec_default(),
        ctx.payer.lamports >= crate::account::spec_funding(
            accounts[2].lamports,
            rent_minimum,
        ).spec_lamports(),
        slot + APPROX_SLOTS_PER_MINUTE <= u64::MAX,
    ensures
        spec_update(ctx, accounts, voter_weight_action, target, slot, rent_minimum) matches Some(
            Ok(done),
        ) && {
            &&& done.0.voter_weight_record.voter_weight == ctx.voter_weight_record.voter_weight
                + spec_source_weight(accounts[0])
            &&& done.0.voter_weight_record.voter_weight_expiry == Some(
                (slot + APPROX_SLOTS_PER_MINUTE) as u64,
            )
            &&& done.0.voter_weight_record.weight_action == Some(voter_weight_action)
            &&& done.0.voter_weight_record.weight_action_target == target
            &&& done.1.len() == 3
            &&& done.1[2].key == accounts[2].key
            &&& Delegation::spec_unpack(done.1[2].data) == Ok::<Delegation, crate::error::DataError>(
                Delegation {
                    delegate: ctx.delegate,
                    voter_weight: spec_source_weight(accounts[0]),
                },
            )
            &&& done.1[2].lamports >= rent_minimum
        },
{
    reveal_with_fuel(spec_aggregate_groups, 2);
    assert(accounts.len() / 3 == 1);
    assert(spec_group_source(accounts, 0) == accounts[0]);
    assert(spec_group_owner(accounts, 0) == accounts[1]);
    assert(spec_group_delegation(accounts, 0) == accounts[2]);
    let owner = spec_token_owner_record(
        ctx.governance_program_id,
        accounts[1],
        ctx.voter_weight_record.realm,
        ctx.voter_weight_record.governing_token_mint,
    ).unwrap();
    assert(spec_aggregate_delegator(ctx, accounts[0], owner, accounts[2], rent_minimum) is Ok);
    assert(spec_aggregate_group(ctx, accounts, 0, rent_minimum) matches Some(Ok(_)));
    lemma_group_trace(ctx, accounts, 0, rent_minimum);
    lemma_group_entry(ctx, accounts, 0, rent_minimum);
    let entry = Delegation { delegate: ctx.delegate, voter_weight: spec_source_weight(accounts[0]) };
    entry.lemma_unpack_pack(Seq::empty());
    assert(entry.spec_pack() + Seq::<u8>::empty() =~= entry.spec_pack());
}

/// One aggregation among several: its accounts, what it declares and its slot.
pub struct Aggregation {
    pub ctx: UpdateState,
    pub accounts: Seq<AccountState>,
    pub voter_weight_action: VoterWeightAction,
    pub target: Option<Pubkey>,
    pub slot: u64,
}

impl Aggregation {
    /// The outcome of the aggregation.
    #[verifier::opaque]
    pub open spec fn spec_outcome(self, rent_minimum: u64) -> Option<
        Result<(UpdateState, Seq<AccountState>), Error>,
    > {
        spec_update(
            self.ctx,
            self.accounts,
            self.voter_weight_action,
            self.target,
            self.slot,
            rent_minimum,
        )
    }

    /// The weights of the sources of the aggregation, group by group.
    pub open spec fn spec_source_weights(self) -> Seq<u64> {
        Seq::new(
            self.accounts.len() / 3,
            |g: int| spec_source_weight(spec_group_source(self.accounts, g)),
        )
    }
}

/// The sum of a list of weights.
pub open spec fn spec_sum(weights: Seq<u64>) -> int {
    weights.fold_left(0int, |sum: int, weight: u64| sum + weight)
}

/// Whether the aggregation at position `i` goes through and hands its weight
/// on: the aggregation after it, if there is one, starts with the weight that it
/// left.
pub open spec fn spec_hands_on(calls: Seq<Aggregation>, i: int, rent_minimum: u64) -> bool {
    calls[i].spec_outcome(rent_minimum) matches Some(Ok(done)) && (i + 1 < calls.len()
        ==> calls[i + 1].ctx.voter_weight_record.voter_weight
        == done.0.voter_weight_record.voter_weight)
}

/// Whether the aggregations follow one another on one record and all go
/// through: each starts with the weight that the one before it left.
pub open spec fn spec_succession(calls: Seq<Aggregation>, rent_minimum: u64) -> bool {
    forall|i: int| 0 <= i < calls.len() ==> #[trigger] spec_hands_on(calls, i, rent_minimum)
}

/// The weights of the sources of the first `count` aggregations, in the order
/// in which they are folded in.
pub open spec fn spec_all_weights(calls: Seq<Aggregation>, count: nat) -> Seq<u64>
    decreases count,
{
    if count == 0 {
        Seq::empty()
    } else {
        spec_all_weights(calls, (count - 1) as nat) + calls[count - 1].spec_source_weights()
    }
}

/// The sum of a list of weights followed by another is the sum of the two sums.
pub proof fn lemma_sum_of_concatenation(first: Seq<u64>, second: Seq<u64>)
    ensures
        spec_sum(first + second) == spec_sum(first) + spec_sum(second),
    decreases second.len(),
{
    if second.len() == 0 {
        assert(first + second =~= first);
    } else {
        lemma_sum_of_concatenation(first, second.drop_last());
        assert((first + second).drop_last() =~= first + second.drop_last());
        assert((first + second).last() == second.last());
    }
}

/// The sum of the weights of the sources of the first groups, as a sum of a
/// list.
pub proof fn lemma_weights_are_a_sum(accounts: Seq<AccountState>, groups: nat)
    ensures
        spec_weights(accounts, groups) == spec_sum(
            Seq::new(groups, |g: int| spec_source_weight(spec_group_source(accounts, g))),
        ),
    decreases groups,
{
    let weights = Seq::new(groups, |g: int| spec_source_weight(spec_group_source(accounts, g)));
    if groups > 0 {
        lemma_weights_are_a_sum(accounts, (groups - 1) as nat);
        let fewer = Seq::new(
            (groups - 1) as nat,
            |g: int| spec_source_weight(spec_group_source(accounts, g)),
        );
        assert(weights.drop_last() =~= fewer);
    }
}

/// An aggregation that goes through leaves the weight that it started with and
/// the weights of its sources.
pub proof fn lemma_outcome_adds_weights(call: Aggregation, rent_minimum: u64)
    requires
        call.spec_outcome(rent_minimum) matches Some(Ok(_)),
    ensures
        call.spec_outcome(rent_minimum).unwrap().unwrap().0.voter_weight_record.voter_weight
            == call.ctx.voter_weight_record.voter_weight + spec_sum(call.spec_source_weights()),
{
    reveal(Aggregation::spec_outcome);
    lemma_update_adds_weights(
        call.ctx,
        call.accounts,
        call.voter_weight_action,
        call.target,
        call.slot,
        rent_minimum,
    );
    lemma_weights_are_a_sum(call.accounts, call.accounts.len() / 3);
}

/// However many aggregations follow one another on a record, and however the
/// sources are spread over them, the record holds in the end the weight that it
/// started with and the weights of all the sources, exactly.
pub proof fn lemma_succession_adds_weights(calls: Seq<Aggregation>, rent_minimum: u64)
    requires
        calls.len() > 0,
        spec_succession(calls, rent_minimum),
    ensures
        calls.last().spec_outcome(rent_minimum) matches Some(Ok(done))
            && done.0.voter_weight_record.voter_weight
            == calls[0].ctx.voter_weight_record.voter_weight + spec_sum(
            spec_all_weights(calls, calls.len()),
        ),
    decreases calls.len(),
{
    let last = calls.last();
    assert(calls[calls.len() - 1] == last);
    assert(spec_hands_on(calls, calls.len() - 1, rent_minimum));
    lemma_outcome_adds_weights(last, rent_minimum);
    lemma_sum_of_concatenation(
        spec_all_weights(calls, (calls.len() - 1) as nat),
        last.spec_source_weights(),
    );
    if calls.len() > 1 {
        let earlier = calls.drop_last();
        assert forall|i: int| 0 <= i < earlier.len() implies #[trigger] spec_hands_on(
            earlier,
            i,
            rent_minimum,
        ) by {
            assert(spec_hands_on(calls, i, rent_minimum));
            assert(earlier[i] == calls[i]);
            if i + 1 < earlier.len() {
                assert(earlier[i + 1] == calls[i + 1]);
            }
        }
        lemma_succession_adds_weights(earlier, rent_minimum);
        lemma_all_weights_of_prefix(calls, earlier, earlier.len());
        assert(spec_hands_on(calls, calls.len() - 2, rent_minimum));
        assert(earlier.last() == calls[calls.len() - 2]);
        assert(earlier[0] == calls[0]);
    } else {
        reveal_with_fuel(spec_all_weights, 2);
        assert(spec_all_weights(calls, 0) =~= Seq::<u64>::empty());
        assert(spec_sum(Seq::<u64>::empty()) == 0);
    }
}

/// The weights of the first aggregations do not depend on those that follow.
pub proof fn lemma_all_weights_of_prefix(
    calls: Seq<Aggregation>,
    earlier: Seq<Aggregation>,
    count: nat,
)
    requires
        count <= earlier.len() <= calls.len(),
        forall|i: int| 0 <= i < earlier.len() ==> earlier[i] == calls[i],
    ensures
        spec_all_weights(earlier, count) == spec_all_weights(calls, count),
    decreases count,
{
    if count > 0 {
        lemma_all_weights_of_prefix(calls, earlier, (count - 1) as nat);
    }
}

/// The order and the batching of aggregations do not matter: two successions
/// of aggregations that start with the same weight and fold in sources of the
/// same weights, in whatever order and however spread over the aggregations,
/// leave the same weight, the sum of them all. One aggregation of many groups
/// and many aggregations of one group each are two such successions.
pub proof fn lemma_order_does_not_matter(
    first: Seq<Aggregation>,
    second: Seq<Aggregation>,
    rent_minimum: u64,
)
    requires
        first.len() > 0,
        second.len() > 0,
        spec_succession(first, rent_minimum),
        spec_succession(second, rent_minimum),
        first[0].ctx.voter_weight_record.voter_weight
            == second[0].ctx.voter_weight_record.voter_weight,
        spec_all_weights(first, first.len()).to_multiset() == spec_all_weights(
            second,
            second.len(),
        ).to_multiset(),
    ensures
        first.last().spec_outcome(rent_minimum).unwrap().unwrap().0.voter_weight_record.voter_weight
            == second.last().spec_outcome(
            rent_minimum,
        ).unwrap().unwrap().0.voter_weight_record.voter_weight,
{
    lemma_succession_adds_weights(first, rent_minimum);
    lemma_succession_adds_weights(second, rent_minimum);
    let plus = |sum: int, weight: u64| sum + weight;
    assert(vstd::seq_lib::commutative_foldl(plus)) by {
        assert forall|x: u64, y: u64, v: int| #[trigger]
            plus(plus(v, x), y) == plus(plus(v, y), x) by {}
    }
    vstd::seq_lib::lemma_fold_left_permutation(
        spec_all_weights(first, first.len()),
        spec_all_weights(second, second.len()),
        plus,
        0int,
    );
}

} // verus!
