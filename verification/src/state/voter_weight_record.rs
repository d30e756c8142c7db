//! The voter weight record: one owner's voting weight for one action on one
//! target, within one realm and governing token mint.
use vstd::prelude::*;
use vstd::bytes::*;
use crate::codec::{
    append_bytes, option_at, option_byte_to_vec, read_pubkey, read_reserved, read_u64,
    spec_option_at, spec_option_pubkey, spec_option_u64, spec_pubkey_from, spec_reserved_from,
    starts_with, write_option_pubkey, write_option_u64,
};
use crate::account::{AccountInfo, AccountState};
use crate::error::{DataError, DelegationError, Error};
use crate::governance::{
    lookup_governance, lookup_proposal_state, spec_governance_data, spec_proposal_state,
    ProposalState,
};
use crate::pubkey::{find_program_address, program_address, Pubkey};

verus! {

/// The governance action a voter weight is meant for.
#[derive(Clone, Copy, Debug, PartialEq, Eq, Structural)]
pub enum VoterWeightAction {
    /// Cast vote for a proposal. Target: Proposal
    CastVote,
    /// Comment a proposal. Target: Proposal
    CommentProposal,
    /// Create Governance within a realm. Target: Realm
    CreateGovernance,
    /// Create a proposal for a governance. Target: Governance
    CreateProposal,
    /// Signs off a proposal for a governance. Target: Proposal
    SignOffProposal,
    /// Revoke vote. Target: VoteRecord
    RevokeVote,
}

impl VoterWeightAction {
    /// The position of the action among the actions, which is its encoding.
    pub open spec fn spec_index(self) -> u8 {
        match self {
            VoterWeightAction::CastVote => 0,
            VoterWeightAction::CommentProposal => 1,
            VoterWeightAction::CreateGovernance => 2,
            VoterWeightAction::CreateProposal => 3,
            VoterWeightAction::SignOffProposal => 4,
            VoterWeightAction::RevokeVote => 5,
        }
    }

    /// The action at a position, if there is one.
    pub open spec fn spec_from_index(index: u8) -> Option<VoterWeightAction> {
        match index {
            0 => Some(VoterWeightAction::CastVote),
            1 => Some(VoterWeightAction::CommentProposal),
            2 => Some(VoterWeightAction::CreateGovernance),
            3 => Some(VoterWeightAction::CreateProposal),
            4 => Some(VoterWeightAction::SignOffProposal),
            5 => Some(VoterWeightAction::RevokeVote),
            _ => None,
        }
    }

    /// The position of the action among the actions.
    #[verifier::when_used_as_spec(spec_index)]
    pub fn index(self) -> (r: u8)
        ensures
            r == self.spec_index(),
            VoterWeightAction::spec_from_index(r) == Some(self),
    {
        match self {
            VoterWeightAction::CastVote => 0,
            VoterWeightAction::CommentProposal => 1,
            VoterWeightAction::CreateGovernance => 2,
            VoterWeightAction::CreateProposal => 3,
            VoterWeightAction::SignOffProposal => 4,
            VoterWeightAction::RevokeVote => 5,
        }
    }

    /// The action at a position, or `None` where the position names no action.
    #[verifier::when_used_as_spec(spec_from_index)]
    pub fn from_index(index: u8) -> (r: Option<VoterWeightAction>)
        ensures
            r == VoterWeightAction::spec_from_index(index),
            r matches Some(action) ==> action.spec_index() == index,
    {
        match index {
            0 => Some(VoterWeightAction::CastVote),
            1 => Some(VoterWeightAction::CommentProposal),
            2 => Some(VoterWeightAction::CreateGovernance),
            3 => Some(VoterWeightAction::CreateProposal),
            4 => Some(VoterWeightAction::SignOffProposal),
            5 => Some(VoterWeightAction::RevokeVote),
            _ => None,
        }
    }
}

/// The bytes that stand for an optional action in an address seed and in a
/// stored record.
pub open spec fn spec_encode_action(action: Option<VoterWeightAction>) -> Seq<u8> {
    match action {
        None => seq![0u8],
        Some(a) => seq![1u8, a.spec_index()],
    }
}

/// Encodes an optional action.
pub fn encode_action(action: Option<VoterWeightAction>) -> (r: Vec<u8>)
    ensures
        r@ == spec_encode_action(action),
{
    let index: Option<u8> = match action {
        None => None,
        Some(a) => Some(a.index()),
    };
    option_byte_to_vec(index)
}

/// Distinct optional actions have distinct encodings.
pub proof fn lemma_encode_action_injective(
    a: Option<VoterWeightAction>,
    b: Option<VoterWeightAction>,
)
    requires
        spec_encode_action(a) == spec_encode_action(b),
    ensures
        a == b,
{
    let ea = spec_encode_action(a);
    let eb = spec_encode_action(b);
    assert(ea.len() == eb.len());
    assert(ea[0] == eb[0]);
    if a is Some && b is Some {
        assert(ea[1] == eb[1]);
    }
}

/// One owner's voting weight for one action on one target.
#[derive(Clone, Copy, Debug, PartialEq, Eq)]
pub struct VoterWeightRecord {
    /// The Realm the VoterWeightRecord belongs to
    pub realm: Pubkey,
    /// Governing Token Mint the VoterWeightRecord is associated with
    pub governing_token_mint: Pubkey,
    /// The owner of the governing token and voter
    pub governing_token_owner: Pubkey,
    /// Voter's weight
    pub voter_weight: u64,
    /// The slot when the voting weight expires; `None` if it never does
    pub voter_weight_expiry: Option<u64>,
    /// The governance action the voter's weight pertains to
    pub weight_action: Option<VoterWeightAction>,
    /// The target the voter's weight action pertains to
    pub weight_action_target: Option<Pubkey>,
    /// Reserved space for future versions
    pub reserved: [u8; 8],
}

/// The seed that marks the address of a voter weight record.
pub open spec fn spec_record_tag() -> Seq<u8> {
    seq![
        118u8, 111, 116, 101, 114, 45, 119, 101, 105, 103, 104, 116, 45, 114, 101, 99, 111, 114,
        100,
    ]
}

/// The seed that marks the address of a one-time revocation record.
pub open spec fn spec_revocation_tag() -> Seq<u8> {
    seq![114u8, 101, 118, 111, 99, 97, 116, 105, 111, 110]
}

/// The seeds of a record's address: a tag, then the realm, the mint, the owner,
/// the target and the encoded action.
pub open spec fn spec_tagged_seeds(
    tag: Seq<u8>,
    realm: Pubkey,
    governing_token_mint: Pubkey,
    governing_token_owner: Pubkey,
    target: Pubkey,
    action: Seq<u8>,
) -> Seq<Seq<u8>> {
    seq![tag, realm@, governing_token_mint@, governing_token_owner@, target@, action]
}

/// Builds the seeds of a record's address.
pub fn tagged_seeds(
    tag: Vec<u8>,
    realm: &Pubkey,
    governing_token_mint: &Pubkey,
    governing_token_owner: &Pubkey,
    target: &Pubkey,
    action: &Vec<u8>,
) -> (r: Vec<Vec<u8>>)
    ensures
        r.deep_view() == spec_tagged_seeds(
            tag@,
            *realm,
            *governing_token_mint,
            *governing_token_owner,
            *target,
            action@,
        ),
{
    let mut seeds: Vec<Vec<u8>> = Vec::new();
    seeds.push(tag);
    seeds.push(realm.to_vec());
    seeds.push(governing_token_mint.to_vec());
    seeds.push(governing_token_owner.to_vec());
    seeds.push(target.to_vec());
    seeds.push(action.clone());
    proof {
        let expected = spec_tagged_seeds(
            tag@,
            *realm,
            *governing_token_mint,
            *governing_token_owner,
            *target,
            action@,
        );
        crate::pubkey::lemma_seeds_view(seeds);
        assert(seeds.deep_view() =~= expected);
    }
    seeds
}

/// Seeds of records that differ in the realm, the mint, the owner, the target
/// or the action differ, whatever the tag.
pub proof fn lemma_tagged_seeds_injective(
    tag: Seq<u8>,
    realm1: Pubkey,
    mint1: Pubkey,
    owner1: Pubkey,
    target1: Pubkey,
    action1: Option<VoterWeightAction>,
    realm2: Pubkey,
    mint2: Pubkey,
    owner2: Pubkey,
    target2: Pubkey,
    action2: Option<VoterWeightAction>,
)
    requires
        spec_tagged_seeds(tag, realm1, mint1, owner1, target1, spec_encode_action(action1))
            == spec_tagged_seeds(tag, realm2, mint2, owner2, target2, spec_encode_action(action2)),
    ensures
        realm1 == realm2,
        mint1 == mint2,
        owner1 == owner2,
        target1 == target2,
        action1 == action2,
{
    let s1 = spec_tagged_seeds(tag, realm1, mint1, owner1, target1, spec_encode_action(action1));
    let s2 = spec_tagged_seeds(tag, realm2, mint2, owner2, target2, spec_encode_action(action2));
    assert(s1[1] == s2[1] && s1[2] == s2[2] && s1[3] == s2[3] && s1[4] == s2[4] && s1[5] == s2[5]);
    crate::pubkey::lemma_pubkey_ext(realm1, realm2);
    crate::pubkey::lemma_pubkey_ext(mint1, mint2);
    crate::pubkey::lemma_pubkey_ext(owner1, owner2);
    crate::pubkey::lemma_pubkey_ext(target1, target2);
    lemma_encode_action_injective(action1, action2);
}

impl Default for VoterWeightRecord {
    /// A record of no weight that has expired, for casting a vote on the zero
    /// address.
    fn default() -> (r: VoterWeightRecord)
        ensures
            r.realm == Pubkey::spec_default(),
            r.governing_token_mint == Pubkey::spec_default(),
            r.governing_token_owner == Pubkey::spec_default(),
            r.voter_weight == 0,
            r.voter_weight_expiry == Some(0u64),
            r.weight_action == Some(VoterWeightAction::CastVote),
            r.weight_action_target == Some(Pubkey::spec_default()),
            r.reserved@ == Seq::new(8, |i: int| 0u8),
    {
        let r = VoterWeightRecord {
            realm: Pubkey::default(),
            governing_token_mint: Pubkey::default(),
            governing_token_owner: Pubkey::default(),
            voter_weight: 0,
            voter_weight_expiry: Some(0),
            weight_action: Some(VoterWeightAction::CastVote),
            weight_action_target: Some(Pubkey::default()),
            reserved: [0u8;8],
        };
        assert(r.reserved@ =~= Seq::new(8, |i: int| 0u8));
        r
    }
}

/// The 8 bytes that open the stored form of a voter weight record.
pub open spec fn spec_record_discriminator() -> Seq<u8> {
    seq![46u8, 249, 155, 75, 153, 248, 116, 9]
}

impl VoterWeightRecord {
    /// The stored form of the record: the discriminator, the realm, the mint, the
    /// owner, the weight in little endian, then the expiry, the action and the
    /// target, each behind a tag byte, and the reserved bytes.
    pub open spec fn spec_pack(self) -> Seq<u8> {
        spec_record_discriminator() + self.realm@ + self.governing_token_mint@
            + self.governing_token_owner@ + spec_u64_to_le_bytes(self.voter_weight)
            + spec_option_u64(self.voter_weight_expiry) + spec_encode_action(self.weight_action)
            + spec_option_pubkey(self.weight_action_target) + self.reserved@
    }

    /// The fields that `data` holds behind a discriminator, read from the front;
    /// bytes after the last field are ignored.
    pub open spec fn spec_fields(data: Seq<u8>) -> Option<VoterWeightRecord> {
        if data.len() < 112 {
            None
        } else {
            match spec_option_at(data, 112, 8) {
                None => None,
                Some((has_expiry, after_expiry)) => match spec_option_at(data, after_expiry, 1) {
                    None => None,
                    Some((has_action, after_action)) => match spec_option_at(data, after_action, 32) {
                        None => None,
                        Some((has_target, after_target)) => if after_target + 8 > data.len() || (has_action
                            && VoterWeightAction::spec_from_index(data[after_expiry + 1]) is None) {
                            None
                        } else {
                            Some(
                                VoterWeightRecord {
                                    realm: spec_pubkey_from(data.subrange(8, 40)),
                                    governing_token_mint: spec_pubkey_from(data.subrange(40, 72)),
                                    governing_token_owner: spec_pubkey_from(
                                        data.subrange(72, 104),
                                    ),
                                    voter_weight: spec_u64_from_le_bytes(
                                        data.subrange(104, 112),
                                    ),
                                    voter_weight_expiry: if has_expiry {
                                        Some(spec_u64_from_le_bytes(data.subrange(113, 121)))
                                    } else {
                                        None
                                    },
                                    weight_action: if has_action {
                                        VoterWeightAction::spec_from_index(data[after_expiry + 1])
                                    } else {
                                        None
                                    },
                                    weight_action_target: if has_target {
                                        Some(spec_pubkey_from(data.subrange(after_action + 1, after_action + 33)))
                                    } else {
                                        None
                                    },
                                    reserved: spec_reserved_from(data.subrange(after_target, after_target + 8)),
                                },
                            )
                        },
                    },
                },
            }
        }
    }

    /// The record that account data holds, or why it holds none.
    pub open spec fn spec_unpack(data: Seq<u8>) -> Result<VoterWeightRecord, DataError> {
        if data.len() < 8 {
            Err(DataError::DiscriminatorNotFound)
        } else if data.subrange(0, 8) != spec_record_discriminator() {
            Err(DataError::DiscriminatorMismatch)
        } else {
            match Self::spec_fields(data) {
                Some(record) => Ok(record),
                None => Err(DataError::DidNotDeserialize),
            }
        }
    }

    /// The stored form of the record.
    pub fn pack(&self) -> (r: Vec<u8>)
        ensures
            r@ == self.spec_pack(),
    {
        let mut out: Vec<u8> = vec![46u8, 249, 155, 75, 153, 248, 116, 9];
        assert(out@ =~= spec_record_discriminator());
        append_bytes(&mut out, &self.realm.to_vec());
        append_bytes(&mut out, &self.governing_token_mint.to_vec());
        append_bytes(&mut out, &self.governing_token_owner.to_vec());
        append_bytes(&mut out, &u64_to_le_bytes(self.voter_weight));
        write_option_u64(&mut out, self.voter_weight_expiry);
        append_bytes(&mut out, &encode_action(self.weight_action));
        write_option_pubkey(&mut out, self.weight_action_target);
        let mut i: usize = 0;
        let ghost before = out@;
        while i < 8
            invariant
                i <= 8,
                out@ == before + self.reserved@.subrange(0, i as int),
            decreases 8 - i,
        {
            out.push(self.reserved[i]);
            assert(out@ =~= before + self.reserved@.subrange(0, i + 1));
            i += 1;
        }
        assert(out@ =~= before + self.reserved@);
        out
    }

    /// Reads a record from account data.
    pub fn unpack(data: &Vec<u8>) -> (r: Result<VoterWeightRecord, DataError>)
        ensures
            r == Self::spec_unpack(data@),
    {
        let len = data.len();
        if len < 8 {
            return Err(DataError::DiscriminatorNotFound);
        }
        let discriminator: Vec<u8> = vec![46u8, 249, 155, 75, 153, 248, 116, 9];
        assert(discriminator@ =~= spec_record_discriminator());
        if !starts_with(data, &discriminator) {
            return Err(DataError::DiscriminatorMismatch);
        }
        if len < 112 {
            return Err(DataError::DidNotDeserialize);
        }
        let (has_expiry, after_expiry) = match option_at(data, 112, 8) {
            Some(found) => found,
            None => { return Err(DataError::DidNotDeserialize); },
        };
        let (has_action, after_action) = match option_at(data, after_expiry, 1) {
            Some(found) => found,
            None => { return Err(DataError::DidNotDeserialize); },
        };
        let (has_target, after_target) = match option_at(data, after_action, 32) {
            Some(found) => found,
            None => { return Err(DataError::DidNotDeserialize); },
        };
        if len - after_target < 8 {
            return Err(DataError::DidNotDeserialize);
        }
        let weight_action = if has_action {
            match VoterWeightAction::from_index(data[after_expiry + 1]) {
                Some(action) => Some(action),
                None => { return Err(DataError::DidNotDeserialize); },
            }
        } else {
            None
        };
        Ok(
            VoterWeightRecord {
                realm: read_pubkey(data, 8),
                governing_token_mint: read_pubkey(data, 40),
                governing_token_owner: read_pubkey(data, 72),
                voter_weight: read_u64(data, 104),
                voter_weight_expiry: if has_expiry {
                    Some(read_u64(data, 113))
                } else {
                    None
                },
                weight_action,
                weight_action_target: if has_target {
                    Some(read_pubkey(data, after_action + 1))
                } else {
                    None
                },
                reserved: read_reserved(data, after_target),
            },
        )
    }

    /// The size of the account of a voter weight record, discriminator included.
    pub open spec fn spec_size() -> nat {
        176
    }

    /// What the account of a new record holds: the stored form of the record,
    /// filled up with zero bytes to the size of the account.
    pub open spec fn spec_stored(self) -> Seq<u8> {
        self.spec_pack() + Seq::new(
            (Self::spec_size() - self.spec_pack().len()) as nat,
            |i: int| 0u8,
        )
    }

    /// The stored form of a record is shorter than the account of a record, so
    /// that the account holds it, and holds that record.
    pub proof fn lemma_stored(self)
        ensures
            self.spec_pack().len() <= 164,
            self.spec_stored().len() == Self::spec_size(),
            Self::spec_unpack(self.spec_stored()) == Ok::<VoterWeightRecord, DataError>(self),
    {
        lemma_auto_spec_u64_to_from_le_bytes();
        self.lemma_unpack_pack(
            Seq::new((Self::spec_size() - self.spec_pack().len()) as nat, |i: int| 0u8),
        );
    }

    /// The size of the account of a voter weight record, discriminator included.
    pub fn size() -> (r: usize)
        ensures
            r == Self::spec_size(),
    {
        176
    }

    /// What the account of a new record holds.
    pub fn stored(&self) -> (r: Vec<u8>)
        ensures
            r@ == self.spec_stored(),
            r@.len() == Self::spec_size(),
    {
        let mut out = self.pack();
        proof {
            self.lemma_stored();
        }
        let ghost packed = out@;
        while out.len() < 176
            invariant
                packed.len() <= out@.len() <= 176,
                out@ == packed + Seq::new((out@.len() - packed.len()) as nat, |i: int| 0u8),
            decreases 176 - out@.len(),
        {
            out.push(0);
            assert(out@ =~= packed + Seq::new((out@.len() - packed.len()) as nat, |i: int| 0u8));
        }
        out
    }

    /// Account data that begins with the stored form of a record holds that
    /// record, whatever follows.
    pub proof fn lemma_unpack_pack(self, tail: Seq<u8>)
        ensures
            Self::spec_unpack(self.spec_pack() + tail) == Ok::<VoterWeightRecord, DataError>(self),
    {
        lemma_auto_spec_u64_to_from_le_bytes();
        let head = spec_record_discriminator() + self.realm@ + self.governing_token_mint@
            + self.governing_token_owner@ + spec_u64_to_le_bytes(self.voter_weight);
        let expiry = spec_option_u64(self.voter_weight_expiry);
        let action = spec_encode_action(self.weight_action);
        let target = spec_option_pubkey(self.weight_action_target);
        let data = self.spec_pack() + tail;
        assert(head.len() == 112);
        assert(data =~= head + expiry + action + target + self.reserved@ + tail);
        assert(data.subrange(0, 8) =~= spec_record_discriminator());
        assert(data.subrange(8, 40) =~= self.realm@);
        assert(data.subrange(40, 72) =~= self.governing_token_mint@);
        assert(data.subrange(72, 104) =~= self.governing_token_owner@);
        assert(data.subrange(104, 112) =~= spec_u64_to_le_bytes(self.voter_weight));
        crate::codec::lemma_pubkey_from_view(self.realm);
        crate::codec::lemma_pubkey_from_view(self.governing_token_mint);
        crate::codec::lemma_pubkey_from_view(self.governing_token_owner);
        let after_expiry: int = 112 + expiry.len() as int;
        let after_action: int = after_expiry + action.len() as int;
        let after_target: int = after_action + target.len() as int;
        assert(data[112] == expiry[0]);
        assert(spec_option_at(data, 112, 8) == Some((self.voter_weight_expiry is Some, after_expiry)));
        if let Some(v) = self.voter_weight_expiry {
            assert(data.subrange(113, 121) =~= spec_u64_to_le_bytes(v));
        }
        assert(data[after_expiry] == action[0]);
        assert(spec_option_at(data, after_expiry, 1) == Some((self.weight_action is Some, after_action)));
        if let Some(a) = self.weight_action {
            assert(data[after_expiry + 1] == action[1]);
            assert(VoterWeightAction::spec_from_index(a.spec_index()) == Some(a));
        }
        assert(data[after_action] == target[0]);
        assert(spec_option_at(data, after_action, 32) == Some((self.weight_action_target is Some, after_target)));
        if let Some(key) = self.weight_action_target {
            assert(data.subrange(after_action + 1, after_action + 33) =~= key@);
            crate::codec::lemma_pubkey_from_view(key);
        }
        assert(data.subrange(after_target, after_target + 8) =~= self.reserved@);
        crate::codec::lemma_reserved_from_view(self.reserved);
    }

    /// Whether the record names a realm, a mint and an owner.
    pub open spec fn spec_is_initialized(&self) -> bool {
        &&& self.realm != Pubkey::spec_default()
        &&& self.governing_token_mint != Pubkey::spec_default()
        &&& self.governing_token_owner != Pubkey::spec_default()
    }

    /// Whether the record names a realm, a mint and an owner.
    #[verifier::when_used_as_spec(spec_is_initialized)]
    pub fn is_initialized(&self) -> (r: bool)
        ensures
            r == self.spec_is_initialized(),
    {
        let zero = Pubkey::default();
        self.realm != zero && self.governing_token_mint != zero && self.governing_token_owner
            != zero
    }

    /// The weight of this record with the weight of `other` added, provided both
    /// belong to the same mint and realm.
    pub open spec fn spec_try_aggregate(self, other: VoterWeightRecord) -> Result<
        u64,
        DelegationError,
    > {
        if self.governing_token_mint != other.governing_token_mint {
            Err(DelegationError::InvalidGoverningTokenMint)
        } else if self.realm != other.realm {
            Err(DelegationError::InvalidRealm)
        } else {
            Ok((self.voter_weight + other.voter_weight) as u64)
        }
    }

    /// Whether adding the weight of `other` to this record's would leave `u64`.
    pub open spec fn aggregate_overflows(self, other: VoterWeightRecord) -> bool {
        &&& self.governing_token_mint == other.governing_token_mint
        &&& self.realm == other.realm
        &&& self.voter_weight + other.voter_weight > u64::MAX
    }

    /// Adds the weight of `other` to the weight of this record. Records of
    /// different mints or realms are not added.
    pub fn try_aggregate(&self, other: &VoterWeightRecord) -> (r: Result<u64, DelegationError>)
        requires
            !self.aggregate_overflows(*other),
        ensures
            r == self.spec_try_aggregate(*other),
            r matches Ok(sum) ==> sum == self.voter_weight + other.voter_weight,
    {
        if self.governing_token_mint != other.governing_token_mint {
            return Err(DelegationError::InvalidGoverningTokenMint);
        }
        if self.realm != other.realm {
            return Err(DelegationError::InvalidRealm);
        }
        Ok(self.voter_weight + other.voter_weight)
    }

    /// Whether the record is dead, so that its storage may be reclaimed. A record
    /// for casting a vote or commenting is dead once its target is a proposal
    /// that is completed; one for signing off, once its target is a proposal that
    /// can no longer be signed off; one for creating a governance, once its
    /// target holds a governance. A record for creating a proposal or revoking a
    /// vote is dead at once. A target that the governance program does not read
    /// as a proposal, or as a governance, proves nothing dead.
    pub open spec fn spec_can_reclaim(
        self,
        target: AccountState,
        governance_program_id: Pubkey,
    ) -> bool {
        match self.weight_action {
            Some(VoterWeightAction::CastVote) | Some(VoterWeightAction::CommentProposal) => {
                spec_proposal_state(governance_program_id, target) == Ok::<
                    Option<ProposalState>,
                    u64,
                >(Some(ProposalState::Completed))
            },
            Some(VoterWeightAction::SignOffProposal) => {
                match spec_proposal_state(governance_program_id, target) {
                    Ok(Some(state)) => !state.spec_can_sign_off(),
                    _ => false,
                }
            },
            Some(VoterWeightAction::CreateGovernance) => spec_governance_data(
                governance_program_id,
                target,
            ) is Ok,
            _ => true,
        }
    }

    /// Checks that the record is dead, so that its storage may be reclaimed.
    /// `target` is the account of the target of the record's action.
    pub fn assert_can_reclaim(&self, target: &AccountInfo, governance_program_id: &Pubkey) -> (r:
        Result<(), Error>)
        requires
            self.weight_action is Some,
        ensures
            match r {
                Ok(_) => self.spec_can_reclaim(target@, *governance_program_id),
                Err(e) => !self.spec_can_reclaim(target@, *governance_program_id) && e
                    == Error::Delegation(DelegationError::ReclaimTargetWrongState),
            },
    {
        let dead = match self.weight_action.unwrap() {
            VoterWeightAction::CastVote | VoterWeightAction::CommentProposal => {
                match lookup_proposal_state(governance_program_id, target) {
                    Ok(index) => match ProposalState::from_index(index) {
                        Some(ProposalState::Completed) => true,
                        _ => false,
                    },
                    Err(_) => false,
                }
            },
            VoterWeightAction::SignOffProposal => {
                match lookup_proposal_state(governance_program_id, target) {
                    Ok(index) => match ProposalState::from_index(index) {
                        Some(state) => !state.can_sign_off(),
                        None => false,
                    },
                    Err(_) => false,
                }
            },
            VoterWeightAction::CreateGovernance => lookup_governance(
                governance_program_id,
                target,
            ).is_ok(),
            VoterWeightAction::CreateProposal => true,
            VoterWeightAction::RevokeVote => true,
        };
        if dead {
            Ok(())
        } else {
            Err(Error::Delegation(DelegationError::ReclaimTargetWrongState))
        }
    }

    /// The seeds of a voter weight record's address.
    pub open spec fn spec_pda_seeds(
        realm: Pubkey,
        governing_token_mint: Pubkey,
        governing_token_owner: Pubkey,
        target: Pubkey,
        action: Seq<u8>,
    ) -> Seq<Seq<u8>> {
        spec_tagged_seeds(
            spec_record_tag(),
            realm,
            governing_token_mint,
            governing_token_owner,
            target,
            action,
        )
    }

    /// The seeds of a voter weight record's address; `action` is the encoded
    /// action.
    pub fn get_pda_seeds(
        realm: &Pubkey,
        governing_token_mint: &Pubkey,
        governing_token_owner: &Pubkey,
        target: &Pubkey,
        action: &Vec<u8>,
    ) -> (r: Vec<Vec<u8>>)
        ensures
            r.deep_view() == Self::spec_pda_seeds(
                *realm,
                *governing_token_mint,
                *governing_token_owner,
                *target,
                action@,
            ),
    {
        let tag: Vec<u8> = vec![
            118u8, 111, 116, 101, 114, 45, 119, 101, 105, 103, 104, 116, 45, 114, 101, 99, 111,
            114, 100,
        ];
        assert(tag@ =~= spec_record_tag());
        tagged_seeds(tag, realm, governing_token_mint, governing_token_owner, target, action)
    }

    /// The address search for a voter weight record, as a mathematical value.
    pub open spec fn spec_pda_address(
        realm: Pubkey,
        governing_token_mint: Pubkey,
        governing_token_owner: Pubkey,
        target: Pubkey,
        action: Option<VoterWeightAction>,
    ) -> Option<(Seq<u8>, u8)> {
        program_address(
            Self::spec_pda_seeds(
                realm,
                governing_token_mint,
                governing_token_owner,
                target,
                spec_encode_action(action),
            ),
            crate::spec_id()@,
        )
    }

    /// The address of the voter weight record of an owner for an action on a
    /// target, for inputs whose address search succeeds.
    pub fn get_pda_address(
        realm: &Pubkey,
        governing_token_mint: &Pubkey,
        governing_token_owner: &Pubkey,
        target: &Pubkey,
        action: Option<VoterWeightAction>,
    ) -> (r: Pubkey)
        requires
            Self::spec_pda_address(
                *realm,
                *governing_token_mint,
                *governing_token_owner,
                *target,
                action,
            ) is Some,
        ensures
            Self::spec_pda_address(
                *realm,
                *governing_token_mint,
                *governing_token_owner,
                *target,
                action,
            ) matches Some(found) && found.0 == r@,
    {
        let encoded = encode_action(action);
        let seeds = Self::get_pda_seeds(
            realm,
            governing_token_mint,
            governing_token_owner,
            target,
            &encoded,
        );
        find_program_address(&seeds, &crate::id()).unwrap().0
    }

    /// The address of the voter weight record of an owner for an action on a
    /// target, or `None` where the address search finds none.
    pub fn try_get_pda_address(
        realm: &Pubkey,
        governing_token_mint: &Pubkey,
        governing_token_owner: &Pubkey,
        target: &Pubkey,
        action: Option<VoterWeightAction>,
    ) -> (r: Option<Pubkey>)
        ensures
            match Self::spec_pda_address(
                *realm,
                *governing_token_mint,
                *governing_token_owner,
                *target,
                action,
            ) {
                Some(found) => r matches Some(key) && key@ == found.0,
                None => r is None,
            },
    {
        let encoded = encode_action(action);
        let seeds = Self::get_pda_seeds(
            realm,
            governing_token_mint,
            governing_token_owner,
            target,
            &encoded,
        );
        if find_program_address(&seeds, &crate::id()).is_some() {
            Some(
                Self::get_pda_address(
                    realm,
                    governing_token_mint,
                    governing_token_owner,
                    target,
                    action,
                ),
            )
        } else {
            None
        }
    }

    /// The seeds of the address of the one-time record that is evidence of a
    /// revocation; `action` is the encoded action.
    pub fn get_revocation_seeds(
        realm: &Pubkey,
        governing_token_mint: &Pubkey,
        governing_token_owner: &Pubkey,
        target: &Pubkey,
        action: &Vec<u8>,
    ) -> (r: Vec<Vec<u8>>)
        ensures
            r.deep_view() == spec_tagged_seeds(
                spec_revocation_tag(),
                *realm,
                *governing_token_mint,
                *governing_token_owner,
                *target,
                action@,
            ),
    {
        let tag: Vec<u8> = vec![114u8, 101, 118, 111, 99, 97, 116, 105, 111, 110];
        assert(tag@ =~= spec_revocation_tag());
        tagged_seeds(tag, realm, governing_token_mint, governing_token_owner, target, action)
    }

    /// The address search for the one-time record that is evidence of a
    /// revocation, as a mathematical value.
    pub open spec fn spec_revocation_address(
        realm: Pubkey,
        governing_token_mint: Pubkey,
        governing_token_owner: Pubkey,
        target: Pubkey,
        action: Option<VoterWeightAction>,
    ) -> Option<(Seq<u8>, u8)> {
        program_address(
            spec_tagged_seeds(
                spec_revocation_tag(),
                realm,
                governing_token_mint,
                governing_token_owner,
                target,
                spec_encode_action(action),
            ),
            crate::spec_id()@,
        )
    }

    /// The address of the one-time record that is evidence of a revocation, for
    /// inputs whose address search succeeds.
    pub fn get_revocation_address(
        realm: &Pubkey,
        governing_token_mint: &Pubkey,
        governing_token_owner: &Pubkey,
        target: &Pubkey,
        action: Option<VoterWeightAction>,
    ) -> (r: Pubkey)
        requires
            Self::spec_revocation_address(
                *realm,
                *governing_token_mint,
                *governing_token_owner,
                *target,
                action,
            ) is Some,
        ensures
            Self::spec_revocation_address(
                *realm,
                *governing_token_mint,
                *governing_token_owner,
                *target,
                action,
            ) matches Some(found) && found.0 == r@,
    {
        let encoded = encode_action(action);
        let seeds = Self::get_revocation_seeds(
            realm,
            governing_token_mint,
            governing_token_owner,
            target,
            &encoded,
        );
        find_program_address(&seeds, &crate::id()).unwrap().0
    }

    /// The address of the one-time record that is evidence of a revocation, or
    /// `None` where the address search finds none.
    pub fn try_get_revocation_address(
        realm: &Pubkey,
        governing_token_mint: &Pubkey,
        governing_token_owner: &Pubkey,
        target: &Pubkey,
        action: Option<VoterWeightAction>,
    ) -> (r: Option<Pubkey>)
        ensures
            match Self::spec_revocation_address(
                *realm,
                *governing_token_mint,
                *governing_token_owner,
                *target,
                action,
            ) {
                Some(found) => r matches Some(key) && key@ == found.0,
                None => r is None,
            },
    {
        let encoded = encode_action(action);
        let seeds = Self::get_revocation_seeds(
            realm,
            governing_token_mint,
            governing_token_owner,
            target,
            &encoded,
        );
        if find_program_address(&seeds, &crate::id()).is_some() {
            Some(
                Self::get_revocation_address(
                    realm,
                    governing_token_mint,
                    governing_token_owner,
                    target,
                    action,
                ),
            )
        } else {
            None
        }
    }
}

} // verus!
