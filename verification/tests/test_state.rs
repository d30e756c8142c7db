//! Records, their stored form and their addresses.

use solana_program::pubkey::Pubkey as HostKey;
use vote_delegation::error::{DataError, DelegationError};
use vote_delegation::pubkey::Pubkey;
use vote_delegation::account::{funding, AccountInfo, Funding};
use vote_delegation::state::delegation::Delegation;
use vote_delegation::state::settings::Settings;
use vote_delegation::state::voter_weight_record::{
    encode_action, VoterWeightAction, VoterWeightRecord,
};
use vote_delegation::tools::dispose_account;

fn key(n: u8) -> Pubkey {
    Pubkey { bytes: [n; 32] }
}

fn host(k: &Pubkey) -> HostKey {
    HostKey::new_from_array(k.bytes)
}

fn sample_record() -> VoterWeightRecord {
    VoterWeightRecord {
        realm: key(1),
        governing_token_mint: key(2),
        governing_token_owner: key(3),
        voter_weight: 0x0102030405060708,
        voter_weight_expiry: Some(77),
        weight_action: Some(VoterWeightAction::CommentProposal),
        weight_action_target: Some(key(4)),
        reserved: [9, 8, 7, 6, 5, 4, 3, 2],
    }
}

fn all_actions() -> Vec<VoterWeightAction> {
    vec![
        VoterWeightAction::CastVote,
        VoterWeightAction::CommentProposal,
        VoterWeightAction::CreateGovernance,
        VoterWeightAction::CreateProposal,
        VoterWeightAction::SignOffProposal,
        VoterWeightAction::RevokeVote,
    ]
}

#[test]
fn program_id_is_the_declared_address() {
    let id = vote_delegation::id();
    assert_eq!(host(&id).to_string(), "Fg6PaFpoGXkYsidMpWTK6W2BeZ7FEfcYkg476zPFsLnS");
}

#[test]
fn default_pubkey_is_the_system_program() {
    assert_eq!(Pubkey::default().bytes, [0u8; 32]);
    assert_eq!(host(&Pubkey::default()), solana_program::system_program::id());
}

#[test]
fn pubkey_equality_compares_all_bytes() {
    let a = key(5);
    let mut b = key(5);
    assert!(a == b);
    b.bytes[31] = 6;
    assert!(a != b);
    b.bytes[31] = 5;
    b.bytes[0] = 6;
    assert!(a != b);
    assert_eq!(a.to_vec(), vec![5u8; 32]);
}

#[test]
fn action_index_follows_declaration_order() {
    let actions = all_actions();
    for (i, action) in actions.iter().enumerate() {
        assert_eq!(action.index(), i as u8);
        assert_eq!(VoterWeightAction::from_index(i as u8), Some(*action));
    }
    assert_eq!(VoterWeightAction::from_index(6), None);
    assert_eq!(VoterWeightAction::from_index(255), None);
}

#[test]
fn encoded_action_is_tag_then_index() {
    assert_eq!(encode_action(None), vec![0u8]);
    assert_eq!(encode_action(Some(VoterWeightAction::CastVote)), vec![1u8, 0]);
    assert_eq!(encode_action(Some(VoterWeightAction::RevokeVote)), vec![1u8, 5]);
    assert_eq!(
        encode_action(Some(VoterWeightAction::CreateProposal)),
        borsh::to_vec(&Some(3u8)).unwrap()
    );
}

#[test]
fn default_record_is_expired_cast_vote() {
    let record = VoterWeightRecord::default();
    assert_eq!(record.realm, Pubkey::default());
    assert_eq!(record.governing_token_mint, Pubkey::default());
    assert_eq!(record.governing_token_owner, Pubkey::default());
    assert_eq!(record.voter_weight, 0);
    assert_eq!(record.voter_weight_expiry, Some(0));
    assert_eq!(record.weight_action, Some(VoterWeightAction::CastVote));
    assert_eq!(record.weight_action_target, Some(Pubkey::default()));
    assert_eq!(record.reserved, [0u8; 8]);
    assert!(!record.is_initialized());
}

#[test]
fn is_initialized_needs_realm_mint_and_owner() {
    let full = sample_record();
    assert!(full.is_initialized());
    let mut no_realm = full;
    no_realm.realm = Pubkey::default();
    assert!(!no_realm.is_initialized());
    let mut no_mint = full;
    no_mint.governing_token_mint = Pubkey::default();
    assert!(!no_mint.is_initialized());
    let mut no_owner = full;
    no_owner.governing_token_owner = Pubkey::default();
    assert!(!no_owner.is_initialized());
}

#[test]
fn try_aggregate_adds_weights() {
    let mut a = sample_record();
    a.voter_weight = 7;
    let mut b = sample_record();
    b.voter_weight = 35;
    b.governing_token_owner = key(99);
    assert_eq!(a.try_aggregate(&b), Ok(42));
    a.voter_weight = u64::MAX - 35;
    assert_eq!(a.try_aggregate(&b), Ok(u64::MAX));
}

#[test]
fn try_aggregate_rejects_other_mint_then_other_realm() {
    let a = sample_record();
    let mut other_mint = sample_record();
    other_mint.governing_token_mint = key(50);
    assert_eq!(a.try_aggregate(&other_mint), Err(DelegationError::InvalidGoverningTokenMint));
    let mut other_realm = sample_record();
    other_realm.realm = key(51);
    assert_eq!(a.try_aggregate(&other_realm), Err(DelegationError::InvalidRealm));
    let mut both = sample_record();
    both.realm = key(51);
    both.governing_token_mint = key(50);
    both.voter_weight = u64::MAX;
    assert_eq!(a.try_aggregate(&both), Err(DelegationError::InvalidGoverningTokenMint));
}

#[test]
fn record_discriminator_is_the_account_hash() {
    let packed = sample_record().pack();
    let hash = solana_program::hash::hash(b"account:VoterWeightRecord");
    assert_eq!(&packed[..8], &hash.to_bytes()[..8]);
}

#[test]
fn record_pack_layout() {
    let packed = sample_record().pack();
    let mut expected: Vec<u8> = vec![46, 249, 155, 75, 153, 248, 116, 9];
    expected.extend_from_slice(&[1u8; 32]);
    expected.extend_from_slice(&[2u8; 32]);
    expected.extend_from_slice(&[3u8; 32]);
    expected.extend_from_slice(&[8, 7, 6, 5, 4, 3, 2, 1]);
    expected.push(1);
    expected.extend_from_slice(&77u64.to_le_bytes());
    expected.extend_from_slice(&[1, 1]);
    expected.push(1);
    expected.extend_from_slice(&[4u8; 32]);
    expected.extend_from_slice(&[9, 8, 7, 6, 5, 4, 3, 2]);
    assert_eq!(packed, expected);
    assert_eq!(packed.len(), 8 + 96 + 8 + 9 + 2 + 33 + 8);
}

#[test]
fn record_pack_without_options() {
    let mut record = sample_record();
    record.voter_weight_expiry = None;
    record.weight_action = None;
    record.weight_action_target = None;
    let packed = record.pack();
    assert_eq!(packed.len(), 8 + 96 + 8 + 1 + 1 + 1 + 8);
    assert_eq!(&packed[112..115], &[0, 0, 0]);
    assert_eq!(VoterWeightRecord::unpack(&packed), Ok(record));
}

#[test]
fn record_round_trip_for_every_shape() {
    for expiry in [None, Some(0u64), Some(u64::MAX)] {
        for action in [None, Some(VoterWeightAction::CastVote), Some(VoterWeightAction::RevokeVote)]
        {
            for target in [None, Some(key(200))] {
                let record = VoterWeightRecord {
                    voter_weight_expiry: expiry,
                    weight_action: action,
                    weight_action_target: target,
                    ..sample_record()
                };
                let mut data = record.pack();
                assert_eq!(VoterWeightRecord::unpack(&data), Ok(record));
                data.extend_from_slice(&[0u8; 40]);
                assert_eq!(VoterWeightRecord::unpack(&data), Ok(record));
            }
        }
    }
}

#[test]
fn record_unpack_errors() {
    assert_eq!(VoterWeightRecord::unpack(&vec![]), Err(DataError::DiscriminatorNotFound));
    assert_eq!(VoterWeightRecord::unpack(&vec![46u8; 7]), Err(DataError::DiscriminatorNotFound));
    assert_eq!(VoterWeightRecord::unpack(&vec![0u8; 200]), Err(DataError::DiscriminatorMismatch));
    let good = sample_record().pack();
    let mut wrong = good.clone();
    wrong[7] ^= 1;
    assert_eq!(VoterWeightRecord::unpack(&wrong), Err(DataError::DiscriminatorMismatch));
    // Every proper prefix that holds the discriminator lacks a field.
    for len in 8..good.len() {
        assert_eq!(
            VoterWeightRecord::unpack(&good[..len].to_vec()),
            Err(DataError::DidNotDeserialize),
            "length {}",
            len
        );
    }
    let mut bad_expiry_tag = good.clone();
    bad_expiry_tag[112] = 2;
    assert_eq!(VoterWeightRecord::unpack(&bad_expiry_tag), Err(DataError::DidNotDeserialize));
    let mut bad_action_tag = good.clone();
    bad_action_tag[121] = 2;
    assert_eq!(VoterWeightRecord::unpack(&bad_action_tag), Err(DataError::DidNotDeserialize));
    let mut bad_action = good.clone();
    bad_action[122] = 6;
    assert_eq!(VoterWeightRecord::unpack(&bad_action), Err(DataError::DidNotDeserialize));
    let mut bad_target_tag = good.clone();
    bad_target_tag[123] = 7;
    assert_eq!(VoterWeightRecord::unpack(&bad_target_tag), Err(DataError::DidNotDeserialize));
}

#[test]
fn delegation_pack_layout_and_size() {
    let delegation = Delegation { delegate: key(7), voter_weight: 10 };
    let packed = delegation.pack();
    let hash = solana_program::hash::hash(b"account:Delegation");
    let mut expected: Vec<u8> = hash.to_bytes()[..8].to_vec();
    expected.extend_from_slice(&[7u8; 32]);
    expected.extend_from_slice(&10u64.to_le_bytes());
    assert_eq!(packed, expected);
    assert_eq!(packed.len(), Delegation::size());
    assert_eq!(Delegation::size(), 48);
    assert_eq!(Delegation::unpack(&packed), Ok(delegation));
    let mut longer = packed.clone();
    longer.extend_from_slice(&[1, 2, 3]);
    assert_eq!(Delegation::unpack(&longer), Ok(delegation));
}

#[test]
fn delegation_unpack_errors() {
    assert_eq!(Delegation::unpack(&vec![]), Err(DataError::DiscriminatorNotFound));
    assert_eq!(Delegation::unpack(&vec![0u8; 48]), Err(DataError::DiscriminatorMismatch));
    let packed = Delegation { delegate: key(7), voter_weight: u64::MAX }.pack();
    assert_eq!(Delegation::unpack(&packed[..47].to_vec()), Err(DataError::DidNotDeserialize));
    assert_eq!(Delegation::unpack(&packed[..8].to_vec()), Err(DataError::DidNotDeserialize));
    // A voter weight record is no delegation record, and the other way round.
    assert_eq!(Delegation::unpack(&sample_record().pack()), Err(DataError::DiscriminatorMismatch));
    assert_eq!(VoterWeightRecord::unpack(&packed), Err(DataError::DiscriminatorMismatch));
}

#[test]
fn seeds_are_tag_then_fields() {
    let action = encode_action(Some(VoterWeightAction::CastVote));
    let seeds = VoterWeightRecord::get_pda_seeds(&key(1), &key(2), &key(3), &key(4), &action);
    assert_eq!(
        seeds,
        vec![
            b"voter-weight-record".to_vec(),
            vec![1u8; 32],
            vec![2u8; 32],
            vec![3u8; 32],
            vec![4u8; 32],
            vec![1u8, 0],
        ]
    );
    let seeds = Delegation::get_pda_seeds(&key(1), &key(2), &key(3), &key(4), &action);
    assert_eq!(seeds[0], b"voter-weight-record-delegation".to_vec());
    assert_eq!(seeds.len(), 6);
    assert_eq!(seeds[5], vec![1u8, 0]);
    let seeds = VoterWeightRecord::get_revocation_seeds(&key(1), &key(2), &key(3), &key(4), &action);
    assert_eq!(seeds[0], b"revocation".to_vec());
    assert_eq!(seeds[1..5], [vec![1u8; 32], vec![2u8; 32], vec![3u8; 32], vec![4u8; 32]]);
    assert_eq!(seeds[5], vec![1u8, 0]);
    let seeds = Settings::get_pda_seeds(&key(1), &key(2));
    assert_eq!(seeds, vec![b"settings".to_vec(), vec![1u8; 32], vec![2u8; 32]]);
}

#[test]
fn record_address_is_the_program_address_of_its_seeds() {
    let program = host(&vote_delegation::id());
    for action in all_actions() {
        let expected = HostKey::find_program_address(
            &[
                b"voter-weight-record".as_ref(),
                &[1u8; 32],
                &[2u8; 32],
                &[3u8; 32],
                &[4u8; 32],
                &borsh::to_vec(&Some(action.index())).unwrap(),
            ],
            &program,
        )
        .0;
        let found =
            VoterWeightRecord::get_pda_address(&key(1), &key(2), &key(3), &key(4), Some(action));
        assert_eq!(host(&found), expected);
        assert_eq!(
            VoterWeightRecord::try_get_pda_address(&key(1), &key(2), &key(3), &key(4), Some(action)),
            Some(found)
        );
    }
}

#[test]
fn delegation_revocation_and_settings_addresses() {
    let program = host(&vote_delegation::id());
    let action = Some(VoterWeightAction::CastVote);
    let encoded = borsh::to_vec(&Some(0u8)).unwrap();
    let fields: [&[u8]; 4] = [&[1u8; 32], &[2u8; 32], &[3u8; 32], &[4u8; 32]];
    let expected_delegation = HostKey::find_program_address(
        &[
            b"voter-weight-record-delegation".as_ref(),
            fields[0],
            fields[1],
            fields[2],
            fields[3],
            &encoded,
        ],
        &program,
    )
    .0;
    let expected_revocation = HostKey::find_program_address(
        &[b"revocation".as_ref(), fields[0], fields[1], fields[2], fields[3], &encoded],
        &program,
    )
    .0;
    let expected_settings =
        HostKey::find_program_address(&[b"settings".as_ref(), fields[0], fields[1]], &program).0;
    let delegation = Delegation::get_pda_address(&key(1), &key(2), &key(3), &key(4), action);
    let revocation =
        VoterWeightRecord::get_revocation_address(&key(1), &key(2), &key(3), &key(4), action);
    let settings = Settings::get_pda_address(&key(1), &key(2));
    assert_eq!(host(&delegation), expected_delegation);
    assert_eq!(host(&revocation), expected_revocation);
    assert_eq!(host(&settings), expected_settings);
    assert_eq!(
        Delegation::try_get_pda_address(&key(1), &key(2), &key(3), &key(4), action),
        Some(delegation)
    );
    assert_eq!(
        VoterWeightRecord::try_get_revocation_address(&key(1), &key(2), &key(3), &key(4), action),
        Some(revocation)
    );
    assert_eq!(Settings::try_get_pda_address(&key(1), &key(2)), Some(settings));
    let record = VoterWeightRecord::get_pda_address(&key(1), &key(2), &key(3), &key(4), action);
    assert_ne!(record, delegation);
    assert_ne!(record, revocation);
    assert_ne!(delegation, revocation);
}

#[test]
fn addresses_differ_by_action_owner_and_target() {
    let base = VoterWeightRecord::get_pda_address(
        &key(1),
        &key(2),
        &key(3),
        &key(4),
        Some(VoterWeightAction::CastVote),
    );
    let other_action = VoterWeightRecord::get_pda_address(
        &key(1),
        &key(2),
        &key(3),
        &key(4),
        Some(VoterWeightAction::CommentProposal),
    );
    let no_action = VoterWeightRecord::get_pda_address(&key(1), &key(2), &key(3), &key(4), None);
    let other_owner = VoterWeightRecord::get_pda_address(
        &key(1),
        &key(2),
        &key(5),
        &key(4),
        Some(VoterWeightAction::CastVote),
    );
    let other_target = VoterWeightRecord::get_pda_address(
        &key(1),
        &key(2),
        &key(3),
        &key(5),
        Some(VoterWeightAction::CastVote),
    );
    assert_ne!(base, other_action);
    assert_ne!(base, no_action);
    assert_ne!(base, other_owner);
    assert_ne!(base, other_target);
    // The same inputs give the same address.
    assert_eq!(
        base,
        VoterWeightRecord::get_pda_address(
            &key(1),
            &key(2),
            &key(3),
            &key(4),
            Some(VoterWeightAction::CastVote),
        )
    );
}

#[test]
fn dispose_account_moves_lamports_and_zeroes_data() {
    let mut account =
        AccountInfo { key: key(1), owner: key(2), lamports: 500, data: vec![1, 2, 3, 4] };
    let mut beneficiary = AccountInfo { key: key(3), owner: key(4), lamports: 70, data: vec![9] };
    dispose_account(&mut account, &mut beneficiary);
    assert_eq!(account.lamports, 0);
    assert_eq!(account.data, vec![0, 0, 0, 0]);
    assert_eq!(account.key, key(1));
    assert_eq!(account.owner, key(2));
    assert_eq!(beneficiary.lamports, 570);
    assert_eq!(beneficiary.data, vec![9]);
    assert!(!account.data_is_empty());
    account.settle();
    assert!(account.data_is_empty());
    assert_eq!(account.owner, Pubkey::default());
    beneficiary.settle();
    assert_eq!(beneficiary.lamports, 570);
    assert_eq!(beneficiary.data, vec![9]);
}

#[test]
fn duplicate_copies_an_account() {
    let account = AccountInfo { key: key(1), owner: key(2), lamports: 5, data: vec![1, 2, 3] };
    let copy = account.duplicate();
    assert_eq!(copy.key, account.key);
    assert_eq!(copy.owner, account.owner);
    assert_eq!(copy.lamports, 5);
    assert_eq!(copy.data, vec![1, 2, 3]);
}

#[test]
fn funding_of_a_new_account() {
    assert_eq!(Delegation::funding(0, 1_224_960), Funding::Create { lamports: 1_224_960 });
    assert_eq!(Delegation::funding(0, 0), Funding::Create { lamports: 1 });
    assert_eq!(Delegation::funding(0, 1), Funding::Create { lamports: 1 });
    assert_eq!(Delegation::funding(1, 1_224_960), Funding::TopUp { lamports: 1_224_959 });
    assert_eq!(Delegation::funding(1_224_960, 1_224_960), Funding::TopUp { lamports: 0 });
    assert_eq!(Delegation::funding(u64::MAX, 1_224_960), Funding::TopUp { lamports: 0 });
    assert_eq!(Delegation::funding(5, 0), Funding::TopUp { lamports: 0 });
    assert_eq!(Delegation::funding(0, u64::MAX).lamports(), u64::MAX);
    assert_eq!(Funding::TopUp { lamports: 7 }.lamports(), 7);
    assert_eq!(funding(3, 10), Delegation::funding(3, 10));
    assert_eq!(funding(0, 10), Funding::Create { lamports: 10 });
}

#[test]
fn record_account_holds_every_stored_form() {
    #[allow(dead_code)]
    #[derive(Clone, Copy)]
    enum Action {
        CastVote,
        CommentProposal,
        CreateGovernance,
        CreateProposal,
        SignOffProposal,
        RevokeVote,
    }
    #[allow(dead_code)]
    struct InMemory {
        realm: HostKey,
        governing_token_mint: HostKey,
        governing_token_owner: HostKey,
        voter_weight: u64,
        voter_weight_expiry: Option<u64>,
        weight_action: Option<Action>,
        weight_action_target: Option<HostKey>,
        reserved: [u8; 8],
    }
    // The account has the discriminator and the size of the record in memory.
    assert_eq!(VoterWeightRecord::size(), 8 + std::mem::size_of::<InMemory>());
    let longest = sample_record();
    assert_eq!(longest.pack().len(), 164);
    let stored = longest.stored();
    assert_eq!(stored.len(), VoterWeightRecord::size());
    assert_eq!(VoterWeightRecord::unpack(&stored), Ok(longest));
    let mut shortest = sample_record();
    shortest.voter_weight_expiry = None;
    shortest.weight_action = None;
    shortest.weight_action_target = None;
    let stored = shortest.stored();
    assert_eq!(stored.len(), 176);
    assert_eq!(VoterWeightRecord::unpack(&stored), Ok(shortest));
    assert!(stored[shortest.pack().len()..].iter().all(|b| *b == 0));
}
