use private_multisig::{
    check_action, check_journal, handle, hash_leaf, hash_pair, nullifier_from_secret,
    proposal_id as derive_proposal_id, Account, ConfigAction, JournalError, MultisigState,
    Proposal, ProofJournal, ProposeError, SwapWitness, VoteType, EMPTY_LEAF, MERKLE_DEPTH,
};

fn state_account(ck: [u8; 32], root: [u8; 32], threshold: u8, count: u8) -> Account {
    Account::Multisig(MultisigState::new(ck, threshold, count, root))
}

fn journal_value(ck: [u8; 32], root: [u8; 32], idx: u64, null: [u8; 32]) -> ProofJournal {
    ProofJournal {
        members_root: root,
        multisig_create_key: ck,
        proposal_id: derive_proposal_id(&ck, idx),
        vote_type: VoteType::Approve,
        nullifier: null,
    }
}

fn journal(ck: [u8; 32], root: [u8; 32], idx: u64, null: [u8; 32]) -> Vec<u8> {
    journal_value(ck, root, idx, null).to_bytes()
}

fn proposed(post: &Account) -> Proposal {
    match post {
        Account::Proposal(proposal) => *proposal,
        other => panic!("no proposal: {:?}", other),
    }
}

fn handle_or_panic(
    accounts: &[Account],
    action: ConfigAction,
    witness: Option<SwapWitness>,
    index: u64,
    journal: &Vec<u8>,
) -> Vec<Account> {
    match handle(accounts, action, witness, index, journal) {
        Ok(posts) => posts,
        Err(error) => panic!("{}", error.message()),
    }
}

/// Returns `(siblings, all_empty_root)` for the all-empty tree:
/// every sibling level is the next-level zero hash.
fn empty_tree() -> ([[u8; 32]; MERKLE_DEPTH], [u8; 32]) {
    let mut siblings = [[0u8; 32]; MERKLE_DEPTH];
    let mut cur = hash_leaf(&EMPTY_LEAF);
    siblings[0] = cur;
    for s in siblings.iter_mut().skip(1) {
        cur = hash_pair(&cur, &cur);
        *s = cur;
    }
    // Root of an all-empty tree is hash_pair applied MERKLE_DEPTH times.
    let mut root = hash_leaf(&EMPTY_LEAF);
    for _ in 0..MERKLE_DEPTH {
        root = hash_pair(&root, &root);
    }
    (siblings, root)
}

/// Compute the root that results from placing `leaf` (already a
/// commitment to be `hash_leaf`'d) at the given path in an
/// otherwise-empty tree.
fn root_with_leaf_at(
    leaf: &[u8; 32],
    path_bits: u32,
    siblings: &[[u8; 32]; MERKLE_DEPTH],
) -> [u8; 32] {
    let mut node = hash_leaf(leaf);
    for level in 0..MERKLE_DEPTH {
        let bit = (path_bits >> level) & 1;
        if bit == 0 {
            node = hash_pair(&node, &siblings[level]);
        } else {
            node = hash_pair(&siblings[level], &node);
        }
    }
    node
}

#[test]
fn propose_add_member_with_witness() {
    let ck = [1u8; 32];
    let (siblings, root) = empty_tree();
    let new_commitment = [5u8; 32];
    let path_bits = 0u32; // slot 0
    let expected_new_root = root_with_leaf_at(&new_commitment, path_bits, &siblings);

    let accounts = vec![state_account(ck, root, 2, 3), Account::Uninitialized];
    let j = journal(ck, root, 1, [9u8; 32]);
    let action =
        ConfigAction::AddMember { new_commitment, target_path_bits: path_bits, expected_new_root };
    let out = handle_or_panic(&accounts, action, Some((path_bits, siblings)), 1, &j);
    let p = proposed(&out[1]);
    assert_eq!(p.config_action, Some(action));
}

#[test]
#[should_panic(expected = "expected_new_root does not match the witnessed swap")]
fn propose_add_member_wrong_expected_root_rejected() {
    let ck = [1u8; 32];
    let (siblings, root) = empty_tree();
    let path_bits = 0u32;
    // Proposer lies: claims expected_new_root is something other
    // than the verified swap result.
    let action = ConfigAction::AddMember {
        new_commitment: [5u8; 32],
        target_path_bits: path_bits,
        expected_new_root: [0xAAu8; 32],
    };
    let accounts = vec![state_account(ck, root, 2, 3), Account::Uninitialized];
    let j = journal(ck, root, 1, [9u8; 32]);
    handle_or_panic(&accounts, action, Some((path_bits, siblings)), 1, &j);
}

#[test]
#[should_panic(expected = "target slot is not currently EMPTY_LEAF")]
fn propose_add_member_into_occupied_slot_rejected() {
    let ck = [1u8; 32];
    // Build a tree where slot 0 is occupied by commitment_a.
    let commitment_a = [11u8; 32];
    let (siblings, _empty_root) = empty_tree();
    let path_bits = 0u32;
    let root_with_a = root_with_leaf_at(&commitment_a, path_bits, &siblings);

    // Proposer tries to "AddMember" at slot 0, but the slot already
    // holds commitment_a.
    let action = ConfigAction::AddMember {
        new_commitment: [22u8; 32],
        target_path_bits: path_bits,
        expected_new_root: [0xBBu8; 32], // doesn't matter; witness check fires first
    };
    let accounts = vec![state_account(ck, root_with_a, 2, 3), Account::Uninitialized];
    let j = journal(ck, root_with_a, 1, [9u8; 32]);
    handle_or_panic(&accounts, action, Some((path_bits, siblings)), 1, &j);
}

#[test]
#[should_panic(expected = "new_commitment must not equal EMPTY_LEAF")]
fn propose_add_member_empty_leaf_as_commitment_rejected() {
    let ck = [1u8; 32];
    let (siblings, root) = empty_tree();
    let path_bits = 0u32;
    let action = ConfigAction::AddMember {
        new_commitment: EMPTY_LEAF,
        target_path_bits: path_bits,
        expected_new_root: root,
    };
    let accounts = vec![state_account(ck, root, 2, 3), Account::Uninitialized];
    let j = journal(ck, root, 1, [9u8; 32]);
    handle_or_panic(&accounts, action, Some((path_bits, siblings)), 1, &j);
}

#[test]
fn propose_remove_member_with_witness() {
    let ck = [1u8; 32];
    // Build a tree where slot 3 holds commitment_a.
    let commitment_a = [11u8; 32];
    let (siblings, _empty_root) = empty_tree();
    let path_bits = 3u32;
    let root_with_a = root_with_leaf_at(&commitment_a, path_bits, &siblings);
    // After removal, slot 3 holds EMPTY_LEAF, so that's the all-empty tree root.
    let expected_new_root = root_with_leaf_at(&EMPTY_LEAF, path_bits, &siblings);

    let action = ConfigAction::RemoveMember {
        target_commitment: commitment_a,
        target_path_bits: path_bits,
        expected_new_root,
    };
    // member_count=3, threshold=2 so remove is allowed.
    let accounts = vec![state_account(ck, root_with_a, 2, 3), Account::Uninitialized];
    let j = journal(ck, root_with_a, 1, [9u8; 32]);
    let out = handle_or_panic(&accounts, action, Some((path_bits, siblings)), 1, &j);
    let p = proposed(&out[1]);
    assert_eq!(p.config_action, Some(action));
}

#[test]
#[should_panic(expected = "target slot does not currently hold target_commitment")]
fn propose_remove_member_wrong_target_rejected() {
    let ck = [1u8; 32];
    let commitment_a = [11u8; 32];
    let (siblings, _) = empty_tree();
    let path_bits = 3u32;
    let root_with_a = root_with_leaf_at(&commitment_a, path_bits, &siblings);

    // Proposer claims to remove a different commitment at the same slot.
    let action = ConfigAction::RemoveMember {
        target_commitment: [99u8; 32],
        target_path_bits: path_bits,
        expected_new_root: [0xCCu8; 32],
    };
    let accounts = vec![state_account(ck, root_with_a, 2, 3), Account::Uninitialized];
    let j = journal(ck, root_with_a, 1, [9u8; 32]);
    handle_or_panic(&accounts, action, Some((path_bits, siblings)), 1, &j);
}

#[test]
#[should_panic(expected = "below threshold")]
fn remove_below_threshold_rejected_at_propose_time() {
    let ck = [1u8; 32];
    let commitment_a = [11u8; 32];
    let (siblings, _) = empty_tree();
    let path_bits = 0u32;
    let root_with_a = root_with_leaf_at(&commitment_a, path_bits, &siblings);
    let expected_new_root = root_with_leaf_at(&EMPTY_LEAF, path_bits, &siblings);

    // member_count=2, threshold=2: remove would drop below threshold.
    let accounts = vec![state_account(ck, root_with_a, 2, 2), Account::Uninitialized];
    let j = journal(ck, root_with_a, 1, [9u8; 32]);
    let action = ConfigAction::RemoveMember {
        target_commitment: commitment_a,
        target_path_bits: path_bits,
        expected_new_root,
    };
    handle_or_panic(&accounts, action, Some((path_bits, siblings)), 1, &j);
}

#[test]
fn propose_change_threshold_takes_no_witness() {
    let ck = [1u8; 32];
    let (_, root) = empty_tree();
    let accounts = vec![state_account(ck, root, 2, 3), Account::Uninitialized];
    let j = journal(ck, root, 1, [9u8; 32]);
    let action = ConfigAction::ChangeThreshold { new_threshold: 3 };
    let out = handle_or_panic(&accounts, action, None, 1, &j);
    let p = proposed(&out[1]);
    assert_eq!(p.config_action, Some(action));
}

#[test]
#[should_panic(expected = "ChangeThreshold must not carry a swap_witness")]
fn change_threshold_with_witness_rejected() {
    let ck = [1u8; 32];
    let (siblings, root) = empty_tree();
    let accounts = vec![state_account(ck, root, 2, 3), Account::Uninitialized];
    let j = journal(ck, root, 1, [9u8; 32]);
    let action = ConfigAction::ChangeThreshold { new_threshold: 3 };
    handle_or_panic(&accounts, action, Some((0, siblings)), 1, &j);
}

const CK: [u8; 32] = [1u8; 32];

/// Proposes a change of threshold with everything in order but what the
/// arguments replace.
fn change_threshold(accounts: &[Account], index: u64, journal: &Vec<u8>) -> ProposeError {
    let action = ConfigAction::ChangeThreshold { new_threshold: 3 };
    handle(accounts, action, None, index, journal).unwrap_err()
}

#[test]
fn accounts_after_a_proposal() {
    let (_, root) = empty_tree();
    let state = MultisigState {
        create_key: CK,
        threshold: 2,
        member_count: 3,
        members_root: root,
        transaction_index: 41,
    };
    let accounts = vec![Account::Multisig(state), Account::Uninitialized, Account::Other];
    let action = ConfigAction::ChangeThreshold { new_threshold: 1 };
    let out = handle(&accounts, action, None, 42, &journal(CK, root, 42, [9u8; 32])).unwrap();
    assert_eq!(
        out,
        vec![
            Account::Multisig(MultisigState { transaction_index: 42, ..state }),
            Account::Proposal(Proposal {
                index: 42,
                multisig_create_key: CK,
                members_root: root,
                config_action: Some(action),
                proposer_nullifier: [9u8; 32],
            }),
        ]
    );
}

#[test]
fn accounts_are_checked() {
    let (_, root) = empty_tree();
    let state = state_account(CK, root, 2, 3);
    let j = journal(CK, root, 1, [9u8; 32]);
    assert_eq!(change_threshold(&[], 1, &j), ProposeError::NotEnoughAccounts);
    assert_eq!(change_threshold(&[state], 1, &j), ProposeError::NotEnoughAccounts);
    assert_eq!(change_threshold(&[state, state], 1, &j), ProposeError::ProposalInitialized);
    assert_eq!(
        change_threshold(&[state, Account::Other], 1, &j),
        ProposeError::ProposalInitialized
    );
    let blank = Account::Uninitialized;
    assert_eq!(change_threshold(&[blank, blank], 1, &j), ProposeError::StateUndecodable);
    assert_eq!(change_threshold(&[Account::Other, blank], 1, &j), ProposeError::StateUndecodable);
}

#[test]
fn index_is_checked() {
    let (_, root) = empty_tree();
    let j = journal(CK, root, 1, [9u8; 32]);
    let accounts = vec![state_account(CK, root, 2, 3), Account::Uninitialized];
    assert_eq!(change_threshold(&accounts, 0, &j), ProposeError::IndexMismatch);
    assert_eq!(change_threshold(&accounts, 2, &j), ProposeError::IndexMismatch);

    let mut state = MultisigState::new(CK, 2, 3, root);
    state.transaction_index = u64::MAX;
    let accounts = vec![Account::Multisig(state), Account::Uninitialized];
    assert_eq!(change_threshold(&accounts, 0, &j), ProposeError::IndexExhausted);

    state.transaction_index = 6;
    assert_eq!(state.next_proposal_index(), 7);
    assert_eq!(state.transaction_index, 7);
}

#[test]
fn proof_is_checked() {
    let (_, root) = empty_tree();
    let accounts = vec![state_account(CK, root, 2, 3), Account::Uninitialized];
    let good = journal_value(CK, root, 1, [9u8; 32]);

    assert_eq!(
        change_threshold(&accounts, 1, &vec![0u8; 5]),
        ProposeError::JournalUnreadable(JournalError::Truncated)
    );
    let mut other_multisig = good;
    other_multisig.multisig_create_key = [8u8; 32];
    assert_eq!(
        change_threshold(&accounts, 1, &other_multisig.to_bytes()),
        ProposeError::CreateKeyMismatch
    );
    let mut other_members = good;
    other_members.members_root = [8u8; 32];
    assert_eq!(
        change_threshold(&accounts, 1, &other_members.to_bytes()),
        ProposeError::MemberSetMismatch
    );
    let mut other_proposal = good;
    other_proposal.proposal_id = derive_proposal_id(&CK, 2);
    assert_eq!(
        change_threshold(&accounts, 1, &other_proposal.to_bytes()),
        ProposeError::ProposalIdMismatch
    );
    let mut reject = good;
    reject.vote_type = VoteType::Reject;
    assert_eq!(change_threshold(&accounts, 1, &reject.to_bytes()), ProposeError::NotAnApproval);
}

#[test]
fn proof_does_not_propose_twice() {
    let (_, root) = empty_tree();
    let accounts = vec![state_account(CK, root, 2, 3), Account::Uninitialized];
    let j = journal(CK, root, 1, [9u8; 32]);
    let action = ConfigAction::ChangeThreshold { new_threshold: 3 };
    let out = handle(&accounts, action, None, 1, &j).unwrap();
    let next = vec![out[0], Account::Uninitialized];
    assert_eq!(change_threshold(&next, 1, &j), ProposeError::IndexMismatch);
    assert_eq!(change_threshold(&next, 2, &j), ProposeError::ProposalIdMismatch);
}

#[test]
fn one_nullifier_per_member_and_proposal() {
    let (_, root) = empty_tree();
    let pid = derive_proposal_id(&CK, 1);
    let secret = [6u8; 32];
    let mut approve = journal_value(CK, root, 1, nullifier_from_secret(&secret, &pid, &CK));
    let mut used = Vec::new();
    used.push(approve.nullifier);
    approve.vote_type = VoteType::Reject;
    approve.nullifier = nullifier_from_secret(&secret, &pid, &CK);
    assert!(used.contains(&approve.nullifier));
    assert!(!used.contains(&nullifier_from_secret(&[7u8; 32], &pid, &CK)));
}

#[test]
fn add_member_rules() {
    let (siblings, root) = empty_tree();
    let new_commitment = [5u8; 32];
    let new_root = [6u8; 32];
    let state = MultisigState::new(CK, 2, 254, root);
    let full = MultisigState::new(CK, 2, 255, root);
    let add = |commitment: [u8; 32]| ConfigAction::AddMember {
        new_commitment: commitment,
        target_path_bits: 4,
        expected_new_root: new_root,
    };
    let action = add(new_commitment);
    let witness = Some((4, siblings));
    let swapped = Some(new_root);
    assert_eq!(check_action(&state, &action, &witness, &swapped), Ok(()));
    assert_eq!(
        check_action(&full, &action, &witness, &swapped),
        Err(ProposeError::MemberCountOverflow)
    );
    assert_eq!(
        check_action(&state, &add(EMPTY_LEAF), &witness, &swapped),
        Err(ProposeError::EmptyNewCommitment)
    );
    assert_eq!(
        check_action(&state, &action, &None, &swapped),
        Err(ProposeError::AddWitnessMissing)
    );
    assert_eq!(
        check_action(&state, &action, &Some((5, siblings)), &swapped),
        Err(ProposeError::WitnessPathMismatch)
    );
    assert_eq!(check_action(&state, &action, &witness, &None), Err(ProposeError::SlotNotEmpty));
    assert_eq!(
        check_action(&state, &action, &witness, &Some([7u8; 32])),
        Err(ProposeError::AddRootMismatch)
    );
}

#[test]
fn remove_member_rules() {
    let (siblings, root) = empty_tree();
    let new_root = [6u8; 32];
    let state = MultisigState::new(CK, 2, 3, root);
    let remove = |commitment: [u8; 32]| ConfigAction::RemoveMember {
        target_commitment: commitment,
        target_path_bits: 4,
        expected_new_root: new_root,
    };
    let action = remove([5u8; 32]);
    let witness = Some((4, siblings));
    let swapped = Some(new_root);
    assert_eq!(check_action(&state, &action, &witness, &swapped), Ok(()));
    let small = MultisigState::new(CK, 3, 3, root);
    assert_eq!(
        check_action(&small, &action, &witness, &swapped),
        Err(ProposeError::BelowThreshold)
    );
    assert_eq!(
        check_action(&state, &remove(EMPTY_LEAF), &witness, &swapped),
        Err(ProposeError::EmptyTargetCommitment)
    );
    assert_eq!(
        check_action(&state, &action, &None, &swapped),
        Err(ProposeError::RemoveWitnessMissing)
    );
    assert_eq!(
        check_action(&state, &action, &Some((0, siblings)), &swapped),
        Err(ProposeError::WitnessPathMismatch)
    );
    assert_eq!(check_action(&state, &action, &witness, &None), Err(ProposeError::SlotNotTarget));
    assert_eq!(
        check_action(&state, &action, &witness, &Some([7u8; 32])),
        Err(ProposeError::RemoveRootMismatch)
    );
}

#[test]
fn change_threshold_rules() {
    let (siblings, root) = empty_tree();
    let state = MultisigState::new(CK, 2, 3, root);
    let check = |new_threshold: u8, witness: Option<SwapWitness>| {
        check_action(&state, &ConfigAction::ChangeThreshold { new_threshold }, &witness, &None)
    };
    assert_eq!(check(1, None), Ok(()));
    assert_eq!(check(3, None), Ok(()));
    assert_eq!(check(0, None), Err(ProposeError::ZeroThreshold));
    assert_eq!(check(4, None), Err(ProposeError::ThresholdAboveMemberCount));
    assert_eq!(check(3, Some((0, siblings))), Err(ProposeError::UnexpectedWitness));
}

#[test]
fn journal_rules() {
    let (_, root) = empty_tree();
    let state = MultisigState::new(CK, 2, 3, root);
    let id = [4u8; 32];
    let mut proof = journal_value(CK, root, 1, [9u8; 32]);
    assert_eq!(check_journal(&state, &id, &proof), Err(ProposeError::ProposalIdMismatch));
    proof.proposal_id = id;
    assert_eq!(check_journal(&state, &id, &proof), Ok(()));
}

#[test]
fn add_then_remove_restores_the_root() {
    let (siblings, root) = empty_tree();
    let member = [5u8; 32];
    let with_member = root_with_leaf_at(&member, 9, &siblings);
    let witness = Some((9, siblings));
    let add = ConfigAction::AddMember {
        new_commitment: member,
        target_path_bits: 9,
        expected_new_root: with_member,
    };
    let accounts = vec![state_account(CK, root, 1, 3), Account::Uninitialized];
    assert!(handle(&accounts, add, witness, 1, &journal(CK, root, 1, [9u8; 32])).is_ok());
    let remove = ConfigAction::RemoveMember {
        target_commitment: member,
        target_path_bits: 9,
        expected_new_root: root,
    };
    let accounts = vec![state_account(CK, with_member, 1, 4), Account::Uninitialized];
    let j = journal(CK, with_member, 1, [9u8; 32]);
    assert!(handle(&accounts, remove, witness, 1, &j).is_ok());
}

#[test]
fn first_broken_rule_is_reported() {
    let accounts = vec![state_account(CK, [0u8; 32], 2, 2), Account::Uninitialized];
    let remove = ConfigAction::RemoveMember {
        target_commitment: EMPTY_LEAF,
        target_path_bits: 0,
        expected_new_root: [0u8; 32],
    };
    let refused = handle(&accounts, remove, None, 7, &Vec::new());
    assert_eq!(refused, Err(ProposeError::BelowThreshold));
}
