use private_multisig::{
    commitment_from_secret, hash_leaf, hash_pair, nullifier_from_secret, proposal_id, settle_swap,
    verify_and_replace, verify_merkle_path, Commitment, EMPTY_LEAF, MERKLE_DEPTH,
};

/// The tree whose slots are all empty: the nodes beside any path, and the root.
fn empty_tree() -> ([[u8; 32]; MERKLE_DEPTH], [u8; 32]) {
    let mut siblings = [[0u8; 32]; MERKLE_DEPTH];
    let mut cur = hash_leaf(&EMPTY_LEAF);
    for s in siblings.iter_mut() {
        *s = cur;
        cur = hash_pair(&cur, &cur);
    }
    (siblings, cur)
}

/// Builds the tree over `leaves` level by level; the nodes beside the path of
/// `slot`, and the root.
fn build_tree(leaves: &[[u8; 32]], slot: usize) -> ([[u8; 32]; MERKLE_DEPTH], [u8; 32]) {
    assert_eq!(leaves.len(), 1 << MERKLE_DEPTH);
    let mut row: Vec<[u8; 32]> = leaves.iter().map(hash_leaf).collect();
    let mut siblings = [[0u8; 32]; MERKLE_DEPTH];
    let mut at = slot;
    for s in siblings.iter_mut() {
        *s = row[at ^ 1];
        row = row.chunks(2).map(|pair| hash_pair(&pair[0], &pair[1])).collect();
        at /= 2;
    }
    (siblings, row[0])
}

/// Member commitments in some slots, the others empty.
fn some_members() -> Vec<[u8; 32]> {
    let mut leaves = vec![EMPTY_LEAF; 1 << MERKLE_DEPTH];
    for (slot, byte) in [(0usize, 1u8), (1, 2), (6, 3), (700, 4), (1023, 5)] {
        leaves[slot] = [byte; 32];
    }
    leaves
}

#[test]
fn commitment_is_deterministic() {
    let sk = [7u8; 32];
    let salt = [3u8; 32];
    assert_eq!(commitment_from_secret(&sk, &salt), commitment_from_secret(&sk, &salt));
}

#[test]
fn nullifier_does_not_depend_on_vote_type() {
    // Same member, same proposal: the vote is not in the preimage, so
    // approving and rejecting produce the same nullifier.
    let sk = [1u8; 32];
    let ck = [2u8; 32];
    let pid = proposal_id(&ck, 1);
    let n = nullifier_from_secret(&sk, &pid, &ck);
    assert_eq!(n, nullifier_from_secret(&sk, &pid, &ck));
}

#[test]
fn nullifier_differs_per_proposal() {
    let sk = [1u8; 32];
    let ck = [2u8; 32];
    let n1 = nullifier_from_secret(&sk, &proposal_id(&ck, 1), &ck);
    let n2 = nullifier_from_secret(&sk, &proposal_id(&ck, 2), &ck);
    assert_ne!(n1, n2);
}

#[test]
fn nullifier_differs_per_multisig() {
    let sk = [1u8; 32];
    let ck_a = [2u8; 32];
    let ck_b = [9u8; 32];
    let n_a = nullifier_from_secret(&sk, &proposal_id(&ck_a, 1), &ck_a);
    let n_b = nullifier_from_secret(&sk, &proposal_id(&ck_b, 1), &ck_b);
    assert_ne!(n_a, n_b);
}

#[test]
fn verify_and_replace_accepts_valid_swap() {
    // Build a two-leaf tree with `old_leaf` at slot 0, then check
    // that swapping it for `new_leaf` produces the same root we'd
    // get by building the tree from scratch with `new_leaf`.
    let old_leaf: Commitment = [11u8; 32];
    let new_leaf: Commitment = [22u8; 32];
    let other: Commitment = [33u8; 32];

    let mut siblings = [[0u8; 32]; MERKLE_DEPTH];
    // Sibling at level 0 is the other leaf, hashed. Levels above
    // are the empty-subtree zeros (start at hash_leaf(EMPTY_LEAF)).
    siblings[0] = hash_leaf(&other);
    let empty_l0 = hash_leaf(&EMPTY_LEAF);
    let mut cur_empty = empty_l0;
    for s in siblings.iter_mut().skip(1) {
        cur_empty = hash_pair(&cur_empty, &cur_empty);
        *s = cur_empty;
    }

    // Root with old_leaf at slot 0.
    let mut node = hash_leaf(&old_leaf);
    for s in siblings.iter() {
        node = hash_pair(&node, s);
    }
    let old_root = node;

    // verify_and_replace should accept the swap.
    let new_root = verify_and_replace(&old_leaf, &new_leaf, 0, &siblings, &old_root)
        .expect("witnessed swap should verify");

    // The result must match a directly-computed root for new_leaf at slot 0.
    let mut node2 = hash_leaf(&new_leaf);
    for s in siblings.iter() {
        node2 = hash_pair(&node2, s);
    }
    assert_eq!(new_root, node2);
}

#[test]
fn verify_and_replace_rejects_wrong_old_leaf() {
    let old_leaf: Commitment = [11u8; 32];
    let claimed_old: Commitment = [99u8; 32]; // wrong
    let new_leaf: Commitment = [22u8; 32];

    let mut siblings = [[0u8; 32]; MERKLE_DEPTH];
    let empty_l0 = hash_leaf(&EMPTY_LEAF);
    let mut cur_empty = empty_l0;
    siblings[0] = empty_l0;
    for s in siblings.iter_mut().skip(1) {
        cur_empty = hash_pair(&cur_empty, &cur_empty);
        *s = cur_empty;
    }

    let mut node = hash_leaf(&old_leaf);
    for s in siblings.iter() {
        node = hash_pair(&node, s);
    }
    let root = node;

    // Prover lies about what's currently at the slot.
    let res = verify_and_replace(&claimed_old, &new_leaf, 0, &siblings, &root);
    assert!(res.is_none(), "wrong old_leaf must be rejected");
}

#[test]
fn leaf_hash_is_tagged_sha256() {
    let expected: [u8; 32] = [
        0x9d, 0x2d, 0x50, 0x77, 0x97, 0x29, 0xba, 0x03, 0xa2, 0xe2, 0xf4, 0x11, 0x75, 0x89, 0xb0, 0xc2,
        0xe9, 0x67, 0xae, 0xa0, 0x0b, 0xcb, 0x2d, 0xff, 0x7e, 0x39, 0x8f, 0xcf, 0x23, 0xbb, 0x99, 0xdd,
    ];
    assert_eq!(hash_leaf(&[7u8; 32]), expected);
}

#[test]
fn pair_hash_is_tagged_sha256() {
    let expected: [u8; 32] = [
        0x28, 0xb7, 0x99, 0x0e, 0x85, 0xed, 0xe7, 0x98, 0xf7, 0x82, 0xf7, 0xbe, 0x36, 0x6b, 0xc2, 0x1e,
        0xbc, 0x61, 0x56, 0x8c, 0xe5, 0x07, 0x14, 0xf8, 0x1b, 0xbc, 0x7f, 0xd0, 0xc3, 0xc1, 0x92, 0x03,
    ];
    assert_eq!(hash_pair(&[1u8; 32], &[2u8; 32]), expected);
    assert_ne!(hash_pair(&[2u8; 32], &[1u8; 32]), expected);
}

#[test]
fn commitment_value() {
    let expected: [u8; 32] = [
        0xa7, 0x87, 0x96, 0x4c, 0x5c, 0xd8, 0xf5, 0x9a, 0x21, 0x7a, 0x8f, 0x43, 0x6f, 0x2c, 0x31, 0x0d,
        0xe3, 0xbe, 0x33, 0x7b, 0x37, 0x14, 0x64, 0x49, 0x9b, 0x81, 0x5d, 0xd4, 0xab, 0x65, 0x83, 0x55,
    ];
    assert_eq!(commitment_from_secret(&[7u8; 32], &[3u8; 32]), expected);
    assert_ne!(commitment_from_secret(&[7u8; 32], &[4u8; 32]), expected);
    assert_ne!(commitment_from_secret(&[8u8; 32], &[3u8; 32]), expected);
}

#[test]
fn proposal_id_value() {
    let expected: [u8; 32] = [
        0x00, 0xf6, 0x96, 0x7b, 0x9d, 0xfe, 0xac, 0xb0, 0x15, 0x93, 0x3a, 0x86, 0x62, 0xa0, 0x2e, 0x58,
        0xa9, 0x27, 0x0f, 0xb4, 0x89, 0xed, 0x01, 0x42, 0xa7, 0x5c, 0xde, 0x24, 0x85, 0x66, 0x07, 0x91,
    ];
    assert_eq!(proposal_id(&[2u8; 32], 0x0102030405060708), expected);
    assert_ne!(proposal_id(&[2u8; 32], 0x0807060504030201), expected);
    assert_ne!(proposal_id(&[3u8; 32], 0x0102030405060708), expected);
}

#[test]
fn nullifier_value() {
    let expected: [u8; 32] = [
        0x38, 0x56, 0x95, 0xc0, 0x8a, 0x65, 0xa8, 0x8c, 0x7a, 0x78, 0x40, 0x14, 0x42, 0xbc, 0xee, 0x33,
        0x97, 0xc0, 0x94, 0xd0, 0x6d, 0x4a, 0x78, 0x4e, 0xc6, 0x9e, 0xfb, 0x51, 0x4e, 0x5e, 0x46, 0xd6,
    ];
    assert_eq!(nullifier_from_secret(&[1u8; 32], &[4u8; 32], &[2u8; 32]), expected);
    assert_ne!(nullifier_from_secret(&[9u8; 32], &[4u8; 32], &[2u8; 32]), expected);
}

#[test]
fn empty_leaf_is_the_documented_text() {
    assert_eq!(&EMPTY_LEAF, b"lez-private-multisig-empty-leaf!");
    assert_eq!(&private_multisig::DOMAIN_TAG[..], b"lez-private-multisig-v1");
    assert_ne!(EMPTY_LEAF, [0u8; 32]);
}

#[test]
fn path_bits_choose_sides() {
    let mut siblings = [[0u8; 32]; MERKLE_DEPTH];
    for (level, s) in siblings.iter_mut().enumerate() {
        *s = [level as u8 + 1; 32];
    }
    let root: [u8; 32] = [
        0x0f, 0x48, 0xae, 0xd4, 0x91, 0x8f, 0xbc, 0x93, 0xe2, 0xfb, 0x4d, 0x8a, 0x68, 0xa7, 0x2c, 0x96,
        0x54, 0xaf, 0x31, 0xd6, 0x2a, 0xca, 0xf8, 0x97, 0xb2, 0xf3, 0xbd, 0x18, 0x24, 0x96, 0x57, 0xa2,
    ];
    assert!(verify_merkle_path(&[7u8; 32], 5, &siblings, &root));
    assert!(!verify_merkle_path(&[7u8; 32], 4, &siblings, &root));
    assert!(!verify_merkle_path(&[8u8; 32], 5, &siblings, &root));
    siblings[9] = [0u8; 32];
    assert!(!verify_merkle_path(&[7u8; 32], 5, &siblings, &root));
}

#[test]
fn only_the_low_bits_of_a_path_count() {
    let (siblings, root) = build_tree(&some_members(), 6);
    assert!(verify_merkle_path(&[3u8; 32], 6, &siblings, &root));
    assert!(verify_merkle_path(&[3u8; 32], 6 + 1024, &siblings, &root));
    assert!(verify_merkle_path(&[3u8; 32], 6 + 0xffff_fc00, &siblings, &root));
    assert!(!verify_merkle_path(&[3u8; 32], 7, &siblings, &root));
}

#[test]
fn every_slot_has_a_path() {
    let leaves = some_members();
    for slot in [0usize, 1, 2, 6, 511, 512, 700, 1023] {
        let (siblings, root) = build_tree(&leaves, slot);
        assert!(verify_merkle_path(&leaves[slot], slot as u32, &siblings, &root));
        assert!(!verify_merkle_path(&[77u8; 32], slot as u32, &siblings, &root));
    }
    let (siblings, root) = empty_tree();
    assert!(verify_merkle_path(&EMPTY_LEAF, 123, &siblings, &root));
}

#[test]
fn replacement_is_the_tree_built_anew() {
    let leaves = some_members();
    for slot in [0usize, 6, 300, 1023] {
        let (siblings, root) = build_tree(&leaves, slot);
        let new_leaf = [88u8; 32];
        let mut updated = leaves.clone();
        updated[slot] = new_leaf;
        let (_, new_root) = build_tree(&updated, slot);
        assert_eq!(
            verify_and_replace(&leaves[slot], &new_leaf, slot as u32, &siblings, &root),
            Some(new_root)
        );
    }
}

#[test]
fn replacement_keeps_other_members() {
    let leaves = some_members();
    let (siblings, root) = build_tree(&leaves, 6);
    let new_root = verify_and_replace(&[3u8; 32], &EMPTY_LEAF, 6, &siblings, &root).unwrap();
    let mut updated = leaves.clone();
    updated[6] = EMPTY_LEAF;
    for slot in [0usize, 1, 700, 1023] {
        let (path, _) = build_tree(&updated, slot);
        assert!(verify_merkle_path(&leaves[slot], slot as u32, &path, &new_root));
    }
}

#[test]
fn replacement_can_be_undone() {
    let (siblings, root) = build_tree(&some_members(), 700);
    let new_root = verify_and_replace(&[4u8; 32], &[9u8; 32], 700, &siblings, &root).unwrap();
    assert_ne!(new_root, root);
    assert!(verify_merkle_path(&[9u8; 32], 700, &siblings, &new_root));
    assert_eq!(verify_and_replace(&[9u8; 32], &[4u8; 32], 700, &siblings, &new_root), Some(root));
}

#[test]
fn swap_is_settled_by_the_old_root() {
    assert_eq!(settle_swap(&[1u8; 32], &[2u8; 32], &[1u8; 32]), Some([2u8; 32]));
    assert_eq!(settle_swap(&[1u8; 32], &[2u8; 32], &[2u8; 32]), None);
}

#[test]
fn leaf_and_node_hashes_differ() {
    assert_ne!(hash_leaf(&[0u8; 32]), hash_pair(&[0u8; 32], &[0u8; 32]));
}
