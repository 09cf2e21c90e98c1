//! The Merkle tree over member commitments: hashing, membership paths and
//! the witnessed replacement of one leaf.

use crate::digest::{append, same_bytes, sha256_digest};
use vstd::prelude::*;

verus! {

use crate::digest::sha256;
use vstd::arithmetic::power2::pow2;

/// Merkle tree depth: 2^10 = 1024 members at most per multisig.
pub const MERKLE_DEPTH: usize = 10;

/// A 32-byte commitment: the hash of a member's secret and salt.
pub type Commitment = [u8; 32];

/// Merkle root over member commitments. Leaves are commitments;
/// empty slots use `EMPTY_LEAF`.
pub type MerkleRoot = [u8; 32];

/// Value of an unfilled leaf: the ASCII bytes `lez-private-multisig-empty-leaf!`.
/// A fixed non-zero string keeps an all-zero commitment from matching an
/// empty slot.
pub const EMPTY_LEAF: [u8; 32] = [
    0x6c, 0x65, 0x7a, 0x2d, 0x70, 0x72, 0x69, 0x76, 0x61, 0x74, 0x65, 0x2d, 0x6d, 0x75, 0x6c, 0x74,
    0x69, 0x73, 0x69, 0x67, 0x2d, 0x65, 0x6d, 0x70, 0x74, 0x79, 0x2d, 0x6c, 0x65, 0x61, 0x66, 0x21,
];

/// Prefix of a hashed leaf: the ASCII bytes `LEAF`.
pub const LEAF_TAG: [u8; 4] = [0x4c, 0x45, 0x41, 0x46];

/// Prefix of a hashed pair of children: the ASCII bytes `NODE`.
pub const NODE_TAG: [u8; 4] = [0x4e, 0x4f, 0x44, 0x45];

/// What is hashed for a leaf.
pub open spec fn leaf_input(commitment: [u8; 32]) -> Seq<u8> {
    LEAF_TAG@ + commitment@
}

/// What is hashed for an inner node.
pub open spec fn pair_input(left: [u8; 32], right: [u8; 32]) -> Seq<u8> {
    NODE_TAG@ + left@ + right@
}

/// Hash two Merkle children into a parent.
pub fn hash_pair(left: &[u8; 32], right: &[u8; 32]) -> (node: [u8; 32])
    ensures
        node == sha256(pair_input(*left, *right)),
{
    let mut input: Vec<u8> = Vec::new();
    append(&mut input, &NODE_TAG);
    append(&mut input, left);
    append(&mut input, right);
    assert(input@ =~= pair_input(*left, *right));
    sha256_digest(&input)
}

/// Hash a leaf commitment. Domain-separated from internal nodes so a leaf
/// value can never be interpreted as a branch value.
pub fn hash_leaf(commitment: &Commitment) -> (node: [u8; 32])
    ensures
        node == sha256(leaf_input(*commitment)),
{
    let mut input: Vec<u8> = Vec::new();
    append(&mut input, &LEAF_TAG);
    append(&mut input, commitment);
    assert(input@ =~= leaf_input(*commitment));
    sha256_digest(&input)
}

/// Bit `level` of a leaf index, least significant first: whether the sibling
/// at that level is on the left.
pub open spec fn sibling_on_left(path_bits: u32, level: nat) -> bool {
    (path_bits as nat / pow2(level)) % 2 == 1
}

/// The bytes hashed to get the node at height `level` on the way up from
/// `commitment`: the leaf itself at height 0, a pair of children above.
pub open spec fn step_input(
    commitment: [u8; 32],
    path_bits: u32,
    siblings: Seq<[u8; 32]>,
    level: nat,
) -> Seq<u8>
    decreases level,
{
    if level == 0 {
        leaf_input(commitment)
    } else {
        let below = (level - 1) as nat;
        let node = sha256(step_input(commitment, path_bits, siblings, below));
        if sibling_on_left(path_bits, below) {
            pair_input(siblings[below as int], node)
        } else {
            pair_input(node, siblings[below as int])
        }
    }
}

/// The node at height `level` above `commitment`, with `siblings` beside the
/// path from the leaf up.
pub open spec fn climb(
    commitment: [u8; 32],
    path_bits: u32,
    siblings: Seq<[u8; 32]>,
    level: nat,
) -> [u8; 32] {
    sha256(step_input(commitment, path_bits, siblings, level))
}

/// The root that a leaf and its siblings lead to.
pub open spec fn root_of_path(
    commitment: [u8; 32],
    path_bits: u32,
    siblings: Seq<[u8; 32]>,
) -> [u8; 32] {
    climb(commitment, path_bits, siblings, MERKLE_DEPTH as nat)
}

/// The root after `new_leaf` took the place of `old_leaf`, if `old_leaf` is
/// what the path proves to be in its slot.
pub open spec fn replaced_root(
    old_leaf: [u8; 32],
    new_leaf: [u8; 32],
    path_bits: u32,
    siblings: Seq<[u8; 32]>,
    expected_root: [u8; 32],
) -> Option<[u8; 32]> {
    if root_of_path(old_leaf, path_bits, siblings) == expected_root {
        Some(root_of_path(new_leaf, path_bits, siblings))
    } else {
        None
    }
}

/// Reads bit `level` of `path_bits`.
fn read_bit(path_bits: u32, level: usize) -> (bit: u32)
    requires
        level < MERKLE_DEPTH,
    ensures
        bit == 0 || bit == 1,
        (bit == 1) == sibling_on_left(path_bits, level as nat),
{
    let shifted: u32 = path_bits >> level;
    proof {
        vstd::bits::lemma_u32_shr_is_div(path_bits, level as u32);
        assert(path_bits >> level == path_bits >> (level as u32)) by (bit_vector)
            requires
                level < 10,
        ;
        assert(shifted & 1 == shifted % 2) by (bit_vector);
    }
    shifted & 1
}

/// Verify a Merkle path leads from a leaf commitment to a claimed root.
///
/// `path_bits` is the leaf index: bit i (LSB first) says whether the sibling
/// at level i is on the right (0) or left (1).
pub fn verify_merkle_path(
    commitment: &Commitment,
    path_bits: u32,
    siblings: &[[u8; 32]; MERKLE_DEPTH],
    expected_root: &MerkleRoot,
) -> (valid: bool)
    ensures
        valid == (root_of_path(*commitment, path_bits, siblings@) == *expected_root),
{
    let mut node = hash_leaf(commitment);
    let mut level: usize = 0;
    while level < MERKLE_DEPTH
        invariant
            level <= MERKLE_DEPTH,
            node == climb(*commitment, path_bits, siblings@, level as nat),
        decreases MERKLE_DEPTH - level,
    {
        let sibling = &siblings[level];
        node = if read_bit(path_bits, level) == 0 {
            hash_pair(&node, sibling)
        } else {
            hash_pair(sibling, &node)
        };
        level += 1;
    }
    same_bytes(&node, expected_root)
}

/// Verify that `old_leaf` is at slot `path_bits` under `expected_root`,
/// and simultaneously compute the new root that results from replacing
/// `old_leaf` with `new_leaf` at the same slot, leaving all siblings
/// untouched.
///
/// Returns `Some(new_root)` if `old_leaf` was indeed at that slot,
/// `None` otherwise.
pub fn verify_and_replace(
    old_leaf: &Commitment,
    new_leaf: &Commitment,
    path_bits: u32,
    siblings: &[[u8; 32]; MERKLE_DEPTH],
    expected_root: &MerkleRoot,
) -> (new_root: Option<MerkleRoot>)
    ensures
        new_root == replaced_root(*old_leaf, *new_leaf, path_bits, siblings@, *expected_root),
{
    let mut old_node = hash_leaf(old_leaf);
    let mut new_node = hash_leaf(new_leaf);
    let mut level: usize = 0;
    while level < MERKLE_DEPTH
        invariant
            level <= MERKLE_DEPTH,
            old_node == climb(*old_leaf, path_bits, siblings@, level as nat),
            new_node == climb(*new_leaf, path_bits, siblings@, level as nat),
        decreases MERKLE_DEPTH - level,
    {
        let sibling = &siblings[level];
        if read_bit(path_bits, level) == 0 {
            old_node = hash_pair(&old_node, sibling);
            new_node = hash_pair(&new_node, sibling);
        } else {
            old_node = hash_pair(sibling, &old_node);
            new_node = hash_pair(sibling, &new_node);
        }
        level += 1;
    }
    settle_swap(&old_node, &new_node, expected_root)
}

/// Settles a replacement from the roots that the old and the new leaf lead
/// to: the new root stands if the old one is the expected one.
pub fn settle_swap(
    old_root: &MerkleRoot,
    new_root: &MerkleRoot,
    expected_root: &MerkleRoot,
) -> (settled: Option<MerkleRoot>)
    ensures
        settled == (if *old_root == *expected_root {
            Some(*new_root)
        } else {
            None
        }),
{
    if same_bytes(old_root, expected_root) {
        Some(*new_root)
    } else {
        None
    }
}

} // verus!
