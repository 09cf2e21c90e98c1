//! The member tree as a whole, and what membership paths and witnessed
//! replacements mean for it.
//!
//! SHA-256 has collisions, so nothing can be proved from equal digests
//! alone. Where a statement rests on digests, it asks that the particular
//! inputs that were hashed on two sides do not collide.

use vstd::prelude::*;

verus! {

use crate::digest::{ascii, collide, lemma_concat_parts, lemma_same_view, sha256};
use crate::merkle::{
    climb, leaf_input, pair_input, replaced_root, root_of_path, sibling_on_left, step_input,
    EMPTY_LEAF, LEAF_TAG, MERKLE_DEPTH, NODE_TAG,
};
use vstd::arithmetic::div_mod::{
    lemma_basic_div, lemma_div_denominator, lemma_fundamental_div_mod,
    lemma_hoist_over_denominator, lemma_mod_bound, lemma_small_mod,
};
use vstd::arithmetic::power2::{
    lemma2_to64, lemma_pow2_adds, lemma_pow2_pos, lemma_pow2_unfold, pow2,
};

/// Number of slots.
pub open spec fn slot_count() -> nat {
    pow2(MERKLE_DEPTH as nat)
}

/// The slot that a path leads to: its lowest bits.
pub open spec fn slot_of(path_bits: u32) -> nat {
    path_bits as nat % slot_count()
}

/// Root of the subtree of the given height whose first leaf is `start`.
pub open spec fn subtree_root(leaves: Seq<[u8; 32]>, start: nat, height: nat) -> [u8; 32]
    decreases height,
{
    if height == 0 {
        sha256(leaf_input(leaves[start as int]))
    } else {
        let below = (height - 1) as nat;
        sha256(
            pair_input(
                subtree_root(leaves, start, below),
                subtree_root(leaves, start + pow2(below), below),
            ),
        )
    }
}

/// Root of the tree with the given leaves, empty slots included.
pub open spec fn tree_root(leaves: Seq<[u8; 32]>) -> [u8; 32] {
    subtree_root(leaves, 0, MERKLE_DEPTH as nat)
}

/// First leaf of the subtree of the given height that holds `slot`.
pub open spec fn block_start(slot: nat, height: nat) -> nat {
    slot / pow2(height) * pow2(height)
}

/// First leaf of the subtree beside the one of the given height that holds
/// `slot`.
pub open spec fn sibling_start(slot: nat, height: nat) -> nat {
    if slot / pow2(height) % 2 == 0 {
        block_start(slot, height) + pow2(height)
    } else {
        (block_start(slot, height) - pow2(height)) as nat
    }
}

/// The nodes beside the path from `slot` to the root.
pub open spec fn tree_siblings(leaves: Seq<[u8; 32]>, slot: nat) -> Seq<[u8; 32]> {
    Seq::new(
        MERKLE_DEPTH as nat,
        |level: int| subtree_root(leaves, sibling_start(slot, level as nat), level as nat),
    )
}

/// On the way up from two leaves along one path, no two inputs hashed at the
/// same height collide.
pub open spec fn no_collision(
    path_bits: u32,
    commitment: [u8; 32],
    siblings: Seq<[u8; 32]>,
    other_commitment: [u8; 32],
    other_siblings: Seq<[u8; 32]>,
) -> bool {
    forall|level: nat|
        level <= MERKLE_DEPTH ==> !collide(
            #[trigger] step_input(commitment, path_bits, siblings, level),
            step_input(other_commitment, path_bits, other_siblings, level),
        )
}

/// Bit `level` of a path is bit `level` of its slot.
proof fn lemma_slot_bit(path_bits: u32, level: nat)
    requires
        level < MERKLE_DEPTH,
    ensures
        sibling_on_left(path_bits, level) == (slot_of(path_bits) / pow2(level) % 2 == 1),
{
    let path = path_bits as int;
    let slot = slot_of(path_bits) as int;
    let m = pow2(level) as int;
    let r = (MERKLE_DEPTH - level) as nat;
    let k = pow2((r - 1) as nat) as int;
    let n = slot_count() as int;
    lemma_pow2_pos(level);
    lemma_pow2_pos(MERKLE_DEPTH as nat);
    lemma_pow2_pos((r - 1) as nat);
    lemma_pow2_adds(level, r);
    lemma_pow2_unfold(r);
    assert(n == m * (2 * k));
    lemma_fundamental_div_mod(path, n);
    let q = path / n;
    assert(path == (q * (2 * k)) * m + slot) by (nonlinear_arith)
        requires
            path == n * q + slot,
            n == m * (2 * k),
    ;
    lemma_hoist_over_denominator(slot, q * (2 * k), m as nat);
    assert(path / m == q * (2 * k) + slot / m);
    assert(q * (2 * k) == 2 * (q * k)) by (nonlinear_arith);
    assert((2 * (q * k) + slot / m) % 2 == (slot / m) % 2);
}

/// The block of twice the size.
proof fn lemma_block_step(slot: nat, height: nat)
    ensures
        slot / pow2(height + 1) == slot / pow2(height) / 2,
        slot / pow2(height) % 2 == 0 ==> block_start(slot, height + 1) == block_start(slot, height),
        slot / pow2(height) % 2 == 1 ==> block_start(slot, height + 1) == block_start(slot, height)
            - pow2(height),
{
    let m = pow2(height) as int;
    let b = slot as int / m;
    lemma_pow2_pos(height);
    lemma_pow2_unfold(height + 1);
    assert(pow2(height + 1) == m * 2);
    lemma_div_denominator(slot as int, m, 2);
    assert((b / 2) * (m * 2) == (b / 2 * 2) * m) by (nonlinear_arith);
    if b % 2 == 0 {
        assert(b / 2 * 2 == b);
    } else {
        assert(b / 2 * 2 == b - 1);
        assert((b - 1) * m == b * m - m) by (nonlinear_arith);
    }
}

/// The block that holds `slot`.
proof fn lemma_block_holds_slot(slot: nat, height: nat)
    ensures
        block_start(slot, height) <= slot < block_start(slot, height) + pow2(height),
{
    let m = pow2(height) as int;
    lemma_pow2_pos(height);
    lemma_fundamental_div_mod(slot as int, m);
    lemma_mod_bound(slot as int, m);
    assert(m * (slot as int / m) == slot as int / m * m) by (nonlinear_arith);
}

/// The block of full height is the whole tree.
proof fn lemma_whole_tree(slot: nat)
    requires
        slot < slot_count(),
    ensures
        block_start(slot, MERKLE_DEPTH as nat) == 0,
{
    let n = slot_count() as int;
    lemma_basic_div(slot as int, n);
    assert(0 * n == 0) by (nonlinear_arith);
}

/// Blocks of a slot stay inside the tree, and so do the blocks beside them.
proof fn lemma_blocks_in_tree(slot: nat, height: nat)
    requires
        slot < slot_count(),
        height <= MERKLE_DEPTH,
    ensures
        block_start(slot, height) + pow2(height) <= slot_count(),
        height < MERKLE_DEPTH ==> sibling_start(slot, height) + pow2(height) <= slot_count(),
        height < MERKLE_DEPTH && slot / pow2(height) % 2 == 1 ==> block_start(slot, height)
            >= pow2(height),
    decreases MERKLE_DEPTH - height,
{
    lemma_pow2_pos(height);
    if height == MERKLE_DEPTH {
        lemma_whole_tree(slot);
    } else {
        lemma_blocks_in_tree(slot, height + 1);
        lemma_block_step(slot, height);
        lemma_pow2_unfold(height + 1);
        let m = pow2(height) as int;
        let b = slot as int / m;
        if b % 2 == 1 {
            assert(b * m >= m) by (nonlinear_arith)
                requires
                    b >= 1,
                    m > 0,
            ;
        }
    }
}

/// Climbing from a slot along the tree's own siblings meets the roots of the
/// subtrees that hold the slot.
proof fn lemma_climb_in_tree(leaves: Seq<[u8; 32]>, path_bits: u32, level: nat)
    requires
        level <= MERKLE_DEPTH,
    ensures
        climb(
            leaves[slot_of(path_bits) as int],
            path_bits,
            tree_siblings(leaves, slot_of(path_bits)),
            level,
        ) == subtree_root(leaves, block_start(slot_of(path_bits), level), level),
    decreases level,
{
    let slot = slot_of(path_bits);
    lemma_pow2_pos(MERKLE_DEPTH as nat);
    lemma_mod_bound(path_bits as int, slot_count() as int);
    if level == 0 {
        lemma2_to64();
        assert(slot / 1 * 1 == slot);
    } else {
        let below = (level - 1) as nat;
        lemma_climb_in_tree(leaves, path_bits, below);
        lemma_slot_bit(path_bits, below);
        lemma_block_step(slot, below);
        lemma_blocks_in_tree(slot, below);
    }
}

/// A subtree that does not hold a slot does not change with it.
proof fn lemma_update_elsewhere(
    leaves: Seq<[u8; 32]>,
    slot: nat,
    leaf: [u8; 32],
    start: nat,
    height: nat,
)
    requires
        slot < leaves.len(),
        start + pow2(height) <= leaves.len(),
        slot < start || start + pow2(height) <= slot,
    ensures
        subtree_root(leaves.update(slot as int, leaf), start, height) == subtree_root(
            leaves,
            start,
            height,
        ),
    decreases height,
{
    lemma_pow2_pos(height);
    if height > 0 {
        let below = (height - 1) as nat;
        lemma_pow2_pos(below);
        lemma_pow2_unfold(height);
        lemma_update_elsewhere(leaves, slot, leaf, start, below);
        lemma_update_elsewhere(leaves, slot, leaf, start + pow2(below), below);
    }
}

/// The nodes beside a slot's path do not depend on what the slot holds.
proof fn lemma_siblings_after_update(leaves: Seq<[u8; 32]>, slot: nat, leaf: [u8; 32])
    requires
        leaves.len() == slot_count(),
        slot < slot_count(),
    ensures
        tree_siblings(leaves.update(slot as int, leaf), slot) == tree_siblings(leaves, slot),
{
    let updated = leaves.update(slot as int, leaf);
    assert forall|level: int| 0 <= level < MERKLE_DEPTH implies tree_siblings(updated, slot)[level]
        == tree_siblings(leaves, slot)[level] by {
        let height = level as nat;
        lemma_block_holds_slot(slot, height);
        lemma_blocks_in_tree(slot, height);
        lemma_update_elsewhere(leaves, slot, leaf, sibling_start(slot, height), height);
    }
    assert(tree_siblings(updated, slot) =~= tree_siblings(leaves, slot));
}

/// Leaves with the same hashed bytes are the same.
proof fn lemma_leaf_input_parts(a: [u8; 32], b: [u8; 32])
    requires
        leaf_input(a) == leaf_input(b),
    ensures
        a == b,
{
    lemma_concat_parts(LEAF_TAG@, a@, LEAF_TAG@, b@);
    lemma_same_view(a, b);
}

/// Pairs with the same hashed bytes are the same.
proof fn lemma_pair_input_parts(l: [u8; 32], r: [u8; 32], l2: [u8; 32], r2: [u8; 32])
    requires
        pair_input(l, r) == pair_input(l2, r2),
    ensures
        l == l2,
        r == r2,
{
    lemma_concat_parts(NODE_TAG@ + l@, r@, NODE_TAG@ + l2@, r2@);
    lemma_concat_parts(NODE_TAG@, l@, NODE_TAG@, l2@);
    lemma_same_view(l, l2);
    lemma_same_view(r, r2);
}

/// Two climbs along one path that meet started at the same leaf and passed
/// the same siblings.
proof fn lemma_climbs_meet(
    path_bits: u32,
    commitment: [u8; 32],
    siblings: Seq<[u8; 32]>,
    other_commitment: [u8; 32],
    other_siblings: Seq<[u8; 32]>,
    level: nat,
)
    requires
        level <= MERKLE_DEPTH,
        no_collision(path_bits, commitment, siblings, other_commitment, other_siblings),
        climb(commitment, path_bits, siblings, level) == climb(
            other_commitment,
            path_bits,
            other_siblings,
            level,
        ),
    ensures
        commitment == other_commitment,
        forall|i: int| 0 <= i < level ==> siblings[i] == other_siblings[i],
    decreases level,
{
    let input = step_input(commitment, path_bits, siblings, level);
    let other_input = step_input(other_commitment, path_bits, other_siblings, level);
    assert(!collide(input, other_input));
    assert(input == other_input);
    if level == 0 {
        lemma_leaf_input_parts(commitment, other_commitment);
    } else {
        let below = (level - 1) as nat;
        let node = climb(commitment, path_bits, siblings, below);
        let other_node = climb(other_commitment, path_bits, other_siblings, below);
        if sibling_on_left(path_bits, below) {
            lemma_pair_input_parts(
                siblings[below as int],
                node,
                other_siblings[below as int],
                other_node,
            );
        } else {
            lemma_pair_input_parts(
                node,
                siblings[below as int],
                other_node,
                other_siblings[below as int],
            );
        }
        lemma_climbs_meet(
            path_bits,
            commitment,
            siblings,
            other_commitment,
            other_siblings,
            below,
        );
    }
}

/// There is room for 1024 members.
pub proof fn law_slot_count()
    ensures
        slot_count() == 1024,
{
    lemma2_to64();
}

/// A leaf is hashed from the text `LEAF` and the commitment, a node from the
/// text `NODE`, the left child and the right child. An empty slot holds the
/// text `lez-private-multisig-empty-leaf!`.
pub proof fn law_hashed_bytes(commitment: [u8; 32], left: [u8; 32], right: [u8; 32])
    ensures
        leaf_input(commitment) == ascii("LEAF"@) + commitment@,
        pair_input(left, right) == ascii("NODE"@) + left@ + right@,
        EMPTY_LEAF@ == ascii("lez-private-multisig-empty-leaf!"@),
{
    reveal_strlit("LEAF");
    reveal_strlit("NODE");
    reveal_strlit("lez-private-multisig-empty-leaf!");
    assert(LEAF_TAG@ =~= ascii("LEAF"@));
    assert(NODE_TAG@ =~= ascii("NODE"@));
    assert(EMPTY_LEAF@ =~= ascii("lez-private-multisig-empty-leaf!"@));
}

/// The root of a tree that is built row by row, from the hashed leaves up, is
/// what any leaf leads to along its slot with the neighbours in the rows as
/// siblings; it is the tree's root.
pub proof fn law_path_in_built_tree(
    leaves: Seq<[u8; 32]>,
    rows: Seq<Seq<[u8; 32]>>,
    path_bits: u32,
    siblings: Seq<[u8; 32]>,
)
    requires
        leaves.len() == 1024,
        forall|i: int|
            0 <= i < 1024 ==> #[trigger] rows[0][i] == sha256(ascii("LEAF"@) + leaves[i]@),
        forall|k: int, i: int|
            1 <= k <= 10 && 0 <= i && i * pow2(k as nat) < 1024 ==> #[trigger] rows[k][i]
                == sha256(ascii("NODE"@) + rows[k - 1][2 * i]@ + rows[k - 1][2 * i + 1]@),
        siblings.len() == 10,
        forall|k: int|
            0 <= k < 10 ==> #[trigger] siblings[k] == ({
                let at = path_bits as int % 1024 / pow2(k as nat) as int;
                if at % 2 == 0 {
                    rows[k][at + 1]
                } else {
                    rows[k][at - 1]
                }
            }),
    ensures
        root_of_path(leaves[path_bits as int % 1024], path_bits, siblings) == rows[10][0],
        tree_root(leaves) == rows[10][0],
{
    law_slot_count();
    let slot = slot_of(path_bits);
    lemma_rows_are_subtrees(leaves, rows, 10, 0);
    assert(0 * pow2(10) == 0) by (nonlinear_arith);
    assert(siblings =~= tree_siblings(leaves, slot)) by {
        assert forall|k: int| 0 <= k < 10 implies #[trigger] siblings[k] == tree_siblings(
            leaves,
            slot,
        )[k] by {
            let height = k as nat;
            let m = pow2(height) as int;
            let at = slot as int / m;
            lemma_pow2_pos(height);
            lemma_blocks_in_tree(slot, height);
            lemma_block_holds_slot(slot, height);
            if at % 2 == 0 {
                assert((at + 1) * m == at * m + m) by (nonlinear_arith);
                lemma_rows_are_subtrees(leaves, rows, height, (at + 1) as nat);
            } else {
                assert((at - 1) * m == at * m - m) by (nonlinear_arith);
                assert(at >= 1);
                lemma_rows_are_subtrees(leaves, rows, height, (at - 1) as nat);
            }
        }
    }
    law_member_has_path(leaves, path_bits);
}

/// Row `height` of a tree built row by row holds the roots of its subtrees.
proof fn lemma_rows_are_subtrees(
    leaves: Seq<[u8; 32]>,
    rows: Seq<Seq<[u8; 32]>>,
    height: nat,
    at: nat,
)
    requires
        height <= 10,
        at * pow2(height) < 1024,
        forall|i: int|
            0 <= i < 1024 ==> #[trigger] rows[0][i] == sha256(ascii("LEAF"@) + leaves[i]@),
        forall|k: int, i: int|
            1 <= k <= 10 && 0 <= i && i * pow2(k as nat) < 1024 ==> #[trigger] rows[k][i]
                == sha256(ascii("NODE"@) + rows[k - 1][2 * i]@ + rows[k - 1][2 * i + 1]@),
    ensures
        rows[height as int][at as int] == subtree_root(leaves, at * pow2(height), height),
    decreases height,
{
    let m = pow2(height);
    if height == 0 {
        lemma2_to64();
        law_hashed_bytes(leaves[at as int], leaves[at as int], leaves[at as int]);
        assert(at * m == at) by (nonlinear_arith)
            requires
                m == 1,
        ;
    } else {
        let below = (height - 1) as nat;
        let half = pow2(below);
        lemma_pow2_pos(below);
        lemma_pow2_unfold(height);
        assert((2 * at) * half == at * m && (2 * at + 1) * half == at * m + half)
            by (nonlinear_arith)
            requires
                m == 2 * half,
        ;
        lemma_pow2_adds(below, (10 - below) as nat);
        lemma_pow2_adds(height, (10 - height) as nat);
        lemma2_to64();
        let r = pow2((10 - height) as nat);
        assert(at * m + half < 1024) by (nonlinear_arith)
            requires
                at * m < 1024,
                m == 2 * half,
                half > 0,
                m * r == 1024,
        {
            if at < r {
                assert((at + 1) * m <= r * m);
                assert((at + 1) * m == at * m + m);
                assert(r * m == m * r);
            } else {
                assert(at * m >= r * m);
                assert(r * m == m * r);
            }
        }
        lemma_rows_are_subtrees(leaves, rows, below, 2 * at);
        lemma_rows_are_subtrees(leaves, rows, below, 2 * at + 1);
        let left = rows[below as int][2 * (at as int)];
        let right = rows[below as int][2 * (at as int) + 1];
        law_hashed_bytes(left, left, right);
        assert(rows[height as int][at as int] == sha256(
            ascii("NODE"@) + rows[height - 1][2 * (at as int)]@ + rows[height - 1][2 * (at as int) + 1]@,
        ));
    }
}

/// On the way up, bit `level` of the path decides the side: with a clear bit
/// the sibling is the right child, with a set bit the left one.
pub proof fn law_one_level_up(
    commitment: [u8; 32],
    path_bits: u32,
    siblings: Seq<[u8; 32]>,
    level: nat,
)
    requires
        level < 10,
    ensures
        climb(commitment, path_bits, siblings, 0) == sha256(ascii("LEAF"@) + commitment@),
        (path_bits >> (level as u32)) & 1 == 0 ==> climb(
            commitment,
            path_bits,
            siblings,
            level + 1,
        ) == sha256(
            ascii("NODE"@) + climb(commitment, path_bits, siblings, level)@ + siblings[level as int]@,
        ),
        (path_bits >> (level as u32)) & 1 == 1 ==> climb(
            commitment,
            path_bits,
            siblings,
            level + 1,
        ) == sha256(
            ascii("NODE"@) + siblings[level as int]@ + climb(commitment, path_bits, siblings, level)@,
        ),
        root_of_path(commitment, path_bits, siblings) == climb(
            commitment,
            path_bits,
            siblings,
            10,
        ),
{
    let below = climb(commitment, path_bits, siblings, level);
    law_hashed_bytes(commitment, below, siblings[level as int]);
    law_hashed_bytes(commitment, siblings[level as int], below);
    vstd::bits::lemma_u32_shr_is_div(path_bits, level as u32);
    let shifted = path_bits >> (level as u32);
    assert(shifted & 1 == shifted % 2) by (bit_vector);
}

/// A leaf is never hashed from the bytes that an inner node is hashed from.
pub proof fn law_leaf_is_no_node(commitment: [u8; 32], left: [u8; 32], right: [u8; 32])
    ensures
        leaf_input(commitment) != pair_input(left, right),
{
    assert(leaf_input(commitment)[0] == 0x4c);
    assert(pair_input(left, right)[0] == 0x4e);
}

/// Only the lowest bits of a path count: paths to one slot lead to one root.
pub proof fn law_path_is_its_slot(
    commitment: [u8; 32],
    path_bits: u32,
    other_path_bits: u32,
    siblings: Seq<[u8; 32]>,
)
    requires
        slot_of(path_bits) == slot_of(other_path_bits),
    ensures
        root_of_path(commitment, path_bits, siblings) == root_of_path(
            commitment,
            other_path_bits,
            siblings,
        ),
{
    lemma_same_slot_climb(commitment, path_bits, other_path_bits, siblings, MERKLE_DEPTH as nat);
}

proof fn lemma_same_slot_climb(
    commitment: [u8; 32],
    path_bits: u32,
    other_path_bits: u32,
    siblings: Seq<[u8; 32]>,
    level: nat,
)
    requires
        level <= MERKLE_DEPTH,
        slot_of(path_bits) == slot_of(other_path_bits),
    ensures
        step_input(commitment, path_bits, siblings, level) == step_input(
            commitment,
            other_path_bits,
            siblings,
            level,
        ),
    decreases level,
{
    if level > 0 {
        let below = (level - 1) as nat;
        lemma_same_slot_climb(commitment, path_bits, other_path_bits, siblings, below);
        lemma_slot_bit(path_bits, below);
        lemma_slot_bit(other_path_bits, below);
    }
}

/// Every leaf of a tree has a path that leads to the tree's root.
pub proof fn law_member_has_path(leaves: Seq<[u8; 32]>, path_bits: u32)
    requires
        leaves.len() == slot_count(),
    ensures
        root_of_path(
            leaves[slot_of(path_bits) as int],
            path_bits,
            tree_siblings(leaves, slot_of(path_bits)),
        ) == tree_root(leaves),
{
    let slot = slot_of(path_bits);
    lemma_climb_in_tree(leaves, path_bits, MERKLE_DEPTH as nat);
    lemma_pow2_pos(MERKLE_DEPTH as nat);
    lemma_mod_bound(path_bits as int, slot_count() as int);
    lemma_whole_tree(slot);
}

/// A path that leads to the root of a tree starts at the leaf that is in its
/// slot, unless inputs collide.
pub proof fn law_path_proves_member(
    leaves: Seq<[u8; 32]>,
    commitment: [u8; 32],
    path_bits: u32,
    siblings: Seq<[u8; 32]>,
)
    requires
        leaves.len() == slot_count(),
        siblings.len() == MERKLE_DEPTH,
        root_of_path(commitment, path_bits, siblings) == tree_root(leaves),
        no_collision(
            path_bits,
            commitment,
            siblings,
            leaves[slot_of(path_bits) as int],
            tree_siblings(leaves, slot_of(path_bits)),
        ),
    ensures
        leaves[slot_of(path_bits) as int] == commitment,
        siblings == tree_siblings(leaves, slot_of(path_bits)),
{
    let slot = slot_of(path_bits);
    law_member_has_path(leaves, path_bits);
    lemma_climbs_meet(
        path_bits,
        commitment,
        siblings,
        leaves[slot as int],
        tree_siblings(leaves, slot),
        MERKLE_DEPTH as nat,
    );
    assert(siblings =~= tree_siblings(leaves, slot));
}

/// Two different leaves in one slot cannot both be proved under one root,
/// unless inputs collide.
pub proof fn law_one_leaf_per_slot(
    path_bits: u32,
    commitment: [u8; 32],
    siblings: Seq<[u8; 32]>,
    other_commitment: [u8; 32],
    other_siblings: Seq<[u8; 32]>,
)
    requires
        root_of_path(commitment, path_bits, siblings) == root_of_path(
            other_commitment,
            path_bits,
            other_siblings,
        ),
        no_collision(path_bits, commitment, siblings, other_commitment, other_siblings),
    ensures
        commitment == other_commitment,
{
    lemma_climbs_meet(
        path_bits,
        commitment,
        siblings,
        other_commitment,
        other_siblings,
        MERKLE_DEPTH as nat,
    );
}

/// A root stands for one member set, unless inputs collide.
pub proof fn law_root_fixes_members(leaves: Seq<[u8; 32]>, other_leaves: Seq<[u8; 32]>)
    requires
        leaves.len() == slot_count(),
        other_leaves.len() == slot_count(),
        tree_root(leaves) == tree_root(other_leaves),
        forall|path_bits: u32|
            path_bits < slot_count() ==> #[trigger] no_collision(
                path_bits,
                leaves[path_bits as int],
                tree_siblings(leaves, path_bits as nat),
                other_leaves[path_bits as int],
                tree_siblings(other_leaves, path_bits as nat),
            ),
    ensures
        leaves == other_leaves,
{
    lemma2_to64();
    assert forall|slot: int| 0 <= slot < slot_count() implies leaves[slot]
        == other_leaves[slot] by {
        let path_bits = slot as u32;
        assert(path_bits < slot_count());
        assert(no_collision(
            path_bits,
            leaves[path_bits as int],
            tree_siblings(leaves, path_bits as nat),
            other_leaves[path_bits as int],
            tree_siblings(other_leaves, path_bits as nat),
        ));
        lemma_small_mod(slot as nat, slot_count());
        law_member_has_path(leaves, path_bits);
        law_path_proves_member(
            other_leaves,
            leaves[slot],
            path_bits,
            tree_siblings(leaves, slot as nat),
        );
    }
    assert(leaves =~= other_leaves);
}

/// With the tree's own siblings a leaf can be replaced, and the new root is
/// that of the tree built with the new leaf in its place.
pub proof fn law_replacement_is_update(leaves: Seq<[u8; 32]>, path_bits: u32, new_leaf: [u8; 32])
    requires
        leaves.len() == slot_count(),
    ensures
        replaced_root(
            leaves[slot_of(path_bits) as int],
            new_leaf,
            path_bits,
            tree_siblings(leaves, slot_of(path_bits)),
            tree_root(leaves),
        ) == Some(tree_root(leaves.update(slot_of(path_bits) as int, new_leaf))),
{
    let slot = slot_of(path_bits);
    let updated = leaves.update(slot as int, new_leaf);
    lemma_pow2_pos(MERKLE_DEPTH as nat);
    lemma_mod_bound(path_bits as int, slot_count() as int);
    law_member_has_path(leaves, path_bits);
    law_member_has_path(updated, path_bits);
    lemma_siblings_after_update(leaves, slot, new_leaf);
}

/// Whatever the siblings are: if a replacement under the root of a tree
/// succeeds, the old leaf was in the slot, and the new root is that of the
/// tree with this one slot changed, unless inputs collide.
pub proof fn law_replacement_is_sound(
    leaves: Seq<[u8; 32]>,
    old_leaf: [u8; 32],
    new_leaf: [u8; 32],
    path_bits: u32,
    siblings: Seq<[u8; 32]>,
    new_root: [u8; 32],
)
    requires
        leaves.len() == slot_count(),
        siblings.len() == MERKLE_DEPTH,
        replaced_root(old_leaf, new_leaf, path_bits, siblings, tree_root(leaves)) == Some(new_root),
        no_collision(
            path_bits,
            old_leaf,
            siblings,
            leaves[slot_of(path_bits) as int],
            tree_siblings(leaves, slot_of(path_bits)),
        ),
    ensures
        leaves[slot_of(path_bits) as int] == old_leaf,
        new_root == tree_root(leaves.update(slot_of(path_bits) as int, new_leaf)),
{
    law_path_proves_member(leaves, old_leaf, path_bits, siblings);
    law_replacement_is_update(leaves, path_bits, new_leaf);
}

/// After a leaf was replaced, the leaves of all other slots still have a path
/// to the new root: no other member is dropped.
pub proof fn law_replacement_keeps_others(
    leaves: Seq<[u8; 32]>,
    path_bits: u32,
    new_leaf: [u8; 32],
    other_path_bits: u32,
)
    requires
        leaves.len() == slot_count(),
        slot_of(other_path_bits) != slot_of(path_bits),
    ensures
        root_of_path(
            leaves[slot_of(other_path_bits) as int],
            other_path_bits,
            tree_siblings(
                leaves.update(slot_of(path_bits) as int, new_leaf),
                slot_of(other_path_bits),
            ),
        ) == tree_root(leaves.update(slot_of(path_bits) as int, new_leaf)),
{
    lemma_pow2_pos(MERKLE_DEPTH as nat);
    lemma_mod_bound(path_bits as int, slot_count() as int);
    lemma_mod_bound(other_path_bits as int, slot_count() as int);
    law_member_has_path(leaves.update(slot_of(path_bits) as int, new_leaf), other_path_bits);
}

/// A replacement succeeds exactly where the old leaf's path verifies, and
/// then the new leaf's path verifies under the new root.
pub proof fn law_replacement_follows_path(
    old_leaf: [u8; 32],
    new_leaf: [u8; 32],
    path_bits: u32,
    siblings: Seq<[u8; 32]>,
    expected_root: [u8; 32],
)
    ensures
        replaced_root(old_leaf, new_leaf, path_bits, siblings, expected_root) is Some <==>
            root_of_path(old_leaf, path_bits, siblings) == expected_root,
        replaced_root(old_leaf, new_leaf, path_bits, siblings, expected_root) matches Some(
            new_root,
        ) ==> root_of_path(new_leaf, path_bits, siblings) == new_root,
{
}

/// Putting the old leaf back restores the old root.
pub proof fn law_replacement_undone(
    old_leaf: [u8; 32],
    new_leaf: [u8; 32],
    path_bits: u32,
    siblings: Seq<[u8; 32]>,
    expected_root: [u8; 32],
    new_root: [u8; 32],
)
    requires
        replaced_root(old_leaf, new_leaf, path_bits, siblings, expected_root) == Some(new_root),
    ensures
        replaced_root(new_leaf, old_leaf, path_bits, siblings, new_root) == Some(expected_root),
{
}

} // verus!
