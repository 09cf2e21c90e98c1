//! What holds of every config change that was proposed.

use vstd::prelude::*;

verus! {

use crate::digest::collide;
use crate::identity::{law_proposal_id_fixes_scope, proposal_input};
use crate::journal::{read_journal, JournalError, ProofJournal, VoteType};
use crate::merkle::{EMPTY_LEAF, MERKLE_DEPTH};
use crate::propose_config::{
    action_allowed, may_propose, propose_outcome, Account, ConfigAction, MultisigState, Proposal,
    ProposeError, SwapWitness,
};
use crate::tree::{
    law_member_has_path, law_replacement_is_sound, law_replacement_is_update, no_collision,
    slot_count, slot_of, tree_root, tree_siblings,
};

/// Threshold and member count after a config change is carried out.
pub open spec fn counts_after(state: MultisigState, action: ConfigAction) -> (int, int) {
    match action {
        ConfigAction::AddMember { .. } => (state.threshold as int, state.member_count + 1),
        ConfigAction::RemoveMember { .. } => (state.threshold as int, state.member_count - 1),
        ConfigAction::ChangeThreshold { new_threshold } => (
            new_threshold as int,
            state.member_count as int,
        ),
    }
}

/// A proposal is made exactly where every rule is kept.
pub proof fn law_outcome_follows_rules(
    accounts: Seq<Account>,
    action: ConfigAction,
    witness: Option<SwapWitness>,
    proposal_index_arg: u64,
    journal_bytes: Seq<u8>,
)
    ensures
        propose_outcome(accounts, action, witness, proposal_index_arg, journal_bytes) is Ok
            <==> may_propose(accounts, action, witness, proposal_index_arg, journal_bytes),
{
}

/// Proposing changes nothing of the multisig but its transaction index, which
/// goes up by one; the proposal carries the action as it was given.
pub proof fn law_proposing_only_bumps_index(
    accounts: Seq<Account>,
    action: ConfigAction,
    witness: Option<SwapWitness>,
    proposal_index_arg: u64,
    journal_bytes: Seq<u8>,
    state: MultisigState,
    proposal: Proposal,
)
    requires
        propose_outcome(accounts, action, witness, proposal_index_arg, journal_bytes) == Ok::<
            (MultisigState, Proposal),
            ProposeError,
        >((state, proposal)),
    ensures
        accounts[0] matches Account::Multisig(before) && {
            &&& state.transaction_index == before.transaction_index + 1
            &&& state.create_key == before.create_key
            &&& state.threshold == before.threshold
            &&& state.member_count == before.member_count
            &&& state.members_root == before.members_root
        },
        proposal.index == state.transaction_index == proposal_index_arg,
        proposal.multisig_create_key == state.create_key,
        proposal.members_root == state.members_root,
        proposal.config_action == Some(action),
{
}

/// A proposed AddMember fills an empty slot with the new commitment and
/// leaves every other slot alone: its `expected_new_root` is the root of the
/// tree with that one change, unless inputs collide.
pub proof fn law_add_fills_one_slot(
    leaves: Seq<[u8; 32]>,
    state: MultisigState,
    new_commitment: [u8; 32],
    target_path_bits: u32,
    expected_new_root: [u8; 32],
    witness: SwapWitness,
)
    requires
        leaves.len() == slot_count(),
        state.members_root == tree_root(leaves),
        action_allowed(
            state,
            ConfigAction::AddMember { new_commitment, target_path_bits, expected_new_root },
            Some(witness),
        ),
        no_collision(
            target_path_bits,
            EMPTY_LEAF,
            witness.1@,
            leaves[slot_of(target_path_bits) as int],
            tree_siblings(leaves, slot_of(target_path_bits)),
        ),
    ensures
        leaves[slot_of(target_path_bits) as int] == EMPTY_LEAF,
        expected_new_root == tree_root(
            leaves.update(slot_of(target_path_bits) as int, new_commitment),
        ),
{
    law_replacement_is_sound(
        leaves,
        EMPTY_LEAF,
        new_commitment,
        target_path_bits,
        witness.1@,
        expected_new_root,
    );
}

/// A proposed RemoveMember empties the slot that holds the target commitment
/// and leaves every other slot alone: its `expected_new_root` is the root of
/// the tree with that one change, unless inputs collide.
pub proof fn law_remove_empties_one_slot(
    leaves: Seq<[u8; 32]>,
    state: MultisigState,
    target_commitment: [u8; 32],
    target_path_bits: u32,
    expected_new_root: [u8; 32],
    witness: SwapWitness,
)
    requires
        leaves.len() == slot_count(),
        state.members_root == tree_root(leaves),
        action_allowed(
            state,
            ConfigAction::RemoveMember { target_commitment, target_path_bits, expected_new_root },
            Some(witness),
        ),
        no_collision(
            target_path_bits,
            target_commitment,
            witness.1@,
            leaves[slot_of(target_path_bits) as int],
            tree_siblings(leaves, slot_of(target_path_bits)),
        ),
    ensures
        leaves[slot_of(target_path_bits) as int] == target_commitment,
        expected_new_root == tree_root(
            leaves.update(slot_of(target_path_bits) as int, EMPTY_LEAF),
        ),
{
    law_replacement_is_sound(
        leaves,
        target_commitment,
        EMPTY_LEAF,
        target_path_bits,
        witness.1@,
        expected_new_root,
    );
}

/// An honest AddMember is allowed: an empty slot, the tree's own siblings and
/// the root of the tree with the new member in it.
pub proof fn law_honest_add_is_allowed(
    leaves: Seq<[u8; 32]>,
    state: MultisigState,
    new_commitment: [u8; 32],
    target_path_bits: u32,
    siblings: [[u8; 32]; MERKLE_DEPTH],
)
    requires
        leaves.len() == slot_count(),
        state.members_root == tree_root(leaves),
        state.member_count < u8::MAX,
        new_commitment != EMPTY_LEAF,
        leaves[slot_of(target_path_bits) as int] == EMPTY_LEAF,
        siblings@ == tree_siblings(leaves, slot_of(target_path_bits)),
    ensures
        action_allowed(
            state,
            ConfigAction::AddMember {
                new_commitment,
                target_path_bits,
                expected_new_root: tree_root(
                    leaves.update(slot_of(target_path_bits) as int, new_commitment),
                ),
            },
            Some((target_path_bits, siblings)),
        ),
{
    law_replacement_is_update(leaves, target_path_bits, new_commitment);
    law_member_has_path(leaves, target_path_bits);
}

/// An honest RemoveMember is allowed: the slot of a member, the tree's own
/// siblings and the root of the tree with the slot emptied.
pub proof fn law_honest_remove_is_allowed(
    leaves: Seq<[u8; 32]>,
    state: MultisigState,
    target_commitment: [u8; 32],
    target_path_bits: u32,
    siblings: [[u8; 32]; MERKLE_DEPTH],
)
    requires
        leaves.len() == slot_count(),
        state.members_root == tree_root(leaves),
        state.member_count > state.threshold,
        target_commitment != EMPTY_LEAF,
        leaves[slot_of(target_path_bits) as int] == target_commitment,
        siblings@ == tree_siblings(leaves, slot_of(target_path_bits)),
    ensures
        action_allowed(
            state,
            ConfigAction::RemoveMember {
                target_commitment,
                target_path_bits,
                expected_new_root: tree_root(
                    leaves.update(slot_of(target_path_bits) as int, EMPTY_LEAF),
                ),
            },
            Some((target_path_bits, siblings)),
        ),
{
    law_replacement_is_update(leaves, target_path_bits, EMPTY_LEAF);
    law_member_has_path(leaves, target_path_bits);
}

/// A multisig whose threshold can be reached keeps one that can be reached,
/// whichever allowed change is carried out.
pub proof fn law_threshold_stays_reachable(
    state: MultisigState,
    action: ConfigAction,
    witness: Option<SwapWitness>,
)
    requires
        1 <= state.threshold <= state.member_count,
        action_allowed(state, action, witness),
    ensures
        1 <= counts_after(state, action).0 <= counts_after(state, action).1 <= u8::MAX,
{
}

/// One proof proposes once: where the same journal authorises proposals made
/// on two states, both are the same proposal of the same multisig, unless
/// inputs collide.
pub proof fn law_proof_is_for_one_proposal(
    accounts: Seq<Account>,
    action: ConfigAction,
    witness: Option<SwapWitness>,
    index: u64,
    other_accounts: Seq<Account>,
    other_action: ConfigAction,
    other_witness: Option<SwapWitness>,
    other_index: u64,
    journal_bytes: Seq<u8>,
)
    requires
        may_propose(accounts, action, witness, index, journal_bytes),
        may_propose(other_accounts, other_action, other_witness, other_index, journal_bytes),
        !collide(
            proposal_input(accounts[0]->Multisig_0.create_key, index),
            proposal_input(other_accounts[0]->Multisig_0.create_key, other_index),
        ),
    ensures
        index == other_index,
        accounts[0]->Multisig_0.create_key == other_accounts[0]->Multisig_0.create_key,
        accounts[0]->Multisig_0.members_root == other_accounts[0]->Multisig_0.members_root,
        accounts[0]->Multisig_0.transaction_index
            == other_accounts[0]->Multisig_0.transaction_index,
{
    law_proposal_id_fixes_scope(
        accounts[0]->Multisig_0.create_key,
        index,
        other_accounts[0]->Multisig_0.create_key,
        other_index,
    );
}

/// A rejecting vote proposes nothing.
pub proof fn law_rejection_cannot_propose(
    accounts: Seq<Account>,
    action: ConfigAction,
    witness: Option<SwapWitness>,
    index: u64,
    journal_bytes: Seq<u8>,
    journal: ProofJournal,
)
    requires
        read_journal(journal_bytes) == Ok::<ProofJournal, JournalError>(journal),
        journal.vote_type == VoteType::Reject,
    ensures
        propose_outcome(accounts, action, witness, index, journal_bytes) is Err,
{
}

} // verus!
