//! When a config proposal is made and when it is refused, spelled out over
//! the accounts, the action, the witness and the bytes of the journal.

use vstd::prelude::*;

verus! {

use crate::digest::{collide, lemma_same_view, sha256};
use crate::identity::{law_proposal_id_fixes_scope, proposal_input};
use crate::journal::{
    law_every_input_is_read, law_reading_is_exact, law_round_trip, read_journal, JournalError,
    ProofJournal, VoteType,
};
use crate::merkle::{root_of_path, EMPTY_LEAF, MERKLE_DEPTH};
use crate::propose_config::{
    action_refusal, journal_refusal, propose_outcome, refusal_text, swapped_root, Account,
    ConfigAction, MultisigState, Proposal, ProposeError, SwapWitness,
};
use crate::tree::{
    law_member_has_path, law_path_proves_member, law_replacement_is_update, law_slot_count,
    no_collision, tree_root, tree_siblings,
};

/// A proposal is written only to an account that nobody has written to: one
/// that holds a proposal, or anything else, is never written over.
pub proof fn law_only_a_fresh_account_is_written(
    accounts: Seq<Account>,
    action: ConfigAction,
    witness: Option<SwapWitness>,
    index: u64,
    journal_bytes: Seq<u8>,
)
    requires
        propose_outcome(accounts, action, witness, index, journal_bytes) is Ok,
    ensures
        accounts.len() >= 2,
        accounts[1] == Account::Uninitialized,
{
}

/// The account that a proposal was written to takes no second one, whatever
/// is proposed and by whom.
pub proof fn law_proposal_stays(
    accounts: Seq<Account>,
    held: Proposal,
    action: ConfigAction,
    witness: Option<SwapWitness>,
    index: u64,
    journal_bytes: Seq<u8>,
)
    requires
        accounts.len() >= 2,
        accounts[1] == Account::Proposal(held),
    ensures
        propose_outcome(accounts, action, witness, index, journal_bytes) == Err::<
            (MultisigState, Proposal),
            ProposeError,
        >(ProposeError::ProposalInitialized),
{
}

/// The account before the proposal was one of a multisig, and the multisig is
/// the same afterwards but for its transaction index, which went up by one to
/// the index that was asked for. The proposal has this index, the key and the
/// root of the multisig, and the action as it was given.
pub proof fn law_accounts_after(
    accounts: Seq<Account>,
    action: ConfigAction,
    witness: Option<SwapWitness>,
    index: u64,
    journal_bytes: Seq<u8>,
    state: MultisigState,
    proposal: Proposal,
)
    requires
        propose_outcome(accounts, action, witness, index, journal_bytes) == Ok::<
            (MultisigState, Proposal),
            ProposeError,
        >((state, proposal)),
    ensures
        accounts[0] == Account::Multisig(
            MultisigState { transaction_index: (index - 1) as u64, ..state },
        ),
        index >= 1,
        state.transaction_index == index,
        proposal.index == index,
        proposal.multisig_create_key == state.create_key,
        proposal.members_root == state.members_root,
        proposal.config_action == Some(action),
{
}

/// The proof behind a proposal is an approval made for this multisig, this
/// member set and this index, and the proposal records the nullifier that the
/// proof carries, whatever the action.
pub proof fn law_proof_behind_a_proposal(
    accounts: Seq<Account>,
    action: ConfigAction,
    witness: Option<SwapWitness>,
    index: u64,
    journal_bytes: Seq<u8>,
    state: MultisigState,
    proposal: Proposal,
    journal: ProofJournal,
)
    requires
        propose_outcome(accounts, action, witness, index, journal_bytes) == Ok::<
            (MultisigState, Proposal),
            ProposeError,
        >((state, proposal)),
    ensures
        journal_bytes.len() == 129,
        journal_bytes.subrange(0, 32) == state.members_root@,
        journal_bytes.subrange(32, 64) == state.create_key@,
        journal_bytes.subrange(64, 96) == sha256(proposal_input(state.create_key, index))@,
        journal_bytes[96] == 2,
        journal_bytes.subrange(97, 129) == proposal.proposer_nullifier@,
        read_journal(journal_bytes) == Ok::<ProofJournal, JournalError>(journal)
            ==> proposal.proposer_nullifier == journal.nullifier,
{
    law_every_input_is_read(journal_bytes);
    law_reading_is_exact(journal_bytes, read_journal(journal_bytes));
}

/// The nullifier that a proposal records depends on the proof alone: two
/// proposals made with proofs that differ in the nullifier record different
/// nullifiers, two made with one proof the same.
pub proof fn law_nullifier_follows_the_proof(
    accounts: Seq<Account>,
    action: ConfigAction,
    witness: Option<SwapWitness>,
    index: u64,
    journal: ProofJournal,
    other_accounts: Seq<Account>,
    other_action: ConfigAction,
    other_witness: Option<SwapWitness>,
    other_index: u64,
    other_journal: ProofJournal,
)
    requires
        propose_outcome(
            accounts,
            action,
            witness,
            index,
            crate::journal::journal_bytes(journal),
        ) is Ok,
        propose_outcome(
            other_accounts,
            other_action,
            other_witness,
            other_index,
            crate::journal::journal_bytes(other_journal),
        ) is Ok,
    ensures
        ({
            let made = propose_outcome(
                accounts,
                action,
                witness,
                index,
                crate::journal::journal_bytes(journal),
            )->Ok_0.1;
            let other = propose_outcome(
                other_accounts,
                other_action,
                other_witness,
                other_index,
                crate::journal::journal_bytes(other_journal),
            )->Ok_0.1;
            &&& made.proposer_nullifier == journal.nullifier
            &&& made.proposer_nullifier == other.proposer_nullifier <==> journal.nullifier
                == other_journal.nullifier
        }),
{
    law_round_trip(journal);
    law_round_trip(other_journal);
}

/// A proposed AddMember came with a witness for its own slot under which the
/// multisig's root is the root that an empty slot leads to, and the root it
/// announces is the one that the new member leads to. The new member is no
/// empty slot, and there is room in the member count.
pub proof fn law_add_was_witnessed(
    accounts: Seq<Account>,
    new_commitment: [u8; 32],
    target_path_bits: u32,
    expected_new_root: [u8; 32],
    witness: Option<SwapWitness>,
    index: u64,
    journal_bytes: Seq<u8>,
)
    requires
        propose_outcome(
            accounts,
            ConfigAction::AddMember { new_commitment, target_path_bits, expected_new_root },
            witness,
            index,
            journal_bytes,
        ) is Ok,
    ensures
        accounts[0] is Multisig,
        witness is Some,
        ({
            let before = accounts[0]->Multisig_0;
            let (path, siblings) = witness.unwrap();
            &&& path == target_path_bits
            &&& root_of_path(EMPTY_LEAF, target_path_bits, siblings@) == before.members_root
            &&& root_of_path(new_commitment, target_path_bits, siblings@) == expected_new_root
            &&& new_commitment != EMPTY_LEAF
            &&& before.member_count < 255
        }),
{
}

/// A proposed RemoveMember came with a witness for its own slot under which
/// the multisig's root is the root that the member leads to, and the root it
/// announces is the one that an empty slot leads to. The member is no empty
/// slot, and enough members stay for the threshold.
pub proof fn law_remove_was_witnessed(
    accounts: Seq<Account>,
    target_commitment: [u8; 32],
    target_path_bits: u32,
    expected_new_root: [u8; 32],
    witness: Option<SwapWitness>,
    index: u64,
    journal_bytes: Seq<u8>,
)
    requires
        propose_outcome(
            accounts,
            ConfigAction::RemoveMember { target_commitment, target_path_bits, expected_new_root },
            witness,
            index,
            journal_bytes,
        ) is Ok,
    ensures
        accounts[0] is Multisig,
        witness is Some,
        ({
            let before = accounts[0]->Multisig_0;
            let (path, siblings) = witness.unwrap();
            &&& path == target_path_bits
            &&& root_of_path(target_commitment, target_path_bits, siblings@) == before.members_root
            &&& root_of_path(EMPTY_LEAF, target_path_bits, siblings@) == expected_new_root
            &&& target_commitment != EMPTY_LEAF
            &&& before.member_count > before.threshold
        }),
{
}

/// A proposed threshold is at least one, at most the member count, and came
/// without a witness.
pub proof fn law_threshold_was_in_range(
    accounts: Seq<Account>,
    new_threshold: u8,
    witness: Option<SwapWitness>,
    index: u64,
    journal_bytes: Seq<u8>,
)
    requires
        propose_outcome(
            accounts,
            ConfigAction::ChangeThreshold { new_threshold },
            witness,
            index,
            journal_bytes,
        ) is Ok,
    ensures
        accounts[0] is Multisig,
        1 <= new_threshold <= accounts[0]->Multisig_0.member_count,
        witness is None,
{
}

/// Over any tree with the multisig's root, a proposed AddMember puts the new
/// member into a slot that is empty and changes no other: the announced root
/// is that of the tree with this one slot set, unless inputs collide.
pub proof fn law_add_drops_nobody(
    leaves: Seq<[u8; 32]>,
    accounts: Seq<Account>,
    new_commitment: [u8; 32],
    target_path_bits: u32,
    expected_new_root: [u8; 32],
    witness: Option<SwapWitness>,
    index: u64,
    journal_bytes: Seq<u8>,
)
    requires
        leaves.len() == 1024,
        propose_outcome(
            accounts,
            ConfigAction::AddMember { new_commitment, target_path_bits, expected_new_root },
            witness,
            index,
            journal_bytes,
        ) is Ok,
        tree_root(leaves) == accounts[0]->Multisig_0.members_root,
        no_collision(
            target_path_bits,
            EMPTY_LEAF,
            witness.unwrap().1@,
            leaves[target_path_bits as int % 1024],
            tree_siblings(leaves, (target_path_bits as int % 1024) as nat),
        ),
    ensures
        leaves[target_path_bits as int % 1024] == EMPTY_LEAF,
        expected_new_root == tree_root(
            leaves.update(target_path_bits as int % 1024, new_commitment),
        ),
{
    law_slot_count();
    law_add_was_witnessed(
        accounts,
        new_commitment,
        target_path_bits,
        expected_new_root,
        witness,
        index,
        journal_bytes,
    );
    law_path_proves_member(leaves, EMPTY_LEAF, target_path_bits, witness.unwrap().1@);
    law_replacement_is_update(leaves, target_path_bits, new_commitment);
}

/// Over any tree with the multisig's root, a proposed RemoveMember empties
/// the slot of the member it names and changes no other: the announced root
/// is that of the tree with this one slot emptied, unless inputs collide.
pub proof fn law_remove_drops_only_its_target(
    leaves: Seq<[u8; 32]>,
    accounts: Seq<Account>,
    target_commitment: [u8; 32],
    target_path_bits: u32,
    expected_new_root: [u8; 32],
    witness: Option<SwapWitness>,
    index: u64,
    journal_bytes: Seq<u8>,
)
    requires
        leaves.len() == 1024,
        propose_outcome(
            accounts,
            ConfigAction::RemoveMember { target_commitment, target_path_bits, expected_new_root },
            witness,
            index,
            journal_bytes,
        ) is Ok,
        tree_root(leaves) == accounts[0]->Multisig_0.members_root,
        no_collision(
            target_path_bits,
            target_commitment,
            witness.unwrap().1@,
            leaves[target_path_bits as int % 1024],
            tree_siblings(leaves, (target_path_bits as int % 1024) as nat),
        ),
    ensures
        leaves[target_path_bits as int % 1024] == target_commitment,
        expected_new_root == tree_root(leaves.update(target_path_bits as int % 1024, EMPTY_LEAF)),
{
    law_slot_count();
    law_remove_was_witnessed(
        accounts,
        target_commitment,
        target_path_bits,
        expected_new_root,
        witness,
        index,
        journal_bytes,
    );
    law_path_proves_member(leaves, target_commitment, target_path_bits, witness.unwrap().1@);
    law_replacement_is_update(leaves, target_path_bits, EMPTY_LEAF);
}

/// A multisig whose threshold can be reached keeps one that can be reached
/// when a proposed change is carried out, and its count still fits.
pub proof fn law_proposed_change_keeps_quorum(
    accounts: Seq<Account>,
    action: ConfigAction,
    witness: Option<SwapWitness>,
    index: u64,
    journal_bytes: Seq<u8>,
)
    requires
        propose_outcome(accounts, action, witness, index, journal_bytes) is Ok,
        1 <= accounts[0]->Multisig_0.threshold <= accounts[0]->Multisig_0.member_count,
    ensures
        ({
            let before = accounts[0]->Multisig_0;
            match action {
                ConfigAction::AddMember { .. } => before.threshold <= before.member_count + 1
                    <= 255,
                ConfigAction::RemoveMember { .. } => before.threshold <= before.member_count - 1,
                ConfigAction::ChangeThreshold { new_threshold } => 1 <= new_threshold
                    <= before.member_count,
            }
        }),
{
}

/// An honest AddMember is proposed: a multisig with room and whose tree has
/// an empty slot, a fresh account, the next index, the tree's own siblings,
/// the root of the tree with the new member in the slot, and a member's
/// approval of that index.
pub proof fn law_honest_add_succeeds(
    leaves: Seq<[u8; 32]>,
    accounts: Seq<Account>,
    state: MultisigState,
    new_commitment: [u8; 32],
    target_path_bits: u32,
    siblings: [[u8; 32]; MERKLE_DEPTH],
    index: u64,
    journal: ProofJournal,
)
    requires
        leaves.len() == 1024,
        accounts.len() >= 2,
        accounts[0] == Account::Multisig(state),
        accounts[1] == Account::Uninitialized,
        state.members_root == tree_root(leaves),
        state.member_count < 255,
        new_commitment != EMPTY_LEAF,
        leaves[target_path_bits as int % 1024] == EMPTY_LEAF,
        siblings@ == tree_siblings(leaves, (target_path_bits as int % 1024) as nat),
        index == state.transaction_index + 1,
        journal.members_root == state.members_root,
        journal.multisig_create_key == state.create_key,
        journal.proposal_id == sha256(proposal_input(state.create_key, index)),
        journal.vote_type == VoteType::Approve,
    ensures
        ({
            let action = ConfigAction::AddMember {
                new_commitment,
                target_path_bits,
                expected_new_root: tree_root(
                    leaves.update(target_path_bits as int % 1024, new_commitment),
                ),
            };
            propose_outcome(
                accounts,
                action,
                Some((target_path_bits, siblings)),
                index,
                crate::journal::journal_bytes(journal),
            ) == Ok::<(MultisigState, Proposal), ProposeError>(
                (
                    MultisigState { transaction_index: index, ..state },
                    Proposal {
                        index,
                        multisig_create_key: state.create_key,
                        members_root: state.members_root,
                        config_action: Some(action),
                        proposer_nullifier: journal.nullifier,
                    },
                ),
            )
        }),
{
    law_slot_count();
    law_replacement_is_update(leaves, target_path_bits, new_commitment);
    law_member_has_path(leaves, target_path_bits);
    law_round_trip(journal);
}

/// An honest RemoveMember is proposed: a multisig with more members than its
/// threshold, the slot of one of them, a fresh account, the next index, the
/// tree's own siblings, the root of the tree with the slot emptied, and a
/// member's approval of that index.
pub proof fn law_honest_remove_succeeds(
    leaves: Seq<[u8; 32]>,
    accounts: Seq<Account>,
    state: MultisigState,
    target_commitment: [u8; 32],
    target_path_bits: u32,
    siblings: [[u8; 32]; MERKLE_DEPTH],
    index: u64,
    journal: ProofJournal,
)
    requires
        leaves.len() == 1024,
        accounts.len() >= 2,
        accounts[0] == Account::Multisig(state),
        accounts[1] == Account::Uninitialized,
        state.members_root == tree_root(leaves),
        state.member_count > state.threshold,
        target_commitment != EMPTY_LEAF,
        leaves[target_path_bits as int % 1024] == target_commitment,
        siblings@ == tree_siblings(leaves, (target_path_bits as int % 1024) as nat),
        index == state.transaction_index + 1,
        journal.members_root == state.members_root,
        journal.multisig_create_key == state.create_key,
        journal.proposal_id == sha256(proposal_input(state.create_key, index)),
        journal.vote_type == VoteType::Approve,
    ensures
        ({
            let action = ConfigAction::RemoveMember {
                target_commitment,
                target_path_bits,
                expected_new_root: tree_root(
                    leaves.update(target_path_bits as int % 1024, EMPTY_LEAF),
                ),
            };
            propose_outcome(
                accounts,
                action,
                Some((target_path_bits, siblings)),
                index,
                crate::journal::journal_bytes(journal),
            ) == Ok::<(MultisigState, Proposal), ProposeError>(
                (
                    MultisigState { transaction_index: index, ..state },
                    Proposal {
                        index,
                        multisig_create_key: state.create_key,
                        members_root: state.members_root,
                        config_action: Some(action),
                        proposer_nullifier: journal.nullifier,
                    },
                ),
            )
        }),
{
    law_slot_count();
    law_replacement_is_update(leaves, target_path_bits, EMPTY_LEAF);
    law_member_has_path(leaves, target_path_bits);
    law_round_trip(journal);
}

/// A swap is proposed for whatever siblings lead from the old leaf to the
/// multisig's root and from the new leaf to the announced root; no more is
/// asked of them.
pub proof fn law_witnessed_swap_succeeds(
    accounts: Seq<Account>,
    state: MultisigState,
    commitment: [u8; 32],
    target_path_bits: u32,
    expected_new_root: [u8; 32],
    siblings: [[u8; 32]; MERKLE_DEPTH],
    index: u64,
    journal: ProofJournal,
)
    requires
        accounts.len() >= 2,
        accounts[0] == Account::Multisig(state),
        accounts[1] == Account::Uninitialized,
        commitment != EMPTY_LEAF,
        index == state.transaction_index + 1,
        journal.members_root == state.members_root,
        journal.multisig_create_key == state.create_key,
        journal.proposal_id == sha256(proposal_input(state.create_key, index)),
        journal.vote_type == VoteType::Approve,
    ensures
        state.member_count < 255 && root_of_path(EMPTY_LEAF, target_path_bits, siblings@)
            == state.members_root && root_of_path(commitment, target_path_bits, siblings@)
            == expected_new_root ==> propose_outcome(
            accounts,
            ConfigAction::AddMember {
                new_commitment: commitment,
                target_path_bits,
                expected_new_root,
            },
            Some((target_path_bits, siblings)),
            index,
            crate::journal::journal_bytes(journal),
        ) is Ok,
        state.member_count > state.threshold && root_of_path(
            commitment,
            target_path_bits,
            siblings@,
        ) == state.members_root && root_of_path(EMPTY_LEAF, target_path_bits, siblings@)
            == expected_new_root ==> propose_outcome(
            accounts,
            ConfigAction::RemoveMember {
                target_commitment: commitment,
                target_path_bits,
                expected_new_root,
            },
            Some((target_path_bits, siblings)),
            index,
            crate::journal::journal_bytes(journal),
        ) is Ok,
{
    law_round_trip(journal);
}

/// Every threshold from one to the member count can be proposed, whatever the
/// present one is: with no witness, a fresh account, the next index and a
/// member's approval of that index.
pub proof fn law_honest_threshold_succeeds(
    accounts: Seq<Account>,
    state: MultisigState,
    new_threshold: u8,
    index: u64,
    journal: ProofJournal,
)
    requires
        accounts.len() >= 2,
        accounts[0] == Account::Multisig(state),
        accounts[1] == Account::Uninitialized,
        1 <= new_threshold <= state.member_count,
        index == state.transaction_index + 1,
        journal.members_root == state.members_root,
        journal.multisig_create_key == state.create_key,
        journal.proposal_id == sha256(proposal_input(state.create_key, index)),
        journal.vote_type == VoteType::Approve,
    ensures
        propose_outcome(
            accounts,
            ConfigAction::ChangeThreshold { new_threshold },
            None,
            index,
            crate::journal::journal_bytes(journal),
        ) == Ok::<(MultisigState, Proposal), ProposeError>(
            (
                MultisigState { transaction_index: index, ..state },
                Proposal {
                    index,
                    multisig_create_key: state.create_key,
                    members_root: state.members_root,
                    config_action: Some(ConfigAction::ChangeThreshold { new_threshold }),
                    proposer_nullifier: journal.nullifier,
                },
            ),
        ),
{
    law_round_trip(journal);
}

/// A journal proposes once: two proposals made with the same bytes are on
/// multisigs with the same key, root and index, unless inputs collide. So the
/// multisig that a proposal leaves behind refuses the bytes it was made with.
pub proof fn law_journal_proposes_once(
    accounts: Seq<Account>,
    action: ConfigAction,
    witness: Option<SwapWitness>,
    index: u64,
    other_accounts: Seq<Account>,
    other_action: ConfigAction,
    other_witness: Option<SwapWitness>,
    other_index: u64,
    journal_bytes: Seq<u8>,
)
    requires
        propose_outcome(accounts, action, witness, index, journal_bytes) is Ok,
        propose_outcome(
            other_accounts,
            other_action,
            other_witness,
            other_index,
            journal_bytes,
        ) is Ok,
        !collide(
            proposal_input(accounts[0]->Multisig_0.create_key, index),
            proposal_input(other_accounts[0]->Multisig_0.create_key, other_index),
        ),
    ensures
        index == other_index,
        accounts[0]->Multisig_0.create_key == other_accounts[0]->Multisig_0.create_key,
        accounts[0]->Multisig_0.members_root == other_accounts[0]->Multisig_0.members_root,
        accounts[0]->Multisig_0.transaction_index
            == other_accounts[0]->Multisig_0.transaction_index,
        ({
            let after = propose_outcome(accounts, action, witness, index, journal_bytes)->Ok_0.0;
            other_accounts[0] != Account::Multisig(after)
        }),
{
    law_proposal_id_fixes_scope(
        accounts[0]->Multisig_0.create_key,
        index,
        other_accounts[0]->Multisig_0.create_key,
        other_index,
    );
}

/// A refusal names a rule that is broken, and every rule before it in the
/// order of checking is kept: first the accounts, then the action, then the
/// index, then the proof.
pub proof fn law_refusal_names_the_first_broken_rule(
    accounts: Seq<Account>,
    action: ConfigAction,
    witness: Option<SwapWitness>,
    index: u64,
    journal_bytes: Seq<u8>,
    error: ProposeError,
)
    requires
        propose_outcome(accounts, action, witness, index, journal_bytes) == Err::<
            (MultisigState, Proposal),
            ProposeError,
        >(error),
    ensures
        ({
            let state = accounts[0]->Multisig_0;
            let w = witness.unwrap();
            let accounts_kept = accounts.len() >= 2 && accounts[1] == Account::Uninitialized
                && accounts[0] is Multisig;
            let action_kept = accounts_kept && match action {
                ConfigAction::AddMember { new_commitment, target_path_bits, expected_new_root } => {
                    &&& state.member_count < 255
                    &&& new_commitment != EMPTY_LEAF
                    &&& witness is Some
                    &&& w.0 == target_path_bits
                    &&& root_of_path(EMPTY_LEAF, target_path_bits, w.1@) == state.members_root
                    &&& root_of_path(new_commitment, target_path_bits, w.1@) == expected_new_root
                },
                ConfigAction::RemoveMember {
                    target_commitment,
                    target_path_bits,
                    expected_new_root,
                } => {
                    &&& state.member_count > state.threshold
                    &&& target_commitment != EMPTY_LEAF
                    &&& witness is Some
                    &&& w.0 == target_path_bits
                    &&& root_of_path(target_commitment, target_path_bits, w.1@)
                        == state.members_root
                    &&& root_of_path(EMPTY_LEAF, target_path_bits, w.1@) == expected_new_root
                },
                ConfigAction::ChangeThreshold { new_threshold } => {
                    &&& 1 <= new_threshold <= state.member_count
                    &&& witness is None
                },
            };
            let index_kept = action_kept && index == state.transaction_index + 1;
            let proof_read = index_kept && journal_bytes.len() == 129 && (journal_bytes[96] == 2
                || journal_bytes[96] == 3);
            let root_kept = journal_bytes.subrange(0, 32) == state.members_root@;
            let key_kept = journal_bytes.subrange(32, 64) == state.create_key@;
            let id_kept = journal_bytes.subrange(64, 96) == sha256(
                proposal_input(state.create_key, index),
            )@;
            match error {
                ProposeError::NotEnoughAccounts => accounts.len() < 2,
                ProposeError::ProposalInitialized => accounts.len() >= 2 && accounts[1]
                    != Account::Uninitialized,
                ProposeError::StateUndecodable => {
                    &&& accounts.len() >= 2
                    &&& accounts[1] == Account::Uninitialized
                    &&& accounts[0] !is Multisig
                },
                ProposeError::MemberCountOverflow => {
                    &&& accounts_kept
                    &&& action is AddMember
                    &&& state.member_count == 255
                },
                ProposeError::EmptyNewCommitment => {
                    &&& accounts_kept
                    &&& action matches ConfigAction::AddMember { new_commitment, .. }
                    &&& state.member_count < 255
                    &&& new_commitment == EMPTY_LEAF
                },
                ProposeError::AddWitnessMissing => {
                    &&& accounts_kept
                    &&& action matches ConfigAction::AddMember { new_commitment, .. }
                    &&& state.member_count < 255
                    &&& new_commitment != EMPTY_LEAF
                    &&& witness is None
                },
                ProposeError::BelowThreshold => {
                    &&& accounts_kept
                    &&& action is RemoveMember
                    &&& state.member_count <= state.threshold
                },
                ProposeError::EmptyTargetCommitment => {
                    &&& accounts_kept
                    &&& action matches ConfigAction::RemoveMember { target_commitment, .. }
                    &&& state.member_count > state.threshold
                    &&& target_commitment == EMPTY_LEAF
                },
                ProposeError::RemoveWitnessMissing => {
                    &&& accounts_kept
                    &&& action matches ConfigAction::RemoveMember { target_commitment, .. }
                    &&& state.member_count > state.threshold
                    &&& target_commitment != EMPTY_LEAF
                    &&& witness is None
                },
                ProposeError::WitnessPathMismatch => {
                    &&& accounts_kept
                    &&& witness is Some
                    &&& match action {
                        ConfigAction::AddMember { new_commitment, target_path_bits, .. } => {
                            &&& state.member_count < 255
                            &&& new_commitment != EMPTY_LEAF
                            &&& w.0 != target_path_bits
                        },
                        ConfigAction::RemoveMember { target_commitment, target_path_bits, .. } => {
                            &&& state.member_count > state.threshold
                            &&& target_commitment != EMPTY_LEAF
                            &&& w.0 != target_path_bits
                        },
                        ConfigAction::ChangeThreshold { .. } => false,
                    }
                },
                ProposeError::SlotNotEmpty => {
                    &&& accounts_kept
                    &&& action matches ConfigAction::AddMember {
                        new_commitment,
                        target_path_bits,
                        ..
                    }
                    &&& state.member_count < 255
                    &&& new_commitment != EMPTY_LEAF
                    &&& witness is Some
                    &&& w.0 == target_path_bits
                    &&& root_of_path(EMPTY_LEAF, target_path_bits, w.1@) != state.members_root
                },
                ProposeError::SlotNotTarget => {
                    &&& accounts_kept
                    &&& action matches ConfigAction::RemoveMember {
                        target_commitment,
                        target_path_bits,
                        ..
                    }
                    &&& state.member_count > state.threshold
                    &&& target_commitment != EMPTY_LEAF
                    &&& witness is Some
                    &&& w.0 == target_path_bits
                    &&& root_of_path(target_commitment, target_path_bits, w.1@)
                        != state.members_root
                },
                ProposeError::AddRootMismatch => {
                    &&& accounts_kept
                    &&& action matches ConfigAction::AddMember {
                        new_commitment,
                        target_path_bits,
                        expected_new_root,
                    }
                    &&& state.member_count < 255
                    &&& new_commitment != EMPTY_LEAF
                    &&& witness is Some
                    &&& w.0 == target_path_bits
                    &&& root_of_path(EMPTY_LEAF, target_path_bits, w.1@) == state.members_root
                    &&& root_of_path(new_commitment, target_path_bits, w.1@) != expected_new_root
                },
                ProposeError::RemoveRootMismatch => {
                    &&& accounts_kept
                    &&& action matches ConfigAction::RemoveMember {
                        target_commitment,
                        target_path_bits,
                        expected_new_root,
                    }
                    &&& state.member_count > state.threshold
                    &&& target_commitment != EMPTY_LEAF
                    &&& witness is Some
                    &&& w.0 == target_path_bits
                    &&& root_of_path(target_commitment, target_path_bits, w.1@)
                        == state.members_root
                    &&& root_of_path(EMPTY_LEAF, target_path_bits, w.1@) != expected_new_root
                },
                ProposeError::ZeroThreshold => {
                    &&& accounts_kept
                    &&& action == (ConfigAction::ChangeThreshold { new_threshold: 0 })
                },
                ProposeError::ThresholdAboveMemberCount => {
                    &&& accounts_kept
                    &&& action matches ConfigAction::ChangeThreshold { new_threshold }
                    &&& new_threshold >= 1
                    &&& new_threshold > state.member_count
                },
                ProposeError::UnexpectedWitness => {
                    &&& accounts_kept
                    &&& action matches ConfigAction::ChangeThreshold { new_threshold }
                    &&& 1 <= new_threshold <= state.member_count
                    &&& witness is Some
                },
                ProposeError::IndexExhausted => action_kept && state.transaction_index
                    == 0xffff_ffff_ffff_ffff,
                ProposeError::IndexMismatch => {
                    &&& action_kept
                    &&& state.transaction_index < 0xffff_ffff_ffff_ffff
                    &&& index != state.transaction_index + 1
                },
                ProposeError::JournalUnreadable(reason) => {
                    &&& index_kept
                    &&& match reason {
                        JournalError::UnknownVoteType { tag } => {
                            &&& journal_bytes.len() > 96
                            &&& tag == journal_bytes[96]
                            &&& tag != 2 && tag != 3
                        },
                        JournalError::Truncated => {
                            &&& journal_bytes.len() < 129
                            &&& journal_bytes.len() <= 96 || journal_bytes[96] == 2
                                || journal_bytes[96] == 3
                        },
                        JournalError::TrailingBytes => {
                            &&& journal_bytes.len() > 129
                            &&& journal_bytes[96] == 2 || journal_bytes[96] == 3
                        },
                    }
                },
                ProposeError::CreateKeyMismatch => proof_read && !key_kept,
                ProposeError::MemberSetMismatch => proof_read && key_kept && !root_kept,
                ProposeError::ProposalIdMismatch => proof_read && key_kept && root_kept
                    && !id_kept,
                ProposeError::NotAnApproval => {
                    &&& proof_read && key_kept && root_kept && id_kept
                    &&& journal_bytes[96] == 3
                },
            }
        }),
{
    law_every_input_is_read(journal_bytes);
    law_reading_is_exact(journal_bytes, read_journal(journal_bytes));
    if read_journal(journal_bytes) is Ok {
        let state = accounts[0]->Multisig_0;
        let journal = read_journal(journal_bytes)->Ok_0;
        let id = sha256(proposal_input(state.create_key, index));
        if journal.multisig_create_key@ == state.create_key@ {
            lemma_same_view(journal.multisig_create_key, state.create_key);
        }
        if journal.members_root@ == state.members_root@ {
            lemma_same_view(journal.members_root, state.members_root);
        }
        if journal.proposal_id@ == id@ {
            lemma_same_view(journal.proposal_id, id);
        }
    }
}

/// What the checks of an action report for any root that a swap may come to:
/// no error exactly where every rule is kept, and else the first rule broken.
pub proof fn law_action_checks(
    state: MultisigState,
    action: ConfigAction,
    witness: Option<SwapWitness>,
    swapped: Option<[u8; 32]>,
)
    ensures
        action matches ConfigAction::AddMember { new_commitment, target_path_bits, expected_new_root }
            ==> {
            let found = action_refusal(state, action, witness, swapped);
            let counted = state.member_count < 255;
            let named = counted && new_commitment != EMPTY_LEAF;
            let witnessed = named && witness is Some && witness.unwrap().0 == target_path_bits;
            &&& found == Some(ProposeError::MemberCountOverflow) <==> !counted
            &&& found == Some(ProposeError::EmptyNewCommitment) <==> counted && !named
            &&& found == Some(ProposeError::AddWitnessMissing) <==> named && witness is None
            &&& found == Some(ProposeError::WitnessPathMismatch) <==> named && witness is Some
                && !witnessed
            &&& found == Some(ProposeError::SlotNotEmpty) <==> witnessed && swapped is None
            &&& found == Some(ProposeError::AddRootMismatch) <==> witnessed && swapped is Some
                && swapped != Some(expected_new_root)
            &&& found is None <==> witnessed && swapped == Some(expected_new_root)
        },
        action matches ConfigAction::RemoveMember {
            target_commitment,
            target_path_bits,
            expected_new_root,
        } ==> {
            let found = action_refusal(state, action, witness, swapped);
            let counted = state.member_count > state.threshold;
            let named = counted && target_commitment != EMPTY_LEAF;
            let witnessed = named && witness is Some && witness.unwrap().0 == target_path_bits;
            &&& found == Some(ProposeError::BelowThreshold) <==> !counted
            &&& found == Some(ProposeError::EmptyTargetCommitment) <==> counted && !named
            &&& found == Some(ProposeError::RemoveWitnessMissing) <==> named && witness is None
            &&& found == Some(ProposeError::WitnessPathMismatch) <==> named && witness is Some
                && !witnessed
            &&& found == Some(ProposeError::SlotNotTarget) <==> witnessed && swapped is None
            &&& found == Some(ProposeError::RemoveRootMismatch) <==> witnessed && swapped is Some
                && swapped != Some(expected_new_root)
            &&& found is None <==> witnessed && swapped == Some(expected_new_root)
        },
        action matches ConfigAction::ChangeThreshold { new_threshold } ==> {
            let found = action_refusal(state, action, witness, swapped);
            &&& found == Some(ProposeError::ZeroThreshold) <==> new_threshold == 0
            &&& found == Some(ProposeError::ThresholdAboveMemberCount) <==> new_threshold != 0
                && new_threshold > state.member_count
            &&& found == Some(ProposeError::UnexpectedWitness) <==> 1 <= new_threshold
                <= state.member_count && witness is Some
            &&& found is None <==> 1 <= new_threshold <= state.member_count && witness is None
        },
{
}

/// The swap of an action takes an empty slot for the new member, or a member
/// for an empty slot; its root is there exactly where the witness leads from
/// what is taken out to the multisig's root.
pub proof fn law_swap_of_an_action(
    members_root: [u8; 32],
    commitment: [u8; 32],
    path_bits: u32,
    announced: [u8; 32],
    witness: SwapWitness,
)
    ensures
        ({
            let added = swapped_root(
                members_root,
                ConfigAction::AddMember {
                    new_commitment: commitment,
                    target_path_bits: path_bits,
                    expected_new_root: announced,
                },
                Some(witness),
            );
            let removed = swapped_root(
                members_root,
                ConfigAction::RemoveMember {
                    target_commitment: commitment,
                    target_path_bits: path_bits,
                    expected_new_root: announced,
                },
                Some(witness),
            );
            let empty_leads_to = root_of_path(EMPTY_LEAF, path_bits, witness.1@);
            let member_leads_to = root_of_path(commitment, path_bits, witness.1@);
            &&& added is Some <==> empty_leads_to == members_root
            &&& added is Some ==> added == Some(member_leads_to)
            &&& removed is Some <==> member_leads_to == members_root
            &&& removed is Some ==> removed == Some(empty_leads_to)
        }),
{
}

/// What the checks of a proof report: no error exactly for an approval with
/// the multisig's key, its root and the id of the proposal, and else the
/// first of these that does not agree.
pub proof fn law_proof_checks(state: MultisigState, expected_id: [u8; 32], journal: ProofJournal)
    ensures
        ({
            let found = journal_refusal(state, expected_id, journal);
            let key = journal.multisig_create_key == state.create_key;
            let root = journal.members_root == state.members_root;
            let id = journal.proposal_id == expected_id;
            &&& found == Some(ProposeError::CreateKeyMismatch) <==> !key
            &&& found == Some(ProposeError::MemberSetMismatch) <==> key && !root
            &&& found == Some(ProposeError::ProposalIdMismatch) <==> key && root && !id
            &&& found == Some(ProposeError::NotAnApproval) <==> key && root && id
                && journal.vote_type is Reject
            &&& found is None <==> key && root && id && journal.vote_type is Approve
        }),
{
}

/// The words of a refusal say what was refused.
pub proof fn law_refusal_words(reason: JournalError)
    ensures
        refusal_text(ProposeError::NotEnoughAccounts)
            == "ProposeConfig requires multisig_state + proposal accounts"@,
        refusal_text(ProposeError::ProposalInitialized)
            == "Proposal account must be uninitialized"@,
        refusal_text(ProposeError::StateUndecodable) == "Failed to deserialize multisig state"@,
        refusal_text(ProposeError::MemberCountOverflow) == "member_count would overflow"@,
        refusal_text(ProposeError::EmptyNewCommitment)
            == "new_commitment must not equal EMPTY_LEAF"@,
        refusal_text(ProposeError::AddWitnessMissing) == "AddMember requires a swap_witness"@,
        refusal_text(ProposeError::BelowThreshold)
            == "Removing would make count fall below threshold"@,
        refusal_text(ProposeError::EmptyTargetCommitment)
            == "target_commitment must not equal EMPTY_LEAF"@,
        refusal_text(ProposeError::RemoveWitnessMissing) == "RemoveMember requires a swap_witness"@,
        refusal_text(ProposeError::WitnessPathMismatch)
            == "swap_witness path does not match config_action target_path_bits"@,
        refusal_text(ProposeError::SlotNotEmpty)
            == "AddMember: target slot is not currently EMPTY_LEAF under members_root"@,
        refusal_text(ProposeError::SlotNotTarget)
            == "RemoveMember: target slot does not currently hold target_commitment"@,
        refusal_text(ProposeError::AddRootMismatch)
            == "AddMember: expected_new_root does not match the witnessed swap"@,
        refusal_text(ProposeError::RemoveRootMismatch)
            == "RemoveMember: expected_new_root does not match the witnessed swap"@,
        refusal_text(ProposeError::ZeroThreshold) == "Threshold must be at least 1"@,
        refusal_text(ProposeError::ThresholdAboveMemberCount)
            == "Threshold cannot exceed member count"@,
        refusal_text(ProposeError::UnexpectedWitness)
            == "ChangeThreshold must not carry a swap_witness"@,
        refusal_text(ProposeError::IndexExhausted) == "transaction_index would overflow"@,
        refusal_text(ProposeError::IndexMismatch)
            == "proposal_index arg does not match next transaction_index"@,
        refusal_text(ProposeError::JournalUnreadable(reason))
            == "Failed to deserialize membership journal"@,
        refusal_text(ProposeError::CreateKeyMismatch)
            == "Proof was generated for a different multisig"@,
        refusal_text(ProposeError::MemberSetMismatch)
            == "Proof was generated against a different member set"@,
        refusal_text(ProposeError::ProposalIdMismatch)
            == "Proof was generated for a different proposal"@,
        refusal_text(ProposeError::NotAnApproval)
            == "Config proposal requires Approve vote_type (propose is the proposer's first approval)"@,
{
}

} // verus!
