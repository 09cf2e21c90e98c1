//! Propose a config change (add member, remove member, change threshold).
//!
//! Authenticated by a membership proof with an approving vote: proposing
//! counts as the proposer's first approval.
//!
//! For AddMember / RemoveMember the proposer must additionally supply a
//! Merkle witness `(target_path_bits, siblings)` that proves what currently
//! sits at the target slot under `members_root`. The root that results from
//! the proposed swap is recomputed and has to equal the `expected_new_root`
//! carried by the action: a proposer cannot have an arbitrary root installed.
//!
//! Accounts:
//! - accounts[0]: the multisig state (its transaction_index is bumped)
//! - accounts[1]: the proposal (has to be uninitialized)

use crate::digest::same_bytes;
use crate::identity::{proposal_id, Nullifier};
use crate::journal::{JournalError, ProofJournal, VoteType};
use crate::merkle::{verify_and_replace, Commitment, MerkleRoot, EMPTY_LEAF, MERKLE_DEPTH};
use vstd::prelude::*;

verus! {

use crate::digest::sha256;
use crate::identity::proposal_input;
use crate::journal::{law_reading_is_exact, read_journal};
use crate::merkle::{replaced_root, root_of_path};

/// A change to the multisig's own configuration.
#[derive(Debug, Clone, Copy, PartialEq, Eq)]
pub enum ConfigAction {
    /// Put `new_commitment` into an empty slot.
    AddMember {
        new_commitment: Commitment,
        target_path_bits: u32,
        expected_new_root: MerkleRoot,
    },
    /// Empty the slot that holds `target_commitment`.
    RemoveMember {
        target_commitment: Commitment,
        target_path_bits: u32,
        expected_new_root: MerkleRoot,
    },
    /// Ask for another number of approvals.
    ChangeThreshold { new_threshold: u8 },
}

/// Witness for the proposed leaf swap: the slot and the siblings beside its
/// path. Required for AddMember and RemoveMember; has to be absent for
/// ChangeThreshold.
pub type SwapWitness = (u32, [[u8; 32]; MERKLE_DEPTH]);

/// The bytes of a proof journal, as the membership proof committed them.
pub type MembershipJournal = Vec<u8>;

/// The multisig as its account holds it.
#[derive(Debug, Clone, Copy, PartialEq, Eq)]
pub struct MultisigState {
    /// Key that the multisig was created under; names it in proofs.
    pub create_key: [u8; 32],
    /// Approvals that a proposal needs.
    pub threshold: u8,
    /// Filled slots of the member tree.
    pub member_count: u8,
    /// Root of the member tree.
    pub members_root: MerkleRoot,
    /// Index of the latest proposal; 0 before the first.
    pub transaction_index: u64,
}

impl MultisigState {
    /// A multisig without proposals.
    pub fn new(
        create_key: [u8; 32],
        threshold: u8,
        member_count: u8,
        members_root: MerkleRoot,
    ) -> (state: MultisigState)
        ensures
            state == (MultisigState {
                create_key,
                threshold,
                member_count,
                members_root,
                transaction_index: 0,
            }),
    {
        MultisigState { create_key, threshold, member_count, members_root, transaction_index: 0 }
    }

    /// Takes the next proposal index.
    pub fn next_proposal_index(&mut self) -> (index: u64)
        requires
            old(self).transaction_index < u64::MAX,
        ensures
            index == old(self).transaction_index + 1,
            *final(self) == (MultisigState { transaction_index: index, ..*old(self) }),
    {
        self.transaction_index = self.transaction_index + 1;
        self.transaction_index
    }
}

/// A proposed config change as its account holds it.
#[derive(Debug, Clone, Copy, PartialEq, Eq)]
pub struct Proposal {
    /// Index of the proposal in its multisig.
    pub index: u64,
    /// Key of the multisig.
    pub multisig_create_key: [u8; 32],
    /// Root of the member tree that the proposal was made under.
    pub members_root: MerkleRoot,
    /// The change that is proposed.
    pub config_action: Option<ConfigAction>,
    /// Nullifier of the proposer, whose first approval this is.
    pub proposer_nullifier: Nullifier,
}

impl Proposal {
    /// A proposal to change the configuration.
    pub fn new_config(
        index: u64,
        multisig_create_key: [u8; 32],
        members_root: MerkleRoot,
        config_action: ConfigAction,
        proposer_nullifier: Nullifier,
    ) -> (proposal: Proposal)
        ensures
            proposal == (Proposal {
                index,
                multisig_create_key,
                members_root,
                config_action: Some(config_action),
                proposer_nullifier,
            }),
    {
        Proposal {
            index,
            multisig_create_key,
            members_root,
            config_action: Some(config_action),
            proposer_nullifier,
        }
    }
}

/// What an account holds.
#[derive(Debug, Clone, Copy, PartialEq, Eq)]
pub enum Account {
    /// The default account, which nobody has written to.
    Uninitialized,
    /// A multisig state.
    Multisig(MultisigState),
    /// A proposal.
    Proposal(Proposal),
    /// Anything else.
    Other,
}

/// Why a config change may not be proposed.
#[derive(Debug, Clone, Copy, PartialEq, Eq)]
pub enum ProposeError {
    NotEnoughAccounts,
    ProposalInitialized,
    StateUndecodable,
    MemberCountOverflow,
    EmptyNewCommitment,
    AddWitnessMissing,
    BelowThreshold,
    EmptyTargetCommitment,
    RemoveWitnessMissing,
    WitnessPathMismatch,
    SlotNotEmpty,
    SlotNotTarget,
    AddRootMismatch,
    RemoveRootMismatch,
    ZeroThreshold,
    ThresholdAboveMemberCount,
    UnexpectedWitness,
    IndexExhausted,
    IndexMismatch,
    JournalUnreadable(JournalError),
    CreateKeyMismatch,
    MemberSetMismatch,
    ProposalIdMismatch,
    NotAnApproval,
}

/// The text of a refusal.
pub open spec fn refusal_text(error: ProposeError) -> Seq<char> {
    match error {
        ProposeError::NotEnoughAccounts =>
            "ProposeConfig requires multisig_state + proposal accounts"@,
        ProposeError::ProposalInitialized => "Proposal account must be uninitialized"@,
        ProposeError::StateUndecodable => "Failed to deserialize multisig state"@,
        ProposeError::MemberCountOverflow => "member_count would overflow"@,
        ProposeError::EmptyNewCommitment => "new_commitment must not equal EMPTY_LEAF"@,
        ProposeError::AddWitnessMissing => "AddMember requires a swap_witness"@,
        ProposeError::BelowThreshold => "Removing would make count fall below threshold"@,
        ProposeError::EmptyTargetCommitment => "target_commitment must not equal EMPTY_LEAF"@,
        ProposeError::RemoveWitnessMissing => "RemoveMember requires a swap_witness"@,
        ProposeError::WitnessPathMismatch =>
            "swap_witness path does not match config_action target_path_bits"@,
        ProposeError::SlotNotEmpty =>
            "AddMember: target slot is not currently EMPTY_LEAF under members_root"@,
        ProposeError::SlotNotTarget =>
            "RemoveMember: target slot does not currently hold target_commitment"@,
        ProposeError::AddRootMismatch =>
            "AddMember: expected_new_root does not match the witnessed swap"@,
        ProposeError::RemoveRootMismatch =>
            "RemoveMember: expected_new_root does not match the witnessed swap"@,
        ProposeError::ZeroThreshold => "Threshold must be at least 1"@,
        ProposeError::ThresholdAboveMemberCount => "Threshold cannot exceed member count"@,
        ProposeError::UnexpectedWitness => "ChangeThreshold must not carry a swap_witness"@,
        ProposeError::IndexExhausted => "transaction_index would overflow"@,
        ProposeError::IndexMismatch =>
            "proposal_index arg does not match next transaction_index"@,
        ProposeError::JournalUnreadable(_) => "Failed to deserialize membership journal"@,
        ProposeError::CreateKeyMismatch => "Proof was generated for a different multisig"@,
        ProposeError::MemberSetMismatch => "Proof was generated against a different member set"@,
        ProposeError::ProposalIdMismatch => "Proof was generated for a different proposal"@,
        ProposeError::NotAnApproval =>
            "Config proposal requires Approve vote_type (propose is the proposer's first approval)"@,
    }
}

impl ProposeError {
    /// The refusal in words.
    pub fn message(self) -> (text: &'static str)
        ensures
            text@ == refusal_text(self),
    {
        match self {
            ProposeError::NotEnoughAccounts =>
                "ProposeConfig requires multisig_state + proposal accounts",
            ProposeError::ProposalInitialized => "Proposal account must be uninitialized",
            ProposeError::StateUndecodable => "Failed to deserialize multisig state",
            ProposeError::MemberCountOverflow => "member_count would overflow",
            ProposeError::EmptyNewCommitment => "new_commitment must not equal EMPTY_LEAF",
            ProposeError::AddWitnessMissing => "AddMember requires a swap_witness",
            ProposeError::BelowThreshold => "Removing would make count fall below threshold",
            ProposeError::EmptyTargetCommitment => "target_commitment must not equal EMPTY_LEAF",
            ProposeError::RemoveWitnessMissing => "RemoveMember requires a swap_witness",
            ProposeError::WitnessPathMismatch =>
                "swap_witness path does not match config_action target_path_bits",
            ProposeError::SlotNotEmpty =>
                "AddMember: target slot is not currently EMPTY_LEAF under members_root",
            ProposeError::SlotNotTarget =>
                "RemoveMember: target slot does not currently hold target_commitment",
            ProposeError::AddRootMismatch =>
                "AddMember: expected_new_root does not match the witnessed swap",
            ProposeError::RemoveRootMismatch =>
                "RemoveMember: expected_new_root does not match the witnessed swap",
            ProposeError::ZeroThreshold => "Threshold must be at least 1",
            ProposeError::ThresholdAboveMemberCount => "Threshold cannot exceed member count",
            ProposeError::UnexpectedWitness => "ChangeThreshold must not carry a swap_witness",
            ProposeError::IndexExhausted => "transaction_index would overflow",
            ProposeError::IndexMismatch =>
                "proposal_index arg does not match next transaction_index",
            ProposeError::JournalUnreadable(_) => "Failed to deserialize membership journal",
            ProposeError::CreateKeyMismatch => "Proof was generated for a different multisig",
            ProposeError::MemberSetMismatch =>
                "Proof was generated against a different member set",
            ProposeError::ProposalIdMismatch => "Proof was generated for a different proposal",
            ProposeError::NotAnApproval =>
                "Config proposal requires Approve vote_type (propose is the proposer's first approval)",
        }
    }
}

/// The root after the swap that `action` asks for, if `witness` proves the
/// slot to hold what the action takes out of it. `None` where there is no
/// swap or no witness.
pub open spec fn swapped_root(
    members_root: MerkleRoot,
    action: ConfigAction,
    witness: Option<SwapWitness>,
) -> Option<MerkleRoot> {
    match (action, witness) {
        (ConfigAction::AddMember { new_commitment, target_path_bits, .. }, Some(w)) =>
            replaced_root(EMPTY_LEAF, new_commitment, target_path_bits, w.1@, members_root),
        (ConfigAction::RemoveMember { target_commitment, target_path_bits, .. }, Some(w)) =>
            replaced_root(target_commitment, EMPTY_LEAF, target_path_bits, w.1@, members_root),
        _ => None,
    }
}

/// The first rule that `action` breaks, given the root that its swap comes to.
pub open spec fn action_refusal(
    state: MultisigState,
    action: ConfigAction,
    witness: Option<SwapWitness>,
    swapped: Option<MerkleRoot>,
) -> Option<ProposeError> {
    match action {
        ConfigAction::AddMember { new_commitment, target_path_bits, expected_new_root } => {
            if state.member_count == u8::MAX {
                Some(ProposeError::MemberCountOverflow)
            } else if new_commitment == EMPTY_LEAF {
                Some(ProposeError::EmptyNewCommitment)
            } else if witness is None {
                Some(ProposeError::AddWitnessMissing)
            } else if witness.unwrap().0 != target_path_bits {
                Some(ProposeError::WitnessPathMismatch)
            } else if swapped is None {
                Some(ProposeError::SlotNotEmpty)
            } else if swapped.unwrap() != expected_new_root {
                Some(ProposeError::AddRootMismatch)
            } else {
                None
            }
        },
        ConfigAction::RemoveMember { target_commitment, target_path_bits, expected_new_root } => {
            if state.member_count <= state.threshold {
                Some(ProposeError::BelowThreshold)
            } else if target_commitment == EMPTY_LEAF {
                Some(ProposeError::EmptyTargetCommitment)
            } else if witness is None {
                Some(ProposeError::RemoveWitnessMissing)
            } else if witness.unwrap().0 != target_path_bits {
                Some(ProposeError::WitnessPathMismatch)
            } else if swapped is None {
                Some(ProposeError::SlotNotTarget)
            } else if swapped.unwrap() != expected_new_root {
                Some(ProposeError::RemoveRootMismatch)
            } else {
                None
            }
        },
        ConfigAction::ChangeThreshold { new_threshold } => {
            if new_threshold < 1 {
                Some(ProposeError::ZeroThreshold)
            } else if new_threshold > state.member_count {
                Some(ProposeError::ThresholdAboveMemberCount)
            } else if witness is Some {
                Some(ProposeError::UnexpectedWitness)
            } else {
                None
            }
        },
    }
}

/// The first respect in which a proof does not authorise a proposal with id
/// `expected_id` in the multisig.
pub open spec fn journal_refusal(
    state: MultisigState,
    expected_id: [u8; 32],
    journal: ProofJournal,
) -> Option<ProposeError> {
    if journal.multisig_create_key != state.create_key {
        Some(ProposeError::CreateKeyMismatch)
    } else if journal.members_root != state.members_root {
        Some(ProposeError::MemberSetMismatch)
    } else if journal.proposal_id != expected_id {
        Some(ProposeError::ProposalIdMismatch)
    } else if journal.vote_type != VoteType::Approve {
        Some(ProposeError::NotAnApproval)
    } else {
        None
    }
}

/// Whether `action` keeps the rules of the multisig and `witness` proves what
/// it says of the member tree.
pub open spec fn action_allowed(
    state: MultisigState,
    action: ConfigAction,
    witness: Option<SwapWitness>,
) -> bool {
    match action {
        ConfigAction::AddMember { new_commitment, target_path_bits, expected_new_root } => {
            &&& state.member_count < u8::MAX
            &&& new_commitment != EMPTY_LEAF
            &&& witness matches Some(w)
            &&& w.0 == target_path_bits
            &&& root_of_path(EMPTY_LEAF, target_path_bits, w.1@) == state.members_root
            &&& root_of_path(new_commitment, target_path_bits, w.1@) == expected_new_root
        },
        ConfigAction::RemoveMember { target_commitment, target_path_bits, expected_new_root } => {
            &&& state.member_count > state.threshold
            &&& target_commitment != EMPTY_LEAF
            &&& witness matches Some(w)
            &&& w.0 == target_path_bits
            &&& root_of_path(target_commitment, target_path_bits, w.1@) == state.members_root
            &&& root_of_path(EMPTY_LEAF, target_path_bits, w.1@) == expected_new_root
        },
        ConfigAction::ChangeThreshold { new_threshold } => {
            &&& 1 <= new_threshold <= state.member_count
            &&& witness is None
        },
    }
}

/// Whether a proof was made by a member of this multisig, under its present
/// member set, to approve the proposal with the given index.
pub open spec fn authorises(journal: ProofJournal, state: MultisigState, index: u64) -> bool {
    &&& journal.multisig_create_key == state.create_key
    &&& journal.members_root == state.members_root
    &&& journal.proposal_id == sha256(proposal_input(state.create_key, index))
    &&& journal.vote_type == VoteType::Approve
}

/// Whether a config change may be proposed.
pub open spec fn may_propose(
    accounts: Seq<Account>,
    action: ConfigAction,
    witness: Option<SwapWitness>,
    proposal_index_arg: u64,
    journal_bytes: Seq<u8>,
) -> bool {
    &&& accounts.len() >= 2
    &&& accounts[1] == Account::Uninitialized
    &&& accounts[0] matches Account::Multisig(state)
    &&& action_allowed(state, action, witness)
    &&& proposal_index_arg == state.transaction_index + 1
    &&& read_journal(journal_bytes) matches Ok(journal)
    &&& authorises(journal, state, proposal_index_arg)
}

/// What proposing `action` comes to: the state with its index bumped and the
/// new proposal, or the first rule that is broken.
pub open spec fn propose_outcome(
    accounts: Seq<Account>,
    action: ConfigAction,
    witness: Option<SwapWitness>,
    proposal_index_arg: u64,
    journal_bytes: Seq<u8>,
) -> Result<(MultisigState, Proposal), ProposeError> {
    if accounts.len() < 2 {
        Err(ProposeError::NotEnoughAccounts)
    } else if accounts[1] != Account::Uninitialized {
        Err(ProposeError::ProposalInitialized)
    } else if accounts[0] !is Multisig {
        Err(ProposeError::StateUndecodable)
    } else {
        let state = accounts[0]->Multisig_0;
        let index = (state.transaction_index + 1) as u64;
        let swapped = swapped_root(state.members_root, action, witness);
        match action_refusal(state, action, witness, swapped) {
            Some(error) => Err(error),
            None => if state.transaction_index == u64::MAX {
                Err(ProposeError::IndexExhausted)
            } else if index != proposal_index_arg {
                Err(ProposeError::IndexMismatch)
            } else {
                match read_journal(journal_bytes) {
                    Err(error) => Err(ProposeError::JournalUnreadable(error)),
                    Ok(journal) => {
                        let expected_id = sha256(proposal_input(state.create_key, index));
                        match journal_refusal(state, expected_id, journal) {
                            Some(error) => Err(error),
                            None => Ok(
                                (
                                    MultisigState { transaction_index: index, ..state },
                                    Proposal {
                                        index,
                                        multisig_create_key: state.create_key,
                                        members_root: state.members_root,
                                        config_action: Some(action),
                                        proposer_nullifier: journal.nullifier,
                                    },
                                ),
                            ),
                        }
                    },
                }
            },
        }
    }
}

/// Computes the root after the swap that `action` asks for.
fn swap_leaf(
    members_root: &MerkleRoot,
    action: &ConfigAction,
    swap_witness: &Option<SwapWitness>,
) -> (swapped: Option<MerkleRoot>)
    ensures
        swapped == swapped_root(*members_root, *action, *swap_witness),
{
    match swap_witness {
        None => None,
        Some((_, siblings)) => match action {
            ConfigAction::AddMember { new_commitment, target_path_bits, .. } => {
                verify_and_replace(
                    &EMPTY_LEAF,
                    new_commitment,
                    *target_path_bits,
                    siblings,
                    members_root,
                )
            },
            ConfigAction::RemoveMember { target_commitment, target_path_bits, .. } => {
                verify_and_replace(
                    target_commitment,
                    &EMPTY_LEAF,
                    *target_path_bits,
                    siblings,
                    members_root,
                )
            },
            ConfigAction::ChangeThreshold { .. } => None,
        },
    }
}

/// Checks a config action against the multisig. `swapped` is the root that
/// the witnessed swap comes to, `None` if the slot does not hold what the
/// action takes out of it.
pub fn check_action(
    state: &MultisigState,
    action: &ConfigAction,
    swap_witness: &Option<SwapWitness>,
    swapped: &Option<MerkleRoot>,
) -> (checked: Result<(), ProposeError>)
    ensures
        checked == (match action_refusal(*state, *action, *swap_witness, *swapped) {
            Some(error) => Err::<(), ProposeError>(error),
            None => Ok(()),
        }),
{
    match action {
        ConfigAction::AddMember { new_commitment, target_path_bits, expected_new_root } => {
            if state.member_count == u8::MAX {
                return Err(ProposeError::MemberCountOverflow);
            }
            if same_bytes(new_commitment, &EMPTY_LEAF) {
                return Err(ProposeError::EmptyNewCommitment);
            }
            match swap_witness {
                None => Err(ProposeError::AddWitnessMissing),
                Some((witness_path, _)) => {
                    if *witness_path != *target_path_bits {
                        return Err(ProposeError::WitnessPathMismatch);
                    }
                    match swapped {
                        None => Err(ProposeError::SlotNotEmpty),
                        Some(recomputed) => if same_bytes(recomputed, expected_new_root) {
                            Ok(())
                        } else {
                            Err(ProposeError::AddRootMismatch)
                        },
                    }
                },
            }
        },
        ConfigAction::RemoveMember { target_commitment, target_path_bits, expected_new_root } => {
            if state.member_count <= state.threshold {
                return Err(ProposeError::BelowThreshold);
            }
            if same_bytes(target_commitment, &EMPTY_LEAF) {
                return Err(ProposeError::EmptyTargetCommitment);
            }
            match swap_witness {
                None => Err(ProposeError::RemoveWitnessMissing),
                Some((witness_path, _)) => {
                    if *witness_path != *target_path_bits {
                        return Err(ProposeError::WitnessPathMismatch);
                    }
                    match swapped {
                        None => Err(ProposeError::SlotNotTarget),
                        Some(recomputed) => if same_bytes(recomputed, expected_new_root) {
                            Ok(())
                        } else {
                            Err(ProposeError::RemoveRootMismatch)
                        },
                    }
                },
            }
        },
        ConfigAction::ChangeThreshold { new_threshold } => {
            if *new_threshold < 1 {
                return Err(ProposeError::ZeroThreshold);
            }
            if *new_threshold > state.member_count {
                return Err(ProposeError::ThresholdAboveMemberCount);
            }
            if swap_witness.is_some() {
                return Err(ProposeError::UnexpectedWitness);
            }
            Ok(())
        },
    }
}

/// Checks that a proof authorises the proposal with id `expected_id` in the
/// multisig.
pub fn check_journal(
    state: &MultisigState,
    expected_id: &[u8; 32],
    journal: &ProofJournal,
) -> (checked: Result<(), ProposeError>)
    ensures
        checked == (match journal_refusal(*state, *expected_id, *journal) {
            Some(error) => Err::<(), ProposeError>(error),
            None => Ok(()),
        }),
{
    if !same_bytes(&journal.multisig_create_key, &state.create_key) {
        return Err(ProposeError::CreateKeyMismatch);
    }
    if !same_bytes(&journal.members_root, &state.members_root) {
        return Err(ProposeError::MemberSetMismatch);
    }
    if !same_bytes(&journal.proposal_id, expected_id) {
        return Err(ProposeError::ProposalIdMismatch);
    }
    if journal.vote_type != VoteType::Approve {
        return Err(ProposeError::NotAnApproval);
    }
    Ok(())
}

/// Handles a proposal: the accounts after it are the multisig state with its
/// transaction_index bumped, then the new proposal. No other program is
/// called.
pub fn handle(
    accounts: &[Account],
    config_action: ConfigAction,
    swap_witness: Option<SwapWitness>,
    proposal_index_arg: u64,
    membership_journal: &MembershipJournal,
) -> (handled: Result<Vec<Account>, ProposeError>)
    ensures
        match propose_outcome(
            accounts@,
            config_action,
            swap_witness,
            proposal_index_arg,
            membership_journal@,
        ) {
            Ok((state, proposal)) => handled matches Ok(posts) && posts@ == seq![
                Account::Multisig(state),
                Account::Proposal(proposal),
            ],
            Err(error) => handled matches Err(e) && e == error,
        },
        handled matches Ok(posts) ==> {
            &&& accounts@.len() >= 2
            &&& accounts@[1] == Account::Uninitialized
            &&& membership_journal@.len() == 129
            &&& posts@.len() == 2
            &&& posts@[1] is Proposal
            &&& posts@[1]->Proposal_0.proposer_nullifier@ == membership_journal@.subrange(97, 129)
        },
        handled is Ok <==> may_propose(
            accounts@,
            config_action,
            swap_witness,
            proposal_index_arg,
            membership_journal@,
        ),
{
    if accounts.len() < 2 {
        return Err(ProposeError::NotEnoughAccounts);
    }
    match &accounts[1] {
        Account::Uninitialized => {},
        _ => {
            return Err(ProposeError::ProposalInitialized);
        },
    }
    let mut state: MultisigState = match &accounts[0] {
        Account::Multisig(state) => *state,
        _ => {
            return Err(ProposeError::StateUndecodable);
        },
    };

    let swapped = swap_leaf(&state.members_root, &config_action, &swap_witness);
    match check_action(&state, &config_action, &swap_witness, &swapped) {
        Ok(()) => {},
        Err(error) => {
            return Err(error);
        },
    }

    if state.transaction_index == u64::MAX {
        return Err(ProposeError::IndexExhausted);
    }
    let next_index: u64 = state.next_proposal_index();
    if next_index != proposal_index_arg {
        return Err(ProposeError::IndexMismatch);
    }

    let journal: ProofJournal = match ProofJournal::from_bytes(membership_journal) {
        Ok(journal) => journal,
        Err(error) => {
            return Err(ProposeError::JournalUnreadable(error));
        },
    };
    proof {
        law_reading_is_exact(membership_journal@, Ok(journal));
    }
    let expected_id = proposal_id(&state.create_key, next_index);
    match check_journal(&state, &expected_id, &journal) {
        Ok(()) => {},
        Err(error) => {
            return Err(error);
        },
    }

    let proposal = Proposal::new_config(
        next_index,
        state.create_key,
        state.members_root,
        config_action,
        journal.nullifier,
    );
    let mut posts: Vec<Account> = Vec::new();
    posts.push(Account::Multisig(state));
    posts.push(Account::Proposal(proposal));
    Ok(posts)
}

} // verus!
