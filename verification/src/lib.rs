//! Private multisig: membership by Merkle proof, one vote per member by
//! nullifier, and the rules under which a config change may be proposed.

pub mod acceptance;
pub mod digest;
pub mod identity;
pub mod journal;
pub mod merkle;
pub mod propose_config;
pub mod safety;
pub mod tree;

pub use identity::{
    commitment_from_secret, nullifier_from_secret, proposal_id, Nullifier, DOMAIN_TAG,
};
pub use journal::{JournalError, ProofJournal, VoteType};
pub use merkle::{
    hash_leaf, hash_pair, settle_swap, verify_and_replace, verify_merkle_path, Commitment,
    MerkleRoot, EMPTY_LEAF, MERKLE_DEPTH,
};
pub use propose_config::{
    check_action, check_journal, handle, Account, ConfigAction, MembershipJournal, MultisigState,
    Proposal, ProposeError, SwapWitness,
};
