//! The public journal of a membership proof and its byte encoding.

use crate::identity::Nullifier;
use crate::merkle::MerkleRoot;
use vstd::prelude::*;

verus! {

use crate::digest::{lemma_concat_parts, lemma_same_view};
use vstd::array::spec_array_update;

/// Kind of vote being cast. Committed in the journal so handlers can
/// dispatch and a relayer cannot re-route a receipt from approve to
/// reject, but not part of what the nullifier is derived from: one member
/// has one nullifier per proposal, whichever way the vote goes.
#[derive(Debug, Clone, Copy, PartialEq, Eq, Hash, Structural)]
pub enum VoteType {
    Approve,
    Reject,
}

/// The byte that stands for a vote in the journal.
pub open spec fn vote_byte(vote: VoteType) -> u8 {
    match vote {
        VoteType::Approve => 2,
        VoteType::Reject => 3,
    }
}

impl VoteType {
    /// The vote as it is written in the journal.
    pub fn as_byte(self) -> (byte: u8)
        ensures
            byte == vote_byte(self),
    {
        match self {
            VoteType::Approve => 2,
            VoteType::Reject => 3,
        }
    }

    /// The vote that a journal byte stands for.
    fn from_byte(byte: u8) -> (vote: Option<VoteType>)
        ensures
            vote is Some <==> byte == 2 || byte == 3,
            vote matches Some(v) ==> vote_byte(v) == byte,
    {
        match byte {
            2 => Some(VoteType::Approve),
            3 => Some(VoteType::Reject),
            _ => None,
        }
    }
}

/// Public journal committed by the membership-proof guest.
///
/// Everything in here becomes on-chain data visible to the multisig program
/// and to external observers. The member's secret and Merkle path are not
/// here (those are the private witness).
#[derive(Debug, Clone, Copy, PartialEq, Eq)]
pub struct ProofJournal {
    /// Merkle root of the member set at the time of proving.
    pub members_root: MerkleRoot,
    /// Which multisig this proof is scoped to.
    pub multisig_create_key: [u8; 32],
    /// The proposal being voted on (derived from create_key + proposal_index).
    pub proposal_id: [u8; 32],
    /// Whether the member approves or rejects.
    pub vote_type: VoteType,
    /// Anti-double-vote tag. Uniquely determined by (secret, scope).
    pub nullifier: Nullifier,
}

/// Why bytes are not a journal.
#[derive(Debug, Clone, Copy, PartialEq, Eq, Structural)]
pub enum JournalError {
    /// The bytes end before the journal does.
    Truncated,
    /// The vote byte stands for no vote.
    UnknownVoteType { tag: u8 },
    /// Bytes follow the journal.
    TrailingBytes,
}

/// Offset of the vote byte.
pub const VOTE_OFFSET: usize = 96;

/// Length of an encoded journal.
pub const JOURNAL_LEN: usize = 129;

/// The journal's bytes: the fields in order, each as it stands.
pub open spec fn journal_bytes(journal: ProofJournal) -> Seq<u8> {
    field_bytes((
        journal.members_root,
        journal.multisig_create_key,
        journal.proposal_id,
        vote_byte(journal.vote_type),
        journal.nullifier,
    ))
}

/// The bytes of three 32-byte strings, a byte and a 32-byte string.
pub open spec fn field_bytes(
    fields: ([u8; 32], [u8; 32], [u8; 32], u8, [u8; 32]),
) -> Seq<u8> {
    fields.0@ + fields.1@ + fields.2@ + seq![fields.3] + fields.4@
}

/// Whether the vote byte of `bytes` is there and stands for a vote.
pub open spec fn has_vote(bytes: Seq<u8>) -> bool {
    bytes.len() > VOTE_OFFSET && (bytes[VOTE_OFFSET as int] == 2 || bytes[VOTE_OFFSET as int] == 3)
}

/// What reading `bytes` as a journal comes to. Bytes are read front to back,
/// so a bad vote byte is reported whatever the total length.
pub open spec fn reads_as(bytes: Seq<u8>, read: Result<ProofJournal, JournalError>) -> bool {
    match read {
        Ok(journal) => bytes == journal_bytes(journal),
        Err(JournalError::UnknownVoteType { tag }) => {
            &&& bytes.len() > VOTE_OFFSET
            &&& tag == bytes[VOTE_OFFSET as int]
            &&& !has_vote(bytes)
        },
        Err(JournalError::Truncated) => {
            &&& bytes.len() < JOURNAL_LEN
            &&& bytes.len() > VOTE_OFFSET ==> has_vote(bytes)
        },
        Err(JournalError::TrailingBytes) => bytes.len() > JOURNAL_LEN && has_vote(bytes),
    }
}

/// The one result of reading `bytes`.
pub open spec fn read_journal(bytes: Seq<u8>) -> Result<ProofJournal, JournalError> {
    choose|read: Result<ProofJournal, JournalError>| reads_as(bytes, read)
}

/// A journal is written as 129 bytes: the members root, the key of the
/// multisig, the proposal id, 2 for an approval or 3 for a rejection, and the
/// nullifier.
pub proof fn law_journal_layout(journal: ProofJournal)
    ensures
        journal_bytes(journal).len() == 129,
        journal_bytes(journal).subrange(0, 32) == journal.members_root@,
        journal_bytes(journal).subrange(32, 64) == journal.multisig_create_key@,
        journal_bytes(journal).subrange(64, 96) == journal.proposal_id@,
        journal_bytes(journal)[96] == (if journal.vote_type == VoteType::Approve {
            2u8
        } else {
            3u8
        }),
        journal_bytes(journal).subrange(97, 129) == journal.nullifier@,
{
    let bytes = journal_bytes(journal);
    assert(bytes.subrange(0, 32) =~= journal.members_root@);
    assert(bytes.subrange(32, 64) =~= journal.multisig_create_key@);
    assert(bytes.subrange(64, 96) =~= journal.proposal_id@);
    assert(bytes.subrange(97, 129) =~= journal.nullifier@);
}

/// Reading takes every field from its place in the bytes. It succeeds exactly
/// for 129 bytes with a 2 or a 3 as the byte after the proposal id. Another
/// byte in that place is reported; else too few or too many bytes are.
pub proof fn law_reading_is_exact(bytes: Seq<u8>, read: Result<ProofJournal, JournalError>)
    requires
        reads_as(bytes, read),
    ensures
        read is Ok <==> bytes.len() == 129 && (bytes[96] == 2 || bytes[96] == 3),
        read matches Ok(journal) ==> {
            &&& journal.members_root@ == bytes.subrange(0, 32)
            &&& journal.multisig_create_key@ == bytes.subrange(32, 64)
            &&& journal.proposal_id@ == bytes.subrange(64, 96)
            &&& journal.vote_type == VoteType::Approve <==> bytes[96] == 2
            &&& journal.vote_type == VoteType::Reject <==> bytes[96] == 3
            &&& journal.nullifier@ == bytes.subrange(97, 129)
        },
        bytes.len() > 96 && bytes[96] != 2 && bytes[96] != 3 <==> read is Err && read->Err_0
            is UnknownVoteType,
        read matches Err(JournalError::UnknownVoteType { tag }) ==> tag == bytes[96],
        bytes.len() <= 96 || (bytes.len() < 129 && (bytes[96] == 2 || bytes[96] == 3)) <==> read
            == Err::<ProofJournal, JournalError>(JournalError::Truncated),
        bytes.len() > 129 && (bytes[96] == 2 || bytes[96] == 3) <==> read == Err::<
            ProofJournal,
            JournalError,
        >(JournalError::TrailingBytes),
{
    if read is Ok {
        law_journal_layout(read->Ok_0);
    }
}

/// A 32-byte string with the first `len` bytes of `bytes`.
spec fn array_of(bytes: Seq<u8>, len: nat) -> [u8; 32]
    decreases len,
{
    if len == 0 {
        arbitrary()
    } else {
        spec_array_update(array_of(bytes, (len - 1) as nat), len - 1, bytes[len - 1])
    }
}

proof fn lemma_array_of(bytes: Seq<u8>, len: nat)
    requires
        len <= 32,
    ensures
        forall|i: int| 0 <= i < len ==> array_of(bytes, len)@[i] == bytes[i],
    decreases len,
{
    if len > 0 {
        lemma_array_of(bytes, (len - 1) as nat);
    }
}

proof fn lemma_array_of_all(bytes: Seq<u8>)
    requires
        bytes.len() == 32,
    ensures
        array_of(bytes, 32)@ == bytes,
{
    lemma_array_of(bytes, 32);
    assert(array_of(bytes, 32)@ =~= bytes);
}

/// Every byte string reads in some way.
pub proof fn law_every_input_is_read(bytes: Seq<u8>)
    ensures
        reads_as(bytes, read_journal(bytes)),
{
    if bytes.len() == JOURNAL_LEN && has_vote(bytes) {
        lemma_array_of_all(bytes.subrange(0, 32));
        lemma_array_of_all(bytes.subrange(32, 64));
        lemma_array_of_all(bytes.subrange(64, 96));
        lemma_array_of_all(bytes.subrange(97, 129));
        let journal = ProofJournal {
            members_root: array_of(bytes.subrange(0, 32), 32),
            multisig_create_key: array_of(bytes.subrange(32, 64), 32),
            proposal_id: array_of(bytes.subrange(64, 96), 32),
            vote_type: if bytes[96] == 2 {
                VoteType::Approve
            } else {
                VoteType::Reject
            },
            nullifier: array_of(bytes.subrange(97, 129), 32),
        };
        assert(bytes =~= journal_bytes(journal));
        assert(reads_as(bytes, Ok(journal)));
    } else if bytes.len() > VOTE_OFFSET && !has_vote(bytes) {
        assert(reads_as(
            bytes,
            Err(JournalError::UnknownVoteType { tag: bytes[VOTE_OFFSET as int] }),
        ));
    } else if bytes.len() < JOURNAL_LEN {
        assert(reads_as(bytes, Err(JournalError::Truncated)));
    } else {
        assert(reads_as(bytes, Err(JournalError::TrailingBytes)));
    }
}

/// Journals with the same bytes are the same journal.
pub proof fn law_encoding_is_injective(a: ProofJournal, b: ProofJournal)
    requires
        journal_bytes(a) == journal_bytes(b),
    ensures
        a == b,
{
    let (a0, a1, a2) = (a.members_root@, a.multisig_create_key@, a.proposal_id@);
    let (b0, b1, b2) = (b.members_root@, b.multisig_create_key@, b.proposal_id@);
    let (av, bv) = (seq![vote_byte(a.vote_type)], seq![vote_byte(b.vote_type)]);
    lemma_concat_parts(a0 + a1 + a2 + av, a.nullifier@, b0 + b1 + b2 + bv, b.nullifier@);
    lemma_concat_parts(a0 + a1 + a2, av, b0 + b1 + b2, bv);
    lemma_concat_parts(a0 + a1, a2, b0 + b1, b2);
    lemma_concat_parts(a0, a1, b0, b1);
    assert(av[0] == bv[0]);
    lemma_same_view(a.members_root, b.members_root);
    lemma_same_view(a.multisig_create_key, b.multisig_create_key);
    lemma_same_view(a.proposal_id, b.proposal_id);
    lemma_same_view(a.nullifier, b.nullifier);
}

/// Bytes are read in one way only.
pub proof fn law_reading_is_unique(
    bytes: Seq<u8>,
    first: Result<ProofJournal, JournalError>,
    second: Result<ProofJournal, JournalError>,
)
    requires
        reads_as(bytes, first),
        reads_as(bytes, second),
    ensures
        first == second,
        first == read_journal(bytes),
{
    assert(reads_as(bytes, read_journal(bytes)));
    lemma_reads_alike(bytes, first, second);
    lemma_reads_alike(bytes, first, read_journal(bytes));
}

proof fn lemma_reads_alike(
    bytes: Seq<u8>,
    first: Result<ProofJournal, JournalError>,
    second: Result<ProofJournal, JournalError>,
)
    requires
        reads_as(bytes, first),
        reads_as(bytes, second),
    ensures
        first == second,
{
    if first is Ok {
        let journal = first->Ok_0;
        assert(bytes[VOTE_OFFSET as int] == vote_byte(journal.vote_type));
        assert(bytes.len() == JOURNAL_LEN);
    }
    if second is Ok {
        let journal = second->Ok_0;
        assert(bytes[VOTE_OFFSET as int] == vote_byte(journal.vote_type));
        assert(bytes.len() == JOURNAL_LEN);
    }
    if first is Ok && second is Ok {
        law_encoding_is_injective(first->Ok_0, second->Ok_0);
    }
}

/// Reading gives back the journal that was written.
pub proof fn law_round_trip(journal: ProofJournal)
    ensures
        read_journal(journal_bytes(journal)) == Ok::<ProofJournal, JournalError>(journal),
{
    let bytes = journal_bytes(journal);
    assert(reads_as(bytes, Ok(journal)));
    law_reading_is_unique(bytes, Ok(journal), Ok(journal));
}

/// The error type of `borsh`, `borsh::io::Error`; nothing is read from it.
#[verifier::external_type_specification]
#[verifier::external_body]
pub struct ExBorshError(borsh::io::Error);

/// Encodes a tuple with `borsh::to_vec`.
///
/// Trusted: `borsh` writes the elements of a tuple one after the other, a
/// byte as itself and an array of bytes as its bytes without a length, and
/// writing to a vector does not fail.
#[verifier::external_body]
fn borsh_to_vec(
    fields: &([u8; 32], [u8; 32], [u8; 32], u8, [u8; 32]),
) -> (bytes: Result<Vec<u8>, borsh::io::Error>)
    ensures
        bytes is Ok,
        bytes matches Ok(b) ==> b@ == field_bytes(*fields),
{
    borsh::to_vec(fields)
}

/// Decodes a tuple with `borsh::from_slice`.
///
/// Trusted: `borsh` reads the elements in the order in which it writes them,
/// and fails if the input ends early or has bytes left over; every byte is
/// acceptable in every place, so nothing but the length decides.
#[verifier::external_body]
fn borsh_from_slice(
    bytes: &[u8],
) -> (fields: Result<([u8; 32], [u8; 32], [u8; 32], u8, [u8; 32]), borsh::io::Error>)
    ensures
        fields is Ok <==> bytes@.len() == JOURNAL_LEN,
        fields matches Ok(f) ==> field_bytes(f) == bytes@,
{
    borsh::from_slice(bytes)
}

impl ProofJournal {
    /// Canonical byte encoding. Used both by the guest (to commit) and by the
    /// verifier (to decode the receipt journal).
    pub fn to_bytes(&self) -> (bytes: Vec<u8>)
        ensures
            bytes@ == journal_bytes(*self),
    {
        let encoded = borsh_to_vec(
            &(
                self.members_root,
                self.multisig_create_key,
                self.proposal_id,
                self.vote_type.as_byte(),
                self.nullifier,
            ),
        );
        encoded.unwrap()
    }

    /// Reads a journal back from its encoding.
    pub fn from_bytes(bytes: &[u8]) -> (read: Result<ProofJournal, JournalError>)
        ensures
            reads_as(bytes@, read),
            read == read_journal(bytes@),
            read is Ok <==> bytes@.len() == JOURNAL_LEN && has_vote(bytes@),
    {
        let read = match borsh_from_slice(bytes) {
            Ok((members_root, multisig_create_key, proposal_id, vote, nullifier)) => {
                assert(bytes@[VOTE_OFFSET as int] == vote);
                match VoteType::from_byte(vote) {
                    Some(vote_type) => Ok(
                        ProofJournal {
                            members_root,
                            multisig_create_key,
                            proposal_id,
                            vote_type,
                            nullifier,
                        },
                    ),
                    None => Err(JournalError::UnknownVoteType { tag: vote }),
                }
            },
            Err(_) => {
                if bytes.len() > VOTE_OFFSET && VoteType::from_byte(bytes[VOTE_OFFSET]).is_none() {
                    Err(JournalError::UnknownVoteType { tag: bytes[VOTE_OFFSET] })
                } else if bytes.len() < JOURNAL_LEN {
                    Err(JournalError::Truncated)
                } else {
                    Err(JournalError::TrailingBytes)
                }
            },
        };
        proof {
            law_reading_is_unique(bytes@, read, read);
        }
        read
    }
}

} // verus!
