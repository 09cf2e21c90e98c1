use private_multisig::{JournalError, ProofJournal, VoteType};

fn sample(vote_type: VoteType) -> ProofJournal {
    ProofJournal {
        members_root: [1u8; 32],
        multisig_create_key: [2u8; 32],
        proposal_id: [3u8; 32],
        vote_type,
        nullifier: [4u8; 32],
    }
}

#[test]
fn vote_bytes() {
    assert_eq!(VoteType::Approve.as_byte(), 2);
    assert_eq!(VoteType::Reject.as_byte(), 3);
}

#[test]
fn journal_is_its_fields_in_order() {
    let mut expected = Vec::new();
    expected.extend([1u8; 32]);
    expected.extend([2u8; 32]);
    expected.extend([3u8; 32]);
    expected.push(2);
    expected.extend([4u8; 32]);
    assert_eq!(sample(VoteType::Approve).to_bytes(), expected);
    expected[96] = 3;
    assert_eq!(sample(VoteType::Reject).to_bytes(), expected);
}

#[test]
fn journal_round_trips() {
    for vote in [VoteType::Approve, VoteType::Reject] {
        let journal = sample(vote);
        assert_eq!(ProofJournal::from_bytes(&journal.to_bytes()), Ok(journal));
    }
}

#[test]
fn journal_has_one_encoding() {
    let mut bytes = sample(VoteType::Approve).to_bytes();
    bytes[0] = 99;
    bytes[128] = 98;
    let read = ProofJournal::from_bytes(&bytes).unwrap();
    assert_eq!(read.members_root[0], 99);
    assert_eq!(read.nullifier[31], 98);
    assert_eq!(read.to_bytes(), bytes);
}

#[test]
fn short_journal_is_truncated() {
    let bytes = sample(VoteType::Reject).to_bytes();
    for len in [0usize, 1, 96, 97, 128] {
        assert_eq!(ProofJournal::from_bytes(&bytes[..len]), Err(JournalError::Truncated));
    }
}

#[test]
fn long_journal_has_trailing_bytes() {
    let mut bytes = sample(VoteType::Reject).to_bytes();
    bytes.push(0);
    assert_eq!(ProofJournal::from_bytes(&bytes), Err(JournalError::TrailingBytes));
}

#[test]
fn unknown_vote_byte_is_reported() {
    for tag in [0u8, 1, 4, 255] {
        let mut bytes = sample(VoteType::Approve).to_bytes();
        bytes[96] = tag;
        let unknown = Err(JournalError::UnknownVoteType { tag });
        assert_eq!(ProofJournal::from_bytes(&bytes), unknown);
        assert_eq!(ProofJournal::from_bytes(&bytes[..97]), unknown);
        bytes.push(0);
        assert_eq!(ProofJournal::from_bytes(&bytes), unknown);
    }
}
