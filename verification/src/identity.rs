//! What a member is known by: the commitment in the tree, the id of a
//! proposal, and the nullifier that marks a vote as cast.

use crate::digest::{append, sha256_digest};
use crate::merkle::Commitment;
use vstd::prelude::*;

verus! {

use crate::digest::{ascii, collide, lemma_concat_parts, lemma_same_view, sha256};
use crate::journal::ProofJournal;
use crate::merkle::{leaf_input, pair_input};

/// A 32-byte nullifier, scoped to (member secret, proposal, multisig).
pub type Nullifier = [u8; 32];

/// Versioned domain tag, the ASCII bytes `lez-private-multisig-v1`. Change on
/// breaking circuit changes.
pub const DOMAIN_TAG: [u8; 23] = [
    0x6c, 0x65, 0x7a, 0x2d, 0x70, 0x72, 0x69, 0x76, 0x61, 0x74, 0x65, 0x2d, 0x6d, 0x75, 0x6c, 0x74,
    0x69, 0x73, 0x69, 0x67, 0x2d, 0x76, 0x31,
];

/// The ASCII bytes `COMMIT`.
pub const COMMIT_TAG: [u8; 6] = [0x43, 0x4f, 0x4d, 0x4d, 0x49, 0x54];

/// The ASCII bytes `PROPOSAL`.
pub const PROPOSAL_TAG: [u8; 8] = [0x50, 0x52, 0x4f, 0x50, 0x4f, 0x53, 0x41, 0x4c];

/// The ASCII bytes `NULLIFIER`.
pub const NULLIFIER_TAG: [u8; 9] = [0x4e, 0x55, 0x4c, 0x4c, 0x49, 0x46, 0x49, 0x45, 0x52];

/// A 64-bit number as eight bytes, most significant first.
pub open spec fn big_endian(x: u64) -> Seq<u8> {
    seq![
        (x >> 56) as u8,
        (x >> 48) as u8,
        (x >> 40) as u8,
        (x >> 32) as u8,
        (x >> 24) as u8,
        (x >> 16) as u8,
        (x >> 8) as u8,
        x as u8,
    ]
}

/// What is hashed into a member's commitment.
pub open spec fn commitment_input(secret: [u8; 32], view_salt: [u8; 32]) -> Seq<u8> {
    DOMAIN_TAG@ + COMMIT_TAG@ + secret@ + view_salt@
}

/// What is hashed into a proposal's id.
pub open spec fn proposal_input(create_key: [u8; 32], proposal_index: u64) -> Seq<u8> {
    DOMAIN_TAG@ + PROPOSAL_TAG@ + create_key@ + big_endian(proposal_index)
}

/// What is hashed into a nullifier.
pub open spec fn nullifier_input(
    secret: [u8; 32],
    proposal_id: [u8; 32],
    create_key: [u8; 32],
) -> Seq<u8> {
    DOMAIN_TAG@ + NULLIFIER_TAG@ + secret@ + proposal_id@ + create_key@
}

/// Derive a commitment from a member secret.
///
/// `view_salt` lets a member rotate their commitment without rotating the
/// underlying secret, which is useful for key hygiene across multiple
/// multisigs.
pub fn commitment_from_secret(secret: &[u8; 32], view_salt: &[u8; 32]) -> (commitment: Commitment)
    ensures
        commitment == sha256(commitment_input(*secret, *view_salt)),
{
    let mut input: Vec<u8> = Vec::new();
    append(&mut input, &DOMAIN_TAG);
    append(&mut input, &COMMIT_TAG);
    append(&mut input, secret);
    append(&mut input, view_salt);
    assert(input@ =~= commitment_input(*secret, *view_salt));
    sha256_digest(&input)
}

/// Derive the proposal_id that scopes nullifiers for a given proposal.
///
/// Binding to (create_key, proposal_index) means a nullifier minted for
/// proposal N cannot be replayed on proposal M in the same multisig, or on
/// any proposal in a different multisig.
pub fn proposal_id(create_key: &[u8; 32], proposal_index: u64) -> (id: [u8; 32])
    ensures
        id == sha256(proposal_input(*create_key, proposal_index)),
{
    let index_bytes: [u8; 8] = [
        (proposal_index >> 56) as u8,
        (proposal_index >> 48) as u8,
        (proposal_index >> 40) as u8,
        (proposal_index >> 32) as u8,
        (proposal_index >> 24) as u8,
        (proposal_index >> 16) as u8,
        (proposal_index >> 8) as u8,
        proposal_index as u8,
    ];
    let mut input: Vec<u8> = Vec::new();
    append(&mut input, &DOMAIN_TAG);
    append(&mut input, &PROPOSAL_TAG);
    append(&mut input, create_key);
    append(&mut input, &index_bytes);
    assert(index_bytes@ =~= big_endian(proposal_index));
    assert(input@ =~= proposal_input(*create_key, proposal_index));
    sha256_digest(&input)
}

/// Derive the nullifier a given secret must produce for a given scope.
///
/// The kind of vote is not an argument, so a member has the same nullifier
/// for approving and for rejecting one proposal.
pub fn nullifier_from_secret(
    secret: &[u8; 32],
    proposal_id: &[u8; 32],
    create_key: &[u8; 32],
) -> (nullifier: Nullifier)
    ensures
        nullifier == sha256(nullifier_input(*secret, *proposal_id, *create_key)),
{
    let mut input: Vec<u8> = Vec::new();
    append(&mut input, &DOMAIN_TAG);
    append(&mut input, &NULLIFIER_TAG);
    append(&mut input, secret);
    append(&mut input, proposal_id);
    append(&mut input, create_key);
    assert(input@ =~= nullifier_input(*secret, *proposal_id, *create_key));
    sha256_digest(&input)
}

/// The nullifier of the member with `secret` on a proposal of a multisig.
pub open spec fn nullifier_on(
    secret: [u8; 32],
    create_key: [u8; 32],
    proposal_index: u64,
) -> Nullifier {
    sha256(
        nullifier_input(secret, sha256(proposal_input(create_key, proposal_index)), create_key),
    )
}

/// Whether a journal is what the member with `secret` commits to on a
/// proposal of a multisig, whichever way the vote goes.
pub open spec fn cast_by(
    journal: ProofJournal,
    secret: [u8; 32],
    create_key: [u8; 32],
    proposal_index: u64,
) -> bool {
    &&& journal.multisig_create_key == create_key
    &&& journal.proposal_id == sha256(proposal_input(create_key, proposal_index))
    &&& journal.nullifier == nullifier_on(secret, create_key, proposal_index)
}

/// Numbers with the same bytes are the same number.
proof fn lemma_big_endian_parts(x: u64, y: u64)
    requires
        big_endian(x) == big_endian(y),
    ensures
        x == y,
{
    let (a, b) = (big_endian(x), big_endian(y));
    assert(a[0] == b[0] && a[1] == b[1] && a[2] == b[2] && a[3] == b[3]);
    assert(a[4] == b[4] && a[5] == b[5] && a[6] == b[6] && a[7] == b[7]);
    assert(x == y) by (bit_vector)
        requires
            (x >> 56) as u8 == (y >> 56) as u8,
            (x >> 48) as u8 == (y >> 48) as u8,
            (x >> 40) as u8 == (y >> 40) as u8,
            (x >> 32) as u8 == (y >> 32) as u8,
            (x >> 24) as u8 == (y >> 24) as u8,
            (x >> 16) as u8 == (y >> 16) as u8,
            (x >> 8) as u8 == (y >> 8) as u8,
            x as u8 == y as u8,
    ;
}

/// Commitments, proposal ids, nullifiers, leaves and inner nodes are never
/// hashed from the same bytes.
pub proof fn law_hashed_bytes_are_separate(
    commitment_of: ([u8; 32], [u8; 32]),
    proposal_of: ([u8; 32], u64),
    nullifier_of: ([u8; 32], [u8; 32], [u8; 32]),
    leaf: [u8; 32],
    children: ([u8; 32], [u8; 32]),
)
    ensures
        ({
            let c = commitment_input(commitment_of.0, commitment_of.1);
            let p = proposal_input(proposal_of.0, proposal_of.1);
            let n = nullifier_input(nullifier_of.0, nullifier_of.1, nullifier_of.2);
            let l = leaf_input(leaf);
            let m = pair_input(children.0, children.1);
            &&& c != p && c != n && c != l && c != m
            &&& p != n && p != l && p != m
            &&& n != l && n != m
            &&& l != m
        }),
{
    let c = commitment_input(commitment_of.0, commitment_of.1);
    let p = proposal_input(proposal_of.0, proposal_of.1);
    let n = nullifier_input(nullifier_of.0, nullifier_of.1, nullifier_of.2);
    assert(c[0] == 0x6c && p[0] == 0x6c && n[0] == 0x6c);
    assert(c[23] == 0x43 && p[23] == 0x50 && n[23] == 0x4e);
    assert(leaf_input(leaf)[0] == 0x4c);
    assert(pair_input(children.0, children.1)[0] == 0x4e);
}

/// A commitment is hashed from the text `lez-private-multisig-v1COMMIT`, the
/// secret and the salt.
pub proof fn law_commitment_bytes(secret: [u8; 32], view_salt: [u8; 32])
    ensures
        commitment_input(secret, view_salt) == ascii("lez-private-multisig-v1COMMIT"@) + secret@
            + view_salt@,
{
    reveal_strlit("lez-private-multisig-v1COMMIT");
    assert(DOMAIN_TAG@ + COMMIT_TAG@ =~= ascii("lez-private-multisig-v1COMMIT"@));
}

/// A proposal id is hashed from the text `lez-private-multisig-v1PROPOSAL`,
/// the key of the multisig and eight bytes that make up the index, the most
/// significant first.
pub proof fn law_proposal_bytes(create_key: [u8; 32], proposal_index: u64)
    ensures
        ({
            let input = proposal_input(create_key, proposal_index);
            &&& input.len() == 71
            &&& input.subrange(0, 63) == ascii("lez-private-multisig-v1PROPOSAL"@) + create_key@
            &&& proposal_index == input[63] * 0x100_0000_0000_0000 + input[64] * 0x1_0000_0000_0000
                + input[65] * 0x100_0000_0000 + input[66] * 0x1_0000_0000 + input[67] * 0x100_0000
                + input[68] * 0x1_0000 + input[69] * 0x100 + input[70]
        }),
{
    reveal_strlit("lez-private-multisig-v1PROPOSAL");
    let input = proposal_input(create_key, proposal_index);
    let x = proposal_index;
    assert(DOMAIN_TAG@ + PROPOSAL_TAG@ =~= ascii("lez-private-multisig-v1PROPOSAL"@));
    assert(input.subrange(0, 63) =~= ascii("lez-private-multisig-v1PROPOSAL"@) + create_key@);
    assert(x == ((x >> 56) as u8) * 0x100_0000_0000_0000 + ((x >> 48) as u8) * 0x1_0000_0000_0000
        + ((x >> 40) as u8) * 0x100_0000_0000 + ((x >> 32) as u8) * 0x1_0000_0000 + ((x
        >> 24) as u8) * 0x100_0000 + ((x >> 16) as u8) * 0x1_0000 + ((x >> 8) as u8) * 0x100
        + (x as u8)) by (bit_vector);
}

/// A nullifier is hashed from the text `lez-private-multisig-v1NULLIFIER`,
/// the secret, the proposal id and the key of the multisig.
pub proof fn law_nullifier_bytes(
    secret: [u8; 32],
    proposal_id: [u8; 32],
    create_key: [u8; 32],
)
    ensures
        nullifier_input(secret, proposal_id, create_key) == ascii(
            "lez-private-multisig-v1NULLIFIER"@,
        ) + secret@ + proposal_id@ + create_key@,
{
    reveal_strlit("lez-private-multisig-v1NULLIFIER");
    assert(DOMAIN_TAG@ + NULLIFIER_TAG@ =~= ascii("lez-private-multisig-v1NULLIFIER"@));
}

/// A commitment stands for one secret and one salt, unless inputs collide.
pub proof fn law_commitment_fixes_secret(
    secret: [u8; 32],
    view_salt: [u8; 32],
    other_secret: [u8; 32],
    other_salt: [u8; 32],
)
    requires
        sha256(commitment_input(secret, view_salt)) == sha256(
            commitment_input(other_secret, other_salt),
        ),
        !collide(commitment_input(secret, view_salt), commitment_input(other_secret, other_salt)),
    ensures
        secret == other_secret,
        view_salt == other_salt,
{
    let tag = DOMAIN_TAG@ + COMMIT_TAG@;
    lemma_concat_parts(tag + secret@, view_salt@, tag + other_secret@, other_salt@);
    lemma_concat_parts(tag, secret@, tag, other_secret@);
    lemma_same_view(secret, other_secret);
    lemma_same_view(view_salt, other_salt);
}

/// A proposal id stands for one multisig and one index, unless inputs
/// collide.
pub proof fn law_proposal_id_fixes_scope(
    create_key: [u8; 32],
    proposal_index: u64,
    other_key: [u8; 32],
    other_index: u64,
)
    requires
        sha256(proposal_input(create_key, proposal_index)) == sha256(
            proposal_input(other_key, other_index),
        ),
        !collide(
            proposal_input(create_key, proposal_index),
            proposal_input(other_key, other_index),
        ),
    ensures
        create_key == other_key,
        proposal_index == other_index,
{
    let tag = DOMAIN_TAG@ + PROPOSAL_TAG@;
    lemma_concat_parts(
        tag + create_key@,
        big_endian(proposal_index),
        tag + other_key@,
        big_endian(other_index),
    );
    lemma_concat_parts(tag, create_key@, tag, other_key@);
    lemma_same_view(create_key, other_key);
    lemma_big_endian_parts(proposal_index, other_index);
}

/// A nullifier stands for one secret, one proposal id and one multisig,
/// unless inputs collide.
pub proof fn law_nullifier_fixes_inputs(
    secret: [u8; 32],
    proposal_id: [u8; 32],
    create_key: [u8; 32],
    other_secret: [u8; 32],
    other_id: [u8; 32],
    other_key: [u8; 32],
)
    requires
        sha256(nullifier_input(secret, proposal_id, create_key)) == sha256(
            nullifier_input(other_secret, other_id, other_key),
        ),
        !collide(
            nullifier_input(secret, proposal_id, create_key),
            nullifier_input(other_secret, other_id, other_key),
        ),
    ensures
        secret == other_secret,
        proposal_id == other_id,
        create_key == other_key,
{
    let tag = DOMAIN_TAG@ + NULLIFIER_TAG@;
    lemma_concat_parts(
        tag + secret@ + proposal_id@,
        create_key@,
        tag + other_secret@ + other_id@,
        other_key@,
    );
    lemma_concat_parts(tag + secret@, proposal_id@, tag + other_secret@, other_id@);
    lemma_concat_parts(tag, secret@, tag, other_secret@);
    lemma_same_view(secret, other_secret);
    lemma_same_view(proposal_id, other_id);
    lemma_same_view(create_key, other_key);
}

/// A nullifier minted by one member for one proposal is not that of another
/// member, of another proposal in the same multisig, or of any proposal in
/// another multisig, unless inputs collide.
pub proof fn law_nullifier_is_scoped(
    secret: [u8; 32],
    create_key: [u8; 32],
    proposal_index: u64,
    other_secret: [u8; 32],
    other_key: [u8; 32],
    other_index: u64,
)
    requires
        secret != other_secret || create_key != other_key || proposal_index != other_index,
        !collide(
            proposal_input(create_key, proposal_index),
            proposal_input(other_key, other_index),
        ),
        !collide(
            nullifier_input(
                secret,
                sha256(proposal_input(create_key, proposal_index)),
                create_key,
            ),
            nullifier_input(
                other_secret,
                sha256(proposal_input(other_key, other_index)),
                other_key,
            ),
        ),
    ensures
        nullifier_on(secret, create_key, proposal_index) != nullifier_on(
            other_secret,
            other_key,
            other_index,
        ),
{
    if nullifier_on(secret, create_key, proposal_index) == nullifier_on(
        other_secret,
        other_key,
        other_index,
    ) {
        law_nullifier_fixes_inputs(
            secret,
            sha256(proposal_input(create_key, proposal_index)),
            create_key,
            other_secret,
            sha256(proposal_input(other_key, other_index)),
            other_key,
        );
        law_proposal_id_fixes_scope(create_key, proposal_index, other_key, other_index);
    }
}

/// One vote per member and proposal: whatever two journals a member commits
/// to on one proposal, approving or rejecting, a set of used nullifiers that
/// holds the first one's holds the second one's.
pub proof fn law_second_vote_is_known(
    first: ProofJournal,
    second: ProofJournal,
    secret: [u8; 32],
    create_key: [u8; 32],
    proposal_index: u64,
    used: Set<Nullifier>,
)
    requires
        cast_by(first, secret, create_key, proposal_index),
        cast_by(second, secret, create_key, proposal_index),
        used.contains(first.nullifier),
    ensures
        used.contains(second.nullifier),
{
}

} // verus!
