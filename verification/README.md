# private_multisig

A multisig whose members vote without showing who they are, verified with
Verus. Members are commitments in a Merkle tree; a vote carries a nullifier
that its member can mint only once per proposal.

- `src/digest.rs`: SHA-256 (from `sha2`, trusted) and byte-string helpers.
- `src/merkle.rs`: leaf and node hashes, membership paths, replacement of a leaf.
- `src/tree.rs`: the tree as a whole and the laws of paths and replacements.
- `src/identity.rs`: commitments, proposal ids, nullifiers and their laws.
- `src/journal.rs`: the proof journal and its bytes (through `borsh`, trusted).
- `src/propose_config.rs`: when a config change may be proposed.
- `src/safety.rs`: what holds of every proposed config change.
- `app/`: the on-chain program, which turns account bytes into values and
  back. It needs `nssa_core` and `multisig_core`, which are not on crates.io.
