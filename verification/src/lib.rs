//! An encrypted-ballot tally library.
//!
//! Voters submit single-bit votes (no = 0, yes = 1). Each vote is encrypted
//! under a fully-homomorphic encryption scheme the moment it enters the
//! system and is stored only in its encrypted, serialized form. A tally adds
//! the encrypted votes homomorphically with the evaluation key and decrypts
//! nothing but the final aggregate, so no individual ballot is ever opened.

use vstd::prelude::*;

pub mod counting;
pub mod provider;
pub mod store;
pub mod system;

verus! {

/// Everything that can go wrong in the ballot operations.
#[derive(Clone, Copy, Debug, PartialEq, Eq, Structural)]
pub enum VoteError {
    /// A submitted vote was not the literal 0 or 1.
    InvalidVoteInput,
    /// Persisted text could not be parsed back into a ballot sequence.
    DeserializationError,
    /// A stored ballot could not be parsed back into a ciphertext.
    CorruptBallotError,
    /// A tally was requested over an empty ballot store.
    EmptyTallyError,
    /// The stored ciphertexts do not belong to the current key generation.
    DecryptionError,
}

/// The outcome of a successful tally. Derived, never stored.
#[derive(Clone, Copy, Debug, PartialEq, Eq, Structural)]
pub struct TallyResult {
    /// How many ballots the store held.
    pub total: u64,
    /// The decrypted homomorphic sum: the number of yes votes.
    pub yes_count: u64,
    /// Derived as `total - yes_count`.
    pub no_count: u64,
}

} // verus!
