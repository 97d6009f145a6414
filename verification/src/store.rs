//! The ballot store: an ordered, append-only sequence of encrypted votes,
//! together with its persisted text form.
//!
//! The persisted form is a JSON array of the ballots' serialized
//! ciphertexts, produced and parsed by `serde_json` behind trusted
//! wrappers. Encoding and decoding are inverse: decoding what was encoded
//! yields the same ordered sequence of texts.

use vstd::prelude::*;
use crate::VoteError;
use crate::provider::EncryptedVote;

verus! {

/// The text each ballot in a sequence serializes to.
pub open spec fn texts_of(s: Seq<EncryptedVote>) -> Seq<Seq<char>> {
    s.map_values(|e: EncryptedVote| e.text())
}

/// The JSON array that `serde_json` produces for a sequence of ballot
/// texts. The encoding depends on the texts alone.
pub uninterp spec fn json_store_of(l: Seq<Seq<char>>) -> Seq<char>;

/// What `serde_json` parses a persisted text into: the ordered ballot
/// texts, or nothing when the text is malformed. The outcome depends on
/// the text alone.
pub uninterp spec fn parsed_store_of(s: Seq<char>) -> Option<Seq<Seq<char>>>;

/// Relies on `serde_json::to_string` on a vector of strings: serialization
/// of strings never fails, and `serde_json::from_str` parses the produced
/// JSON array back into the same strings in the same order.
#[verifier::external_body]
fn encode_entries(entries: &Vec<EncryptedVote>) -> (r: String)
    ensures
        r@ == json_store_of(texts_of(entries@)),
        parsed_store_of(r@) == Some(texts_of(entries@)),
{
    let texts: Vec<&str> = entries.iter().map(|e| e.serialized()).collect();
    serde_json::to_string(&texts).unwrap()
}

/// Relies on `serde_json::from_str` for a vector of strings: parsing
/// depends on the text alone; on success it yields the array's strings in
/// order, which become ballots of unknown provenance.
#[verifier::external_body]
fn decode_entries(data: &str) -> (r: Result<Vec<EncryptedVote>, VoteError>)
    ensures
        r is Ok <==> parsed_store_of(data@) is Some,
        r matches Ok(es) ==> {
            &&& texts_of(es@) == parsed_store_of(data@)->Some_0
            &&& forall|i: int|
                0 <= i < es@.len() ==> !(#[trigger] es@[i]).from_session() && es@[i].meaning() is None
        },
        r matches Err(err) ==> err == VoteError::DeserializationError,
{
    match serde_json::from_str::<Vec<String>>(data) {
        Ok(texts) => Ok(texts.into_iter().map(EncryptedVote::from_serialized).collect()),
        Err(_) => Err(VoteError::DeserializationError),
    }
}

/// An ordered sequence of encrypted votes. Append-only within a session;
/// the length is the number of votes cast.
pub struct BallotStore {
    entries: Vec<EncryptedVote>,
}

impl View for BallotStore {
    type V = Seq<EncryptedVote>;

    closed spec fn view(&self) -> Seq<EncryptedVote> {
        self.entries@
    }
}

impl BallotStore {
    /// A store with no votes.
    pub fn new() -> (s: BallotStore)
        ensures
            s@.len() == 0,
    {
        BallotStore { entries: Vec::new() }
    }

    pub fn len(&self) -> (n: usize)
        ensures
            n == self@.len(),
    {
        self.entries.len()
    }

    pub fn vote_at(&self, i: usize) -> (r: &EncryptedVote)
        requires
            i < self@.len(),
        ensures
            *r == self@[i as int],
    {
        &self.entries[i]
    }

    /// Appends one vote. The only mutation a store ever sees besides being
    /// reloaded from persisted text.
    pub fn push(&mut self, e: EncryptedVote)
        ensures
            final(self)@ == old(self)@.push(e),
    {
        self.entries.push(e);
    }

    /// The persisted text form of the whole ordered sequence.
    pub fn to_persisted(&self) -> (r: String)
        ensures
            r@ == json_store_of(texts_of(self@)),
            parsed_store_of(r@) == Some(texts_of(self@)),
    {
        encode_entries(&self.entries)
    }

    /// Restores a store from persisted text. Malformed text is an error,
    /// never a silently empty store; the ballots read back carry no
    /// meaning for the running session's keys.
    pub fn from_persisted(data: &str) -> (r: Result<BallotStore, VoteError>)
        ensures
            r is Ok <==> parsed_store_of(data@) is Some,
            r matches Ok(s) ==> {
                &&& texts_of(s@) == parsed_store_of(data@)->Some_0
                &&& forall|i: int|
                    0 <= i < s@.len() ==> !(#[trigger] s@[i]).from_session() && s@[i].meaning() is None
            },
            r matches Err(err) ==> err == VoteError::DeserializationError,
    {
        match decode_entries(data) {
            Ok(entries) => Ok(BallotStore { entries }),
            Err(err) => Err(err),
        }
    }
}

} // verus!
