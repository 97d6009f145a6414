//! The voting system: one session's key pair and ballot store, with the
//! tally engine that folds the store into a single decrypted count.
//!
//! A session generates its keys once and never persists them, so a ballot
//! can be counted only by the session that encrypted it. The store itself
//! survives in persisted text form; ballots read back from text belong to
//! an earlier key generation and a tally over them is rejected rather than
//! decrypted into noise.

use vstd::prelude::*;
use vstd::pervasive::unreached;
use crate::{TallyResult, VoteError};
use crate::counting::{all_bits, lemma_sum_of_bits_le_len, lemma_sum_take_step, plains_of, sum_of};
use crate::provider::{
    add_ciphers, ct_parses, decrypt_u64, deserialize_cipher, encrypt_u64, keygen, serialize_cipher,
    Cipher, EncryptedVote, KeyPair, Meaning, BLOCK_CAPACITY,
};
use crate::store::{json_store_of, parsed_store_of, texts_of, BallotStore};

verus! {

/// One voting session: the key pair generated at startup and the ordered
/// store of encrypted ballots.
pub struct VotingSystem {
    keys: KeyPair,
    store: BallotStore,
}

impl VotingSystem {
    /// The session's private key, naming the key generation in contracts.
    pub closed spec fn key(self) -> tfhe::integer::ClientKey {
        self.keys.client_key()
    }

    /// The ordered sequence of stored ballots.
    pub closed spec fn votes(self) -> Seq<EncryptedVote> {
        self.store@
    }

    /// A ballot this system may hold: one encrypted by the running session
    /// must be a bit encrypted under this session's key.
    pub open spec fn owns(self, e: EncryptedVote) -> bool {
        e.from_session() ==> (e.meaning() matches Some(m) && m.key == self.key() && m.plain <= 1)
    }

    /// Every stored ballot is well formed and owned by this system.
    pub open spec fn wf(self) -> bool {
        forall|i: int|
            0 <= i < self.votes().len() ==> (#[trigger] self.votes()[i]).wf() && self.owns(
                self.votes()[i],
            )
    }

    /// Every stored ballot parses back into a ciphertext.
    pub open spec fn all_parse(self) -> bool {
        forall|i: int|
            0 <= i < self.votes().len() ==> ct_parses((#[trigger] self.votes()[i]).text())
    }

    /// Every stored ballot was encrypted by the running session.
    pub open spec fn all_session(self) -> bool {
        forall|i: int| 0 <= i < self.votes().len() ==> (#[trigger] self.votes()[i]).from_session()
    }

    /// The number of yes votes: the sum of the plaintext bits behind the
    /// stored ballots.
    pub open spec fn yes_total(self) -> int {
        sum_of(plains_of(self.votes()))
    }

    /// Starts a session: generates the key pair and an empty store.
    pub fn new() -> (s: VotingSystem)
        ensures
            s.wf(),
            s.votes().len() == 0,
    {
        VotingSystem { keys: keygen(), store: BallotStore::new() }
    }

    pub fn vote_count(&self) -> (n: usize)
        ensures
            n == self.votes().len(),
    {
        self.store.len()
    }

    pub fn vote_at(&self, i: usize) -> (r: &EncryptedVote)
        requires
            i < self.votes().len(),
        ensures
            *r == self.votes()[i as int],
    {
        self.store.vote_at(i)
    }

    /// Encrypts one vote bit under the session key and serializes it. The
    /// caller is responsible for validating the bit and for appending the
    /// result to the store.
    pub fn encrypt_vote(&self, vote: u64) -> (e: EncryptedVote)
        requires
            vote <= 1,
        ensures
            e.wf(),
            e.from_session(),
            e.encodes(self.key(), vote),
    {
        let c = encrypt_u64(&self.keys, vote);
        serialize_cipher(&c)
    }

    /// Appends one ballot to the store.
    pub fn append(&mut self, e: EncryptedVote)
        requires
            old(self).wf(),
            e.wf(),
            old(self).owns(e),
        ensures
            final(self).wf(),
            final(self).key() == old(self).key(),
            final(self).votes() == old(self).votes().push(e),
    {
        self.store.push(e);
        proof {
            assert forall|i: int|
                0 <= i < self.votes().len() implies (#[trigger] self.votes()[i]).wf()
                && self.owns(self.votes()[i]) by {
                if i < old(self).votes().len() {
                    assert(self.votes()[i] == old(self).votes()[i]);
                } else {
                    assert(self.votes()[i] == e);
                }
            }
        }
    }

    /// Validates, encrypts and stores one vote. A value other than 0 or 1
    /// is rejected and the store is left untouched.
    pub fn submit_vote(&mut self, vote: u64) -> (r: Result<(), VoteError>)
        requires
            old(self).wf(),
        ensures
            final(self).wf(),
            final(self).key() == old(self).key(),
            vote <= 1 ==> {
                &&& r is Ok
                &&& final(self).votes().len() == old(self).votes().len() + 1
                &&& final(self).votes().drop_last() == old(self).votes()
                &&& final(self).votes().last().from_session()
                &&& final(self).votes().last().encodes(old(self).key(), vote)
            },
            vote > 1 ==> r == Err::<(), VoteError>(VoteError::InvalidVoteInput) && *final(self)
                == *old(self),
    {
        if vote > 1 {
            return Err(VoteError::InvalidVoteInput);
        }
        let e = self.encrypt_vote(vote);
        self.append(e);
        proof {
            assert(self.votes().drop_last() =~= old(self).votes());
        }
        Ok(())
    }

    /// Stores the fixed demonstration ballots: three yes votes followed by
    /// two no votes.
    pub fn seed_demo_votes(&mut self)
        requires
            old(self).wf(),
        ensures
            final(self).wf(),
            final(self).key() == old(self).key(),
            final(self).votes().len() == old(self).votes().len() + 5,
            final(self).votes().take(old(self).votes().len() as int) == old(self).votes(),
            forall|j: int|
                old(self).votes().len() <= j < final(self).votes().len() ==> {
                    &&& (#[trigger] final(self).votes()[j]).from_session()
                    &&& final(self).votes()[j].encodes(
                        old(self).key(),
                        if j - old(self).votes().len() < 3 {
                            1u64
                        } else {
                            0u64
                        },
                    )
                },
    {
        let y1 = self.encrypt_vote(1);
        self.append(y1);
        let y2 = self.encrypt_vote(1);
        self.append(y2);
        let y3 = self.encrypt_vote(1);
        self.append(y3);
        let n1 = self.encrypt_vote(0);
        self.append(n1);
        let n2 = self.encrypt_vote(0);
        self.append(n2);
        proof {
            assert(self.votes().take(old(self).votes().len() as int) =~= old(self).votes());
        }
    }

    /// The persisted text form of the current store.
    pub fn save_votes(&self) -> (r: String)
        ensures
            r@ == json_store_of(texts_of(self.votes())),
            parsed_store_of(r@) == Some(texts_of(self.votes())),
    {
        self.store.to_persisted()
    }

    /// Replaces the store with the ballots parsed from persisted text.
    /// Malformed text is reported and changes nothing; it never yields a
    /// silently empty store.
    pub fn load_votes(&mut self, data: &str) -> (r: Result<(), VoteError>)
        requires
            old(self).wf(),
        ensures
            final(self).wf(),
            final(self).key() == old(self).key(),
            r is Ok <==> parsed_store_of(data@) is Some,
            r matches Ok(_) ==> texts_of(final(self).votes()) == parsed_store_of(data@)->Some_0
                && final(self).votes().len() == parsed_store_of(data@)->Some_0.len(),
            r is Err ==> *final(self) == *old(self) && r == Err::<(), VoteError>(
                VoteError::DeserializationError,
            ),
    {
        match BallotStore::from_persisted(data) {
            Ok(s) => {
                self.store = s;
                Ok(())
            },
            Err(err) => Err(err),
        }
    }

    /// Folds the whole store into one ciphertext: an encryption of zero,
    /// homomorphically added to every stored ballot in order. Only the
    /// evaluation key is used; no individual ballot is decrypted. The
    /// aggregate is exact as long as the yes total stays below one radix
    /// block's capacity.
    pub fn add_votes(&self) -> (r: Result<EncryptedVote, VoteError>)
        requires
            self.wf(),
        ensures
            r is Ok <==> self.all_parse() && self.all_session(),
            r == Err::<EncryptedVote, VoteError>(VoteError::CorruptBallotError)
                <==> !self.all_parse(),
            r == Err::<EncryptedVote, VoteError>(VoteError::DecryptionError) <==> self.all_parse()
                && !self.all_session(),
            r matches Ok(acc) ==> {
                &&& acc.wf()
                &&& acc.from_session()
                &&& self.yes_total() < BLOCK_CAPACITY ==> acc.meaning() == Some(
                    (Meaning { key: self.key(), plain: self.yes_total() as u64 }),
                )
            },
    {
        let n = self.store.len();
        let mut ciphers: Vec<Cipher> = Vec::new();
        let mut j: usize = 0;
        while j < n
            invariant
                self.wf(),
                n == self.votes().len(),
                j <= n,
                ciphers@.len() == j as int,
                forall|k: int|
                    0 <= k < j ==> (#[trigger] ciphers@[k]).meaning() == self.votes()[k].meaning()
                        && ciphers@[k].shaped() == self.votes()[k].from_session(),
                forall|k: int| 0 <= k < j ==> ct_parses((#[trigger] self.votes()[k]).text()),
            decreases n - j,
        {
            match deserialize_cipher(self.store.vote_at(j)) {
                Ok(c) => {
                    ciphers.push(c);
                },
                Err(err) => {
                    return Err(err);
                },
            }
            j += 1;
        }
        let mut acc = encrypt_u64(&self.keys, 0);
        let mut i: usize = 0;
        while i < n
            invariant
                self.wf(),
                n == self.votes().len(),
                i <= n,
                ciphers@.len() == n as int,
                forall|k: int|
                    0 <= k < n ==> (#[trigger] ciphers@[k]).meaning() == self.votes()[k].meaning()
                        && ciphers@[k].shaped() == self.votes()[k].from_session(),
                forall|k: int| 0 <= k < n ==> ct_parses((#[trigger] self.votes()[k]).text()),
                forall|k: int| 0 <= k < i ==> (#[trigger] self.votes()[k]).from_session(),
                acc.shaped(),
                0 <= sum_of(plains_of(self.votes()).take(i as int)) <= i,
                sum_of(plains_of(self.votes()).take(i as int)) < BLOCK_CAPACITY
                    ==> acc.meaning() == Some(
                    (Meaning {
                        key: self.key(),
                        plain: sum_of(plains_of(self.votes()).take(i as int)) as u64,
                    }),
                ),
            decreases n - i,
        {
            if !self.store.vote_at(i).is_session_vote() {
                return Err(VoteError::DecryptionError);
            }
            acc = add_ciphers(&self.keys, &acc, &ciphers[i]);
            proof {
                lemma_sum_take_step(plains_of(self.votes()), i as int);
            }
            i += 1;
        }
        proof {
            assert(plains_of(self.votes()).take(n as int) =~= plains_of(self.votes()));
        }
        Ok(serialize_cipher(&acc))
    }

    /// Decrypts an aggregate ciphertext produced by this session's fold:
    /// whenever the ballot's recorded meaning is a value under this
    /// session's key, exactly that value is returned.
    pub fn decrypt_result(&self, e: &EncryptedVote) -> (r: u64)
        requires
            e.wf(),
            e.from_session(),
        ensures
            e.meaning() matches Some(m) ==> (m.key == self.key() ==> r == m.plain),
    {
        match deserialize_cipher(e) {
            Ok(c) => decrypt_u64(&self.keys, &c),
            Err(_) => unreached(),
        }
    }

    /// Tallies the store: rejects an empty store before any cryptographic
    /// work, folds the ballots homomorphically, decrypts only the final
    /// aggregate, and derives the no count from the total. The counts are
    /// exact while the store stays below one radix block's capacity; the
    /// counts always conserve the store's length:
    /// `yes_count + no_count == total`.
    pub fn tally(&self) -> (r: Result<TallyResult, VoteError>)
        requires
            self.wf(),
        ensures
            r == Err::<TallyResult, VoteError>(VoteError::EmptyTallyError) <==> self.votes().len()
                == 0,
            r == Err::<TallyResult, VoteError>(VoteError::CorruptBallotError) <==> (
            self.votes().len() > 0 && !self.all_parse()),
            r == Err::<TallyResult, VoteError>(VoteError::DecryptionError) ==> self.votes().len()
                > 0 && self.all_parse() && (!self.all_session() || self.votes().len()
                >= BLOCK_CAPACITY),
            self.votes().len() > 0 && self.all_parse() && !self.all_session() ==> r == Err::<
                TallyResult,
                VoteError,
            >(VoteError::DecryptionError),
            r is Ok ==> self.votes().len() > 0 && self.all_parse() && self.all_session(),
            self.votes().len() > 0 && self.all_session() && self.votes().len() < BLOCK_CAPACITY
                ==> (r matches Ok(t) && t.yes_count == self.yes_total()),
            r matches Ok(t) ==> {
                &&& t.total == self.votes().len()
                &&& t.yes_count <= t.total
                &&& t.no_count == t.total - t.yes_count
            },
    {
        let n = self.store.len();
        if n == 0 {
            return Err(VoteError::EmptyTallyError);
        }
        match self.add_votes() {
            Err(err) => Err(err),
            Ok(acc) => {
                let yes = self.decrypt_result(&acc);
                proof {
                    if self.all_session() {
                        assert(all_bits(plains_of(self.votes())));
                        lemma_sum_of_bits_le_len(plains_of(self.votes()));
                    }
                }
                let total = n as u64;
                if yes > total {
                    return Err(VoteError::DecryptionError);
                }
                Ok(TallyResult { total, yes_count: yes, no_count: total - yes })
            },
        }
    }
}

} // verus!
