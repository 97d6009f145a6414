//! The boundary to the cryptographic provider.
//!
//! The `tfhe` crate supplies key generation, encryption, homomorphic
//! addition and decryption; `serde_json` turns a ciphertext into its
//! storable text form and back. Everything this module states about those
//! calls is trusted, not proved; every contract is phrased over a ghost
//! record of what a ciphertext is known to encrypt, so that the rest of the
//! library can be verified against it.

use vstd::prelude::*;
use crate::VoteError;

verus! {

#[verifier::external_type_specification]
#[verifier::external_body]
pub struct ExClientKey(tfhe::integer::ClientKey);

#[verifier::external_type_specification]
#[verifier::external_body]
pub struct ExServerKey(tfhe::integer::ServerKey);

#[verifier::external_type_specification]
#[verifier::external_body]
pub struct ExShortintCiphertext(tfhe::shortint::Ciphertext);

#[verifier::external_type_specification]
#[verifier::external_body]
#[verifier::reject_recursive_types(Block)]
pub struct ExBaseRadixCiphertext<Block>(tfhe::integer::ciphertext::BaseRadixCiphertext<Block>);

/// Radix blocks per ciphertext. Each block carries two message bits, so 32
/// blocks cover the full `u64` range.
pub const NUM_BLOCKS: usize = 32;

/// One radix block's message-and-carry capacity (4 message values times 4
/// carry values). Unchecked homomorphic addition is exact as long as the
/// accumulated plaintext total stays below this bound; past it, a block
/// overflows its carry space and the decrypted aggregate is unspecified.
pub const BLOCK_CAPACITY: u64 = 16;

/// What a ciphertext is known to encrypt: a plaintext value under one
/// private key. Ghost only; a real ciphertext reveals nothing of the kind.
pub struct Meaning {
    /// The private key of the generation that produced the ciphertext.
    pub key: tfhe::integer::ClientKey,
    /// The plaintext value the ciphertext decrypts to under that key.
    pub plain: u64,
}

/// The private key together with the evaluation key derived from it.
///
/// Only `keygen` constructs one, so the two keys always belong to the same
/// generation.
pub struct KeyPair {
    client: tfhe::integer::ClientKey,
    server: tfhe::integer::ServerKey,
}

impl KeyPair {
    /// The private key, for contracts that must name the key generation.
    pub closed spec fn client_key(self) -> tfhe::integer::ClientKey {
        self.client
    }
}

/// An in-memory ciphertext together with two ghost records: whether it has
/// the shape this module's pipeline produces (the fixed parameter set and
/// block count, so the provider's operations accept it), and what it is
/// known to encrypt. A ciphertext parsed from foreign text has neither.
pub struct Cipher {
    raw: tfhe::integer::RadixCiphertext,
    shaped: Ghost<bool>,
    meaning: Ghost<Option<Meaning>>,
}

impl Cipher {
    /// Whether the ciphertext came out of this module's pipeline.
    pub closed spec fn shaped(self) -> bool {
        self.shaped@
    }

    pub closed spec fn meaning(self) -> Option<Meaning> {
        self.meaning@
    }

    pub open spec fn encodes(self, key: tfhe::integer::ClientKey, plain: u64) -> bool {
        self.meaning() == Some((Meaning { key, plain }))
    }
}

/// Whether `serde_json` parses the text back into a radix ciphertext. The
/// parse outcome depends on the text alone.
pub uninterp spec fn ct_parses(s: Seq<char>) -> bool;

/// A single encrypted ballot in its serialized, storable text form.
///
/// `session` marks a ballot that the running process encrypted itself, as
/// opposed to one decoded from persisted text: only for the former is the
/// meaning of the ciphertext known to the current key generation.
pub struct EncryptedVote {
    data: String,
    session: bool,
    meaning: Ghost<Option<Meaning>>,
}

impl EncryptedVote {
    /// The serialized ciphertext text.
    pub closed spec fn text(self) -> Seq<char> {
        self.data@
    }

    /// Whether this ballot was encrypted by the running process.
    pub closed spec fn from_session(self) -> bool {
        self.session
    }

    pub closed spec fn meaning(self) -> Option<Meaning> {
        self.meaning@
    }

    pub open spec fn encodes(self, key: tfhe::integer::ClientKey, plain: u64) -> bool {
        self.meaning() == Some((Meaning { key, plain }))
    }

    /// The recorded plaintext; meaningful only when `meaning()` is `Some`.
    pub open spec fn plain_value(self) -> u64 {
        self.meaning()->Some_0.plain
    }

    /// A session ballot always parses back into a ciphertext.
    pub open spec fn wf(self) -> bool {
        self.from_session() ==> ct_parses(self.text())
    }

    pub fn is_session_vote(&self) -> (r: bool)
        ensures
            r == self.from_session(),
    {
        self.session
    }

    pub fn serialized(&self) -> (r: &str)
        ensures
            r@ == self.text(),
    {
        self.data.as_str()
    }

    /// Wraps persisted text as a ballot. Nothing is known of what, if
    /// anything, the text encrypts.
    pub fn from_serialized(data: String) -> (r: EncryptedVote)
        ensures
            r.text() == data@,
            !r.from_session(),
            r.meaning() is None,
            r.wf(),
    {
        EncryptedVote { data, session: false, meaning: Ghost(None) }
    }
}

/// Relies on `tfhe::integer::ClientKey::new` with the fixed parameter set
/// `PARAM_MESSAGE_2_CARRY_2_KS_PBS`: generates a fresh
/// private key. Nothing can be promised of a freshly drawn key.
#[verifier::external_body]
fn fresh_client_key() -> tfhe::integer::ClientKey {
    tfhe::integer::ClientKey::new(
        tfhe::shortint::parameters::PARAM_MESSAGE_2_CARRY_2_KS_PBS,
    )
}

/// Relies on `tfhe::integer::ServerKey::new_radix_server_key`: derives the
/// evaluation key for radix operations from the given private key.
#[verifier::external_body]
fn derive_server_key(client: tfhe::integer::ClientKey) -> (kp: KeyPair)
    ensures
        kp.client_key() == client,
{
    let server = tfhe::integer::ServerKey::new_radix_server_key(&client);
    KeyPair { client, server }
}

/// Generates a key pair for one session: a fresh private key and the
/// evaluation key derived from it.
pub fn keygen() -> KeyPair {
    let client = fresh_client_key();
    derive_server_key(client)
}

/// Relies on `tfhe::integer::ClientKey::encrypt_radix`: the returned
/// ciphertext encrypts `value` under the given private key. The value is
/// kept below one block's capacity so that unchecked additions of such
/// ciphertexts decrypt exactly while their total stays below it too.
#[verifier::external_body]
pub(crate) fn encrypt_u64(kp: &KeyPair, value: u64) -> (c: Cipher)
    requires
        value < BLOCK_CAPACITY,
    ensures
        c.shaped(),
        c.encodes(kp.client_key(), value),
{
    let raw = kp.client.encrypt_radix(value, NUM_BLOCKS);
    Cipher { raw, shaped: Ghost(true), meaning: Ghost(Some(Meaning { key: kp.client, plain: value })) }
}

/// Relies on `tfhe::integer::ServerKey::unchecked_add`: blockwise
/// homomorphic addition, performed without checking the ciphertexts'
/// capacity and without the private key. Each block of the result holds
/// the sum of the operands' blocks, so the result decrypts to the sum of
/// the plaintexts as long as no block outgrows its message-and-carry
/// space; values accumulated from encryptions below `BLOCK_CAPACITY`
/// satisfy that as long as their total stays below `BLOCK_CAPACITY`.
#[verifier::external_body]
pub(crate) fn add_ciphers(kp: &KeyPair, a: &Cipher, b: &Cipher) -> (c: Cipher)
    requires
        a.shaped(),
        b.shaped(),
    ensures
        c.shaped(),
        a.meaning() matches Some(ma) ==> (b.meaning() matches Some(mb) ==> ((ma.key == mb.key
            && ma.plain + mb.plain < BLOCK_CAPACITY) ==> c.meaning() == Some(
            (Meaning { key: ma.key, plain: (ma.plain + mb.plain) as u64 }),
        ))),
{
    let raw = kp.server.unchecked_add(&a.raw, &b.raw);
    Cipher { raw, shaped: Ghost(true), meaning: Ghost(None) }
}

/// Relies on `tfhe::integer::ClientKey::decrypt_radix`: recovers each
/// block's message and carry and recombines them, so a ciphertext whose
/// recorded meaning is under this key decrypts to exactly that value.
#[verifier::external_body]
pub(crate) fn decrypt_u64(kp: &KeyPair, c: &Cipher) -> (r: u64)
    requires
        c.shaped(),
    ensures
        c.meaning() matches Some(m) ==> (m.key == kp.client_key() ==> r == m.plain),
{
    kp.client.decrypt_radix(&c.raw)
}

/// Relies on `serde_json::to_string` on a radix ciphertext: serialization
/// of this plain data type never fails, and `serde_json::from_str` parses
/// the produced text back into an equal ciphertext.
#[verifier::external_body]
pub(crate) fn serialize_cipher(c: &Cipher) -> (r: EncryptedVote)
    requires
        c.shaped(),
    ensures
        r.meaning() == c.meaning(),
        r.from_session(),
        ct_parses(r.text()),
{
    let data = serde_json::to_string(&c.raw).unwrap();
    EncryptedVote { data, session: true, meaning: Ghost(c.meaning@) }
}

/// Relies on `serde_json::from_str` for radix ciphertexts: parsing depends
/// on the text alone, and on text produced by `serde_json::to_string` it
/// returns the ciphertext that was serialized, which for a session ballot
/// is one of this module's pipeline.
#[verifier::external_body]
pub(crate) fn deserialize_cipher(e: &EncryptedVote) -> (r: Result<Cipher, VoteError>)
    ensures
        r is Ok <==> ct_parses(e.text()),
        r matches Ok(c) ==> c.meaning() == e.meaning() && c.shaped() == e.from_session(),
        r matches Err(err) ==> err == VoteError::CorruptBallotError,
{
    match serde_json::from_str::<tfhe::integer::RadixCiphertext>(e.data.as_str()) {
        Ok(raw) => Ok(Cipher { raw, shaped: Ghost(e.session), meaning: Ghost(e.meaning@) }),
        Err(_) => Err(VoteError::CorruptBallotError),
    }
}

} // verus!
