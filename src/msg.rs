//! Encrypted message structure and its wire framing.

use vstd::prelude::*;

use crate::bytes::bytes_eq;
use crate::error::{Error, ErrorKind};

verus! {

/// 192-bit / 24-byte nonce used in XChaCha20.
pub const NONCE_SIZE: usize = 24;

/// Wire form of an envelope: the nonce, then the ciphertext up to the end of
/// the buffer, with no length prefix.
pub open spec fn frame(nonce: Seq<u8>, ciphertext: Seq<u8>) -> Seq<u8> {
    nonce + ciphertext
}

/// Reading of a wire buffer: nothing when it is shorter than a nonce, else
/// its first 24 bytes as the nonce and the rest as the ciphertext.
pub open spec fn unframe(bytes: Seq<u8>) -> Option<(Seq<u8>, Seq<u8>)> {
    if bytes.len() < NONCE_SIZE {
        None
    } else {
        Some((bytes.subrange(0, NONCE_SIZE as int), bytes.subrange(NONCE_SIZE as int, bytes.len() as int)))
    }
}

/// Framing round trip: reading the wire form of an envelope gives back its
/// nonce and ciphertext.
pub proof fn lemma_unframe_frame(nonce: Seq<u8>, ciphertext: Seq<u8>)
    requires
        nonce.len() == NONCE_SIZE,
    ensures
        unframe(frame(nonce, ciphertext)) == Some((nonce, ciphertext)),
{
    assert(frame(nonce, ciphertext).subrange(0, NONCE_SIZE as int) =~= nonce);
    assert(frame(nonce, ciphertext).subrange(NONCE_SIZE as int, frame(nonce, ciphertext).len() as int)
        =~= ciphertext);
}

/// Every buffer that can be read is the wire form of what is read from it.
pub proof fn lemma_frame_unframe(bytes: Seq<u8>)
    requires
        unframe(bytes) is Some,
    ensures
        unframe(bytes) matches Some((n, c)) && n.len() == NONCE_SIZE && frame(n, c) == bytes,
{
    let n = bytes.subrange(0, NONCE_SIZE as int);
    let c = bytes.subrange(NONCE_SIZE as int, bytes.len() as int);
    assert(frame(n, c) =~= bytes);
}

/// Encrypted message: the ciphertext (authentication tag included) and the
/// nonce it was encrypted with.
///
/// `serialize` turns it into bytes to send; the receiver reads them back with
/// `EncryptedMessage::deserialize`.
#[derive(Clone, Debug)]
pub struct EncryptedMessage {
    encrypted: Vec<u8>,
    nonce: [u8; NONCE_SIZE],
}

impl View for EncryptedMessage {
    /// The nonce and the ciphertext.
    type V = (Seq<u8>, Seq<u8>);

    closed spec fn view(&self) -> (Seq<u8>, Seq<u8>) {
        (self.nonce@, self.encrypted@)
    }
}

impl PartialEq for EncryptedMessage {
    fn eq(&self, other: &EncryptedMessage) -> (r: bool) {
        bytes_eq(self.nonce.as_slice(), other.nonce.as_slice()) && bytes_eq(
            self.encrypted.as_slice(),
            other.encrypted.as_slice(),
        )
    }
}

impl vstd::std_specs::cmp::PartialEqSpecImpl for EncryptedMessage {
    open spec fn obeys_eq_spec() -> bool {
        true
    }

    open spec fn eq_spec(&self, other: &EncryptedMessage) -> bool {
        self@ == other@
    }
}

impl Eq for EncryptedMessage {
}

impl EncryptedMessage {
    /// The nonce of every envelope is 24 bytes long.
    pub proof fn lemma_nonce_len(&self)
        ensures
            self@.0.len() == NONCE_SIZE,
    {
    }

    /// Framing round trip: reading the wire form of an envelope gives back
    /// that envelope.
    pub proof fn lemma_deserialize_serialize(&self)
        ensures
            unframe(frame(self@.0, self@.1)) == Some(self@),
    {
        lemma_unframe_frame(self@.0, self@.1);
    }

    /// Pairs a ciphertext with its nonce.
    pub fn new(encrypted: Vec<u8>, nonce: [u8; NONCE_SIZE]) -> (r: Self)
        ensures
            r@ == (nonce@, encrypted@),
    {
        EncryptedMessage { encrypted, nonce }
    }

    /// Ref to the nonce.
    pub fn nonce(&self) -> (r: &[u8])
        ensures
            r@ == self@.0,
    {
        self.nonce.as_slice()
    }

    pub(crate) fn nonce_array(&self) -> (r: &[u8; NONCE_SIZE])
        ensures
            r@ == self@.0,
    {
        &self.nonce
    }

    /// Ref to the ciphertext.
    pub fn encrypted(&self) -> (r: &[u8])
        ensures
            r@ == self@.1,
    {
        self.encrypted.as_slice()
    }

    /// Serialize this encrypted message into its wire form: the nonce, then
    /// the ciphertext.
    pub fn serialize(self) -> (r: Vec<u8>)
        ensures
            r@ == frame(self@.0, self@.1),
    {
        let EncryptedMessage { encrypted, nonce } = self;
        let mut serialized: Vec<u8> = Vec::with_capacity(NONCE_SIZE);
        let mut i: usize = 0;
        while i < NONCE_SIZE
            invariant
                i <= NONCE_SIZE,
                serialized@ =~= nonce@.subrange(0, i as int),
            decreases NONCE_SIZE - i,
        {
            serialized.push(nonce[i]);
            i = i + 1;
        }
        let mut rest = encrypted;
        serialized.append(&mut rest);
        serialized
    }

    /// Reads an envelope from its wire form.
    ///
    /// # Failures
    ///
    /// - `DeserializationError` when the buffer is shorter than a nonce.
    pub fn deserialize(serialized_encrypted_message: Vec<u8>) -> (r: Result<Self, Error>)
        ensures
            r is Err <==> serialized_encrypted_message@.len() < NONCE_SIZE,
            r matches Err(e) ==> e.kind_of() == ErrorKind::DeserializationError,
            r matches Ok(m) ==> unframe(serialized_encrypted_message@) == Some(m@),
    {
        let mut head = serialized_encrypted_message;
        if head.len() < NONCE_SIZE {
            return Err(
                Error::deserialization_error(
                    "binary data to decrypt (and then deserialize) does not seem to have nonce data",
                ),
            );
        }
        let ghost whole = head@;
        let encrypted = head.split_off(NONCE_SIZE);
        let mut nonce: [u8; NONCE_SIZE] = [0u8; NONCE_SIZE];
        let mut i: usize = 0;
        while i < NONCE_SIZE
            invariant
                i <= NONCE_SIZE,
                whole.len() >= NONCE_SIZE,
                head@ == whole.subrange(0, NONCE_SIZE as int),
                forall|j: int| 0 <= j < i ==> nonce@[j] == head@[j],
            decreases NONCE_SIZE - i,
        {
            nonce[i] = head[i];
            i = i + 1;
        }
        assert(nonce@ =~= whole.subrange(0, NONCE_SIZE as int));
        Ok(EncryptedMessage { encrypted, nonce })
    }
}

} // verus!
