//! X25519 keys, tagged by role so that a sender's key cannot stand where a
//! receiver's is expected, and key pairs that keep a private key with the
//! public key derived from it.

use vstd::prelude::*;

use crate::cipher::{x25519_public, x25519_public_key};
use crate::random::{secret_drawn, RngSingletonImpl};

verus! {

/// Message sender's X25519 private key.
#[derive(Clone, Debug)]
pub struct SenderPrivateKey([u8; 32]);

/// Message receiver's X25519 private key.
#[derive(Clone, Debug)]
pub struct ReceiverPrivateKey([u8; 32]);

/// Message sender's X25519 public key.
#[derive(Clone, Debug)]
pub struct SenderPublicKey([u8; 32]);

/// Message receiver's X25519 public key.
#[derive(Clone, Debug)]
pub struct ReceiverPublicKey([u8; 32]);

impl View for SenderPrivateKey {
    type V = Seq<u8>;

    closed spec fn view(&self) -> Seq<u8> {
        self.0@
    }
}

impl View for ReceiverPrivateKey {
    type V = Seq<u8>;

    closed spec fn view(&self) -> Seq<u8> {
        self.0@
    }
}

impl View for SenderPublicKey {
    type V = Seq<u8>;

    closed spec fn view(&self) -> Seq<u8> {
        self.0@
    }
}

impl View for ReceiverPublicKey {
    type V = Seq<u8>;

    closed spec fn view(&self) -> Seq<u8> {
        self.0@
    }
}

impl SenderPrivateKey {
    pub(crate) fn as_bytes(&self) -> (r: &[u8; 32])
        ensures
            r@ == self@,
    {
        &self.0
    }
}

impl ReceiverPrivateKey {
    pub(crate) fn as_bytes(&self) -> (r: &[u8; 32])
        ensures
            r@ == self@,
    {
        &self.0
    }
}

impl SenderPublicKey {
    /// A sender's public key received as bytes.
    pub fn from_bytes(bytes: [u8; 32]) -> (r: Self)
        ensures
            r@ == bytes@,
    {
        SenderPublicKey(bytes)
    }

    /// Ref to the key bytes.
    pub fn as_bytes(&self) -> (r: &[u8; 32])
        ensures
            r@ == self@,
    {
        &self.0
    }
}

impl ReceiverPublicKey {
    /// A receiver's public key received as bytes.
    pub fn from_bytes(bytes: [u8; 32]) -> (r: Self)
        ensures
            r@ == bytes@,
    {
        ReceiverPublicKey(bytes)
    }

    /// Ref to the key bytes.
    pub fn as_bytes(&self) -> (r: &[u8; 32])
        ensures
            r@ == self@,
    {
        &self.0
    }
}

/// X25519 key pair generated by a message sender.
#[derive(Debug)]
pub struct SenderKeyPair {
    sender_private_key: SenderPrivateKey,
    sender_public_key: SenderPublicKey,
}

/// X25519 key pair generated by a message receiver.
#[derive(Debug)]
pub struct ReceiverKeyPair {
    receiver_private_key: ReceiverPrivateKey,
    receiver_public_key: ReceiverPublicKey,
}

impl SenderKeyPair {
    #[verifier::type_invariant]
    spec fn public_matches_private(self) -> bool {
        self.sender_public_key@ == x25519_public(self.sender_private_key@)
    }

    /// The private key of the pair.
    pub closed spec fn private_of(&self) -> Seq<u8> {
        self.sender_private_key@
    }

    /// The private key of the pair is 32 bytes long.
    pub proof fn lemma_private_len(&self)
        ensures
            self.private_of().len() == 32,
    {
    }

    /// Generates a key pair for a message sender: a private key drawn from
    /// the random source and the public key derived from it.
    pub fn generate(rng: &mut RngSingletonImpl) -> (r: Self)
        ensures
            secret_drawn(*old(rng), *final(rng), r.private_of()),
    {
        let private_key = rng.next_secret_key();
        let public_key = x25519_public_key(&private_key);
        SenderKeyPair {
            sender_private_key: SenderPrivateKey(private_key),
            sender_public_key: SenderPublicKey(public_key),
        }
    }

    /// The key pair of a known private key: that key and the public key
    /// derived from it.
    pub fn from_private_bytes(private_key: [u8; 32]) -> (r: Self)
        ensures
            r.private_of() == private_key@,
    {
        let public_key = x25519_public_key(&private_key);
        SenderKeyPair {
            sender_private_key: SenderPrivateKey(private_key),
            sender_public_key: SenderPublicKey(public_key),
        }
    }

    /// Ref to private key.
    pub fn private_key(&self) -> (r: &SenderPrivateKey)
        ensures
            r@ == self.private_of(),
    {
        &self.sender_private_key
    }

    /// Ref to public key: the one derived from the private key.
    pub fn public_key(&self) -> (r: &SenderPublicKey)
        ensures
            r@ == x25519_public(self.private_of()),
    {
        proof {
            use_type_invariant(self);
        }
        &self.sender_public_key
    }
}

impl ReceiverKeyPair {
    #[verifier::type_invariant]
    spec fn public_matches_private(self) -> bool {
        self.receiver_public_key@ == x25519_public(self.receiver_private_key@)
    }

    /// The private key of the pair.
    pub closed spec fn private_of(&self) -> Seq<u8> {
        self.receiver_private_key@
    }

    /// The private key of the pair is 32 bytes long.
    pub proof fn lemma_private_len(&self)
        ensures
            self.private_of().len() == 32,
    {
    }

    /// Generates a key pair for a message receiver: a private key drawn from
    /// the random source and the public key derived from it.
    pub fn generate(rng: &mut RngSingletonImpl) -> (r: Self)
        ensures
            secret_drawn(*old(rng), *final(rng), r.private_of()),
    {
        let private_key = rng.next_secret_key();
        let public_key = x25519_public_key(&private_key);
        ReceiverKeyPair {
            receiver_private_key: ReceiverPrivateKey(private_key),
            receiver_public_key: ReceiverPublicKey(public_key),
        }
    }

    /// The key pair of a known private key: that key and the public key
    /// derived from it.
    pub fn from_private_bytes(private_key: [u8; 32]) -> (r: Self)
        ensures
            r.private_of() == private_key@,
    {
        let public_key = x25519_public_key(&private_key);
        ReceiverKeyPair {
            receiver_private_key: ReceiverPrivateKey(private_key),
            receiver_public_key: ReceiverPublicKey(public_key),
        }
    }

    /// Ref to private key.
    pub fn private_key(&self) -> (r: &ReceiverPrivateKey)
        ensures
            r@ == self.private_of(),
    {
        &self.receiver_private_key
    }

    /// Ref to public key: the one derived from the private key.
    pub fn public_key(&self) -> (r: &ReceiverPublicKey)
        ensures
            r@ == x25519_public(self.private_of()),
    {
        proof {
            use_type_invariant(self);
        }
        &self.receiver_public_key
    }
}

} // verus!
