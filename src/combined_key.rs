//! "Combined key" for Diffie-Hellman key exchange: a borrowed pair of one
//! party's private key and the other party's public key.
//!
//! - (sender's private key, receiver's public key) to encrypt;
//! - (sender's public key, receiver's private key) to decrypt.

use vstd::prelude::*;

use crate::key_pair::{ReceiverPrivateKey, ReceiverPublicKey, SenderPrivateKey, SenderPublicKey};

verus! {

/// (sender's private key, receiver's public key) pair.
#[derive(Clone, Debug)]
pub struct SenderCombinedKey<'s, 'r> {
    sender_private_key: &'s SenderPrivateKey,
    receiver_public_key: &'r ReceiverPublicKey,
}

impl<'s, 'r> SenderCombinedKey<'s, 'r> {
    /// The sender's private key.
    pub closed spec fn sender_private_of(&self) -> Seq<u8> {
        self.sender_private_key@
    }

    /// The receiver's public key.
    pub closed spec fn receiver_public_of(&self) -> Seq<u8> {
        self.receiver_public_key@
    }

    /// Constructor.
    pub fn new(
        sender_private_key: &'s SenderPrivateKey,
        receiver_public_key: &'r ReceiverPublicKey,
    ) -> (r: Self)
        ensures
            r.sender_private_of() == sender_private_key@,
            r.receiver_public_of() == receiver_public_key@,
    {
        SenderCombinedKey { sender_private_key, receiver_public_key }
    }

    pub(crate) fn sender_private_key(&self) -> (r: &SenderPrivateKey)
        ensures
            r@ == self.sender_private_of(),
    {
        self.sender_private_key
    }

    pub(crate) fn receiver_public_key(&self) -> (r: &ReceiverPublicKey)
        ensures
            r@ == self.receiver_public_of(),
    {
        self.receiver_public_key
    }
}

/// (sender's public key, receiver's private key) pair.
#[derive(Clone, Debug)]
pub struct ReceiverCombinedKey<'s, 'r> {
    sender_public_key: &'s SenderPublicKey,
    receiver_private_key: &'r ReceiverPrivateKey,
}

impl<'s, 'r> ReceiverCombinedKey<'s, 'r> {
    /// The sender's public key.
    pub closed spec fn sender_public_of(&self) -> Seq<u8> {
        self.sender_public_key@
    }

    /// The receiver's private key.
    pub closed spec fn receiver_private_of(&self) -> Seq<u8> {
        self.receiver_private_key@
    }

    /// Constructor.
    pub fn new(
        sender_public_key: &'s SenderPublicKey,
        receiver_private_key: &'r ReceiverPrivateKey,
    ) -> (r: Self)
        ensures
            r.sender_public_of() == sender_public_key@,
            r.receiver_private_of() == receiver_private_key@,
    {
        ReceiverCombinedKey { sender_public_key, receiver_private_key }
    }

    pub(crate) fn sender_public_key(&self) -> (r: &SenderPublicKey)
        ensures
            r@ == self.sender_public_of(),
    {
        self.sender_public_key
    }

    pub(crate) fn receiver_private_key(&self) -> (r: &ReceiverPrivateKey)
        ensures
            r@ == self.receiver_private_of(),
    {
        self.receiver_private_key
    }
}

} // verus!
