//! The encryption protocols: public-key (X25519 box) with a random nonce,
//! shared-key (XChaCha20Poly1305) with a random nonce, and shared-key with the
//! fixed all-0xFF nonce for equality-comparable ciphertexts.

use vstd::prelude::*;

use crate::cipher::{
    box_open,
    box_seal,
    chacha_box_decrypt,
    chacha_box_encrypt,
    within_cipher_limit,
    x25519_public,
    xchacha20poly1305_decrypt,
    xchacha20poly1305_encrypt,
    xchacha_open,
    xchacha_seal,
};
use crate::combined_key::{ReceiverCombinedKey, SenderCombinedKey};
use crate::error::{Error, ErrorKind};
use crate::msg::{EncryptedMessage, NONCE_SIZE};
use crate::random::{nonce_drawn, RngSingletonImpl};
use crate::shared_key::AsSharedKey;

verus! {

/// Nonce of the deterministic variant: 24 bytes of 0xFF.
pub open spec fn fixed_nonce() -> Seq<u8> {
    Seq::new(NONCE_SIZE as nat, |i: int| 0xffu8)
}

/// What the shared-key protocols decrypt an envelope to under `key`, or
/// nothing when authentication fails.
pub open spec fn shared_key_decryption(key: Seq<u8>, env: (Seq<u8>, Seq<u8>)) -> Option<Seq<u8>> {
    xchacha_open(key, env.0, env.1)
}

/// `env` is an encryption of `plain` under the shared `key`: its ciphertext
/// is the cipher's for its nonce, `plain` and a 16-byte tag long, and it
/// decrypts back to `plain`.
pub open spec fn is_shared_key_encryption(
    key: Seq<u8>,
    plain: Seq<u8>,
    env: (Seq<u8>, Seq<u8>),
) -> bool {
    &&& env.0.len() == NONCE_SIZE
    &&& env.1 == xchacha_seal(key, env.0, plain)
    &&& env.1.len() == plain.len() + 16
    &&& shared_key_decryption(key, env) == Some(plain)
}

/// `env` is the deterministic encryption of `plain` under `key`.
pub open spec fn is_deterministic_encryption(
    key: Seq<u8>,
    plain: Seq<u8>,
    env: (Seq<u8>, Seq<u8>),
) -> bool {
    env.0 == fixed_nonce() && is_shared_key_encryption(key, plain, env)
}

/// What the receiver decrypts an envelope to with the sender's public key and
/// its own private key, or nothing when authentication fails.
pub open spec fn public_key_decryption(
    sender_public: Seq<u8>,
    receiver_private: Seq<u8>,
    env: (Seq<u8>, Seq<u8>),
) -> Option<Seq<u8>> {
    box_open(sender_public, receiver_private, env.0, env.1)
}

/// `env` is an encryption of `plain` by the holder of `sender_private` for
/// the holder of the private key behind `receiver_public`: its ciphertext is
/// the box's for its nonce, `plain` and a 16-byte tag long, and that receiver
/// decrypts it back to `plain`.
pub open spec fn is_public_key_encryption(
    sender_private: Seq<u8>,
    receiver_public: Seq<u8>,
    plain: Seq<u8>,
    env: (Seq<u8>, Seq<u8>),
) -> bool {
    &&& env.0.len() == NONCE_SIZE
    &&& env.1 == box_seal(receiver_public, sender_private, env.0, plain)
    &&& env.1.len() == plain.len() + 16
    &&& forall|receiver_private: Seq<u8>|
        receiver_private.len() == 32 && #[trigger] x25519_public(receiver_private) == receiver_public
            ==> public_key_decryption(x25519_public(sender_private), receiver_private, env) == Some(
            plain,
        )
}

/// Round trip with a shared key: an encryption of a plaintext under a key
/// decrypts, under that key, back to the plaintext.
pub proof fn lemma_shared_key_round_trip(key: Seq<u8>, plain: Seq<u8>, env: (Seq<u8>, Seq<u8>))
    requires
        is_shared_key_encryption(key, plain, env),
    ensures
        shared_key_decryption(key, env) == Some(plain),
{
}

/// Round trip with key pairs: what a sender encrypts for a receiver's public
/// key, the receiver decrypts, with the sender's public key and its own
/// private key, back to the plaintext.
pub proof fn lemma_public_key_round_trip(
    sender_private: Seq<u8>,
    receiver_private: Seq<u8>,
    plain: Seq<u8>,
    env: (Seq<u8>, Seq<u8>),
)
    requires
        receiver_private.len() == 32,
        is_public_key_encryption(sender_private, x25519_public(receiver_private), plain, env),
    ensures
        public_key_decryption(x25519_public(sender_private), receiver_private, env) == Some(plain),
{
}

/// Deterministic encryptions under one key give equal envelopes exactly when
/// the plaintexts are equal.
pub proof fn lemma_deterministic_envelopes(
    key: Seq<u8>,
    plain1: Seq<u8>,
    plain2: Seq<u8>,
    env1: (Seq<u8>, Seq<u8>),
    env2: (Seq<u8>, Seq<u8>),
)
    requires
        is_deterministic_encryption(key, plain1, env1),
        is_deterministic_encryption(key, plain2, env2),
    ensures
        env1 == env2 <==> plain1 == plain2,
{
}

fn fixed_nonce_bytes() -> (r: [u8; NONCE_SIZE])
    ensures
        r@ == fixed_nonce(),
{
    let nonce = [0xffu8; NONCE_SIZE];
    assert(nonce@ =~= fixed_nonce());
    nonce
}

/// The shared-key encryption, with the nonce that the variant chose.
fn encrypt_with_nonce(plain: &[u8], key: &[u8; 32], nonce: [u8; NONCE_SIZE]) -> (r: Result<
    EncryptedMessage,
    Error,
>)
    requires
        plain@.len() + 16 <= isize::MAX,
    ensures
        r is Ok <==> within_cipher_limit(plain@.len()),
        r matches Ok(m) ==> m@.0 == nonce@ && is_shared_key_encryption(key@, plain@, m@),
        r matches Err(e) ==> e.kind_of() == ErrorKind::EncryptionError,
{
    match xchacha20poly1305_encrypt(key, &nonce, plain) {
        Ok(encrypted) => Ok(EncryptedMessage::new(encrypted, nonce)),
        Err(_) => Err(Error::encryption_error("failed to encrypt serialized data by XChaCha20")),
    }
}

/// The shared-key decryption, common to both variants.
fn decrypt_with_key(encrypted_message: &EncryptedMessage, key: &[u8; 32]) -> (r: Result<
    Vec<u8>,
    Error,
>)
    ensures
        r is Ok <==> shared_key_decryption(key@, encrypted_message@) is Some,
        r matches Ok(p) ==> shared_key_decryption(key@, encrypted_message@) == Some(p@),
        r matches Err(e) ==> e.kind_of() == ErrorKind::DecryptionError,
        encrypted_message@.1.len() < 16 ==> r is Err,
{
    match xchacha20poly1305_decrypt(
        key,
        encrypted_message.nonce_array(),
        encrypted_message.encrypted(),
    ) {
        Ok(plain) => Ok(plain),
        Err(_) => Err(Error::decryption_error("error on decryption of XChaCha20 cipher-text")),
    }
}

/// The public-key encryption, with the nonce drawn for it.
fn encrypt_for_receiver(plain: &[u8], combined_key: &SenderCombinedKey, nonce: [u8; NONCE_SIZE]) -> (r:
    Result<EncryptedMessage, Error>)
    requires
        plain@.len() + 16 <= isize::MAX,
    ensures
        r is Ok <==> within_cipher_limit(plain@.len()),
        r matches Ok(m) ==> m@.0 == nonce@ && is_public_key_encryption(
            combined_key.sender_private_of(),
            combined_key.receiver_public_of(),
            plain@,
            m@,
        ),
        r matches Err(e) ==> e.kind_of() == ErrorKind::EncryptionError,
{
    match chacha_box_encrypt(
        combined_key.receiver_public_key().as_bytes(),
        combined_key.sender_private_key().as_bytes(),
        &nonce,
        plain,
    ) {
        Ok(encrypted) => Ok(EncryptedMessage::new(encrypted, nonce)),
        Err(_) => Err(Error::encryption_error("failed to encrypt serialized data into ChaChaBox")),
    }
}

/// Plain message for the shared-key protocol with a random nonce.
#[derive(Clone, PartialEq, Eq, Debug)]
pub struct PlainMessageSharedKey(Vec<u8>);

/// Plain message for the shared-key protocol with the fixed nonce.
#[derive(Clone, PartialEq, Eq, Debug)]
pub struct PlainMessageSharedKeyDeterministic(Vec<u8>);

/// Plain message for the public-key protocol.
#[derive(Clone, PartialEq, Eq, Debug)]
pub struct PlainMessagePublicKey(Vec<u8>);

impl View for PlainMessageSharedKey {
    type V = Seq<u8>;

    closed spec fn view(&self) -> Seq<u8> {
        self.0@
    }
}

impl View for PlainMessageSharedKeyDeterministic {
    type V = Seq<u8>;

    closed spec fn view(&self) -> Seq<u8> {
        self.0@
    }
}

impl View for PlainMessagePublicKey {
    type V = Seq<u8>;

    closed spec fn view(&self) -> Seq<u8> {
        self.0@
    }
}

impl PlainMessageSharedKey {
    /// Constructor.
    pub fn new(plain_message: Vec<u8>) -> (r: Self)
        ensures
            r@ == plain_message@,
    {
        PlainMessageSharedKey(plain_message)
    }

    /// Raw representation.
    pub fn into_vec(self) -> (r: Vec<u8>)
        ensures
            r@ == self@,
    {
        self.0
    }

    /// Ref to raw representation.
    pub fn as_slice(&self) -> (r: &[u8])
        ensures
            r@ == self@,
    {
        self.0.as_slice()
    }

    /// Encrypts under the shared key with a fresh nonce drawn from the random
    /// source.
    ///
    /// # Failures
    ///
    /// - `EncryptionError` when the message is too long for the cipher.
    pub fn encrypt<S: AsSharedKey>(&self, shared_key: &S, rng: &mut RngSingletonImpl) -> (r:
        Result<EncryptedMessage, Error>)
        requires
            self@.len() + 16 <= isize::MAX,
        ensures
            r is Ok <==> within_cipher_limit(self@.len()),
            r matches Ok(m) ==> is_shared_key_encryption(shared_key.secret(), self@, m@),
            r matches Ok(m) ==> m@.0 == final(rng).nonces_of().last(),
            r matches Err(e) ==> e.kind_of() == ErrorKind::EncryptionError,
            nonce_drawn(*old(rng), *final(rng), final(rng).nonces_of().last()),
    {
        let nonce = rng.next_nonce_bytes();
        encrypt_with_nonce(self.0.as_slice(), shared_key.as_array(), nonce)
    }

    /// Decrypts an envelope under the shared key.
    ///
    /// # Failures
    ///
    /// - `DecryptionError` when authentication fails: wrong key, tampered
    ///   ciphertext or nonce.
    pub fn decrypt<S: AsSharedKey>(encrypted_message: &EncryptedMessage, shared_key: &S) -> (r:
        Result<Self, Error>)
        ensures
            r is Ok <==> shared_key_decryption(shared_key.secret(), encrypted_message@) is Some,
            r matches Ok(p) ==> shared_key_decryption(shared_key.secret(), encrypted_message@)
                == Some(p@),
            r matches Err(e) ==> e.kind_of() == ErrorKind::DecryptionError,
            encrypted_message@.1.len() < 16 ==> r is Err,
    {
        match decrypt_with_key(encrypted_message, shared_key.as_array()) {
            Ok(plain) => Ok(PlainMessageSharedKey(plain)),
            Err(e) => Err(e),
        }
    }
}

impl PlainMessageSharedKeyDeterministic {
    /// Constructor.
    pub fn new(plain_message: Vec<u8>) -> (r: Self)
        ensures
            r@ == plain_message@,
    {
        PlainMessageSharedKeyDeterministic(plain_message)
    }

    /// Raw representation.
    pub fn into_vec(self) -> (r: Vec<u8>)
        ensures
            r@ == self@,
    {
        self.0
    }

    /// Ref to raw representation.
    pub fn as_slice(&self) -> (r: &[u8])
        ensures
            r@ == self@,
    {
        self.0.as_slice()
    }

    /// Encrypts under the shared key with the fixed nonce: the same plaintext
    /// and key always give the same envelope, so repeated plaintexts show as
    /// repeated ciphertexts.
    ///
    /// # Failures
    ///
    /// - `EncryptionError` when the message is too long for the cipher.
    pub fn encrypt<S: AsSharedKey>(&self, shared_key: &S) -> (r: Result<EncryptedMessage, Error>)
        requires
            self@.len() + 16 <= isize::MAX,
        ensures
            r is Ok <==> within_cipher_limit(self@.len()),
            r matches Ok(m) ==> is_deterministic_encryption(shared_key.secret(), self@, m@),
            r matches Ok(m) ==> m@ == (fixed_nonce(), xchacha_seal(
                shared_key.secret(),
                fixed_nonce(),
                self@,
            )),
            r matches Err(e) ==> e.kind_of() == ErrorKind::EncryptionError,
    {
        encrypt_with_nonce(self.0.as_slice(), shared_key.as_array(), fixed_nonce_bytes())
    }

    /// Decrypts an envelope under the shared key, with the nonce it carries.
    ///
    /// # Failures
    ///
    /// - `DecryptionError` when authentication fails: wrong key, tampered
    ///   ciphertext or nonce.
    pub fn decrypt<S: AsSharedKey>(encrypted_message: &EncryptedMessage, shared_key: &S) -> (r:
        Result<Self, Error>)
        ensures
            r is Ok <==> shared_key_decryption(shared_key.secret(), encrypted_message@) is Some,
            r matches Ok(p) ==> shared_key_decryption(shared_key.secret(), encrypted_message@)
                == Some(p@),
            r matches Err(e) ==> e.kind_of() == ErrorKind::DecryptionError,
            encrypted_message@.1.len() < 16 ==> r is Err,
    {
        match decrypt_with_key(encrypted_message, shared_key.as_array()) {
            Ok(plain) => Ok(PlainMessageSharedKeyDeterministic(plain)),
            Err(e) => Err(e),
        }
    }
}

impl PlainMessagePublicKey {
    /// Constructor.
    pub fn new(plain_message: Vec<u8>) -> (r: Self)
        ensures
            r@ == plain_message@,
    {
        PlainMessagePublicKey(plain_message)
    }

    /// Raw representation.
    pub fn into_vec(self) -> (r: Vec<u8>)
        ensures
            r@ == self@,
    {
        self.0
    }

    /// Ref to raw representation.
    pub fn as_slice(&self) -> (r: &[u8])
        ensures
            r@ == self@,
    {
        self.0.as_slice()
    }

    /// Encrypts from the sender to the receiver with a fresh nonce drawn from
    /// the random source, with no associated data.
    ///
    /// # Failures
    ///
    /// - `EncryptionError` when the message is too long for the cipher.
    pub fn encrypt(&self, combined_key: &SenderCombinedKey, rng: &mut RngSingletonImpl) -> (r:
        Result<EncryptedMessage, Error>)
        requires
            self@.len() + 16 <= isize::MAX,
        ensures
            r is Ok <==> within_cipher_limit(self@.len()),
            r matches Ok(m) ==> is_public_key_encryption(
                combined_key.sender_private_of(),
                combined_key.receiver_public_of(),
                self@,
                m@,
            ),
            r matches Ok(m) ==> m@.0 == final(rng).nonces_of().last(),
            r matches Err(e) ==> e.kind_of() == ErrorKind::EncryptionError,
            nonce_drawn(*old(rng), *final(rng), final(rng).nonces_of().last()),
    {
        let nonce = rng.next_nonce_bytes();
        encrypt_for_receiver(self.0.as_slice(), combined_key, nonce)
    }

    /// Decrypts an envelope with the sender's public key and the receiver's
    /// private key.
    ///
    /// # Failures
    ///
    /// - `DecryptionError` when authentication fails: wrong key, wrong peer,
    ///   tampered ciphertext or nonce.
    pub fn decrypt(encrypted_message: &EncryptedMessage, combined_key: &ReceiverCombinedKey) -> (r:
        Result<Self, Error>)
        ensures
            r is Ok <==> public_key_decryption(
                combined_key.sender_public_of(),
                combined_key.receiver_private_of(),
                encrypted_message@,
            ) is Some,
            r matches Ok(p) ==> public_key_decryption(
                combined_key.sender_public_of(),
                combined_key.receiver_private_of(),
                encrypted_message@,
            ) == Some(p@),
            r matches Err(e) ==> e.kind_of() == ErrorKind::DecryptionError,
            encrypted_message@.1.len() < 16 ==> r is Err,
    {
        match chacha_box_decrypt(
            combined_key.sender_public_key().as_bytes(),
            combined_key.receiver_private_key().as_bytes(),
            encrypted_message.nonce_array(),
            encrypted_message.encrypted(),
        ) {
            Ok(plain) => Ok(PlainMessagePublicKey(plain)),
            Err(_) => Err(Error::decryption_error("error on decryption of ChaChaBox")),
        }
    }
}

} // verus!
