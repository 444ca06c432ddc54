//! The primitives this library builds on: XChaCha20Poly1305 for a shared
//! secret, X25519 with XChaCha20Poly1305 (`ChaChaBox`) for key pairs, and
//! X25519 key derivation. Each result is named here, with what the
//! primitive guarantees of it.

use vstd::prelude::*;

use chacha20poly1305::aead::Error as AeadError;
use chacha20poly1305::aead::{Aead, NewAead};
use chacha20poly1305::{Key, XChaCha20Poly1305, XNonce};
use crypto_box::{ChaChaBox, PublicKey, SecretKey};
use rand_chacha::ChaCha12Rng;

verus! {

#[verifier::external_type_specification]
#[verifier::external_body]
pub struct ExAeadError(AeadError);

/// ChaCha20 counts 64-byte blocks with a 32-bit counter: a message must
/// span fewer than `u32::MAX` blocks.
pub open spec fn within_cipher_limit(len: nat) -> bool {
    len / 64 < u32::MAX
}

/// XChaCha20Poly1305 ciphertext (tag appended) of `msg` under `key` and
/// `nonce`, with no associated data.
pub uninterp spec fn xchacha_seal(key: Seq<u8>, nonce: Seq<u8>, msg: Seq<u8>) -> Seq<u8>;

/// XChaCha20Poly1305 decryption of `ciphertext` under `key` and `nonce`:
/// the plaintext, or nothing when authentication fails.
pub uninterp spec fn xchacha_open(key: Seq<u8>, nonce: Seq<u8>, ciphertext: Seq<u8>) -> Option<
    Seq<u8>,
>;

/// Ciphertext of `msg` by the box made from a peer's public key and one's
/// own secret key.
pub uninterp spec fn box_seal(public: Seq<u8>, secret: Seq<u8>, nonce: Seq<u8>, msg: Seq<u8>) -> Seq<
    u8,
>;

/// Decryption of `ciphertext` by the box made from a peer's public key and
/// one's own secret key: the plaintext, or nothing when authentication fails.
pub uninterp spec fn box_open(
    public: Seq<u8>,
    secret: Seq<u8>,
    nonce: Seq<u8>,
    ciphertext: Seq<u8>,
) -> Option<Seq<u8>>;

/// X25519 public key of a 32-byte secret key.
pub uninterp spec fn x25519_public(secret: Seq<u8>) -> Seq<u8>;

/// Relies on `Aead::encrypt` of `chacha20poly1305::XChaCha20Poly1305`
/// (0.9): it fails only when the message spans `u32::MAX` blocks or more;
/// the ciphertext is the message's length plus a 16-byte tag, depends on
/// key, nonce and message alone, and decrypting it with the same key and
/// nonce gives the message back.
#[verifier::external_body]
pub(crate) fn xchacha20poly1305_encrypt(key: &[u8; 32], nonce: &[u8; 24], msg: &[u8]) -> (r: Result<
    Vec<u8>,
    AeadError,
>)
    requires
        msg@.len() + 16 <= isize::MAX,
    ensures
        r is Ok <==> within_cipher_limit(msg@.len()),
        r matches Ok(c) ==> c@ == xchacha_seal(key@, nonce@, msg@),
        r matches Ok(c) ==> c@.len() == msg@.len() + 16,
        r matches Ok(c) ==> xchacha_open(key@, nonce@, c@) == Some(msg@),
{
    XChaCha20Poly1305::new(Key::from_slice(key)).encrypt(XNonce::from_slice(nonce), msg)
}

/// Relies on `Aead::decrypt` of `chacha20poly1305::XChaCha20Poly1305`
/// (0.9): the plaintext when the tag authenticates, an error otherwise (and
/// always when the ciphertext is shorter than the 16-byte tag).
#[verifier::external_body]
pub(crate) fn xchacha20poly1305_decrypt(key: &[u8; 32], nonce: &[u8; 24], ciphertext: &[u8]) -> (r:
    Result<Vec<u8>, AeadError>)
    ensures
        r is Ok <==> xchacha_open(key@, nonce@, ciphertext@) is Some,
        r matches Ok(m) ==> xchacha_open(key@, nonce@, ciphertext@) == Some(m@),
        ciphertext@.len() < 16 ==> r is Err,
{
    XChaCha20Poly1305::new(Key::from_slice(key)).decrypt(XNonce::from_slice(nonce), ciphertext)
}

/// Relies on `crypto_box::ChaChaBox::new(public, secret)` (0.7) and its
/// `Aead::encrypt`: X25519 of the two keys keys an XChaCha20Poly1305 cipher,
/// which fails only when the message spans `u32::MAX` blocks or more and
/// appends a 16-byte tag to a ciphertext of the message's length. As
/// X25519 commutes, the box of the holder of the secret behind `public`, made
/// with the public key of `secret`, decrypts the ciphertext to the message.
#[verifier::external_body]
pub(crate) fn chacha_box_encrypt(
    public: &[u8; 32],
    secret: &[u8; 32],
    nonce: &[u8; 24],
    msg: &[u8],
) -> (r: Result<Vec<u8>, AeadError>)
    requires
        msg@.len() + 16 <= isize::MAX,
    ensures
        r is Ok <==> within_cipher_limit(msg@.len()),
        r matches Ok(c) ==> c@ == box_seal(public@, secret@, nonce@, msg@),
        r matches Ok(c) ==> c@.len() == msg@.len() + 16,
        r matches Ok(c) ==> forall|peer_secret: Seq<u8>|
            peer_secret.len() == 32 && #[trigger] x25519_public(peer_secret) == public@ ==> box_open(
                x25519_public(secret@),
                peer_secret,
                nonce@,
                c@,
            ) == Some(msg@),
{
    ChaChaBox::new(&PublicKey::from(*public), &SecretKey::from(*secret)).encrypt(
        XNonce::from_slice(nonce),
        msg,
    )
}

/// Relies on `crypto_box::ChaChaBox::new(public, secret)` (0.7) and its
/// `Aead::decrypt`: the plaintext when the tag authenticates, an error
/// otherwise (and always when the ciphertext is shorter than the 16-byte
/// tag).
#[verifier::external_body]
pub(crate) fn chacha_box_decrypt(
    public: &[u8; 32],
    secret: &[u8; 32],
    nonce: &[u8; 24],
    ciphertext: &[u8],
) -> (r: Result<Vec<u8>, AeadError>)
    ensures
        r is Ok <==> box_open(public@, secret@, nonce@, ciphertext@) is Some,
        r matches Ok(m) ==> box_open(public@, secret@, nonce@, ciphertext@) == Some(m@),
        ciphertext@.len() < 16 ==> r is Err,
{
    ChaChaBox::new(&PublicKey::from(*public), &SecretKey::from(*secret)).decrypt(
        XNonce::from_slice(nonce),
        ciphertext,
    )
}

/// Relies on `crypto_box::SecretKey::public_key` (0.7): X25519 of the secret
/// with the base point, a function of the secret's bytes.
#[verifier::external_body]
pub(crate) fn x25519_public_key(secret: &[u8; 32]) -> (r: [u8; 32])
    ensures
        r@ == x25519_public(secret@),
{
    *SecretKey::from(*secret).public_key().as_bytes()
}

/// Relies on `crypto_box::SecretKey::generate` (0.7): 32 bytes drawn from the
/// generator.
#[verifier::external_body]
pub(crate) fn x25519_generate_secret(rng: &mut ChaCha12Rng) -> (r: [u8; 32]) {
    *SecretKey::generate(rng).as_bytes()
}

} // verus!
