//! 32-byte secret shared by sender and receiver.

use vstd::prelude::*;

use crate::bytes::{bytes_eq, words_le, words_to_bytes};
use crate::random::{words_drawn, words_since, RngSingletonImpl};

verus! {

/// Anything that holds 32 secret bytes can key the shared-key protocols.
pub trait AsSharedKey: Sized {
    /// The 32 secret bytes.
    spec fn secret(&self) -> Seq<u8>;

    /// Constructor from secret bytes.
    fn from_array(key: [u8; 32]) -> (r: Self)
        ensures
            r.secret() == key@,
    ;

    /// Ref to the 32 secret bytes.
    fn as_array(&self) -> (r: &[u8; 32])
        ensures
            r@ == self.secret(),
    ;

    /// Generates a secure random key from four 64-bit draws of the random
    /// source: each word's little-endian bytes, in the order drawn.
    fn generate(rng: &mut RngSingletonImpl) -> (r: Self)
        ensures
            words_since(*old(rng), *final(rng)).len() == 4,
            words_drawn(*old(rng), *final(rng), words_since(*old(rng), *final(rng))),
            r.secret() == words_le(words_since(*old(rng), *final(rng))),
    {
        let words = rng.next_words();
        assert(words_since(*old(rng), *rng) =~= words@);
        Self::from_array(words_to_bytes(words))
    }
}

/// 32-byte key shared among sender and receiver secretly.
///
/// It is a good practice to exchange it with the public-key protocol, its 32
/// bytes being the plaintext.
#[derive(Clone, Hash, Debug)]
pub struct SharedKey([u8; 32]);

impl View for SharedKey {
    type V = Seq<u8>;

    closed spec fn view(&self) -> Seq<u8> {
        self.0@
    }
}

impl PartialEq for SharedKey {
    fn eq(&self, other: &SharedKey) -> (r: bool) {
        bytes_eq(self.0.as_slice(), other.0.as_slice())
    }
}

impl vstd::std_specs::cmp::PartialEqSpecImpl for SharedKey {
    open spec fn obeys_eq_spec() -> bool {
        true
    }

    open spec fn eq_spec(&self, other: &SharedKey) -> bool {
        self@ == other@
    }
}

impl Eq for SharedKey {
}

impl AsSharedKey for SharedKey {
    open spec fn secret(&self) -> Seq<u8> {
        self@
    }

    fn from_array(key: [u8; 32]) -> (r: Self) {
        SharedKey(key)
    }

    fn as_array(&self) -> (r: &[u8; 32]) {
        &self.0
    }
}

impl SharedKey {
    /// Build SharedKey from `[u8; 32]` data.
    pub fn new(data: [u8; 32]) -> (r: Self)
        ensures
            r@ == data@,
    {
        SharedKey(data)
    }

    /// Constructor from known secret bytes.
    pub fn from_array(key: [u8; 32]) -> (r: Self)
        ensures
            r@ == key@,
    {
        SharedKey(key)
    }

    /// Extract as raw array.
    pub fn into_array(self) -> (r: [u8; 32])
        ensures
            r@ == self@,
    {
        self.0
    }

    /// Ref to the 32 key bytes.
    pub fn as_slice(&self) -> (r: &[u8])
        ensures
            r@ == self@,
    {
        self.0.as_slice()
    }

    /// The key made of four 64-bit draws: each word's little-endian bytes, in
    /// order.
    pub fn from_words(words: [u64; 4]) -> (r: Self)
        ensures
            r@ == words_le(words@),
    {
        SharedKey(words_to_bytes(words))
    }

    /// Generates a secure random key from four 64-bit draws of the random
    /// source: each word's little-endian bytes, in the order drawn.
    pub fn generate(rng: &mut RngSingletonImpl) -> (r: Self)
        ensures
            words_since(*old(rng), *final(rng)).len() == 4,
            words_drawn(*old(rng), *final(rng), words_since(*old(rng), *final(rng))),
            r@ == words_le(words_since(*old(rng), *final(rng))),
    {
        <SharedKey as AsSharedKey>::generate(rng)
    }
}

} // verus!
