//! The random source: a ChaCha12 stream that is seeded once and then only
//! advanced. A program keeps one for its whole life behind a lock and hands it
//! to every call that draws nonces or keys.

use vstd::prelude::*;

use rand::Rng;
use rand_chacha::ChaCha12Rng;
use rand_core::{OsRng, RngCore, SeedableRng};

use crate::bytes::{words_le, words_to_bytes};
use crate::cipher::x25519_generate_secret;

verus! {

#[verifier::external_type_specification]
#[verifier::external_body]
pub struct ExChaCha12Rng(ChaCha12Rng);

/// Relies on `SeedableRng::from_rng` with `rand_core::OsRng`: a generator
/// seeded from the operating system's entropy, or nothing when that source
/// fails.
#[verifier::external_body]
fn chacha12_from_os() -> (r: Option<ChaCha12Rng>) {
    ChaCha12Rng::from_rng(OsRng).ok()
}

/// Relies on `SeedableRng::from_seed` of `ChaCha12Rng`.
#[verifier::external_body]
fn chacha12_from_seed(seed: [u8; 32]) -> (r: ChaCha12Rng) {
    ChaCha12Rng::from_seed(seed)
}

/// Relies on `RngCore::fill_bytes` of `ChaCha12Rng`: 24 bytes of the stream.
#[verifier::external_body]
fn chacha12_fill_24(rng: &mut ChaCha12Rng) -> (r: [u8; 24]) {
    let mut bytes = [0u8; 24];
    rng.fill_bytes(&mut bytes);
    bytes
}

/// Relies on `rand::Rng::gen::<u64>` on `ChaCha12Rng`: the next 64 bits of
/// the stream.
#[verifier::external_body]
fn chacha12_gen_u64(rng: &mut ChaCha12Rng) -> (r: u64) {
    rng.gen::<u64>()
}

/// Rotation of a 64-bit word to the right by `n` bits, `0 < n < 64`.
pub open spec fn rotr(x: u64, n: u64) -> u64 {
    (x >> n) | (x << (64 - n) as u64)
}

/// The fallback seed made from one 64-bit value: that value and three words
/// mixed from it, each as 8 little-endian bytes.
pub open spec fn seed_words(a0: u64) -> Seq<u64> {
    let a1 = a0 ^ rotr(a0, 13);
    let a2 = a1 ^ rotr(a1, 17);
    let a3 = a2 ^ rotr(a2, 5);
    seq![a0, a1, a2, a3]
}

fn rotate_right(x: u64, n: u64) -> (r: u64)
    requires
        0 < n < 64,
    ensures
        r == rotr(x, n),
{
    (x >> n) | (x << (64 - n))
}

/// Process-wide random source: a ChaCha12 generator seeded once, from the
/// operating system's entropy or, where that fails, from a weaker
/// process-unique value; the latter is flagged.
///
/// It keeps a record of the seed it was given, if any, and of everything it
/// has handed out: 64-bit words, nonces and X25519 secret keys, each in
/// order.
pub struct RngSingletonImpl {
    rng: ChaCha12Rng,
    low_entropy: bool,
    seed: Ghost<Option<Seq<u8>>>,
    words: Ghost<Seq<u64>>,
    nonces: Ghost<Seq<Seq<u8>>>,
    secrets: Ghost<Seq<Seq<u8>>>,
}

/// `after` is `before` having handed out `words` after its earlier words,
/// and nothing else.
pub open spec fn words_drawn(before: RngSingletonImpl, after: RngSingletonImpl, words: Seq<u64>) -> bool {
    &&& after.words_of() == before.words_of() + words
    &&& after.nonces_of() == before.nonces_of()
    &&& after.secrets_of() == before.secrets_of()
    &&& after.seed_of() == before.seed_of()
    &&& after.is_low_entropy() == before.is_low_entropy()
}

/// `after` is `before` having handed out the one nonce `nonce`, and nothing
/// else.
pub open spec fn nonce_drawn(before: RngSingletonImpl, after: RngSingletonImpl, nonce: Seq<u8>) -> bool {
    &&& after.words_of() == before.words_of()
    &&& after.nonces_of() == before.nonces_of().push(nonce)
    &&& after.secrets_of() == before.secrets_of()
    &&& after.seed_of() == before.seed_of()
    &&& after.is_low_entropy() == before.is_low_entropy()
}

/// `after` is `before` having handed out the one secret key `secret`, and
/// nothing else.
pub open spec fn secret_drawn(before: RngSingletonImpl, after: RngSingletonImpl, secret: Seq<u8>) -> bool {
    &&& after.words_of() == before.words_of()
    &&& after.nonces_of() == before.nonces_of()
    &&& after.secrets_of() == before.secrets_of().push(secret)
    &&& after.seed_of() == before.seed_of()
    &&& after.is_low_entropy() == before.is_low_entropy()
}

/// The words `after` has handed out since it was `before`.
pub open spec fn words_since(before: RngSingletonImpl, after: RngSingletonImpl) -> Seq<u64> {
    after.words_of().subrange(before.words_of().len() as int, after.words_of().len() as int)
}

impl RngSingletonImpl {
    /// Whether the generator was seeded from the weak fallback value.
    pub closed spec fn is_low_entropy(&self) -> bool {
        self.low_entropy
    }

    /// The seed the generator was given; nothing when it was seeded from the
    /// operating system.
    pub closed spec fn seed_of(&self) -> Option<Seq<u8>> {
        self.seed@
    }

    /// The 64-bit words handed out so far, in order.
    pub closed spec fn words_of(&self) -> Seq<u64> {
        self.words@
    }

    /// The nonces handed out so far, in order.
    pub closed spec fn nonces_of(&self) -> Seq<Seq<u8>> {
        self.nonces@
    }

    /// The X25519 secret keys handed out so far, in order.
    pub closed spec fn secrets_of(&self) -> Seq<Seq<u8>> {
        self.secrets@
    }

    /// Nothing has been handed out yet.
    pub open spec fn is_fresh(&self) -> bool {
        &&& self.words_of() == Seq::<u64>::empty()
        &&& self.nonces_of() == Seq::<Seq<u8>>::empty()
        &&& self.secrets_of() == Seq::<Seq<u8>>::empty()
    }

    /// Seed derived from a runtime-unique value (such as a stack address)
    /// for environments without an entropy source.
    pub fn gen_seed(a0: u64) -> (r: [u8; 32])
        ensures
            r@ == words_le(seed_words(a0)),
    {
        let a1 = a0 ^ rotate_right(a0, 13);
        let a2 = a1 ^ rotate_right(a1, 17);
        let a3 = a2 ^ rotate_right(a2, 5);
        let words = [a0, a1, a2, a3];
        assert(words@ =~= seed_words(a0));
        words_to_bytes(words)
    }

    /// A source seeded from the operating system's entropy; where that is not
    /// available, one seeded from `gen_seed(fallback)` and flagged as low
    /// entropy.
    pub fn new(fallback: u64) -> (r: Self)
        ensures
            r.is_fresh(),
            r.is_low_entropy() ==> r.seed_of() == Some(words_le(seed_words(fallback))),
            !r.is_low_entropy() ==> r.seed_of() is None,
    {
        match chacha12_from_os() {
            Some(rng) => RngSingletonImpl {
                rng,
                low_entropy: false,
                seed: Ghost(None),
                words: Ghost(Seq::empty()),
                nonces: Ghost(Seq::empty()),
                secrets: Ghost(Seq::empty()),
            },
            None => {
                let seed = Self::gen_seed(fallback);
                RngSingletonImpl {
                    rng: chacha12_from_seed(seed),
                    low_entropy: true,
                    seed: Ghost(Some(seed@)),
                    words: Ghost(Seq::empty()),
                    nonces: Ghost(Seq::empty()),
                    secrets: Ghost(Seq::empty()),
                }
            },
        }
    }

    /// A source seeded with the given 32 bytes: the same seed gives the same
    /// stream, which makes runs reproducible in tests.
    pub fn from_seed(seed: [u8; 32]) -> (r: Self)
        ensures
            r.is_fresh(),
            !r.is_low_entropy(),
            r.seed_of() == Some(seed@),
    {
        RngSingletonImpl {
            rng: chacha12_from_seed(seed),
            low_entropy: false,
            seed: Ghost(Some(seed@)),
            words: Ghost(Seq::empty()),
            nonces: Ghost(Seq::empty()),
            secrets: Ghost(Seq::empty()),
        }
    }

    /// Whether this source had to fall back to the weak seed.
    pub fn low_entropy(&self) -> (r: bool)
        ensures
            r == self.is_low_entropy(),
    {
        self.low_entropy
    }

    /// The next 24 bytes of the stream, for one nonce.
    pub fn next_nonce_bytes(&mut self) -> (r: [u8; 24])
        ensures
            nonce_drawn(*old(self), *final(self), r@),
    {
        let nonce = chacha12_fill_24(&mut self.rng);
        self.nonces = Ghost(self.nonces@.push(nonce@));
        nonce
    }

    /// The next 64 bits of the stream.
    pub fn next_u64(&mut self) -> (r: u64)
        ensures
            words_drawn(*old(self), *final(self), seq![r]),
    {
        let word = chacha12_gen_u64(&mut self.rng);
        self.words = Ghost(self.words@.push(word));
        assert(self.words_of() =~= old(self).words_of() + seq![word]);
        word
    }

    /// The next four 64-bit words of the stream, in order.
    pub fn next_words(&mut self) -> (r: [u64; 4])
        ensures
            words_drawn(*old(self), *final(self), r@),
    {
        let r0 = self.next_u64();
        let r1 = self.next_u64();
        let r2 = self.next_u64();
        let r3 = self.next_u64();
        let words = [r0, r1, r2, r3];
        assert(self.words_of() =~= old(self).words_of() + words@);
        words
    }

    /// A fresh X25519 secret key: 32 bytes of the stream.
    pub fn next_secret_key(&mut self) -> (r: [u8; 32])
        ensures
            secret_drawn(*old(self), *final(self), r@),
    {
        let secret = x25519_generate_secret(&mut self.rng);
        self.secrets = Ghost(self.secrets@.push(secret@));
        secret
    }
}

} // verus!
