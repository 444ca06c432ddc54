//! Authenticated encryption of plain byte messages for transport between two
//! parties, with a pre-shared 32-byte secret or with X25519 key pairs, and the
//! framing of an encrypted message as one byte buffer.

pub mod cipher;
pub mod combined_key;
pub mod encrypt;
pub mod error;
pub mod key_pair;
pub mod msg;
pub mod random;
pub mod shared_key;

mod bytes;
