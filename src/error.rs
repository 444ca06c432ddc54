//! Error type: a machine-readable kind and a human-readable reason.

use vstd::prelude::*;

verus! {

/// Kinds of errors.
#[derive(Copy, Clone, PartialEq, Eq, Structural, PartialOrd, Ord, Hash, Debug)]
pub enum ErrorKind {
    /// A message could not be turned into bytes.
    SerializationError,
    /// Received bytes could not be turned back into a message or an envelope.
    DeserializationError,
    /// The cipher refused to encrypt.
    EncryptionError,
    /// Authentication failed: wrong key, wrong peer, tampered data or nonce.
    DecryptionError,
}

/// The human-readable description of each kind.
pub open spec fn kind_description(kind: ErrorKind) -> Seq<char> {
    match kind {
        ErrorKind::SerializationError => "SerializationError: Failed to serialize data to send"@,
        ErrorKind::DeserializationError => "DeserializationError: Failed to deserialize data received"@,
        ErrorKind::EncryptionError => "EncryptionError: Failed to encrypt serialized data to send"@,
        ErrorKind::DecryptionError => "DecryptionError: Failed to decrypt data received"@,
    }
}

impl ErrorKind {
    /// Human-readable description of the kind.
    pub fn description(&self) -> (r: &'static str)
        ensures
            r@ == kind_description(*self),
    {
        match self {
            ErrorKind::SerializationError => "SerializationError: Failed to serialize data to send",
            ErrorKind::DeserializationError => "DeserializationError: Failed to deserialize data received",
            ErrorKind::EncryptionError => "EncryptionError: Failed to encrypt serialized data to send",
            ErrorKind::DecryptionError => "DecryptionError: Failed to decrypt data received",
        }
    }
}

/// Error type.
#[derive(Clone, PartialEq, Eq, Hash, Debug)]
pub struct Error {
    kind: ErrorKind,
    reason: String,
}

impl Error {
    /// The kind of this error.
    pub closed spec fn kind_of(&self) -> ErrorKind {
        self.kind
    }

    /// The reason given for this error.
    pub closed spec fn reason_of(&self) -> Seq<char> {
        self.reason@
    }

    /// Ref to error kind.
    pub fn kind(&self) -> (r: &ErrorKind)
        ensures
            *r == self.kind_of(),
    {
        &self.kind
    }

    /// Ref to the reason.
    pub fn reason(&self) -> (r: &str)
        ensures
            r@ == self.reason_of(),
    {
        self.reason.as_str()
    }

    fn new(kind: ErrorKind, reason: &str) -> (r: Self)
        ensures
            r.kind_of() == kind,
            r.reason_of() == reason@,
    {
        Error { kind, reason: reason.to_owned() }
    }

    /// Error of kind `SerializationError`.
    pub fn serialization_error(reason: &str) -> (r: Self)
        ensures
            r.kind_of() == ErrorKind::SerializationError,
            r.reason_of() == reason@,
    {
        Self::new(ErrorKind::SerializationError, reason)
    }

    /// Error of kind `DeserializationError`.
    pub fn deserialization_error(reason: &str) -> (r: Self)
        ensures
            r.kind_of() == ErrorKind::DeserializationError,
            r.reason_of() == reason@,
    {
        Self::new(ErrorKind::DeserializationError, reason)
    }

    /// Error of kind `EncryptionError`.
    pub fn encryption_error(reason: &str) -> (r: Self)
        ensures
            r.kind_of() == ErrorKind::EncryptionError,
            r.reason_of() == reason@,
    {
        Self::new(ErrorKind::EncryptionError, reason)
    }

    /// Error of kind `DecryptionError`.
    pub fn decryption_error(reason: &str) -> (r: Self)
        ensures
            r.kind_of() == ErrorKind::DecryptionError,
            r.reason_of() == reason@,
    {
        Self::new(ErrorKind::DecryptionError, reason)
    }
}

} // verus!
