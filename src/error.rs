use vstd::prelude::*;

verus! {

/// Why a handshake could not be built or could not go on.
#[derive(Clone, Copy, Debug, PartialEq, Eq, Structural)]
pub enum NoiseError {
    /// The text is not the name of a supported protocol descriptor.
    UnknownDescriptor,
    /// The pattern needs a static key of our own for this role and none was given.
    MissingLocalStaticKey,
    /// The pattern needs the peer's static key in advance for this role and none was given.
    MissingRemoteStaticKey,
    /// The resolver offers no randomness source.
    NoRng,
    /// The resolver offers no implementation of the chosen cipher.
    NoCipher,
    /// The resolver offers no implementation of the chosen hash function.
    NoHash,
    /// The resolver offers no implementation of the chosen Diffie-Hellman group.
    NoDh,
    /// A key given to the builder does not have the length the group needs.
    InvalidKeyLength,
    /// A write or read was made when it was not this side's turn for it.
    WrongTurn,
    /// A handshake call was made after the handshake finished, or a split before.
    HandshakeFinished,
    /// The handshake has not finished, so there are no transport ciphers yet.
    HandshakeNotFinished,
    /// A received message is shorter than its fields.
    Malformed,
    /// Authenticated decryption failed.
    DecryptFailed,
    /// The cipher's nonce has reached its maximum.
    NonceExhausted,
    /// A message or its associated data is longer than a message may be.
    TooLong,
    /// The randomness source failed.
    RngFailed,
    /// A Diffie-Hellman step needs a key that this side does not hold.
    MissingKey,
    /// An earlier failure invalidated this handshake; it must be started again.
    Invalidated,
}

} // verus!
