//! A handshake engine in the style of the Noise Protocol Framework: a builder that checks
//! the key material a pattern needs and resolves the primitives, the handshake state
//! machine with its transcript, and the transport ciphers it splits into.

pub mod bytes;
pub mod params;
pub mod descriptor;
pub mod primitives;
pub mod error;
pub mod hash;
pub mod cipherstate;
pub mod symmetric;
pub mod resolver;
pub mod handshake;
pub mod builder;
