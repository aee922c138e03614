use vstd::prelude::*;
use crate::params::{CipherChoice, DHChoice, HashChoice};
use crate::primitives::{os_random_32, x25519, x25519_of};

verus! {

/// A source of random bytes for ephemeral keys.
#[derive(Clone, Copy, Debug, PartialEq, Eq, Structural)]
pub enum RandomSource {
    /// The operating system's generator.
    Os,
}

/// A Diffie-Hellman implementation.
#[derive(Clone, Copy, Debug, PartialEq, Eq, Structural)]
pub enum DhImpl {
    /// X25519 over Curve25519.
    X25519,
}

/// The X25519 base point, u = 9.
pub const X25519_BASE_POINT: [u8; 32] = [
    9u8, 0u8, 0u8, 0u8, 0u8, 0u8, 0u8, 0u8, 0u8, 0u8, 0u8, 0u8, 0u8, 0u8, 0u8, 0u8,
    0u8, 0u8, 0u8, 0u8, 0u8, 0u8, 0u8, 0u8, 0u8, 0u8, 0u8, 0u8, 0u8, 0u8, 0u8, 0u8,
];

/// The X25519 base point as bytes.
pub open spec fn base_point() -> Seq<u8> {
    seq![9u8] + Seq::new(31, |i: int| 0u8)
}

/// The public key of a private key.
pub open spec fn public_key_spec(d: DhImpl, private_key: Seq<u8>) -> Seq<u8> {
    match d {
        DhImpl::X25519 => x25519_of(private_key, base_point()),
    }
}

/// The shared secret of a private key and a peer's public key.
pub open spec fn dh_spec(d: DhImpl, private_key: Seq<u8>, public_key: Seq<u8>) -> Seq<u8> {
    match d {
        DhImpl::X25519 => x25519_of(private_key, public_key),
    }
}

impl DhImpl {
    /// The public key of a private key.
    pub fn public_key(&self, private_key: [u8; 32]) -> (r: [u8; 32])
        ensures
            r@ == public_key_spec(*self, private_key@),
    {
        let base = X25519_BASE_POINT;
        assert(base@ =~= base_point());
        match self {
            DhImpl::X25519 => x25519(private_key, base),
        }
    }

    /// The shared secret of a private key and a peer's public key.
    pub fn dh(&self, private_key: [u8; 32], public_key: [u8; 32]) -> (r: [u8; 32])
        ensures
            r@ == dh_spec(*self, private_key@, public_key@),
    {
        match self {
            DhImpl::X25519 => x25519(private_key, public_key),
        }
    }
}

impl RandomSource {
    /// 32 fresh random bytes, or `None` when the source fails.
    pub fn random_32(&self) -> (r: Option<[u8; 32]>) {
        match self {
            RandomSource::Os => os_random_32(),
        }
    }
}

/// Maps each algorithm choice to an implementation, or to none when it is unsupported.
/// Each lookup is independent of the others and always gives the same answer.
pub trait CryptoResolver {
    /// The randomness source offered.
    spec fn rng_offered(&self) -> Option<RandomSource>;

    /// The Diffie-Hellman implementation offered for a group.
    spec fn dh_offered(&self, choice: DHChoice) -> Option<DhImpl>;

    /// The hash implementation offered for a hash choice.
    spec fn hash_offered(&self, choice: HashChoice) -> Option<HashChoice>;

    /// The cipher implementation offered for a cipher choice.
    spec fn cipher_offered(&self, choice: CipherChoice) -> Option<CipherChoice>;

    fn resolve_rng(&self) -> (r: Option<RandomSource>)
        ensures
            r == self.rng_offered();

    fn resolve_dh(&self, choice: &DHChoice) -> (r: Option<DhImpl>)
        ensures
            r == self.dh_offered(*choice);

    fn resolve_hash(&self, choice: &HashChoice) -> (r: Option<HashChoice>)
        ensures
            r == self.hash_offered(*choice);

    fn resolve_cipher(&self, choice: &CipherChoice) -> (r: Option<CipherChoice>)
        ensures
            r == self.cipher_offered(*choice);
}

/// The resolver used by default: the operating system's randomness, X25519, all four
/// hash functions and both ciphers.
pub struct DefaultResolver;

impl CryptoResolver for DefaultResolver {
    open spec fn rng_offered(&self) -> Option<RandomSource> {
        Some(RandomSource::Os)
    }

    open spec fn dh_offered(&self, choice: DHChoice) -> Option<DhImpl> {
        match choice {
            DHChoice::Curve25519 => Some(DhImpl::X25519),
            _ => None,
        }
    }

    open spec fn hash_offered(&self, choice: HashChoice) -> Option<HashChoice> {
        Some(choice)
    }

    open spec fn cipher_offered(&self, choice: CipherChoice) -> Option<CipherChoice> {
        Some(choice)
    }

    fn resolve_rng(&self) -> (r: Option<RandomSource>) {
        Some(RandomSource::Os)
    }

    fn resolve_dh(&self, choice: &DHChoice) -> (r: Option<DhImpl>) {
        match *choice {
            DHChoice::Curve25519 => Some(DhImpl::X25519),
            _ => None,
        }
    }

    fn resolve_hash(&self, choice: &HashChoice) -> (r: Option<HashChoice>) {
        match *choice {
            HashChoice::SHA256 => Some(HashChoice::SHA256),
            HashChoice::SHA512 => Some(HashChoice::SHA512),
            HashChoice::Blake2s => Some(HashChoice::Blake2s),
            HashChoice::Blake2b => Some(HashChoice::Blake2b),
        }
    }

    fn resolve_cipher(&self, choice: &CipherChoice) -> (r: Option<CipherChoice>) {
        match *choice {
            CipherChoice::ChaChaPoly => Some(CipherChoice::ChaChaPoly),
            CipherChoice::AESGCM => Some(CipherChoice::AESGCM),
        }
    }
}

} // verus!
