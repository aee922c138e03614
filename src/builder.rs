use vstd::prelude::*;
use crate::bytes::{copy_bytes, to_array32};
use crate::cipherstate::{zero_key, CipherState};
use crate::descriptor::{descriptor_text, NoiseParams};
use crate::error::NoiseError;
use crate::handshake::{start_transcript, HandshakeState, KeysView};
use crate::params::{need_known_remote_pubkey_spec, needs_local_static_key_spec};
use crate::resolver::{CryptoResolver, DefaultResolver};
use crate::resolver::public_key_spec;
use crate::symmetric::{initial_hash, SymmetricState, TranscriptView};

verus! {

/// Collects the key material and options of one side of a handshake, then builds its
/// state machine. Each setter returns the updated builder; a build consumes it.
pub struct NoiseBuilder<R: CryptoResolver> {
    /// The protocol descriptor.
    pub params: NoiseParams,
    /// The mapper from algorithm choices to implementations.
    pub resolver: R,
    /// The local static private key.
    pub s: Option<Vec<u8>>,
    /// The local ephemeral private key, used instead of a fresh one when given.
    pub e: Option<Vec<u8>>,
    /// The remote static public key, known in advance.
    pub rs: Option<Vec<u8>>,
    /// The remote ephemeral public key, known in advance.
    pub re: Option<Vec<u8>>,
    /// The pre-shared key.
    pub psk: Option<Vec<u8>>,
    /// The prologue.
    pub plog: Option<Vec<u8>>,
}

/// Whether an optional key is absent or has the 32 bytes an X25519 key has.
pub open spec fn key_len_ok(k: Option<Vec<u8>>) -> bool {
    match k {
        Some(v) => v@.len() == 32,
        None => true,
    }
}

/// A key slot's bytes: the key when given, else zeros.
pub open spec fn key_or_zero_spec(k: Option<Vec<u8>>) -> Seq<u8> {
    match k {
        Some(v) => v@,
        None => zero_key(),
    }
}

/// An optional byte string as a value.
pub open spec fn opt_bytes(b: Option<Vec<u8>>) -> Option<Seq<u8>> {
    match b {
        Some(v) => Some(v@),
        None => None,
    }
}

impl NoiseBuilder<DefaultResolver> {
    /// A builder for the given descriptor with the default resolver and no options set.
    pub fn new(params: NoiseParams) -> (r: NoiseBuilder<DefaultResolver>)
        ensures
            r.params == params,
            r.s is None && r.e is None && r.rs is None && r.re is None,
            r.psk is None && r.plog is None,
    {
        Self::with_resolver(params, DefaultResolver)
    }
}

impl<R: CryptoResolver> NoiseBuilder<R> {
    /// A builder for the given descriptor and resolver, with no options set.
    pub fn with_resolver(params: NoiseParams, resolver: R) -> (r: Self)
        ensures
            r.params == params,
            r.resolver == resolver,
            r.s is None && r.e is None && r.rs is None && r.re is None,
            r.psk is None && r.plog is None,
    {
        NoiseBuilder { params, resolver, s: None, e: None, rs: None, re: None, plog: None, psk: None }
    }

    /// Sets the pre-shared key to a copy of `key`.
    pub fn preshared_key(self, key: &[u8]) -> (r: Self)
        ensures
            r.psk matches Some(v) && v@ == key@,
            r.params == self.params && r.resolver == self.resolver,
            r.s == self.s && r.e == self.e && r.rs == self.rs && r.re == self.re && r.plog == self.plog,
    {
        let mut b = self;
        b.psk = Some(copy_bytes(key));
        b
    }

    /// Sets the local static private key to a copy of `key`.
    pub fn local_private_key(self, key: &[u8]) -> (r: Self)
        ensures
            r.s matches Some(v) && v@ == key@,
            r.params == self.params && r.resolver == self.resolver,
            r.psk == self.psk && r.e == self.e && r.rs == self.rs && r.re == self.re && r.plog == self.plog,
    {
        let mut b = self;
        b.s = Some(copy_bytes(key));
        b
    }

    /// Sets the local ephemeral private key to a copy of `key`; the handshake then uses it
    /// instead of drawing a fresh one, which makes runs reproducible.
    pub fn local_ephemeral_key(self, key: &[u8]) -> (r: Self)
        ensures
            r.e matches Some(v) && v@ == key@,
            r.params == self.params && r.resolver == self.resolver,
            r.psk == self.psk && r.s == self.s && r.rs == self.rs && r.re == self.re && r.plog == self.plog,
    {
        let mut b = self;
        b.e = Some(copy_bytes(key));
        b
    }

    /// Sets the prologue to a copy of `prologue`.
    pub fn prologue(self, prologue: &[u8]) -> (r: Self)
        ensures
            r.plog matches Some(v) && v@ == prologue@,
            r.params == self.params && r.resolver == self.resolver,
            r.psk == self.psk && r.s == self.s && r.e == self.e && r.rs == self.rs && r.re == self.re,
    {
        let mut b = self;
        b.plog = Some(copy_bytes(prologue));
        b
    }

    /// Sets the remote static public key to a copy of `pub_key`.
    pub fn remote_public_key(self, pub_key: &[u8]) -> (r: Self)
        ensures
            r.rs matches Some(v) && v@ == pub_key@,
            r.params == self.params && r.resolver == self.resolver,
            r.psk == self.psk && r.s == self.s && r.e == self.e && r.re == self.re && r.plog == self.plog,
    {
        let mut b = self;
        b.rs = Some(copy_bytes(pub_key));
        b
    }

    /// The error a build in the given role stops at, checked in this order: a missing
    /// local static key, a missing remote static key, then no randomness source, cipher,
    /// hash or Diffie-Hellman implementation, then a key of the wrong length; `None` when
    /// the build succeeds.
    pub open spec fn build_error(&self, initiator: bool) -> Option<NoiseError> {
        let p = self.params;
        let res = self.resolver;
        if self.s is None && needs_local_static_key_spec(p.handshake, initiator) {
            Some(NoiseError::MissingLocalStaticKey)
        } else if self.rs is None && need_known_remote_pubkey_spec(p.handshake, initiator) {
            Some(NoiseError::MissingRemoteStaticKey)
        } else if res.rng_offered() is None {
            Some(NoiseError::NoRng)
        } else if res.cipher_offered(p.cipher) is None {
            Some(NoiseError::NoCipher)
        } else if res.hash_offered(p.hash) is None {
            Some(NoiseError::NoHash)
        } else if res.dh_offered(p.dh) is None {
            Some(NoiseError::NoDh)
        } else if !(key_len_ok(self.s) && key_len_ok(self.e) && key_len_ok(self.rs) && key_len_ok(self.re)) {
            Some(NoiseError::InvalidKeyLength)
        } else {
            None
        }
    }

    /// What a successful build in the given role yields.
    pub open spec fn built(&self, initiator: bool, hs: HandshakeState) -> bool {
        let p = self.params;
        let res = self.resolver;
        &&& hs.wf()
        &&& hs.is_initiator_spec() == initiator
        &&& hs.pattern_spec() == p.handshake
        &&& hs.message_index_spec() == 0
        &&& !hs.failed_spec()
        &&& hs.key_flags() == (self.s is Some, self.e is Some, self.rs is Some, self.re is Some)
        &&& (self.s matches Some(k) ==> hs.static_keys().0 == k@)
        &&& (self.rs matches Some(k) ==> hs.static_keys().1 == k@)
        &&& (self.e matches Some(k) ==> hs.ephemeral_key() == k@)
        &&& hs.has_psk_spec() == (self.psk is Some)
        &&& Some(hs.symmetric_spec().hash_choice()) == res.hash_offered(p.hash)
        &&& Some(hs.transport_spec().0.cipher_spec()) == res.cipher_offered(p.cipher)
        &&& Some(hs.transport_spec().1.cipher_spec()) == res.cipher_offered(p.cipher)
        &&& !hs.transport_spec().0.has_key_spec()
        &&& !hs.transport_spec().1.has_key_spec()
        &&& {
            let dh = res.dh_offered(p.dh)->Some_0;
            let hash = res.hash_offered(p.hash)->Some_0;
            let cipher = res.cipher_offered(p.cipher)->Some_0;
            let start = initial_hash(hash, descriptor_text(p));
            &&& hs.keys_view() == (KeysView {
                dh: dh,
                initiator: initiator,
                psk: self.psk is Some,
                s: key_or_zero_spec(self.s),
                s_pub: public_key_spec(dh, key_or_zero_spec(self.s)),
                has_s: self.s is Some,
                e: key_or_zero_spec(self.e),
                e_pub: if self.e is Some { public_key_spec(dh, key_or_zero_spec(self.e)) } else { zero_key() },
                has_e: self.e is Some,
                rs: key_or_zero_spec(self.rs),
                has_rs: self.rs is Some,
                re: key_or_zero_spec(self.re),
                has_re: self.re is Some,
            })
            &&& hs.symmetric_spec().view() == start_transcript(
                TranscriptView { hash: hash, ck: start, h: start, cipher: cipher, has_k: false, k: zero_key(), n: 0 },
                match self.plog { Some(v) => v@, None => Seq::empty() },
                opt_bytes(self.psk),
                p.handshake,
                initiator,
                public_key_spec(dh, key_or_zero_spec(self.s)),
                key_or_zero_spec(self.rs),
            )
        }
    }

    /// Builds the initiator's side of the handshake.
    pub fn build_initiator(self) -> (r: Result<HandshakeState, NoiseError>)
        ensures
            match r {
                Ok(hs) => self.build_error(true) is None && self.built(true, hs),
                Err(e) => self.build_error(true) == Some(e),
            },
            self.s is None && needs_local_static_key_spec(self.params.handshake, true)
                ==> r == Err::<HandshakeState, NoiseError>(NoiseError::MissingLocalStaticKey),
            (self.s is Some || !needs_local_static_key_spec(self.params.handshake, true)) && self.rs is None && need_known_remote_pubkey_spec(self.params.handshake, true)
                ==> r == Err::<HandshakeState, NoiseError>(NoiseError::MissingRemoteStaticKey),
            (self.s is Some || !needs_local_static_key_spec(self.params.handshake, true)) && (self.rs is Some || !need_known_remote_pubkey_spec(self.params.handshake, true)) ==> {
                let res = self.resolver;
                let p = self.params;
                &&& res.rng_offered() is None ==> r == Err::<HandshakeState, NoiseError>(NoiseError::NoRng)
                &&& res.rng_offered() is Some && res.cipher_offered(p.cipher) is None
                    ==> r == Err::<HandshakeState, NoiseError>(NoiseError::NoCipher)
                &&& res.rng_offered() is Some && res.cipher_offered(p.cipher) is Some && res.hash_offered(p.hash) is None
                    ==> r == Err::<HandshakeState, NoiseError>(NoiseError::NoHash)
                &&& res.rng_offered() is Some && res.cipher_offered(p.cipher) is Some && res.hash_offered(p.hash) is Some
                    && res.dh_offered(p.dh) is None ==> r == Err::<HandshakeState, NoiseError>(NoiseError::NoDh)
                &&& (res.rng_offered() is None || res.cipher_offered(p.cipher) is None
                    || res.hash_offered(p.hash) is None || res.dh_offered(p.dh) is None) ==> r is Err
                &&& res.rng_offered() is Some && res.cipher_offered(p.cipher) is Some && res.hash_offered(p.hash) is Some
                    && res.dh_offered(p.dh) is Some
                    && key_len_ok(self.s) && key_len_ok(self.e) && key_len_ok(self.rs) && key_len_ok(self.re)
                    ==> r is Ok
            },
    {
        self.build(true)
    }

    /// Builds the responder's side of the handshake.
    pub fn build_responder(self) -> (r: Result<HandshakeState, NoiseError>)
        ensures
            match r {
                Ok(hs) => self.build_error(false) is None && self.built(false, hs),
                Err(e) => self.build_error(false) == Some(e),
            },
            self.s is None && needs_local_static_key_spec(self.params.handshake, false)
                ==> r == Err::<HandshakeState, NoiseError>(NoiseError::MissingLocalStaticKey),
            (self.s is Some || !needs_local_static_key_spec(self.params.handshake, false)) && self.rs is None && need_known_remote_pubkey_spec(self.params.handshake, false)
                ==> r == Err::<HandshakeState, NoiseError>(NoiseError::MissingRemoteStaticKey),
            (self.s is Some || !needs_local_static_key_spec(self.params.handshake, false)) && (self.rs is Some || !need_known_remote_pubkey_spec(self.params.handshake, false)) ==> {
                let res = self.resolver;
                let p = self.params;
                &&& res.rng_offered() is None ==> r == Err::<HandshakeState, NoiseError>(NoiseError::NoRng)
                &&& res.rng_offered() is Some && res.cipher_offered(p.cipher) is None
                    ==> r == Err::<HandshakeState, NoiseError>(NoiseError::NoCipher)
                &&& res.rng_offered() is Some && res.cipher_offered(p.cipher) is Some && res.hash_offered(p.hash) is None
                    ==> r == Err::<HandshakeState, NoiseError>(NoiseError::NoHash)
                &&& res.rng_offered() is Some && res.cipher_offered(p.cipher) is Some && res.hash_offered(p.hash) is Some
                    && res.dh_offered(p.dh) is None ==> r == Err::<HandshakeState, NoiseError>(NoiseError::NoDh)
                &&& (res.rng_offered() is None || res.cipher_offered(p.cipher) is None
                    || res.hash_offered(p.hash) is None || res.dh_offered(p.dh) is None) ==> r is Err
                &&& res.rng_offered() is Some && res.cipher_offered(p.cipher) is Some && res.hash_offered(p.hash) is Some
                    && res.dh_offered(p.dh) is Some
                    && key_len_ok(self.s) && key_len_ok(self.e) && key_len_ok(self.rs) && key_len_ok(self.re)
                    ==> r is Ok
            },
    {
        self.build(false)
    }

    fn key_or_zero(k: &Option<Vec<u8>>) -> (r: [u8; 32])
        requires
            key_len_ok(*k),
        ensures
            r@ == key_or_zero_spec(*k),
    {
        match k {
            Some(v) => to_array32(v.as_slice()),
            None => {
                let z: [u8; 32] = [0u8; 32];
                assert(z@ =~= zero_key());
                z
            },
        }
    }

    fn build(self, initiator: bool) -> (r: Result<HandshakeState, NoiseError>)
        ensures
            match r {
                Ok(hs) => self.build_error(initiator) is None && self.built(initiator, hs),
                Err(e) => self.build_error(initiator) == Some(e),
            },
    {
        if self.s.is_none() && self.params.handshake.needs_local_static_key(initiator) {
            return Err(NoiseError::MissingLocalStaticKey);
        }
        if self.rs.is_none() && self.params.handshake.need_known_remote_pubkey(initiator) {
            return Err(NoiseError::MissingRemoteStaticKey);
        }
        let rng = match self.resolver.resolve_rng() {
            Some(x) => x,
            None => return Err(NoiseError::NoRng),
        };
        let cipher = match self.resolver.resolve_cipher(&self.params.cipher) {
            Some(x) => x,
            None => return Err(NoiseError::NoCipher),
        };
        let hash = match self.resolver.resolve_hash(&self.params.hash) {
            Some(x) => x,
            None => return Err(NoiseError::NoHash),
        };
        let dh = match self.resolver.resolve_dh(&self.params.dh) {
            Some(x) => x,
            None => return Err(NoiseError::NoDh),
        };
        let cipher1 = match self.resolver.resolve_cipher(&self.params.cipher) {
            Some(x) => x,
            None => return Err(NoiseError::NoCipher),
        };
        let cipher2 = match self.resolver.resolve_cipher(&self.params.cipher) {
            Some(x) => x,
            None => return Err(NoiseError::NoCipher),
        };
        let lengths_ok = Self::len_ok(&self.s) && Self::len_ok(&self.e) && Self::len_ok(&self.rs)
            && Self::len_ok(&self.re);
        if !lengths_ok {
            return Err(NoiseError::InvalidKeyLength);
        }
        let s = Self::key_or_zero(&self.s);
        let e = Self::key_or_zero(&self.e);
        let rs = Self::key_or_zero(&self.rs);
        let re = Self::key_or_zero(&self.re);
        let flags = (self.s.is_some(), self.e.is_some(), self.rs.is_some(), self.re.is_some());
        let name = self.params.name();
        let symmetric = SymmetricState::initialize(hash, cipher, name.as_slice());
        let empty: Vec<u8> = Vec::new();
        assert(empty@ =~= Seq::<u8>::empty());
        let prologue = match &self.plog {
            Some(p) => p.as_slice(),
            None => empty.as_slice(),
        };
        let psk = match &self.psk {
            Some(k) => Some(k.as_slice()),
            None => None,
        };
        let transport = (CipherState::new(cipher1), CipherState::new(cipher2));
        Ok(HandshakeState::new(
            rng, dh, symmetric, s, e, rs, re, flags, initiator, self.params.handshake, prologue, psk, transport,
        ))
    }

    fn len_ok(k: &Option<Vec<u8>>) -> (r: bool)
        ensures
            r == key_len_ok(*k),
    {
        match k {
            Some(v) => v.len() == 32,
            None => true,
        }
    }
}

/// A build fails with the matching error when a key that the pattern requires of the role
/// is absent, and succeeds when every such key is present (with a valid length) and all
/// four capabilities resolve.
pub proof fn lemma_structural_requirements<R: CryptoResolver>(b: NoiseBuilder<R>, initiator: bool)
    ensures
        b.s is None && needs_local_static_key_spec(b.params.handshake, initiator)
            ==> b.build_error(initiator) == Some(NoiseError::MissingLocalStaticKey),
        b.s is Some && b.rs is None && need_known_remote_pubkey_spec(b.params.handshake, initiator)
            ==> b.build_error(initiator) == Some(NoiseError::MissingRemoteStaticKey),
        (b.s is Some || !needs_local_static_key_spec(b.params.handshake, initiator))
            && (b.rs is Some || !need_known_remote_pubkey_spec(b.params.handshake, initiator))
            && b.resolver.rng_offered() is Some
            && b.resolver.cipher_offered(b.params.cipher) is Some
            && b.resolver.hash_offered(b.params.hash) is Some
            && b.resolver.dh_offered(b.params.dh) is Some
            && key_len_ok(b.s) && key_len_ok(b.e) && key_len_ok(b.rs) && key_len_ok(b.re)
            ==> b.build_error(initiator) is None,
{
}

/// When the structural requirements hold and exactly one of the four capabilities is
/// unsupported, the build fails with the error that names that capability.
pub proof fn lemma_unsupported_capability<R: CryptoResolver>(b: NoiseBuilder<R>, initiator: bool)
    requires
        b.s is Some || !needs_local_static_key_spec(b.params.handshake, initiator),
        b.rs is Some || !need_known_remote_pubkey_spec(b.params.handshake, initiator),
    ensures
        b.resolver.rng_offered() is None ==> b.build_error(initiator) == Some(NoiseError::NoRng),
        b.resolver.rng_offered() is Some && b.resolver.cipher_offered(b.params.cipher) is None
            ==> b.build_error(initiator) == Some(NoiseError::NoCipher),
        b.resolver.rng_offered() is Some && b.resolver.cipher_offered(b.params.cipher) is Some
            && b.resolver.hash_offered(b.params.hash) is None
            ==> b.build_error(initiator) == Some(NoiseError::NoHash),
        b.resolver.rng_offered() is Some && b.resolver.cipher_offered(b.params.cipher) is Some
            && b.resolver.hash_offered(b.params.hash) is Some && b.resolver.dh_offered(b.params.dh) is None
            ==> b.build_error(initiator) == Some(NoiseError::NoDh),
{
}

} // verus!
