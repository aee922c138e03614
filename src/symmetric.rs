use vstd::prelude::*;
use crate::bytes::{concat, prefix, to_array32};
use crate::cipherstate::{zero_key, CipherState, MAX_AD, MAX_PLAINTEXT, seal_spec};
use crate::error::NoiseError;
use crate::hash::{block_len, hash, hash_len, hash_length, hash_spec, hkdf, hkdf_spec};
use crate::params::{CipherChoice, HashChoice};

verus! {

/// The transcript hash a protocol name starts with: the name zero-padded to a digest when
/// it fits, else its digest.
pub open spec fn initial_hash(h: HashChoice, name: Seq<u8>) -> Seq<u8> {
    if name.len() <= hash_len(h) {
        name + Seq::new((hash_len(h) - name.len()) as nat, |i: int| 0u8)
    } else {
        hash_spec(h, name)
    }
}

/// The cipher key taken from a key-derivation output: its first 32 bytes.
pub open spec fn cipher_key(out: Seq<u8>) -> Seq<u8> {
    out.subrange(0, 32)
}

/// The two transport keys that a chaining key splits into.
pub open spec fn split_keys(h: HashChoice, ck: Seq<u8>) -> (Seq<u8>, Seq<u8>) {
    let outs = hkdf_spec(h, ck, Seq::empty());
    (cipher_key(outs.0), cipher_key(outs.1))
}

/// The transcript of a handshake as values: the hash function, chaining key, transcript
/// hash, and the handshake cipher's algorithm, key (when set) and nonce.
pub struct TranscriptView {
    pub hash: HashChoice,
    pub ck: Seq<u8>,
    pub h: Seq<u8>,
    pub cipher: CipherChoice,
    pub has_k: bool,
    pub k: Seq<u8>,
    pub n: u64,
}

/// Absorbing `data` into the transcript hash.
pub open spec fn mix_hash_v(v: TranscriptView, data: Seq<u8>) -> TranscriptView {
    TranscriptView { h: hash_spec(v.hash, v.h + data), ..v }
}

/// Absorbing key material into the chaining key, which rekeys the handshake cipher.
pub open spec fn mix_key_v(v: TranscriptView, ikm: Seq<u8>) -> TranscriptView {
    let outs = hkdf_spec(v.hash, v.ck, ikm);
    TranscriptView { ck: outs.0, has_k: true, k: cipher_key(outs.1), n: 0, ..v }
}

/// Absorbing a pre-shared key into both the chaining key and the transcript hash.
pub open spec fn mix_key_and_hash_v(v: TranscriptView, ikm: Seq<u8>) -> TranscriptView {
    let outs = hkdf_spec(v.hash, v.ck, ikm);
    TranscriptView {
        ck: outs.0,
        h: hash_spec(v.hash, v.h + outs.1),
        has_k: true,
        k: cipher_key(outs.2),
        n: 0,
        ..v
    }
}

/// Encrypting `plaintext` with the transcript hash as associated data and absorbing the
/// result: the new transcript and the bytes to send, or `None` when the cipher refuses.
pub open spec fn encrypt_and_hash_v(v: TranscriptView, plaintext: Seq<u8>) -> Option<(TranscriptView, Seq<u8>)> {
    if !v.has_k {
        Some((mix_hash_v(v, plaintext), plaintext))
    } else if v.n == u64::MAX || plaintext.len() > MAX_PLAINTEXT || v.h.len() > MAX_AD {
        None
    } else {
        let c = seal_spec(v.cipher, v.k, v.n, v.h, plaintext);
        Some((mix_hash_v(TranscriptView { n: (v.n + 1) as u64, ..v }, c), c))
    }
}

/// Whether decrypting `ciphertext` against transcript `v` succeeds with `plaintext`.
pub open spec fn decrypts_to(v: TranscriptView, ciphertext: Seq<u8>, plaintext: Seq<u8>) -> bool {
    if !v.has_k {
        plaintext == ciphertext
    } else {
        v.n < u64::MAX && ciphertext.len() <= MAX_PLAINTEXT + 16 && v.h.len() <= MAX_AD
            && seal_spec(v.cipher, v.k, v.n, v.h, plaintext) == ciphertext
    }
}

/// The transcript after decrypting `ciphertext` successfully.
pub open spec fn after_decrypt_v(v: TranscriptView, ciphertext: Seq<u8>) -> TranscriptView {
    if !v.has_k {
        mix_hash_v(v, ciphertext)
    } else {
        mix_hash_v(TranscriptView { n: (v.n + 1) as u64, ..v }, ciphertext)
    }
}

/// The chaining key, the transcript hash and the handshake cipher of a handshake.
pub struct SymmetricState {
    hash: HashChoice,
    cs: CipherState,
    ck: Vec<u8>,
    h: Vec<u8>,
}

impl SymmetricState {
    /// The hash function.
    pub closed spec fn hash_choice(&self) -> HashChoice {
        self.hash
    }

    /// The handshake cipher.
    pub closed spec fn cipher_state(&self) -> CipherState {
        self.cs
    }

    /// The chaining key.
    pub closed spec fn ck_spec(&self) -> Seq<u8> {
        self.ck@
    }

    /// The transcript hash.
    pub closed spec fn h_spec(&self) -> Seq<u8> {
        self.h@
    }

    /// The transcript as values.
    pub open spec fn view(&self) -> TranscriptView {
        TranscriptView {
            hash: self.hash_choice(),
            ck: self.ck_spec(),
            h: self.h_spec(),
            cipher: self.cipher_state().cipher_spec(),
            has_k: self.cipher_state().has_key_spec(),
            k: self.cipher_state().key_spec(),
            n: self.cipher_state().nonce_spec(),
        }
    }

    /// Chaining key and transcript hash are each one digest long.
    pub open spec fn wf(&self) -> bool {
        self.ck_spec().len() == hash_len(self.hash_choice()) && self.h_spec().len() == hash_len(self.hash_choice())
    }

    /// The state a handshake with the given protocol name starts from.
    pub fn initialize(hash_choice: HashChoice, cipher: CipherChoice, name: &[u8]) -> (r: SymmetricState)
        ensures
            r.wf(),
            r.hash_choice() == hash_choice,
            r.h_spec() == initial_hash(hash_choice, name@),
            r.ck_spec() == initial_hash(hash_choice, name@),
            r.cipher_state().cipher_spec() == cipher,
            !r.cipher_state().has_key_spec(),
            r.cipher_state().key_spec() == zero_key(),
            r.cipher_state().nonce_spec() == 0,
    {
        let hlen = hash_length(hash_choice);
        let h = if name.len() <= hlen {
            let mut h: Vec<u8> = crate::bytes::copy_bytes(name);
            let mut i: usize = name.len();
            while i < hlen
                invariant
                    name@.len() <= i <= hlen,
                    h@ == name@ + Seq::new((i - name@.len()) as nat, |j: int| 0u8),
                decreases hlen - i,
            {
                h.push(0u8);
                i = i + 1;
                proof {
                    assert(h@ =~= name@ + Seq::new((i - name@.len()) as nat, |j: int| 0u8));
                }
            }
            h
        } else {
            hash(hash_choice, name)
        };
        let ck = crate::bytes::copy_bytes(h.as_slice());
        SymmetricState { hash: hash_choice, cs: CipherState::new(cipher), ck, h }
    }

    /// Whether the handshake cipher has a key.
    pub fn has_key(&self) -> (r: bool)
        ensures
            r == self.cipher_state().has_key_spec(),
    {
        self.cs.has_key()
    }

    /// Absorbs `data` into the transcript hash.
    pub fn mix_hash(&mut self, data: &[u8])
        requires
            old(self).wf(),
        ensures
            final(self).wf(),
            final(self).hash_choice() == old(self).hash_choice(),
            final(self).cipher_state() == old(self).cipher_state(),
            final(self).ck_spec() == old(self).ck_spec(),
            final(self).h_spec() == hash_spec(old(self).hash_choice(), old(self).h_spec() + data@),
            final(self).view() == mix_hash_v(old(self).view(), data@),
    {
        let input = concat(self.h.as_slice(), data);
        self.h = hash(self.hash, input.as_slice());
    }

    /// Absorbs a Diffie-Hellman output into the chaining key and rekeys the handshake cipher.
    pub fn mix_key(&mut self, ikm: &[u8])
        requires
            old(self).wf(),
        ensures
            final(self).wf(),
            final(self).hash_choice() == old(self).hash_choice(),
            final(self).h_spec() == old(self).h_spec(),
            final(self).ck_spec() == hkdf_spec(old(self).hash_choice(), old(self).ck_spec(), ikm@).0,
            final(self).cipher_state().cipher_spec() == old(self).cipher_state().cipher_spec(),
            final(self).cipher_state().has_key_spec(),
            final(self).cipher_state().key_spec()
                == cipher_key(hkdf_spec(old(self).hash_choice(), old(self).ck_spec(), ikm@).1),
            final(self).cipher_state().nonce_spec() == 0,
            final(self).view() == mix_key_v(old(self).view(), ikm@),
    {
        let (ck, temp_k, _unused) = hkdf(self.hash, self.ck.as_slice(), ikm);
        let k = prefix(temp_k.as_slice(), 32);
        self.ck = ck;
        self.cs = CipherState::with_key(self.cs.cipher(), to_array32(k.as_slice()));
    }

    /// Absorbs a pre-shared key into both the chaining key and the transcript hash, and
    /// rekeys the handshake cipher.
    pub fn mix_key_and_hash(&mut self, ikm: &[u8])
        requires
            old(self).wf(),
        ensures
            final(self).wf(),
            final(self).hash_choice() == old(self).hash_choice(),
            final(self).ck_spec() == hkdf_spec(old(self).hash_choice(), old(self).ck_spec(), ikm@).0,
            final(self).h_spec() == hash_spec(old(self).hash_choice(),
                old(self).h_spec() + hkdf_spec(old(self).hash_choice(), old(self).ck_spec(), ikm@).1),
            final(self).cipher_state().cipher_spec() == old(self).cipher_state().cipher_spec(),
            final(self).cipher_state().has_key_spec(),
            final(self).cipher_state().key_spec()
                == cipher_key(hkdf_spec(old(self).hash_choice(), old(self).ck_spec(), ikm@).2),
            final(self).cipher_state().nonce_spec() == 0,
            final(self).view() == mix_key_and_hash_v(old(self).view(), ikm@),
    {
        let (ck, temp_h, temp_k) = hkdf(self.hash, self.ck.as_slice(), ikm);
        self.ck = ck;
        self.mix_hash(temp_h.as_slice());
        let k = prefix(temp_k.as_slice(), 32);
        self.cs = CipherState::with_key(self.cs.cipher(), to_array32(k.as_slice()));
    }

    /// Encrypts `plaintext` under the handshake cipher with the transcript hash as
    /// associated data, then absorbs the result into the transcript hash.
    pub fn encrypt_and_hash(&mut self, plaintext: &[u8]) -> (r: Result<Vec<u8>, NoiseError>)
        requires
            old(self).wf(),
        ensures
            final(self).wf(),
            final(self).hash_choice() == old(self).hash_choice(),
            final(self).ck_spec() == old(self).ck_spec(),
            match r {
                Ok(c) => {
                    &&& !old(self).cipher_state().has_key_spec() ==> c@ == plaintext@
                    &&& old(self).cipher_state().has_key_spec() ==> c@ == crate::cipherstate::seal_spec(
                        old(self).cipher_state().cipher_spec(), old(self).cipher_state().key_spec(),
                        old(self).cipher_state().nonce_spec(), old(self).h_spec(), plaintext@)
                    &&& final(self).h_spec() == hash_spec(old(self).hash_choice(), old(self).h_spec() + c@)
                },
                Err(_) => old(self).cipher_state().has_key_spec(),
            },
            match r {
                Ok(c) => encrypt_and_hash_v(old(self).view(), plaintext@) == Some((final(self).view(), c@)),
                Err(e) => encrypt_and_hash_v(old(self).view(), plaintext@) is None
                    && (e == NoiseError::NonceExhausted || e == NoiseError::TooLong),
            },
    {
        let c = self.cs.encrypt_ad(self.h.as_slice(), plaintext)?;
        self.mix_hash(c.as_slice());
        Ok(c)
    }

    /// Decrypts `ciphertext` under the handshake cipher with the transcript hash as
    /// associated data, then absorbs the ciphertext into the transcript hash.
    pub fn decrypt_and_hash(&mut self, ciphertext: &[u8]) -> (r: Result<Vec<u8>, NoiseError>)
        requires
            old(self).wf(),
        ensures
            final(self).wf(),
            final(self).hash_choice() == old(self).hash_choice(),
            final(self).ck_spec() == old(self).ck_spec(),
            match r {
                Ok(p) => {
                    &&& !old(self).cipher_state().has_key_spec() ==> p@ == ciphertext@
                    &&& old(self).cipher_state().has_key_spec() ==> ciphertext@ == crate::cipherstate::seal_spec(
                        old(self).cipher_state().cipher_spec(), old(self).cipher_state().key_spec(),
                        old(self).cipher_state().nonce_spec(), old(self).h_spec(), p@)
                    &&& final(self).h_spec() == hash_spec(old(self).hash_choice(), old(self).h_spec() + ciphertext@)
                },
                Err(_) => old(self).cipher_state().has_key_spec(),
            },
            match r {
                Ok(p) => decrypts_to(old(self).view(), ciphertext@, p@)
                    && (forall|q: Seq<u8>| decrypts_to(old(self).view(), ciphertext@, q) ==> q == p@)
                    && final(self).view() == after_decrypt_v(old(self).view(), ciphertext@),
                Err(_) => forall|p: Seq<u8>| !decrypts_to(old(self).view(), ciphertext@, p),
            },
    {
        let p = self.cs.decrypt_ad(self.h.as_slice(), ciphertext)?;
        self.mix_hash(ciphertext);
        Ok(p)
    }

    /// The two transport ciphers derived from the final chaining key: the first for the
    /// initiator's messages, the second for the responder's.
    pub fn split(&self) -> (r: (CipherState, CipherState))
        requires
            self.wf(),
        ensures
            r.0.cipher_spec() == self.cipher_state().cipher_spec(),
            r.1.cipher_spec() == self.cipher_state().cipher_spec(),
            r.0.has_key_spec() && r.1.has_key_spec(),
            r.0.nonce_spec() == 0 && r.1.nonce_spec() == 0,
            r.0.key_spec() == split_keys(self.hash_choice(), self.ck_spec()).0,
            r.1.key_spec() == split_keys(self.hash_choice(), self.ck_spec()).1,
    {
        let empty: Vec<u8> = Vec::new();
        let (t1, t2, _unused) = hkdf(self.hash, self.ck.as_slice(), empty.as_slice());
        let k1 = prefix(t1.as_slice(), 32);
        let k2 = prefix(t2.as_slice(), 32);
        let cipher = self.cs.cipher();
        proof {
            assert(empty@ =~= Seq::<u8>::empty());
        }
        (CipherState::with_key(cipher, to_array32(k1.as_slice())), CipherState::with_key(cipher, to_array32(k2.as_slice())))
    }
}

} // verus!
