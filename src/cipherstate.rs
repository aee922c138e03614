use vstd::prelude::*;
use crate::bytes::copy_bytes;
use crate::error::NoiseError;
use crate::params::CipherChoice;
use crate::primitives::{aesgcm_decrypt, aesgcm_encrypt, aesgcm_seal, chachapoly_decrypt, chachapoly_encrypt, chachapoly_seal};

verus! {

/// The longest plaintext one message may carry: a message is at most 65535 bytes,
/// 16 of which are the tag.
pub const MAX_PLAINTEXT: usize = 65519;

/// The longest associated data accepted.
pub const MAX_AD: usize = 65535;

/// The 12-byte AEAD nonce of counter `n`: four zero bytes, then the counter, little-endian
/// for ChaChaPoly and big-endian for AESGCM.
pub open spec fn nonce_bytes(c: CipherChoice, n: u64) -> Seq<u8> {
    match c {
        CipherChoice::ChaChaPoly => seq![
            0u8, 0u8, 0u8, 0u8,
            n as u8, (n >> 8u64) as u8, (n >> 16u64) as u8, (n >> 24u64) as u8,
            (n >> 32u64) as u8, (n >> 40u64) as u8, (n >> 48u64) as u8, (n >> 56u64) as u8,
        ],
        CipherChoice::AESGCM => seq![
            0u8, 0u8, 0u8, 0u8,
            (n >> 56u64) as u8, (n >> 48u64) as u8, (n >> 40u64) as u8, (n >> 32u64) as u8,
            (n >> 24u64) as u8, (n >> 16u64) as u8, (n >> 8u64) as u8, n as u8,
        ],
    }
}

/// The sealing of `plaintext` under key `k`, counter `n` and associated data `ad`.
pub open spec fn seal_spec(c: CipherChoice, k: Seq<u8>, n: u64, ad: Seq<u8>, plaintext: Seq<u8>) -> Seq<u8> {
    match c {
        CipherChoice::ChaChaPoly => chachapoly_seal(k, nonce_bytes(c, n), ad, plaintext),
        CipherChoice::AESGCM => aesgcm_seal(k, nonce_bytes(c, n), ad, plaintext),
    }
}

fn nonce_for(c: CipherChoice, n: u64) -> (r: [u8; 12])
    ensures
        r@ == nonce_bytes(c, n),
{
    let r: [u8; 12] = match c {
        CipherChoice::ChaChaPoly => [
            0u8, 0u8, 0u8, 0u8,
            n as u8, (n >> 8u64) as u8, (n >> 16u64) as u8, (n >> 24u64) as u8,
            (n >> 32u64) as u8, (n >> 40u64) as u8, (n >> 48u64) as u8, (n >> 56u64) as u8,
        ],
        CipherChoice::AESGCM => [
            0u8, 0u8, 0u8, 0u8,
            (n >> 56u64) as u8, (n >> 48u64) as u8, (n >> 40u64) as u8, (n >> 32u64) as u8,
            (n >> 24u64) as u8, (n >> 16u64) as u8, (n >> 8u64) as u8, n as u8,
        ],
    };
    assert(r@ =~= nonce_bytes(c, n));
    r
}

/// The all-zero key a cipher holds before one is set.
pub open spec fn zero_key() -> Seq<u8> {
    Seq::new(32, |i: int| 0u8)
}

/// An AEAD cipher with a key (once one is set) and a strictly increasing 64-bit nonce.
pub struct CipherState {
    cipher: CipherChoice,
    k: [u8; 32],
    has_k: bool,
    n: u64,
}

impl CipherState {
    /// The cipher algorithm.
    pub closed spec fn cipher_spec(&self) -> CipherChoice {
        self.cipher
    }

    /// The key, meaningful once `has_key_spec` holds.
    pub closed spec fn key_spec(&self) -> Seq<u8> {
        self.k@
    }

    /// Whether a key has been set.
    pub closed spec fn has_key_spec(&self) -> bool {
        self.has_k
    }

    /// The nonce the next operation uses.
    pub closed spec fn nonce_spec(&self) -> u64 {
        self.n
    }

    /// A cipher of the given algorithm with no key yet.
    pub fn new(cipher: CipherChoice) -> (r: CipherState)
        ensures
            r.cipher_spec() == cipher,
            !r.has_key_spec(),
            r.key_spec() == zero_key(),
            r.nonce_spec() == 0,
    {
        let k: [u8; 32] = [0u8; 32];
        assert(k@ =~= zero_key());
        CipherState { cipher, k, has_k: false, n: 0 }
    }

    /// A cipher of the given algorithm keyed with `k`, its nonce at zero.
    pub fn with_key(cipher: CipherChoice, k: [u8; 32]) -> (r: CipherState)
        ensures
            r.cipher_spec() == cipher,
            r.has_key_spec(),
            r.key_spec() == k@,
            r.nonce_spec() == 0,
    {
        CipherState { cipher, k, has_k: true, n: 0 }
    }

    /// The cipher algorithm.
    pub fn cipher(&self) -> (r: CipherChoice)
        ensures
            r == self.cipher_spec(),
    {
        self.cipher
    }

    /// Whether a key has been set.
    pub fn has_key(&self) -> (r: bool)
        ensures
            r == self.has_key_spec(),
    {
        self.has_k
    }

    /// The key.
    pub(crate) fn key_bytes(&self) -> (r: [u8; 32])
        ensures
            r@ == self.key_spec(),
    {
        self.k
    }

    /// The nonce the next operation uses.
    pub fn nonce(&self) -> (r: u64)
        ensures
            r == self.nonce_spec(),
    {
        self.n
    }

    /// Encrypts `plaintext` with associated data `ad` under the current nonce, then
    /// advances the nonce. Without a key the plaintext is returned as it is.
    pub fn encrypt_ad(&mut self, ad: &[u8], plaintext: &[u8]) -> (r: Result<Vec<u8>, NoiseError>)
        ensures
            final(self).cipher_spec() == old(self).cipher_spec(),
            final(self).key_spec() == old(self).key_spec(),
            final(self).has_key_spec() == old(self).has_key_spec(),
            !old(self).has_key_spec() ==> (r matches Ok(v) && v@ == plaintext@)
                && final(self).nonce_spec() == old(self).nonce_spec(),
            old(self).has_key_spec() ==> match r {
                Ok(c) => old(self).nonce_spec() < u64::MAX
                    && plaintext@.len() <= MAX_PLAINTEXT && ad@.len() <= MAX_AD
                    && c@ == seal_spec(old(self).cipher_spec(), old(self).key_spec(), old(self).nonce_spec(), ad@, plaintext@)
                    && c@.len() == plaintext@.len() + 16
                    && final(self).nonce_spec() == old(self).nonce_spec() + 1,
                Err(e) => final(self).nonce_spec() == old(self).nonce_spec()
                    && (if old(self).nonce_spec() == u64::MAX {
                        e == NoiseError::NonceExhausted
                    } else {
                        e == NoiseError::TooLong && (plaintext@.len() > MAX_PLAINTEXT || ad@.len() > MAX_AD)
                    }),
            },
    {
        if !self.has_k {
            return Ok(copy_bytes(plaintext));
        }
        if self.n == u64::MAX {
            return Err(NoiseError::NonceExhausted);
        }
        if plaintext.len() > MAX_PLAINTEXT || ad.len() > MAX_AD {
            return Err(NoiseError::TooLong);
        }
        let nonce = nonce_for(self.cipher, self.n);
        let sealed = match self.cipher {
            CipherChoice::ChaChaPoly => chachapoly_encrypt(&self.k, &nonce, ad, plaintext),
            CipherChoice::AESGCM => aesgcm_encrypt(&self.k, &nonce, ad, plaintext),
        };
        match sealed {
            Some(c) => {
                self.n = self.n + 1;
                Ok(c)
            },
            None => Err(NoiseError::TooLong),
        }
    }

    /// Decrypts `ciphertext` with associated data `ad` under the current nonce. The nonce
    /// advances whether or not decryption succeeds. Without a key the input is returned as
    /// it is. Decrypting what a cipher with the same algorithm, key and nonce sealed gives
    /// back exactly the sealed plaintext.
    pub fn decrypt_ad(&mut self, ad: &[u8], ciphertext: &[u8]) -> (r: Result<Vec<u8>, NoiseError>)
        ensures
            final(self).cipher_spec() == old(self).cipher_spec(),
            final(self).key_spec() == old(self).key_spec(),
            final(self).has_key_spec() == old(self).has_key_spec(),
            !old(self).has_key_spec() ==> (r matches Ok(v) && v@ == ciphertext@)
                && final(self).nonce_spec() == old(self).nonce_spec(),
            old(self).has_key_spec() && old(self).nonce_spec() == u64::MAX ==>
                r == Err::<Vec<u8>, NoiseError>(NoiseError::NonceExhausted)
                && final(self).nonce_spec() == old(self).nonce_spec(),
            old(self).has_key_spec() && old(self).nonce_spec() < u64::MAX ==> match r {
                Ok(p) => final(self).nonce_spec() == old(self).nonce_spec() + 1
                    && ciphertext@.len() <= MAX_PLAINTEXT + 16 && ad@.len() <= MAX_AD
                    && seal_spec(old(self).cipher_spec(), old(self).key_spec(), old(self).nonce_spec(), ad@, p@) == ciphertext@,
                Err(e) => final(self).nonce_spec() == old(self).nonce_spec() + 1
                    && if ciphertext@.len() > MAX_PLAINTEXT + 16 || ad@.len() > MAX_AD {
                        e == NoiseError::TooLong
                    } else {
                        e == NoiseError::DecryptFailed && forall|p: Seq<u8>|
                            seal_spec(old(self).cipher_spec(), old(self).key_spec(), old(self).nonce_spec(), ad@, p) != ciphertext@
                    },
            },
            old(self).has_key_spec() && old(self).nonce_spec() < u64::MAX
                && ciphertext@.len() <= MAX_PLAINTEXT + 16 && ad@.len() <= MAX_AD ==>
                forall|q: Seq<u8>| seal_spec(old(self).cipher_spec(), old(self).key_spec(), old(self).nonce_spec(), ad@, q)
                    == ciphertext@ ==> (r matches Ok(v) && v@ == q),
    {
        if !self.has_k {
            return Ok(copy_bytes(ciphertext));
        }
        if self.n == u64::MAX {
            return Err(NoiseError::NonceExhausted);
        }
        let nonce = nonce_for(self.cipher, self.n);
        self.n = self.n + 1;
        if ciphertext.len() > MAX_PLAINTEXT + 16 || ad.len() > MAX_AD {
            return Err(NoiseError::TooLong);
        }
        let opened = match self.cipher {
            CipherChoice::ChaChaPoly => chachapoly_decrypt(&self.k, &nonce, ad, ciphertext),
            CipherChoice::AESGCM => aesgcm_decrypt(&self.k, &nonce, ad, ciphertext),
        };
        match opened {
            Some(p) => Ok(p),
            None => Err(NoiseError::DecryptFailed),
        }
    }
}

} // verus!
