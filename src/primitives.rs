use vstd::prelude::*;
use sha2::Digest;
use chacha20poly1305::aead::Aead;
use chacha20poly1305::KeyInit;

verus! {

/// The SHA-256 digest of a byte string.
pub uninterp spec fn sha256_of(data: Seq<u8>) -> Seq<u8>;

/// The SHA-512 digest of a byte string.
pub uninterp spec fn sha512_of(data: Seq<u8>) -> Seq<u8>;

/// The BLAKE2s-256 digest of a byte string.
pub uninterp spec fn blake2s_of(data: Seq<u8>) -> Seq<u8>;

/// The BLAKE2b-512 digest of a byte string.
pub uninterp spec fn blake2b_of(data: Seq<u8>) -> Seq<u8>;

/// The X25519 function of a scalar and a u-coordinate.
pub uninterp spec fn x25519_of(scalar: Seq<u8>, point: Seq<u8>) -> Seq<u8>;

/// ChaCha20-Poly1305 sealing under a key and a 12-byte nonce: ciphertext then tag.
pub uninterp spec fn chachapoly_seal(key: Seq<u8>, nonce: Seq<u8>, ad: Seq<u8>, plaintext: Seq<u8>) -> Seq<u8>;

/// AES-256-GCM sealing under a key and a 12-byte nonce: ciphertext then tag.
pub uninterp spec fn aesgcm_seal(key: Seq<u8>, nonce: Seq<u8>, ad: Seq<u8>, plaintext: Seq<u8>) -> Seq<u8>;

/// Relies on sha2::Sha256::digest: a 32-byte digest that depends on the input alone.
#[verifier::external_body]
pub(crate) fn sha256(data: &[u8]) -> (r: Vec<u8>)
    ensures
        r@ == sha256_of(data@),
        r@.len() == 32,
{
    sha2::Sha256::digest(data).to_vec()
}

/// Relies on sha2::Sha512::digest: a 64-byte digest that depends on the input alone.
#[verifier::external_body]
pub(crate) fn sha512(data: &[u8]) -> (r: Vec<u8>)
    ensures
        r@ == sha512_of(data@),
        r@.len() == 64,
{
    sha2::Sha512::digest(data).to_vec()
}

/// Relies on blake2::Blake2s256::digest: a 32-byte digest that depends on the input alone.
#[verifier::external_body]
pub(crate) fn blake2s(data: &[u8]) -> (r: Vec<u8>)
    ensures
        r@ == blake2s_of(data@),
        r@.len() == 32,
{
    blake2::Blake2s256::digest(data).to_vec()
}

/// Relies on blake2::Blake2b512::digest: a 64-byte digest that depends on the input alone.
#[verifier::external_body]
pub(crate) fn blake2b(data: &[u8]) -> (r: Vec<u8>)
    ensures
        r@ == blake2b_of(data@),
        r@.len() == 64,
{
    blake2::Blake2b512::digest(data).to_vec()
}

/// Relies on x25519_dalek::x25519: the shared secret (or, with the base point, the public
/// key) as a function of the scalar and the point alone.
#[verifier::external_body]
pub(crate) fn x25519(scalar: [u8; 32], point: [u8; 32]) -> (r: [u8; 32])
    ensures
        r@ == x25519_of(scalar@, point@),
{
    x25519_dalek::x25519(scalar, point)
}

/// Relies on ChaCha20Poly1305's `Aead::encrypt`: it refuses only inputs far longer than
/// 65535 bytes, and appends a 16-byte tag.
#[verifier::external_body]
pub(crate) fn chachapoly_encrypt(key: &[u8; 32], nonce: &[u8; 12], ad: &[u8], plaintext: &[u8]) -> (r: Option<Vec<u8>>)
    ensures
        r matches Some(c) ==> c@ == chachapoly_seal(key@, nonce@, ad@, plaintext@),
        r matches Some(c) ==> c@.len() == plaintext@.len() + 16,
        plaintext@.len() <= 65535 && ad@.len() <= 65535 ==> r is Some,
{
    let cipher = chacha20poly1305::ChaCha20Poly1305::new(&(*key).into());
    let payload = chacha20poly1305::aead::Payload { msg: plaintext, aad: ad };
    cipher.encrypt(&(*nonce).into(), payload).ok()
}

/// Relies on ChaCha20Poly1305's `Aead::decrypt`: it returns the plaintext whose sealing is
/// exactly the given ciphertext (there is at most one), and fails when there is none.
#[verifier::external_body]
pub(crate) fn chachapoly_decrypt(key: &[u8; 32], nonce: &[u8; 12], ad: &[u8], ciphertext: &[u8]) -> (r: Option<Vec<u8>>)
    requires
        ciphertext@.len() <= 65535 + 16,
        ad@.len() <= 65535,
    ensures
        r matches Some(p) ==> chachapoly_seal(key@, nonce@, ad@, p@) == ciphertext@,
        r matches Some(p) ==> forall|q: Seq<u8>| chachapoly_seal(key@, nonce@, ad@, q) == ciphertext@ ==> q == p@,
        r is None ==> forall|p: Seq<u8>| chachapoly_seal(key@, nonce@, ad@, p) != ciphertext@,
{
    let cipher = chacha20poly1305::ChaCha20Poly1305::new(&(*key).into());
    let payload = chacha20poly1305::aead::Payload { msg: ciphertext, aad: ad };
    cipher.decrypt(&(*nonce).into(), payload).ok()
}

/// Relies on Aes256Gcm's `Aead::encrypt`: it refuses only inputs far longer than 65535
/// bytes, and appends a 16-byte tag.
#[verifier::external_body]
pub(crate) fn aesgcm_encrypt(key: &[u8; 32], nonce: &[u8; 12], ad: &[u8], plaintext: &[u8]) -> (r: Option<Vec<u8>>)
    ensures
        r matches Some(c) ==> c@ == aesgcm_seal(key@, nonce@, ad@, plaintext@),
        r matches Some(c) ==> c@.len() == plaintext@.len() + 16,
        plaintext@.len() <= 65535 && ad@.len() <= 65535 ==> r is Some,
{
    let cipher = aes_gcm::Aes256Gcm::new(&(*key).into());
    let payload = aes_gcm::aead::Payload { msg: plaintext, aad: ad };
    cipher.encrypt(&(*nonce).into(), payload).ok()
}

/// Relies on Aes256Gcm's `Aead::decrypt`: it returns the plaintext whose sealing is
/// exactly the given ciphertext (there is at most one), and fails when there is none.
#[verifier::external_body]
pub(crate) fn aesgcm_decrypt(key: &[u8; 32], nonce: &[u8; 12], ad: &[u8], ciphertext: &[u8]) -> (r: Option<Vec<u8>>)
    requires
        ciphertext@.len() <= 65535 + 16,
        ad@.len() <= 65535,
    ensures
        r matches Some(p) ==> aesgcm_seal(key@, nonce@, ad@, p@) == ciphertext@,
        r matches Some(p) ==> forall|q: Seq<u8>| aesgcm_seal(key@, nonce@, ad@, q) == ciphertext@ ==> q == p@,
        r is None ==> forall|p: Seq<u8>| aesgcm_seal(key@, nonce@, ad@, p) != ciphertext@,
{
    let cipher = aes_gcm::Aes256Gcm::new(&(*key).into());
    let payload = aes_gcm::aead::Payload { msg: ciphertext, aad: ad };
    cipher.decrypt(&(*nonce).into(), payload).ok()
}

/// Relies on getrandom::getrandom: 32 bytes from the operating system, or nothing when
/// the source fails. Nothing is known of the bytes.
#[verifier::external_body]
pub(crate) fn os_random_32() -> (r: Option<[u8; 32]>)
{
    let mut buf = [0u8; 32];
    match getrandom::getrandom(&mut buf) {
        Ok(()) => Some(buf),
        Err(_) => None,
    }
}

} // verus!
