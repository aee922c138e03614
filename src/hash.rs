use vstd::prelude::*;
use crate::bytes::{append_bytes, concat, copy_bytes};
use crate::params::HashChoice;
use crate::primitives::{blake2b, blake2b_of, blake2s, blake2s_of, sha256, sha256_of, sha512, sha512_of};

verus! {

/// The digest length of a hash function.
pub open spec fn hash_len(h: HashChoice) -> nat {
    match h {
        HashChoice::SHA256 | HashChoice::Blake2s => 32,
        HashChoice::SHA512 | HashChoice::Blake2b => 64,
    }
}

/// The block length of a hash function, the width of an HMAC key pad.
pub open spec fn block_len(h: HashChoice) -> nat {
    match h {
        HashChoice::SHA256 | HashChoice::Blake2s => 64,
        HashChoice::SHA512 | HashChoice::Blake2b => 128,
    }
}

/// The digest of `data` under the chosen hash function.
pub open spec fn hash_spec(h: HashChoice, data: Seq<u8>) -> Seq<u8> {
    match h {
        HashChoice::SHA256 => sha256_of(data),
        HashChoice::SHA512 => sha512_of(data),
        HashChoice::Blake2s => blake2s_of(data),
        HashChoice::Blake2b => blake2b_of(data),
    }
}

/// An HMAC key zero-padded to the block length and XORed with `pad`.
pub open spec fn padded_key(h: HashChoice, key: Seq<u8>, pad: u8) -> Seq<u8> {
    Seq::new(block_len(h), |i: int| if i < key.len() { key[i] ^ pad } else { pad })
}

/// The HMAC key actually used: a key longer than a block is replaced by its digest.
pub open spec fn hmac_key(h: HashChoice, key: Seq<u8>) -> Seq<u8> {
    if key.len() > block_len(h) {
        hash_spec(h, key)
    } else {
        key
    }
}

/// HMAC over the chosen hash.
pub open spec fn hmac_spec(h: HashChoice, key: Seq<u8>, data: Seq<u8>) -> Seq<u8> {
    let k = hmac_key(h, key);
    hash_spec(h, padded_key(h, k, 0x5c) + hash_spec(h, padded_key(h, k, 0x36) + data))
}

/// The three outputs of the HKDF of the chaining key and the input key material.
pub open spec fn hkdf_spec(h: HashChoice, ck: Seq<u8>, ikm: Seq<u8>) -> (Seq<u8>, Seq<u8>, Seq<u8>) {
    let temp = hmac_spec(h, ck, ikm);
    let out1 = hmac_spec(h, temp, seq![1u8]);
    let out2 = hmac_spec(h, temp, out1.push(2u8));
    let out3 = hmac_spec(h, temp, out2.push(3u8));
    (out1, out2, out3)
}

/// The digest length of a hash function.
pub fn hash_length(h: HashChoice) -> (r: usize)
    ensures
        r == hash_len(h),
{
    match h {
        HashChoice::SHA256 | HashChoice::Blake2s => 32,
        HashChoice::SHA512 | HashChoice::Blake2b => 64,
    }
}

/// The digest of `data` under the chosen hash function.
pub fn hash(h: HashChoice, data: &[u8]) -> (r: Vec<u8>)
    ensures
        r@ == hash_spec(h, data@),
        r@.len() == hash_len(h),
{
    match h {
        HashChoice::SHA256 => sha256(data),
        HashChoice::SHA512 => sha512(data),
        HashChoice::Blake2s => blake2s(data),
        HashChoice::Blake2b => blake2b(data),
    }
}

fn pad_key(h: HashChoice, key: &[u8], pad: u8) -> (r: Vec<u8>)
    requires
        key@.len() <= block_len(h),
    ensures
        r@ == padded_key(h, key@, pad),
{
    let blen: usize = match h {
        HashChoice::SHA256 | HashChoice::Blake2s => 64,
        HashChoice::SHA512 | HashChoice::Blake2b => 128,
    };
    let mut r: Vec<u8> = Vec::new();
    let mut i: usize = 0;
    while i < blen
        invariant
            i <= blen,
            blen == block_len(h),
            key@.len() <= blen,
            r@.len() == i,
            forall|j: int| 0 <= j < i ==> r@[j] == (if j < key@.len() { key@[j] ^ pad } else { pad }),
        decreases blen - i,
    {
        if i < key.len() {
            r.push(key[i] ^ pad);
        } else {
            r.push(pad);
        }
        i = i + 1;
    }
    assert(r@ =~= padded_key(h, key@, pad));
    r
}

/// HMAC of `data` under `key` with the chosen hash function.
pub fn hmac(h: HashChoice, key: &[u8], data: &[u8]) -> (r: Vec<u8>)
    ensures
        r@ == hmac_spec(h, key@, data@),
        r@.len() == hash_len(h),
{
    let blen: usize = match h {
        HashChoice::SHA256 | HashChoice::Blake2s => 64,
        HashChoice::SHA512 | HashChoice::Blake2b => 128,
    };
    let k: Vec<u8> = if key.len() > blen {
        hash(h, key)
    } else {
        copy_bytes(key)
    };
    let key = k.as_slice();
    let ipad = pad_key(h, key, 0x36);
    let inner_input = concat(ipad.as_slice(), data);
    let inner = hash(h, inner_input.as_slice());
    let opad = pad_key(h, key, 0x5c);
    let outer_input = concat(opad.as_slice(), inner.as_slice());
    hash(h, outer_input.as_slice())
}

/// HKDF of the chaining key `ck` and the input key material `ikm`: three outputs, each
/// as long as a digest.
pub fn hkdf(h: HashChoice, ck: &[u8], ikm: &[u8]) -> (r: (Vec<u8>, Vec<u8>, Vec<u8>))
    ensures
        (r.0@, r.1@, r.2@) == hkdf_spec(h, ck@, ikm@),
        r.0@.len() == hash_len(h),
        r.1@.len() == hash_len(h),
        r.2@.len() == hash_len(h),
{
    let temp = hmac(h, ck, ikm);
    let one: Vec<u8> = vec![1u8];
    let out1 = hmac(h, temp.as_slice(), one.as_slice());
    let mut in2: Vec<u8> = Vec::new();
    append_bytes(&mut in2, out1.as_slice());
    in2.push(2u8);
    let out2 = hmac(h, temp.as_slice(), in2.as_slice());
    let mut in3: Vec<u8> = Vec::new();
    append_bytes(&mut in3, out2.as_slice());
    in3.push(3u8);
    let out3 = hmac(h, temp.as_slice(), in3.as_slice());
    proof {
        assert(one@ =~= seq![1u8]);
        assert(in2@ =~= out1@.push(2u8));
        assert(in3@ =~= out2@.push(3u8));
    }
    (out1, out2, out3)
}

} // verus!
