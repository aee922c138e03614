use noise_core::hash::{hash, hkdf, hmac};
use noise_core::params::HashChoice;
use noise_core::resolver::DhImpl;

fn hex(s: &str) -> Vec<u8> {
    (0..s.len()).step_by(2).map(|i| u8::from_str_radix(&s[i..i + 2], 16).unwrap()).collect()
}

#[test]
fn digests_of_abc() {
    assert_eq!(hash(HashChoice::SHA256, b"abc"), hex("ba7816bf8f01cfea414140de5dae2223b00361a396177a9cb410ff61f20015ad"));
    assert_eq!(
        hash(HashChoice::SHA512, b"abc"),
        hex("ddaf35a193617abacc417349ae20413112e6fa4e89a97ea20a9eeee64b55d39a2192992a274fc1a836ba3c23a3feebbd454d4423643ce80e2a9ac94fa54ca49f")
    );
    assert_eq!(hash(HashChoice::Blake2s, b"abc"), hex("508c5e8c327c14e2e1a72ba34eeb452f37458b209ed63a294d999b4c86675982"));
    assert_eq!(
        hash(HashChoice::Blake2b, b"abc"),
        hex("ba80a53f981c4d0d6a2797b69f12f6e94c212f14685ac4b74b12bb6fdbffa2d17d87c5392aab792dc252d5de4533cc9518d38aa8dbf1925ab92386edd4009923")
    );
}

#[test]
fn hmac_sha256_known_answer() {
    assert_eq!(
        hmac(HashChoice::SHA256, b"Jefe", b"what do ya want for nothing?"),
        hex("5bdcc146bf60754e6a042426089575c75a003f089d2739839dec58b964ec3843")
    );
}

#[test]
fn hmac_sha256_hashes_long_keys_first() {
    assert_eq!(
        hmac(HashChoice::SHA256, &[0xaa; 131], b"Test Using Larger Than Block-Size Key - Hash Key First"),
        hex("60e431591ee0b67f0d8a26aacbf5b77f8e0bc6213728c5140546040f0ee37f54")
    );
}

#[test]
fn hkdf_outputs_differ_and_chain() {
    let (a, b, c) = hkdf(HashChoice::SHA256, &[0u8; 32], b"ikm");
    assert_eq!(a.len(), 32);
    assert_ne!(a, b);
    assert_ne!(b, c);
    let temp = hmac(HashChoice::SHA256, &[0u8; 32], b"ikm");
    assert_eq!(a, hmac(HashChoice::SHA256, &temp, &[1u8]));
    let mut in2 = a.clone();
    in2.push(2);
    assert_eq!(b, hmac(HashChoice::SHA256, &temp, &in2));
}

#[test]
fn x25519_known_answer() {
    let scalar: [u8; 32] = hex("a546e36bf0527c9d3b16154b82465edd62144c0ac1fc5a18506a2244ba449ac4").try_into().unwrap();
    let point: [u8; 32] = hex("e6db6867583030db3594c1a424b15f7c726624ec26b3353b10a903a6d0ab1c4c").try_into().unwrap();
    assert_eq!(DhImpl::X25519.dh(scalar, point).to_vec(), hex("c3da55379de9c6908e94ea4df28d084f32eccf03491c71f754b4075577a28552"));
}

#[test]
fn x25519_agreement() {
    let a = [3u8; 32];
    let b = [4u8; 32];
    let pa = DhImpl::X25519.public_key(a);
    let pb = DhImpl::X25519.public_key(b);
    assert_ne!(pa, a);
    assert_eq!(DhImpl::X25519.dh(a, pb), DhImpl::X25519.dh(b, pa));
}
