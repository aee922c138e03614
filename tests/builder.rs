use noise_core::builder::NoiseBuilder;
use noise_core::descriptor::NoiseParams;
use noise_core::error::NoiseError;
use noise_core::params::{CipherChoice, DHChoice, HandshakePattern, HashChoice};
use noise_core::resolver::{CryptoResolver, DhImpl, RandomSource};

#[test]
fn test_builder() {
    let noise = NoiseBuilder::new("Noise_NN_25519_ChaChaPoly_SHA256".parse().unwrap())
        .preshared_key(&[1, 1, 1, 1, 1, 1, 1])
        .prologue(&[2, 2, 2, 2, 2, 2, 2, 2])
        .local_private_key(&[0u8; 32])
        .build_initiator();
    assert!(noise.is_ok());
}

#[test]
fn test_builder_bad_spec() {
    let params: Result<NoiseParams, _> = "Noise_NK_25519_ChaChaPoly_BLAH256".parse();

    if let Ok(_) = params {
        panic!("NoiseParams should have failed");
    }
}

#[test]
fn test_builder_missing_prereqs() {
    let noise = NoiseBuilder::new("Noise_NK_25519_ChaChaPoly_SHA256".parse().unwrap())
        .preshared_key(&[1, 1, 1, 1, 1, 1, 1])
        .prologue(&[2, 2, 2, 2, 2, 2, 2, 2])
        .local_private_key(&[0u8; 32])
        .build_initiator(); // missing remote key, should result in Err

    if let Ok(_) = noise {
        panic!("builder should have failed on build");
    }
}

#[test]
fn parses_every_field() {
    let p: NoiseParams = "Noise_XK_25519_AESGCM_BLAKE2b".parse().unwrap();
    assert_eq!(p.handshake, HandshakePattern::XK);
    assert_eq!(p.dh, DHChoice::Curve25519);
    assert_eq!(p.cipher, CipherChoice::AESGCM);
    assert_eq!(p.hash, HashChoice::Blake2b);
    assert_eq!(p.name(), b"Noise_XK_25519_AESGCM_BLAKE2b".to_vec());
    let q: NoiseParams = "Noise_N_448_ChaChaPoly_SHA512".parse().unwrap();
    assert_eq!(q.handshake, HandshakePattern::N);
    assert_eq!(q.dh, DHChoice::Ed448);
}

#[test]
fn rejects_near_miss_names() {
    for bad in ["", "Noise_NN_25519_ChaChaPoly_SHA256_", "noise_NN_25519_ChaChaPoly_SHA256",
        "Noise_NN_25519_ChaChaPoly", "Noise_QQ_25519_ChaChaPoly_SHA256"] {
        let r: Result<NoiseParams, NoiseError> = bad.parse();
        assert_eq!(r.err(), Some(NoiseError::UnknownDescriptor));
    }
}

#[test]
fn missing_local_static_key_is_reported_first() {
    let r = NoiseBuilder::new("Noise_XK_25519_ChaChaPoly_SHA256".parse().unwrap()).build_initiator();
    assert_eq!(r.err(), Some(NoiseError::MissingLocalStaticKey));
    let r = NoiseBuilder::new("Noise_NK_25519_ChaChaPoly_SHA256".parse().unwrap()).build_responder();
    assert_eq!(r.err(), Some(NoiseError::MissingLocalStaticKey));
}

#[test]
fn missing_remote_static_key() {
    let r = NoiseBuilder::new("Noise_KN_25519_ChaChaPoly_SHA256".parse().unwrap()).build_responder();
    assert_eq!(r.err(), Some(NoiseError::MissingRemoteStaticKey));
    let r = NoiseBuilder::new("Noise_KN_25519_ChaChaPoly_SHA256".parse().unwrap())
        .remote_public_key(&[7u8; 32])
        .build_responder();
    assert!(r.is_ok());
}

#[test]
fn requirements_of_every_pattern() {
    let cases = [
        ("NN", false, false, false, false),
        ("NK", false, true, true, false),
        ("NX", false, false, true, false),
        ("XN", true, false, false, false),
        ("XK", true, true, true, false),
        ("XX", true, false, true, false),
        ("KN", true, false, false, true),
        ("KK", true, true, true, true),
        ("KX", true, false, true, true),
        ("IN", true, false, false, false),
        ("IK", true, true, true, false),
        ("IX", true, false, true, false),
        ("N", false, true, true, false),
        ("K", true, true, true, true),
        ("X", true, true, true, false),
    ];
    for (pat, i_s, i_rs, r_s, r_rs) in cases {
        let name = format!("Noise_{}_25519_ChaChaPoly_SHA256", pat);
        let p: NoiseParams = name.parse().unwrap();
        for initiator in [true, false] {
            let (needs_s, needs_rs) = if initiator { (i_s, i_rs) } else { (r_s, r_rs) };
            assert_eq!(p.handshake.needs_local_static_key(initiator), needs_s);
            assert_eq!(p.handshake.need_known_remote_pubkey(initiator), needs_rs);
            let bare = NoiseBuilder::new(p);
            let r = if initiator { bare.build_initiator() } else { bare.build_responder() };
            if needs_s {
                assert_eq!(r.err(), Some(NoiseError::MissingLocalStaticKey));
            } else if needs_rs {
                assert_eq!(r.err(), Some(NoiseError::MissingRemoteStaticKey));
            } else {
                assert!(r.is_ok());
            }
            let full = NoiseBuilder::new(p).local_private_key(&[3u8; 32]).remote_public_key(&[9u8; 32]);
            let r = if initiator { full.build_initiator() } else { full.build_responder() };
            assert!(r.is_ok());
        }
    }
}

#[test]
fn default_resolver_has_no_448() {
    let r = NoiseBuilder::new("Noise_NN_448_ChaChaPoly_SHA256".parse().unwrap()).build_initiator();
    assert_eq!(r.err(), Some(NoiseError::NoDh));
}

#[test]
fn wrong_key_length_is_refused() {
    let r = NoiseBuilder::new("Noise_XN_25519_ChaChaPoly_SHA256".parse().unwrap())
        .local_private_key(&[1u8; 31])
        .build_initiator();
    assert_eq!(r.err(), Some(NoiseError::InvalidKeyLength));
}

struct Partial {
    rng: bool,
    dh: bool,
    hash: bool,
    cipher: bool,
}

impl CryptoResolver for Partial {
    fn rng_offered(&self) -> Option<RandomSource> {
        self.resolve_rng()
    }

    fn dh_offered(&self, choice: DHChoice) -> Option<DhImpl> {
        self.resolve_dh(&choice)
    }

    fn hash_offered(&self, choice: HashChoice) -> Option<HashChoice> {
        self.resolve_hash(&choice)
    }

    fn cipher_offered(&self, choice: CipherChoice) -> Option<CipherChoice> {
        self.resolve_cipher(&choice)
    }

    fn resolve_rng(&self) -> Option<RandomSource> {
        if self.rng { Some(RandomSource::Os) } else { None }
    }

    fn resolve_dh(&self, _choice: &DHChoice) -> Option<DhImpl> {
        if self.dh { Some(DhImpl::X25519) } else { None }
    }

    fn resolve_hash(&self, choice: &HashChoice) -> Option<HashChoice> {
        if self.hash { Some(*choice) } else { None }
    }

    fn resolve_cipher(&self, choice: &CipherChoice) -> Option<CipherChoice> {
        if self.cipher { Some(*choice) } else { None }
    }
}

#[test]
fn each_unsupported_capability_is_named() {
    let cases = [
        (Partial { rng: false, dh: true, hash: true, cipher: true }, NoiseError::NoRng),
        (Partial { rng: true, dh: false, hash: true, cipher: true }, NoiseError::NoDh),
        (Partial { rng: true, dh: true, hash: false, cipher: true }, NoiseError::NoHash),
        (Partial { rng: true, dh: true, hash: true, cipher: false }, NoiseError::NoCipher),
    ];
    for (resolver, expected) in cases {
        let p: NoiseParams = "Noise_NN_25519_ChaChaPoly_SHA256".parse().unwrap();
        let r = NoiseBuilder::with_resolver(p, resolver).build_responder();
        assert_eq!(r.err(), Some(expected));
    }
    let p: NoiseParams = "Noise_NN_25519_ChaChaPoly_SHA256".parse().unwrap();
    let all = Partial { rng: true, dh: true, hash: true, cipher: true };
    assert!(NoiseBuilder::with_resolver(p, all).build_initiator().is_ok());
}

#[test]
fn setters_store_copies() {
    let p: NoiseParams = "Noise_NN_25519_ChaChaPoly_SHA256".parse().unwrap();
    let b = NoiseBuilder::new(p)
        .preshared_key(&[1, 2])
        .prologue(&[3])
        .local_private_key(&[4; 32])
        .local_ephemeral_key(&[5; 32])
        .remote_public_key(&[6; 32]);
    assert_eq!(b.psk, Some(vec![1, 2]));
    assert_eq!(b.plog, Some(vec![3]));
    assert_eq!(b.s, Some(vec![4; 32]));
    assert_eq!(b.e, Some(vec![5; 32]));
    assert_eq!(b.rs, Some(vec![6; 32]));
    assert_eq!(b.re, None);
}
