use noise_core::builder::NoiseBuilder;
use noise_core::cipherstate::CipherState;
use noise_core::descriptor::NoiseParams;
use noise_core::error::NoiseError;
use noise_core::handshake::HandshakeState;
use noise_core::params::CipherChoice;
use noise_core::resolver::DhImpl;

fn params(name: &str) -> NoiseParams {
    name.parse().unwrap()
}

/// Runs the handshake to the end, each side writing in turn; returns the failure if any.
fn run(mut a: HandshakeState, mut b: HandshakeState) -> Result<(HandshakeState, HandshakeState), NoiseError> {
    let mut turn = 0;
    while !a.is_handshake_finished() || !b.is_handshake_finished() {
        let (w, r) = if a.is_my_turn_to_write() { (&mut a, &mut b) } else { (&mut b, &mut a) };
        let payload = vec![turn as u8; turn];
        let msg = w.write_message(&payload)?;
        let got = r.read_message(&msg)?;
        assert_eq!(got, payload);
        turn += 1;
    }
    Ok((a, b))
}

/// Runs the handshake to the end without comparing payloads; returns the failure if any.
fn run_unchecked(mut a: HandshakeState, mut b: HandshakeState) -> Result<(HandshakeState, HandshakeState), NoiseError> {
    while !a.is_handshake_finished() || !b.is_handshake_finished() {
        let (w, r) = if a.is_my_turn_to_write() { (&mut a, &mut b) } else { (&mut b, &mut a) };
        let msg = w.write_message(&[])?;
        r.read_message(&msg)?;
    }
    Ok((a, b))
}

fn transports(a: HandshakeState, b: HandshakeState) -> ((CipherState, CipherState), (CipherState, CipherState)) {
    (a.into_transport().unwrap(), b.into_transport().unwrap())
}

#[test]
fn nn_end_to_end() {
    let p = params("Noise_NN_25519_ChaChaPoly_SHA256");
    let mut i = NoiseBuilder::new(p).build_initiator().unwrap();
    let mut r = NoiseBuilder::new(p).build_responder().unwrap();
    assert!(i.is_initiator());
    assert!(!r.is_initiator());
    let m1 = i.write_message(&[]).unwrap();
    assert_eq!(m1.len(), 32);
    assert_eq!(r.read_message(&m1).unwrap(), Vec::<u8>::new());
    let m2 = r.write_message(b"hello").unwrap();
    assert_eq!(m2.len(), 32 + 5 + 16);
    assert_eq!(i.read_message(&m2).unwrap(), b"hello".to_vec());
    assert!(i.is_handshake_finished() && r.is_handshake_finished());
    let ((mut i_send, mut i_recv), (mut r_recv, mut r_send)) = transports(i, r);
    for len in [0usize, 1, 15, 16, 17, 1000, 65519] {
        let msg: Vec<u8> = (0..len).map(|x| x as u8).collect();
        let c = i_send.encrypt_ad(&[], &msg).unwrap();
        assert_eq!(c.len(), len + 16);
        assert_eq!(r_recv.decrypt_ad(&[], &c).unwrap(), msg);
        let c = r_send.encrypt_ad(b"ad", &msg).unwrap();
        assert_eq!(i_recv.decrypt_ad(b"ad", &c).unwrap(), msg);
    }
    assert_eq!(i_send.nonce(), 7);
    assert_eq!(r_recv.nonce(), 7);
}

#[test]
fn directions_are_swapped_between_sides() {
    let p = params("Noise_NN_25519_ChaChaPoly_SHA256");
    let (i, r) = run(NoiseBuilder::new(p).build_initiator().unwrap(), NoiseBuilder::new(p).build_responder().unwrap()).unwrap();
    let ((mut i0, mut i1), (mut r0, mut r1)) = transports(i, r);
    let c = i0.encrypt_ad(&[], b"to responder").unwrap();
    assert_eq!(r0.decrypt_ad(&[], &c).unwrap(), b"to responder".to_vec());
    let c = r1.encrypt_ad(&[], b"to initiator").unwrap();
    assert_eq!(i1.decrypt_ad(&[], &c).unwrap(), b"to initiator".to_vec());
    let c = i0.encrypt_ad(&[], b"x").unwrap();
    assert_eq!(i1.decrypt_ad(&[], &c).err(), Some(NoiseError::DecryptFailed));
}

fn keypair(seed: u8) -> ([u8; 32], [u8; 32]) {
    let private_key = [seed; 32];
    (private_key, DhImpl::X25519.public_key(private_key))
}

#[test]
fn every_pattern_completes() {
    let (is, ip) = keypair(11);
    let (rs, rp) = keypair(22);
    for pat in ["NN", "NK", "NX", "XN", "XK", "XX", "KN", "KK", "KX", "IN", "IK", "IX", "N", "K", "X"] {
        for suite in ["ChaChaPoly_SHA256", "AESGCM_SHA512", "ChaChaPoly_BLAKE2s", "AESGCM_BLAKE2b"] {
            let p = params(&format!("Noise_{}_25519_{}", pat, suite));
            let i = NoiseBuilder::new(p).local_private_key(&is).remote_public_key(&rp).build_initiator().unwrap();
            let r = NoiseBuilder::new(p).local_private_key(&rs).remote_public_key(&ip).build_responder().unwrap();
            let (i, r) = run(i, r).unwrap();
            let ((mut i0, _), (mut r0, _)) = transports(i, r);
            let c = i0.encrypt_ad(&[], b"payload").unwrap();
            assert_eq!(r0.decrypt_ad(&[], &c).unwrap(), b"payload".to_vec());
        }
    }
}

#[test]
fn wrong_remote_static_key_fails() {
    let (is, _) = keypair(11);
    let (rs, _) = keypair(22);
    let (_, other) = keypair(33);
    let p = params("Noise_NK_25519_ChaChaPoly_SHA256");
    let i = NoiseBuilder::new(p).local_private_key(&is).remote_public_key(&other).build_initiator().unwrap();
    let r = NoiseBuilder::new(p).local_private_key(&rs).build_responder().unwrap();
    assert_eq!(run(i, r).err(), Some(NoiseError::DecryptFailed));
}

#[test]
fn tampered_ciphertext_is_rejected() {
    for cipher in [CipherChoice::ChaChaPoly, CipherChoice::AESGCM] {
        let key = [42u8; 32];
        let mut send = CipherState::with_key(cipher, key);
        let c = send.encrypt_ad(b"ad", b"attack at dawn").unwrap();
        let mut recv = CipherState::with_key(cipher, key);
        assert_eq!(recv.decrypt_ad(b"ad", &c).unwrap(), b"attack at dawn".to_vec());
        for bit in 0..c.len() * 8 {
            let mut t = c.clone();
            t[bit / 8] ^= 1 << (bit % 8);
            let mut recv = CipherState::with_key(cipher, key);
            assert_eq!(recv.decrypt_ad(b"ad", &t).err(), Some(NoiseError::DecryptFailed));
            assert_eq!(recv.nonce(), 1);
        }
        let mut recv = CipherState::with_key(cipher, key);
        assert_eq!(recv.decrypt_ad(b"other", &c).err(), Some(NoiseError::DecryptFailed));
    }
}

#[test]
fn round_trip_advances_each_nonce_by_one() {
    for cipher in [CipherChoice::ChaChaPoly, CipherChoice::AESGCM] {
        let mut send = CipherState::with_key(cipher, [1u8; 32]);
        let mut recv = CipherState::with_key(cipher, [1u8; 32]);
        for msg in [Vec::new(), vec![0u8], vec![255u8; 300]] {
            let before = send.nonce();
            let c = send.encrypt_ad(&[], &msg).unwrap();
            assert_eq!(c.len(), msg.len() + 16);
            if !msg.is_empty() {
                assert_ne!(c[..msg.len()].to_vec(), msg);
            }
            assert_eq!(recv.decrypt_ad(&[], &c).unwrap(), msg);
            assert_eq!(send.nonce(), before + 1);
            assert_eq!(recv.nonce(), before + 1);
        }
    }
}

#[test]
fn keyless_cipher_passes_bytes_through() {
    let mut c = CipherState::new(CipherChoice::ChaChaPoly);
    assert!(!c.has_key());
    assert_eq!(c.encrypt_ad(&[], b"abc").unwrap(), b"abc".to_vec());
    assert_eq!(c.decrypt_ad(&[], b"abc").unwrap(), b"abc".to_vec());
    assert_eq!(c.nonce(), 0);
}

#[test]
fn overlong_plaintext_is_refused() {
    let mut c = CipherState::with_key(CipherChoice::ChaChaPoly, [1u8; 32]);
    assert_eq!(c.encrypt_ad(&[], &vec![0u8; 65520]).err(), Some(NoiseError::TooLong));
    assert_eq!(c.nonce(), 0);
}

#[test]
fn psk_on_one_side_fails() {
    let p = params("Noise_NN_25519_ChaChaPoly_SHA256");
    let i = NoiseBuilder::new(p).preshared_key(&[7u8; 32]).build_initiator().unwrap();
    let r = NoiseBuilder::new(p).build_responder().unwrap();
    match run_unchecked(i, r) {
        Err(e) => assert!(e == NoiseError::DecryptFailed || e == NoiseError::Malformed),
        Ok((i, r)) => {
            let ((mut s, _), (mut v, _)) = transports(i, r);
            let c = s.encrypt_ad(&[], b"x").unwrap();
            assert_eq!(v.decrypt_ad(&[], &c).err(), Some(NoiseError::DecryptFailed));
        }
    }
}

#[test]
fn mismatched_psks_fail() {
    let p = params("Noise_NN_25519_ChaChaPoly_SHA256");
    let i = NoiseBuilder::new(p).preshared_key(&[7u8; 32]).build_initiator().unwrap();
    let r = NoiseBuilder::new(p).preshared_key(&[8u8; 32]).build_responder().unwrap();
    assert_eq!(run_unchecked(i, r).err(), Some(NoiseError::DecryptFailed));
    let i = NoiseBuilder::new(p).preshared_key(&[7u8; 32]).prologue(b"ctx").build_initiator().unwrap();
    let r = NoiseBuilder::new(p).preshared_key(&[7u8; 32]).prologue(b"ctx").build_responder().unwrap();
    assert!(run(i, r).is_ok());
}

#[test]
fn mismatched_prologues_fail() {
    let p = params("Noise_NN_25519_ChaChaPoly_SHA256");
    let i = NoiseBuilder::new(p).prologue(b"one").build_initiator().unwrap();
    let r = NoiseBuilder::new(p).prologue(b"two").build_responder().unwrap();
    assert_eq!(run(i, r).err(), Some(NoiseError::DecryptFailed));
}

#[test]
fn turn_order_is_enforced() {
    let p = params("Noise_NN_25519_ChaChaPoly_SHA256");
    let mut i = NoiseBuilder::new(p).build_initiator().unwrap();
    let mut r = NoiseBuilder::new(p).build_responder().unwrap();
    assert_eq!(i.read_message(&[0u8; 32]).err(), Some(NoiseError::WrongTurn));
    assert_eq!(r.write_message(&[]).err(), Some(NoiseError::WrongTurn));
    let m = i.write_message(&[]).unwrap();
    r.read_message(&m).unwrap();
    let m = r.write_message(&[]).unwrap();
    i.read_message(&m).unwrap();
    assert_eq!(i.write_message(&[]).err(), Some(NoiseError::HandshakeFinished));
    assert_eq!(r.read_message(&m).err(), Some(NoiseError::HandshakeFinished));
}

#[test]
fn failure_invalidates_the_state() {
    let p = params("Noise_NN_25519_ChaChaPoly_SHA256");
    let mut r = NoiseBuilder::new(p).build_responder().unwrap();
    assert_eq!(r.read_message(&[1u8; 10]).err(), Some(NoiseError::Malformed));
    assert_eq!(r.read_message(&[1u8; 32]).err(), Some(NoiseError::Invalidated));
}

#[test]
fn transport_needs_a_finished_handshake() {
    let p = params("Noise_NN_25519_ChaChaPoly_SHA256");
    let i = NoiseBuilder::new(p).build_initiator().unwrap();
    assert_eq!(i.into_transport().err(), Some(NoiseError::HandshakeNotFinished));
}

#[test]
fn fixed_ephemeral_keys_give_fixed_messages() {
    let p = params("Noise_NN_25519_ChaChaPoly_SHA256");
    let mut a = NoiseBuilder::new(p).local_ephemeral_key(&[5u8; 32]).build_initiator().unwrap();
    let mut b = NoiseBuilder::new(p).local_ephemeral_key(&[5u8; 32]).build_initiator().unwrap();
    let ma = a.write_message(b"x").unwrap();
    let mb = b.write_message(b"x").unwrap();
    assert_eq!(ma, mb);
    assert_eq!(ma[..32].to_vec(), DhImpl::X25519.public_key([5u8; 32]).to_vec());
}
