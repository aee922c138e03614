use vstd::prelude::*;
use crate::bytes::{append_bytes, bytes_eq};
use crate::error::NoiseError;
use crate::params::{CipherChoice, DHChoice, HandshakePattern, HashChoice};

verus! {

/// A parsed protocol descriptor: the handshake pattern and the three algorithm choices.
#[derive(Clone, Copy, Debug, PartialEq, Eq, Structural)]
pub struct NoiseParams {
    pub handshake: HandshakePattern,
    pub dh: DHChoice,
    pub cipher: CipherChoice,
    pub hash: HashChoice,
}

/// The descriptor text of a HandshakePattern choice.
pub open spec fn pattern_text_spec(c: HandshakePattern) -> Seq<u8> {
    match c {
        HandshakePattern::NN => seq![78u8, 78u8],  // "NN"
        HandshakePattern::NK => seq![78u8, 75u8],  // "NK"
        HandshakePattern::NX => seq![78u8, 88u8],  // "NX"
        HandshakePattern::XN => seq![88u8, 78u8],  // "XN"
        HandshakePattern::XK => seq![88u8, 75u8],  // "XK"
        HandshakePattern::XX => seq![88u8, 88u8],  // "XX"
        HandshakePattern::KN => seq![75u8, 78u8],  // "KN"
        HandshakePattern::KK => seq![75u8, 75u8],  // "KK"
        HandshakePattern::KX => seq![75u8, 88u8],  // "KX"
        HandshakePattern::IN => seq![73u8, 78u8],  // "IN"
        HandshakePattern::IK => seq![73u8, 75u8],  // "IK"
        HandshakePattern::IX => seq![73u8, 88u8],  // "IX"
        HandshakePattern::N => seq![78u8],  // "N"
        HandshakePattern::K => seq![75u8],  // "K"
        HandshakePattern::X => seq![88u8],  // "X"
    }
}

/// The descriptor text of a HandshakePattern choice.
pub fn pattern_text(c: HandshakePattern) -> (r: Vec<u8>)
    ensures
        r@ == pattern_text_spec(c),
{
    let r = match c {
        HandshakePattern::NN => vec![78u8, 78u8],  // "NN"
        HandshakePattern::NK => vec![78u8, 75u8],  // "NK"
        HandshakePattern::NX => vec![78u8, 88u8],  // "NX"
        HandshakePattern::XN => vec![88u8, 78u8],  // "XN"
        HandshakePattern::XK => vec![88u8, 75u8],  // "XK"
        HandshakePattern::XX => vec![88u8, 88u8],  // "XX"
        HandshakePattern::KN => vec![75u8, 78u8],  // "KN"
        HandshakePattern::KK => vec![75u8, 75u8],  // "KK"
        HandshakePattern::KX => vec![75u8, 88u8],  // "KX"
        HandshakePattern::IN => vec![73u8, 78u8],  // "IN"
        HandshakePattern::IK => vec![73u8, 75u8],  // "IK"
        HandshakePattern::IX => vec![73u8, 88u8],  // "IX"
        HandshakePattern::N => vec![78u8],  // "N"
        HandshakePattern::K => vec![75u8],  // "K"
        HandshakePattern::X => vec![88u8],  // "X"
    };
    assert(r@ =~= pattern_text_spec(c));
    r
}
/// The descriptor text of a DHChoice choice.
pub open spec fn dh_text_spec(c: DHChoice) -> Seq<u8> {
    match c {
        DHChoice::Curve25519 => seq![50u8, 53u8, 53u8, 49u8, 57u8],  // "25519"
        DHChoice::Ed448 => seq![52u8, 52u8, 56u8],  // "448"
    }
}

/// The descriptor text of a DHChoice choice.
pub fn dh_text(c: DHChoice) -> (r: Vec<u8>)
    ensures
        r@ == dh_text_spec(c),
{
    let r = match c {
        DHChoice::Curve25519 => vec![50u8, 53u8, 53u8, 49u8, 57u8],  // "25519"
        DHChoice::Ed448 => vec![52u8, 52u8, 56u8],  // "448"
    };
    assert(r@ =~= dh_text_spec(c));
    r
}
/// The descriptor text of a CipherChoice choice.
pub open spec fn cipher_text_spec(c: CipherChoice) -> Seq<u8> {
    match c {
        CipherChoice::ChaChaPoly => seq![67u8, 104u8, 97u8, 67u8, 104u8, 97u8, 80u8, 111u8, 108u8, 121u8],  // "ChaChaPoly"
        CipherChoice::AESGCM => seq![65u8, 69u8, 83u8, 71u8, 67u8, 77u8],  // "AESGCM"
    }
}

/// The descriptor text of a CipherChoice choice.
pub fn cipher_text(c: CipherChoice) -> (r: Vec<u8>)
    ensures
        r@ == cipher_text_spec(c),
{
    let r = match c {
        CipherChoice::ChaChaPoly => vec![67u8, 104u8, 97u8, 67u8, 104u8, 97u8, 80u8, 111u8, 108u8, 121u8],  // "ChaChaPoly"
        CipherChoice::AESGCM => vec![65u8, 69u8, 83u8, 71u8, 67u8, 77u8],  // "AESGCM"
    };
    assert(r@ =~= cipher_text_spec(c));
    r
}
/// The descriptor text of a HashChoice choice.
pub open spec fn hash_text_spec(c: HashChoice) -> Seq<u8> {
    match c {
        HashChoice::SHA256 => seq![83u8, 72u8, 65u8, 50u8, 53u8, 54u8],  // "SHA256"
        HashChoice::SHA512 => seq![83u8, 72u8, 65u8, 53u8, 49u8, 50u8],  // "SHA512"
        HashChoice::Blake2s => seq![66u8, 76u8, 65u8, 75u8, 69u8, 50u8, 115u8],  // "BLAKE2s"
        HashChoice::Blake2b => seq![66u8, 76u8, 65u8, 75u8, 69u8, 50u8, 98u8],  // "BLAKE2b"
    }
}

/// The descriptor text of a HashChoice choice.
pub fn hash_text(c: HashChoice) -> (r: Vec<u8>)
    ensures
        r@ == hash_text_spec(c),
{
    let r = match c {
        HashChoice::SHA256 => vec![83u8, 72u8, 65u8, 50u8, 53u8, 54u8],  // "SHA256"
        HashChoice::SHA512 => vec![83u8, 72u8, 65u8, 53u8, 49u8, 50u8],  // "SHA512"
        HashChoice::Blake2s => vec![66u8, 76u8, 65u8, 75u8, 69u8, 50u8, 115u8],  // "BLAKE2s"
        HashChoice::Blake2b => vec![66u8, 76u8, 65u8, 75u8, 69u8, 50u8, 98u8],  // "BLAKE2b"
    };
    assert(r@ =~= hash_text_spec(c));
    r
}
/// The text `Noise_<pattern>_<dh>_<cipher>_<hash>` of a descriptor (ASCII; 95 is `_`).
pub open spec fn descriptor_text(p: NoiseParams) -> Seq<u8> {
    seq![78u8, 111u8, 105u8, 115u8, 101u8, 95u8] + pattern_text_spec(p.handshake) + seq![95u8]
        + dh_text_spec(p.dh) + seq![95u8] + cipher_text_spec(p.cipher) + seq![95u8]
        + hash_text_spec(p.hash)
}

impl NoiseParams {
    /// The protocol name of this descriptor, as bytes.
    pub fn name(&self) -> (r: Vec<u8>)
        ensures
            r@ == descriptor_text(*self),
    {
        let mut r: Vec<u8> = vec![78u8, 111u8, 105u8, 115u8, 101u8, 95u8];  // "Noise_"
        let ghost r0 = r@;
        append_bytes(&mut r, pattern_text(self.handshake).as_slice());
        append_bytes(&mut r, vec![95u8].as_slice());
        append_bytes(&mut r, dh_text(self.dh).as_slice());
        append_bytes(&mut r, vec![95u8].as_slice());
        append_bytes(&mut r, cipher_text(self.cipher).as_slice());
        append_bytes(&mut r, vec![95u8].as_slice());
        append_bytes(&mut r, hash_text(self.hash).as_slice());
        assert(r0 =~= seq![78u8, 111u8, 105u8, 115u8, 101u8, 95u8]);
        r
    }

    /// Parses a protocol name: `Some` exactly when the bytes are the name of a descriptor.
    pub fn from_name(text: &[u8]) -> (r: Option<NoiseParams>)
        ensures
            match r {
                Some(p) => descriptor_text(p) == text@,
                None => forall|p: NoiseParams| descriptor_text(p) != text@,
            },
    {
        let pats: [HandshakePattern; 15] = [
            HandshakePattern::NN, HandshakePattern::NK, HandshakePattern::NX,
            HandshakePattern::XN, HandshakePattern::XK, HandshakePattern::XX,
            HandshakePattern::KN, HandshakePattern::KK, HandshakePattern::KX,
            HandshakePattern::IN, HandshakePattern::IK, HandshakePattern::IX,
            HandshakePattern::N, HandshakePattern::K, HandshakePattern::X,
        ];
        let mut i: usize = 0;
        while i < 15
            invariant
                i <= 15,
                pats@ == seq![
                    HandshakePattern::NN, HandshakePattern::NK, HandshakePattern::NX,
                    HandshakePattern::XN, HandshakePattern::XK, HandshakePattern::XX,
                    HandshakePattern::KN, HandshakePattern::KK, HandshakePattern::KX,
                    HandshakePattern::IN, HandshakePattern::IK, HandshakePattern::IX,
                    HandshakePattern::N, HandshakePattern::K, HandshakePattern::X,
                ],
                forall|j: int, p: NoiseParams| 0 <= j < i && p.handshake == pats@[j]
                    ==> descriptor_text(p) != text@,
            decreases 15 - i,
        {
            let found = Self::find_with_pattern(text, pats[i]);
            if found.is_some() {
                return found;
            }
            i = i + 1;
        }
        assert forall|p: NoiseParams| descriptor_text(p) != text@ by {
            let j: int = match p.handshake {
                HandshakePattern::NN => 0,
                HandshakePattern::NK => 1,
                HandshakePattern::NX => 2,
                HandshakePattern::XN => 3,
                HandshakePattern::XK => 4,
                HandshakePattern::XX => 5,
                HandshakePattern::KN => 6,
                HandshakePattern::KK => 7,
                HandshakePattern::KX => 8,
                HandshakePattern::IN => 9,
                HandshakePattern::IK => 10,
                HandshakePattern::IX => 11,
                HandshakePattern::N => 12,
                HandshakePattern::K => 13,
                HandshakePattern::X => 14,
            };
            assert(pats@[j] == p.handshake);
        }
        None
    }

    fn find_with_pattern(text: &[u8], handshake: HandshakePattern) -> (r: Option<NoiseParams>)
        ensures
            match r {
                Some(p) => descriptor_text(p) == text@,
                None => forall|p: NoiseParams| p.handshake == handshake ==> descriptor_text(p) != text@,
            },
    {
        let dhs: [DHChoice; 2] = [DHChoice::Curve25519, DHChoice::Ed448];
        let ciphers: [CipherChoice; 2] = [CipherChoice::ChaChaPoly, CipherChoice::AESGCM];
        let hashes: [HashChoice; 4] = [HashChoice::SHA256, HashChoice::SHA512, HashChoice::Blake2s, HashChoice::Blake2b];
        let mut a: usize = 0;
        while a < 2
            invariant
                a <= 2,
                dhs@ == seq![DHChoice::Curve25519, DHChoice::Ed448],
                ciphers@ == seq![CipherChoice::ChaChaPoly, CipherChoice::AESGCM],
                hashes@ == seq![HashChoice::SHA256, HashChoice::SHA512, HashChoice::Blake2s, HashChoice::Blake2b],
                forall|p: NoiseParams| p.handshake == handshake && (exists|j: int| 0 <= j < a && p.dh == dhs@[j])
                    ==> descriptor_text(p) != text@,
            decreases 2 - a,
        {
            let mut b: usize = 0;
            while b < 2
                invariant
                    a < 2,
                    b <= 2,
                    dhs@ == seq![DHChoice::Curve25519, DHChoice::Ed448],
                    ciphers@ == seq![CipherChoice::ChaChaPoly, CipherChoice::AESGCM],
                    hashes@ == seq![HashChoice::SHA256, HashChoice::SHA512, HashChoice::Blake2s, HashChoice::Blake2b],
                    forall|p: NoiseParams| p.handshake == handshake && (exists|j: int| 0 <= j < a && p.dh == dhs@[j])
                        ==> descriptor_text(p) != text@,
                    forall|p: NoiseParams| p.handshake == handshake && p.dh == dhs@[a as int]
                        && (exists|j: int| 0 <= j < b && p.cipher == ciphers@[j]) ==> descriptor_text(p) != text@,
                decreases 2 - b,
            {
                let mut c: usize = 0;
                while c < 4
                    invariant
                        a < 2,
                        b < 2,
                        c <= 4,
                        dhs@ == seq![DHChoice::Curve25519, DHChoice::Ed448],
                        ciphers@ == seq![CipherChoice::ChaChaPoly, CipherChoice::AESGCM],
                        hashes@ == seq![HashChoice::SHA256, HashChoice::SHA512, HashChoice::Blake2s, HashChoice::Blake2b],
                        forall|p: NoiseParams| p.handshake == handshake && (exists|j: int| 0 <= j < a && p.dh == dhs@[j])
                            ==> descriptor_text(p) != text@,
                        forall|p: NoiseParams| p.handshake == handshake && p.dh == dhs@[a as int]
                            && (exists|j: int| 0 <= j < b && p.cipher == ciphers@[j]) ==> descriptor_text(p) != text@,
                        forall|p: NoiseParams| p.handshake == handshake && p.dh == dhs@[a as int]
                            && p.cipher == ciphers@[b as int]
                            && (exists|j: int| 0 <= j < c && p.hash == hashes@[j]) ==> descriptor_text(p) != text@,
                    decreases 4 - c,
                {
                    let cand = NoiseParams { handshake, dh: dhs[a], cipher: ciphers[b], hash: hashes[c] };
                    let name = cand.name();
                    if bytes_eq(name.as_slice(), text) {
                        return Some(cand);
                    }
                    c = c + 1;
                }
                assert forall|p: NoiseParams| p.handshake == handshake && p.dh == dhs@[a as int]
                    && p.cipher == ciphers@[b as int] implies descriptor_text(p) != text@ by {
                    let j: int = match p.hash {
                        HashChoice::SHA256 => 0,
                        HashChoice::SHA512 => 1,
                        HashChoice::Blake2s => 2,
                        HashChoice::Blake2b => 3,
                    };
                    assert(p.hash == hashes@[j]);
                }
                b = b + 1;
            }
            assert forall|p: NoiseParams| p.handshake == handshake && p.dh == dhs@[a as int]
                implies descriptor_text(p) != text@ by {
                let j: int = match p.cipher {
                    CipherChoice::ChaChaPoly => 0,
                    CipherChoice::AESGCM => 1,
                };
                assert(p.cipher == ciphers@[j]);
            }
            a = a + 1;
        }
        assert forall|p: NoiseParams| p.handshake == handshake implies descriptor_text(p) != text@ by {
            let j: int = match p.dh {
                DHChoice::Curve25519 => 0,
                DHChoice::Ed448 => 1,
            };
            assert(p.dh == dhs@[j]);
        }
        None
    }
}

impl core::str::FromStr for NoiseParams {
    type Err = NoiseError;

    fn from_str(s: &str) -> Result<NoiseParams, NoiseError> {
        match NoiseParams::from_name(s.as_bytes()) {
            Some(p) => Ok(p),
            None => Err(NoiseError::UnknownDescriptor),
        }
    }
}

} // verus!
