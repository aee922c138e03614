use vstd::prelude::*;
use crate::bytes::{append_bytes, bytes_eq};

verus! {

/// The Diffie-Hellman group named in a protocol descriptor.
#[derive(Clone, Copy, Debug, PartialEq, Eq, Structural)]
pub enum DHChoice {
    Curve25519,
    Ed448,
}

/// The hash function named in a protocol descriptor.
#[derive(Clone, Copy, Debug, PartialEq, Eq, Structural)]
pub enum HashChoice {
    SHA256,
    SHA512,
    Blake2s,
    Blake2b,
}

/// The AEAD cipher named in a protocol descriptor.
#[derive(Clone, Copy, Debug, PartialEq, Eq, Structural)]
pub enum CipherChoice {
    ChaChaPoly,
    AESGCM,
}

/// The handshake patterns: the interactive ones, then the one-way ones.
#[derive(Clone, Copy, Debug, PartialEq, Eq, Structural)]
pub enum HandshakePattern {
    NN,
    NK,
    NX,
    XN,
    XK,
    XX,
    KN,
    KK,
    KX,
    IN,
    IK,
    IX,
    N,
    K,
    X,
}

/// One action of a message line.
#[derive(Clone, Copy, Debug, PartialEq, Eq, Structural)]
pub enum Token {
    E,
    S,
    EE,
    ES,
    SE,
    SS,
}

/// Whether the responder knows the initiator's static key before the first message.
pub open spec fn initiator_key_premessage(p: HandshakePattern) -> bool {
    match p {
        HandshakePattern::KN | HandshakePattern::KK | HandshakePattern::KX | HandshakePattern::K => true,
        _ => false,
    }
}

/// Whether the initiator knows the responder's static key before the first message.
pub open spec fn responder_key_premessage(p: HandshakePattern) -> bool {
    match p {
        HandshakePattern::NK | HandshakePattern::XK | HandshakePattern::KK | HandshakePattern::IK
        | HandshakePattern::N | HandshakePattern::K | HandshakePattern::X => true,
        _ => false,
    }
}

/// The message lines of a pattern, in order; the initiator writes the even-numbered ones.
pub open spec fn pattern_messages(p: HandshakePattern) -> Seq<Seq<Token>> {
    match p {
        HandshakePattern::NN => seq![seq![Token::E], seq![Token::E, Token::EE]],
        HandshakePattern::NK => seq![seq![Token::E, Token::ES], seq![Token::E, Token::EE]],
        HandshakePattern::NX => seq![seq![Token::E], seq![Token::E, Token::EE, Token::S, Token::ES]],
        HandshakePattern::XN => seq![seq![Token::E], seq![Token::E, Token::EE], seq![Token::S, Token::SE]],
        HandshakePattern::XK => seq![
            seq![Token::E, Token::ES],
            seq![Token::E, Token::EE],
            seq![Token::S, Token::SE],
        ],
        HandshakePattern::XX => seq![
            seq![Token::E],
            seq![Token::E, Token::EE, Token::S, Token::ES],
            seq![Token::S, Token::SE],
        ],
        HandshakePattern::KN => seq![seq![Token::E], seq![Token::E, Token::EE, Token::SE]],
        HandshakePattern::KK => seq![seq![Token::E, Token::ES, Token::SS], seq![Token::E, Token::EE, Token::SE]],
        HandshakePattern::KX => seq![
            seq![Token::E],
            seq![Token::E, Token::EE, Token::SE, Token::S, Token::ES],
        ],
        HandshakePattern::IN => seq![seq![Token::E, Token::S], seq![Token::E, Token::EE, Token::SE]],
        HandshakePattern::IK => seq![
            seq![Token::E, Token::ES, Token::S, Token::SS],
            seq![Token::E, Token::EE, Token::SE],
        ],
        HandshakePattern::IX => seq![
            seq![Token::E, Token::S],
            seq![Token::E, Token::EE, Token::SE, Token::S, Token::ES],
        ],
        HandshakePattern::N => seq![seq![Token::E, Token::ES]],
        HandshakePattern::K => seq![seq![Token::E, Token::ES, Token::SS]],
        HandshakePattern::X => seq![seq![Token::E, Token::ES, Token::S, Token::SS]],
    }
}

/// Whether the party in the given role must hold a static key of its own.
pub open spec fn needs_local_static_key_spec(p: HandshakePattern, initiator: bool) -> bool {
    if initiator {
        match p {
            HandshakePattern::N | HandshakePattern::NN | HandshakePattern::NK | HandshakePattern::NX => false,
            _ => true,
        }
    } else {
        match p {
            HandshakePattern::NN | HandshakePattern::XN | HandshakePattern::KN | HandshakePattern::IN => false,
            _ => true,
        }
    }
}

/// Whether the party in the given role must know the peer's static key in advance.
pub open spec fn need_known_remote_pubkey_spec(p: HandshakePattern, initiator: bool) -> bool {
    if initiator {
        responder_key_premessage(p)
    } else {
        initiator_key_premessage(p)
    }
}

impl HandshakePattern {
    /// Whether the party in the given role must hold a static key of its own.
    pub fn needs_local_static_key(&self, initiator: bool) -> (r: bool)
        ensures
            r == needs_local_static_key_spec(*self, initiator),
    {
        if initiator {
            match self {
                HandshakePattern::N | HandshakePattern::NN | HandshakePattern::NK | HandshakePattern::NX => false,
                _ => true,
            }
        } else {
            match self {
                HandshakePattern::NN | HandshakePattern::XN | HandshakePattern::KN | HandshakePattern::IN => false,
                _ => true,
            }
        }
    }

    /// Whether the party in the given role must know the peer's static key in advance.
    pub fn need_known_remote_pubkey(&self, initiator: bool) -> (r: bool)
        ensures
            r == need_known_remote_pubkey_spec(*self, initiator),
    {
        if initiator {
            self.responder_premessage()
        } else {
            self.initiator_premessage()
        }
    }

    /// Whether the responder knows the initiator's static key before the first message.
    pub fn initiator_premessage(&self) -> (r: bool)
        ensures
            r == initiator_key_premessage(*self),
    {
        match self {
            HandshakePattern::KN | HandshakePattern::KK | HandshakePattern::KX | HandshakePattern::K => true,
            _ => false,
        }
    }

    /// Whether the initiator knows the responder's static key before the first message.
    pub fn responder_premessage(&self) -> (r: bool)
        ensures
            r == responder_key_premessage(*self),
    {
        match self {
            HandshakePattern::NK | HandshakePattern::XK | HandshakePattern::KK | HandshakePattern::IK
            | HandshakePattern::N | HandshakePattern::K | HandshakePattern::X => true,
            _ => false,
        }
    }

    /// The number of message lines of the pattern.
    pub fn message_count(&self) -> (r: usize)
        ensures
            r == pattern_messages(*self).len(),
    {
        match self {
            HandshakePattern::XN | HandshakePattern::XK | HandshakePattern::XX => 3,
            HandshakePattern::N | HandshakePattern::K | HandshakePattern::X => 1,
            _ => 2,
        }
    }

    /// The tokens of message line `i`.
    pub fn message_tokens(&self, i: usize) -> (r: Vec<Token>)
        requires
            i < pattern_messages(*self).len(),
        ensures
            r@ == pattern_messages(*self)[i as int],
    {
        let r = match self {
            HandshakePattern::NN => if i == 0 { vec![Token::E] } else { vec![Token::E, Token::EE] },
            HandshakePattern::NK => if i == 0 { vec![Token::E, Token::ES] } else { vec![Token::E, Token::EE] },
            HandshakePattern::NX => if i == 0 {
                vec![Token::E]
            } else {
                vec![Token::E, Token::EE, Token::S, Token::ES]
            },
            HandshakePattern::XN => if i == 0 {
                vec![Token::E]
            } else if i == 1 {
                vec![Token::E, Token::EE]
            } else {
                vec![Token::S, Token::SE]
            },
            HandshakePattern::XK => if i == 0 {
                vec![Token::E, Token::ES]
            } else if i == 1 {
                vec![Token::E, Token::EE]
            } else {
                vec![Token::S, Token::SE]
            },
            HandshakePattern::XX => if i == 0 {
                vec![Token::E]
            } else if i == 1 {
                vec![Token::E, Token::EE, Token::S, Token::ES]
            } else {
                vec![Token::S, Token::SE]
            },
            HandshakePattern::KN => if i == 0 { vec![Token::E] } else { vec![Token::E, Token::EE, Token::SE] },
            HandshakePattern::KK => if i == 0 {
                vec![Token::E, Token::ES, Token::SS]
            } else {
                vec![Token::E, Token::EE, Token::SE]
            },
            HandshakePattern::KX => if i == 0 {
                vec![Token::E]
            } else {
                vec![Token::E, Token::EE, Token::SE, Token::S, Token::ES]
            },
            HandshakePattern::IN => if i == 0 {
                vec![Token::E, Token::S]
            } else {
                vec![Token::E, Token::EE, Token::SE]
            },
            HandshakePattern::IK => if i == 0 {
                vec![Token::E, Token::ES, Token::S, Token::SS]
            } else {
                vec![Token::E, Token::EE, Token::SE]
            },
            HandshakePattern::IX => if i == 0 {
                vec![Token::E, Token::S]
            } else {
                vec![Token::E, Token::EE, Token::SE, Token::S, Token::ES]
            },
            HandshakePattern::N => vec![Token::E, Token::ES],
            HandshakePattern::K => vec![Token::E, Token::ES, Token::SS],
            HandshakePattern::X => vec![Token::E, Token::ES, Token::S, Token::SS],
        };
        assert(r@ =~= pattern_messages(*self)[i as int]);
        r
    }
}

} // verus!
