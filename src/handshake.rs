use vstd::prelude::*;
use crate::bytes::{append_bytes, slice_range, to_array32};
use crate::cipherstate::{zero_key, CipherState};
use crate::error::NoiseError;
use crate::params::{initiator_key_premessage, pattern_messages, responder_key_premessage, HandshakePattern, Token};
use crate::resolver::{DhImpl, RandomSource, dh_spec, public_key_spec};
use crate::symmetric::{
    after_decrypt_v, decrypts_to, encrypt_and_hash_v, mix_hash_v, mix_key_and_hash_v, mix_key_v, split_keys, SymmetricState, TranscriptView,
};

verus! {

/// The handshake state machine of one side: its keys, the pattern's progress and the
/// transcript. It is built by `NoiseBuilder`.
pub struct HandshakeState {
    rng: RandomSource,
    dh: DhImpl,
    symmetric: SymmetricState,
    s: [u8; 32],
    s_pub: [u8; 32],
    has_s: bool,
    e: [u8; 32],
    e_pub: [u8; 32],
    has_e: bool,
    rs: [u8; 32],
    has_rs: bool,
    re: [u8; 32],
    has_re: bool,
    initiator: bool,
    pattern: HandshakePattern,
    has_psk: bool,
    msg_index: usize,
    failed: bool,
    transport: (CipherState, CipherState),
}

/// Whether the side in the given role writes message line `i`: the initiator writes the
/// even-numbered lines.
pub open spec fn writes_line(initiator: bool, i: nat) -> bool {
    (i % 2 == 0) == initiator
}

/// The key slots of one side as values, with the role, the group and whether a
/// pre-shared key is in use.
pub struct KeysView {
    pub dh: DhImpl,
    pub initiator: bool,
    pub psk: bool,
    pub s: Seq<u8>,
    pub s_pub: Seq<u8>,
    pub has_s: bool,
    pub e: Seq<u8>,
    pub e_pub: Seq<u8>,
    pub has_e: bool,
    pub rs: Seq<u8>,
    pub has_rs: bool,
    pub re: Seq<u8>,
    pub has_re: bool,
}

/// The transcript after the prologue, the pre-shared key (when there is one) and the static
/// keys that the pattern makes known in advance have been mixed into `t`.
pub open spec fn start_transcript(
    t: TranscriptView,
    prologue: Seq<u8>,
    psk: Option<Seq<u8>>,
    p: HandshakePattern,
    initiator: bool,
    s_pub: Seq<u8>,
    rs: Seq<u8>,
) -> TranscriptView {
    let t1 = mix_hash_v(t, prologue);
    let t2 = match psk {
        Some(k) => mix_key_and_hash_v(t1, k),
        None => t1,
    };
    let t3 = if initiator_key_premessage(p) {
        mix_hash_v(t2, if initiator { s_pub } else { rs })
    } else {
        t2
    };
    if responder_key_premessage(p) {
        mix_hash_v(t3, if initiator { rs } else { s_pub })
    } else {
        t3
    }
}

/// Whether a Diffie-Hellman token uses the local static key (else the local ephemeral one).
pub open spec fn uses_local_static(initiator: bool, tok: Token) -> bool {
    match tok {
        Token::SS => true,
        Token::ES => !initiator,
        Token::SE => initiator,
        _ => false,
    }
}

/// Whether a Diffie-Hellman token uses the remote static key (else the remote ephemeral one).
pub open spec fn uses_remote_static(initiator: bool, tok: Token) -> bool {
    match tok {
        Token::SS => true,
        Token::ES => initiator,
        Token::SE => !initiator,
        _ => false,
    }
}

/// A Diffie-Hellman token: the shared secret of the two keys it names is mixed into the
/// chaining key; `None` when one of them is absent.
pub open spec fn dh_token_v(t: TranscriptView, k: KeysView, tok: Token) -> Option<TranscriptView> {
    let ls = uses_local_static(k.initiator, tok);
    let rstat = uses_remote_static(k.initiator, tok);
    if (ls && !k.has_s) || (!ls && !k.has_e) || (rstat && !k.has_rs) || (!rstat && !k.has_re) {
        None
    } else {
        let private_key = if ls { k.s } else { k.e };
        let public_key = if rstat { k.rs } else { k.re };
        Some(mix_key_v(t, dh_spec(k.dh, private_key, public_key)))
    }
}

/// Writing one token: the new transcript and the bytes it adds to the message.
pub open spec fn write_token_v(t: TranscriptView, k: KeysView, tok: Token) -> Option<(TranscriptView, Seq<u8>)> {
    match tok {
        Token::E => if !k.has_e {
            None
        } else {
            let t1 = mix_hash_v(t, k.e_pub);
            Some((if k.psk { mix_key_v(t1, k.e_pub) } else { t1 }, k.e_pub))
        },
        Token::S => if !k.has_s {
            None
        } else {
            encrypt_and_hash_v(t, k.s_pub)
        },
        _ => match dh_token_v(t, k, tok) {
            Some(t1) => Some((t1, Seq::empty())),
            None => None,
        },
    }
}

/// Writing the first `i` tokens of a line: the transcript and the bytes so far.
pub open spec fn write_prefix_v(t: TranscriptView, k: KeysView, toks: Seq<Token>, i: nat) -> Option<(TranscriptView, Seq<u8>)>
    decreases i,
{
    if i == 0 {
        Some((t, Seq::empty()))
    } else {
        match write_prefix_v(t, k, toks, (i - 1) as nat) {
            Some((t1, out)) => match write_token_v(t1, k, toks[i - 1]) {
                Some((t2, more)) => Some((t2, out + more)),
                None => None,
            },
            None => None,
        }
    }
}

/// Writing a whole line with its payload: the final transcript and the message.
pub open spec fn write_line_v(t: TranscriptView, k: KeysView, toks: Seq<Token>, payload: Seq<u8>) -> Option<(TranscriptView, Seq<u8>)> {
    match write_prefix_v(t, k, toks, toks.len()) {
        Some((t1, out)) => match encrypt_and_hash_v(t1, payload) {
            Some((t2, c)) => Some((t2, out + c)),
            None => None,
        },
        None => None,
    }
}

/// Reading one token of `msg` at position `pos`: the new transcript, key slots and
/// position.
pub open spec fn read_token_v(t: TranscriptView, k: KeysView, tok: Token, msg: Seq<u8>, pos: nat) -> Option<(TranscriptView, KeysView, nat)> {
    match tok {
        Token::E => if msg.len() < pos + 32 {
            None
        } else {
            let re = msg.subrange(pos as int, (pos + 32) as int);
            let t1 = mix_hash_v(t, re);
            Some((if k.psk { mix_key_v(t1, re) } else { t1 }, KeysView { re: re, has_re: true, ..k }, pos + 32))
        },
        Token::S => {
            let len: nat = if t.has_k { 48 } else { 32 };
            if msg.len() < pos + len {
                None
            } else {
                let field = msg.subrange(pos as int, (pos + len) as int);
                if exists|p: Seq<u8>| decrypts_to(t, field, p) && p.len() == 32 {
                    let p = choose|p: Seq<u8>| decrypts_to(t, field, p) && p.len() == 32;
                    Some((after_decrypt_v(t, field), KeysView { rs: p, has_rs: true, ..k }, pos + len))
                } else {
                    None
                }
            }
        },
        _ => match dh_token_v(t, k, tok) {
            Some(t1) => Some((t1, k, pos)),
            None => None,
        },
    }
}

/// Reading the first `i` tokens of a line from `msg`.
pub open spec fn read_prefix_v(t: TranscriptView, k: KeysView, toks: Seq<Token>, msg: Seq<u8>, i: nat) -> Option<(TranscriptView, KeysView, nat)>
    decreases i,
{
    if i == 0 {
        Some((t, k, 0))
    } else {
        match read_prefix_v(t, k, toks, msg, (i - 1) as nat) {
            Some((t1, k1, pos)) => read_token_v(t1, k1, toks[i - 1], msg, pos),
            None => None,
        }
    }
}

/// Reading a whole line from `msg`: the final transcript, key slots and the payload.
pub open spec fn read_line_v(t: TranscriptView, k: KeysView, toks: Seq<Token>, msg: Seq<u8>) -> Option<(TranscriptView, KeysView, Seq<u8>)> {
    match read_prefix_v(t, k, toks, msg, toks.len()) {
        Some((t1, k1, pos)) => {
            let rest = msg.subrange(pos as int, msg.len() as int);
            if exists|p: Seq<u8>| decrypts_to(t1, rest, p) {
                let p = choose|p: Seq<u8>| decrypts_to(t1, rest, p);
                Some((after_decrypt_v(t1, rest), k1, p))
            } else {
                None
            }
        },
        None => None,
    }
}

proof fn lemma_write_prefix_stays_none(t: TranscriptView, k: KeysView, toks: Seq<Token>, i: nat, j: nat)
    requires
        i <= j,
        write_prefix_v(t, k, toks, i) is None,
    ensures
        write_prefix_v(t, k, toks, j) is None,
    decreases j - i,
{
    if j > i {
        lemma_write_prefix_stays_none(t, k, toks, i, (j - 1) as nat);
    }
}

proof fn lemma_read_prefix_stays_none(t: TranscriptView, k: KeysView, toks: Seq<Token>, msg: Seq<u8>, i: nat, j: nat)
    requires
        i <= j,
        read_prefix_v(t, k, toks, msg, i) is None,
    ensures
        read_prefix_v(t, k, toks, msg, j) is None,
    decreases j - i,
{
    if j > i {
        lemma_read_prefix_stays_none(t, k, toks, msg, i, (j - 1) as nat);
    }
}

impl HandshakeState {
    /// The key slots as values.
    pub closed spec fn keys_view(&self) -> KeysView {
        KeysView {
            dh: self.dh,
            initiator: self.initiator,
            psk: self.has_psk,
            s: self.s@,
            s_pub: self.s_pub@,
            has_s: self.has_s,
            e: self.e@,
            e_pub: self.e_pub@,
            has_e: self.has_e,
            rs: self.rs@,
            has_rs: self.has_rs,
            re: self.re@,
            has_re: self.has_re,
        }
    }

    /// Whether this side is the initiator.
    pub closed spec fn is_initiator_spec(&self) -> bool {
        self.initiator
    }

    /// The handshake pattern.
    pub closed spec fn pattern_spec(&self) -> HandshakePattern {
        self.pattern
    }

    /// The number of message lines already processed.
    pub closed spec fn message_index_spec(&self) -> nat {
        self.msg_index as nat
    }

    /// Whether an earlier failure has invalidated this state.
    pub closed spec fn failed_spec(&self) -> bool {
        self.failed
    }

    /// The transcript.
    pub closed spec fn symmetric_spec(&self) -> SymmetricState {
        self.symmetric
    }

    /// Whether each key slot holds a key: local static, local ephemeral, remote static,
    /// remote ephemeral.
    pub closed spec fn key_flags(&self) -> (bool, bool, bool, bool) {
        (self.has_s, self.has_e, self.has_rs, self.has_re)
    }

    /// The local static private key and the remote static public key.
    pub closed spec fn static_keys(&self) -> (Seq<u8>, Seq<u8>) {
        (self.s@, self.rs@)
    }

    /// The local ephemeral private key.
    pub closed spec fn ephemeral_key(&self) -> Seq<u8> {
        self.e@
    }

    /// Whether a pre-shared key was mixed in.
    pub closed spec fn has_psk_spec(&self) -> bool {
        self.has_psk
    }

    /// The pair of transport ciphers, keyed once the handshake has finished.
    pub closed spec fn transport_spec(&self) -> (CipherState, CipherState) {
        self.transport
    }

    /// Whether every message line has been processed.
    pub open spec fn finished_spec(&self) -> bool {
        self.message_index_spec() >= pattern_messages(self.pattern_spec()).len()
    }

    /// The well-formedness of the transcript, the progress and the key slots.
    pub open spec fn inv(&self) -> bool {
        &&& self.symmetric_spec().wf()
        &&& self.message_index_spec() <= pattern_messages(self.pattern_spec()).len()
        &&& self.keys_view().initiator == self.is_initiator_spec()
        &&& self.keys_view().psk == self.has_psk_spec()
        &&& self.keys_view().s_pub == public_key_spec(self.keys_view().dh, self.keys_view().s)
        &&& self.keys_view().has_e ==> self.keys_view().e_pub == public_key_spec(self.keys_view().dh, self.keys_view().e)
    }

    /// The well-formedness every state keeps: the above, and once finished, the transport
    /// ciphers keyed from the final chaining key.
    pub open spec fn wf(&self) -> bool {
        &&& self.inv()
        &&& self.finished_spec() ==> {
            let keys = split_keys(self.symmetric_spec().hash_choice(), self.symmetric_spec().ck_spec());
            &&& self.transport_spec().0.has_key_spec() && self.transport_spec().1.has_key_spec()
            &&& self.transport_spec().0.key_spec() == keys.0
            &&& self.transport_spec().1.key_spec() == keys.1
        }
    }

    /// A new state, before any message; the prologue and the pre-shared key are mixed in
    /// first, then the static keys that the pattern makes known in advance.
    pub(crate) fn new(
        rng: RandomSource,
        dh: DhImpl,
        symmetric: SymmetricState,
        s: [u8; 32],
        e: [u8; 32],
        rs: [u8; 32],
        re: [u8; 32],
        flags: (bool, bool, bool, bool),
        initiator: bool,
        pattern: HandshakePattern,
        prologue: &[u8],
        psk: Option<&[u8]>,
        transport: (CipherState, CipherState),
    ) -> (r: HandshakeState)
        requires
            symmetric.wf(),
        ensures
            r.wf(),
            r.is_initiator_spec() == initiator,
            r.pattern_spec() == pattern,
            r.message_index_spec() == 0,
            !r.failed_spec(),
            r.key_flags() == flags,
            r.static_keys() == (s@, rs@),
            r.ephemeral_key() == e@,
            r.has_psk_spec() == psk.is_some(),
            r.transport_spec() == transport,
            r.symmetric_spec().hash_choice() == symmetric.hash_choice(),
            r.keys_view() == (KeysView {
                dh: dh,
                initiator: initiator,
                psk: psk is Some,
                s: s@,
                s_pub: public_key_spec(dh, s@),
                has_s: flags.0,
                e: e@,
                e_pub: if flags.1 { public_key_spec(dh, e@) } else { zero_key() },
                has_e: flags.1,
                rs: rs@,
                has_rs: flags.2,
                re: re@,
                has_re: flags.3,
            }),
            r.symmetric_spec().view() == start_transcript(symmetric.view(), prologue@,
                match psk { Some(k) => Some(k@), None => None }, pattern, initiator, public_key_spec(dh, s@), rs@),
    {
        let s_pub = dh.public_key(s);
        let e_pub = if flags.1 {
            dh.public_key(e)
        } else {
            let z: [u8; 32] = [0u8; 32];
            assert(z@ =~= zero_key());
            z
        };
        let mut hs = HandshakeState {
            rng, dh, symmetric, s, s_pub, has_s: flags.0, e, e_pub, has_e: flags.1,
            rs, has_rs: flags.2, re, has_re: flags.3, initiator, pattern,
            has_psk: psk.is_some(), msg_index: 0, failed: false, transport,
        };
        hs.symmetric.mix_hash(prologue);
        if let Some(k) = psk {
            hs.symmetric.mix_key_and_hash(k);
        }
        if pattern.initiator_premessage() {
            if initiator {
                hs.symmetric.mix_hash(&s_pub);
            } else {
                hs.symmetric.mix_hash(&rs);
            }
        }
        if pattern.responder_premessage() {
            if initiator {
                hs.symmetric.mix_hash(&rs);
            } else {
                hs.symmetric.mix_hash(&s_pub);
            }
        }
        hs
    }

    /// Whether this side is the initiator.
    pub fn is_initiator(&self) -> (r: bool)
        ensures
            r == self.is_initiator_spec(),
    {
        self.initiator
    }

    /// Whether every message line has been processed.
    pub fn is_handshake_finished(&self) -> (r: bool)
        requires
            self.wf(),
        ensures
            r == self.finished_spec(),
    {
        self.msg_index >= self.pattern.message_count()
    }

    /// Whether it is this side's turn to write the next message.
    pub fn is_my_turn_to_write(&self) -> (r: bool)
        requires
            self.wf(),
        ensures
            r == (!self.finished_spec() && writes_line(self.is_initiator_spec(), self.message_index_spec())),
    {
        self.msg_index < self.pattern.message_count() && ((self.msg_index % 2 == 0) == self.initiator)
    }

    fn mix_dh(&mut self, token: Token) -> (r: Result<(), NoiseError>)
        requires
            old(self).wf(),
            !old(self).finished_spec(),
            token != Token::E && token != Token::S,
        ensures
            final(self).wf(),
            final(self).pattern_spec() == old(self).pattern_spec(),
            final(self).is_initiator_spec() == old(self).is_initiator_spec(),
            final(self).message_index_spec() == old(self).message_index_spec(),
            final(self).failed_spec() == old(self).failed_spec(),
            final(self).transport_spec() == old(self).transport_spec(),
            final(self).keys_view() == old(self).keys_view(),
            final(self).symmetric_spec().hash_choice() == old(self).symmetric_spec().hash_choice(),
            match r {
                Ok(()) => dh_token_v(old(self).symmetric_spec().view(), old(self).keys_view(), token)
                    == Some(final(self).symmetric_spec().view()),
                Err(e) => dh_token_v(old(self).symmetric_spec().view(), old(self).keys_view(), token) is None
                    && e != NoiseError::RngFailed,
            },
    {
        let local_static = match token {
            Token::SS => true,
            Token::ES => !self.initiator,
            Token::SE => self.initiator,
            _ => false,
        };
        let remote_static = match token {
            Token::SS => true,
            Token::ES => self.initiator,
            Token::SE => !self.initiator,
            _ => false,
        };
        if local_static && !self.has_s {
            return Err(NoiseError::MissingLocalStaticKey);
        }
        if !local_static && !self.has_e {
            return Err(NoiseError::MissingKey);
        }
        if remote_static && !self.has_rs {
            return Err(NoiseError::MissingRemoteStaticKey);
        }
        if !remote_static && !self.has_re {
            return Err(NoiseError::MissingKey);
        }
        let private_key = if local_static { self.s } else { self.e };
        let public_key = if remote_static { self.rs } else { self.re };
        let shared = self.dh.dh(private_key, public_key);
        self.symmetric.mix_key(&shared);
        Ok(())
    }

    fn finish_if_done(&mut self)
        requires
            old(self).inv(),
        ensures
            final(self).wf(),
            final(self).pattern_spec() == old(self).pattern_spec(),
            final(self).is_initiator_spec() == old(self).is_initiator_spec(),
            final(self).message_index_spec() == old(self).message_index_spec(),
            final(self).failed_spec() == old(self).failed_spec(),
            final(self).symmetric_spec() == old(self).symmetric_spec(),
            final(self).keys_view() == old(self).keys_view(),
            old(self).finished_spec() ==> {
                let keys = crate::symmetric::split_keys(old(self).symmetric_spec().hash_choice(), old(self).symmetric_spec().ck_spec());
                &&& final(self).transport_spec().0.has_key_spec()
                &&& final(self).transport_spec().1.has_key_spec()
                &&& final(self).transport_spec().0.key_spec() == keys.0
                &&& final(self).transport_spec().1.key_spec() == keys.1
                &&& final(self).transport_spec().0.nonce_spec() == 0
                &&& final(self).transport_spec().1.nonce_spec() == 0
                &&& final(self).transport_spec().0.cipher_spec() == old(self).transport_spec().0.cipher_spec()
                &&& final(self).transport_spec().1.cipher_spec() == old(self).transport_spec().1.cipher_spec()
            },
            !old(self).finished_spec() ==> final(self).transport_spec() == old(self).transport_spec(),
    {
        if self.msg_index >= self.pattern.message_count() {
            let (t1, t2) = self.symmetric.split();
            let k1 = t1.key_bytes();
            let k2 = t2.key_bytes();
            let c1 = self.transport.0.cipher();
            let c2 = self.transport.1.cipher();
            self.transport = (CipherState::with_key(c1, k1), CipherState::with_key(c2, k2));
        }
    }

    /// Writes the next handshake message, carrying `payload`, and returns its bytes. When
    /// the line sends an ephemeral key and none is held, one is first drawn from the
    /// randomness source; the message is then exactly the line written from the transcript
    /// and the key slots as they stood after that draw.
    pub fn write_message(&mut self, payload: &[u8]) -> (r: Result<Vec<u8>, NoiseError>)
        requires
            old(self).wf(),
        ensures
            final(self).wf(),
            final(self).pattern_spec() == old(self).pattern_spec(),
            final(self).is_initiator_spec() == old(self).is_initiator_spec(),
            old(self).failed_spec() ==> r == Err::<Vec<u8>, NoiseError>(NoiseError::Invalidated)
                && *final(self) == *old(self),
            !old(self).failed_spec() && old(self).finished_spec() ==>
                r == Err::<Vec<u8>, NoiseError>(NoiseError::HandshakeFinished) && *final(self) == *old(self),
            !old(self).failed_spec() && !old(self).finished_spec()
                && !writes_line(old(self).is_initiator_spec(), old(self).message_index_spec()) ==>
                r == Err::<Vec<u8>, NoiseError>(NoiseError::WrongTurn) && *final(self) == *old(self),
            r is Ok ==> !old(self).failed_spec() && !old(self).finished_spec()
                && writes_line(old(self).is_initiator_spec(), old(self).message_index_spec())
                && final(self).message_index_spec() == old(self).message_index_spec() + 1
                && !final(self).failed_spec(),
            r matches Ok(m) ==> {
                let k = final(self).keys_view();
                let k0 = old(self).keys_view();
                &&& (k0.has_e ==> k == k0)
                &&& (!k0.has_e ==> k == k0 || k == KeysView { e: k.e, e_pub: k.e_pub, has_e: true, ..k0 })
                &&& write_line_v(old(self).symmetric_spec().view(), k,
                    pattern_messages(old(self).pattern_spec())[old(self).message_index_spec() as int], payload@)
                    == Some((final(self).symmetric_spec().view(), m@))
            },
            r is Ok && final(self).finished_spec() ==> {
                let keys = split_keys(final(self).symmetric_spec().hash_choice(), final(self).symmetric_spec().ck_spec());
                &&& final(self).transport_spec().0.has_key_spec() && final(self).transport_spec().1.has_key_spec()
                &&& final(self).transport_spec().0.key_spec() == keys.0
                &&& final(self).transport_spec().1.key_spec() == keys.1
                &&& final(self).transport_spec().0.nonce_spec() == 0 && final(self).transport_spec().1.nonce_spec() == 0
            },
            (r is Err && !old(self).failed_spec() && !old(self).finished_spec()
                && writes_line(old(self).is_initiator_spec(), old(self).message_index_spec())) ==> final(self).failed_spec(),
            (!old(self).failed_spec() && !old(self).finished_spec()
                && writes_line(old(self).is_initiator_spec(), old(self).message_index_spec())
                && (old(self).keys_view().has_e
                    || !pattern_messages(old(self).pattern_spec())[old(self).message_index_spec() as int].contains(Token::E))
                && write_line_v(old(self).symmetric_spec().view(), old(self).keys_view(),
                    pattern_messages(old(self).pattern_spec())[old(self).message_index_spec() as int], payload@) is Some)
                ==> r is Ok,
            r == Err::<Vec<u8>, NoiseError>(NoiseError::RngFailed) ==> !old(self).failed_spec() && !old(self).finished_spec()
                && writes_line(old(self).is_initiator_spec(), old(self).message_index_spec())
                && !old(self).keys_view().has_e
                && pattern_messages(old(self).pattern_spec())[old(self).message_index_spec() as int].contains(Token::E),
            (r matches Err(e) && e != NoiseError::RngFailed && !old(self).failed_spec() && !old(self).finished_spec()
                && writes_line(old(self).is_initiator_spec(), old(self).message_index_spec()))
                ==> write_line_v(old(self).symmetric_spec().view(), final(self).keys_view(),
                    pattern_messages(old(self).pattern_spec())[old(self).message_index_spec() as int], payload@) is None,
    {
        if self.failed {
            return Err(NoiseError::Invalidated);
        }
        if self.msg_index >= self.pattern.message_count() {
            return Err(NoiseError::HandshakeFinished);
        }
        if (self.msg_index % 2 == 0) != self.initiator {
            return Err(NoiseError::WrongTurn);
        }
        let tokens = self.pattern.message_tokens(self.msg_index);
        if !self.has_e {
            let mut sends_e = false;
            let mut i: usize = 0;
            while i < tokens.len()
                invariant
                    i <= tokens@.len(),
                    sends_e == (exists|j: int| 0 <= j < i && tokens@[j] == Token::E),
                decreases tokens@.len() - i,
            {
                if tokens[i] == Token::E {
                    sends_e = true;
                }
                i = i + 1;
            }
            proof {
                if !sends_e {
                    assert(!tokens@.contains(Token::E));
                }
            }
            if sends_e {
                match self.rng.random_32() {
                    Some(k) => {
                        self.e = k;
                        self.e_pub = self.dh.public_key(k);
                        self.has_e = true;
                    },
                    None => {
                        self.failed = true;
                        return Err(NoiseError::RngFailed);
                    },
                }
            }
        }
        let result = self.write_tokens(&tokens, payload);
        match result {
            Ok(out) => {
                self.msg_index = self.msg_index + 1;
                self.finish_if_done();
                Ok(out)
            },
            Err(e) => {
                self.failed = true;
                Err(e)
            },
        }
    }

    fn write_tokens(&mut self, tokens: &Vec<Token>, payload: &[u8]) -> (r: Result<Vec<u8>, NoiseError>)
        requires
            old(self).wf(),
            !old(self).finished_spec(),
        ensures
            final(self).wf(),
            final(self).pattern_spec() == old(self).pattern_spec(),
            final(self).is_initiator_spec() == old(self).is_initiator_spec(),
            final(self).message_index_spec() == old(self).message_index_spec(),
            final(self).failed_spec() == old(self).failed_spec(),
            final(self).transport_spec() == old(self).transport_spec(),
            final(self).keys_view() == old(self).keys_view(),
            match r {
                Ok(m) => write_line_v(old(self).symmetric_spec().view(), old(self).keys_view(), tokens@, payload@)
                    == Some((final(self).symmetric_spec().view(), m@)),
                Err(e) => write_line_v(old(self).symmetric_spec().view(), old(self).keys_view(), tokens@, payload@) is None
                    && e != NoiseError::RngFailed,
            },
    {
        let mut out: Vec<u8> = Vec::new();
        let mut i: usize = 0;
        while i < tokens.len()
            invariant
                self.wf(),
                !self.finished_spec(),
                i <= tokens@.len(),
                self.pattern_spec() == old(self).pattern_spec(),
                self.is_initiator_spec() == old(self).is_initiator_spec(),
                self.message_index_spec() == old(self).message_index_spec(),
                self.failed_spec() == old(self).failed_spec(),
                self.transport_spec() == old(self).transport_spec(),
                self.keys_view() == old(self).keys_view(),
                write_prefix_v(old(self).symmetric_spec().view(), old(self).keys_view(), tokens@, i as nat)
                    == Some((self.symmetric_spec().view(), out@)),
            decreases tokens.len() - i,
        {
            let ghost t0 = self.symmetric_spec().view();
            let ghost out0 = out@;
            proof {
                assert(write_prefix_v(old(self).symmetric_spec().view(), old(self).keys_view(), tokens@, (i + 1) as nat)
                    == match write_token_v(t0, old(self).keys_view(), tokens@[i as int]) {
                        Some((t2, more)) => Some((t2, out0 + more)),
                        None => None,
                    });
            }
            match tokens[i] {
                Token::E => {
                    if !self.has_e {
                        proof {
                            lemma_write_prefix_stays_none(old(self).symmetric_spec().view(), old(self).keys_view(), tokens@, (i + 1) as nat, tokens@.len());
                        }
                        return Err(NoiseError::MissingKey);
                    }
                    let e_pub = self.e_pub;
                    append_bytes(&mut out, &e_pub);
                    self.symmetric.mix_hash(&e_pub);
                    if self.has_psk {
                        self.symmetric.mix_key(&e_pub);
                    }
                },
                Token::S => {
                    if !self.has_s {
                        proof {
                            lemma_write_prefix_stays_none(old(self).symmetric_spec().view(), old(self).keys_view(), tokens@, (i + 1) as nat, tokens@.len());
                        }
                        return Err(NoiseError::MissingLocalStaticKey);
                    }
                    let s_pub = self.s_pub;
                    match self.symmetric.encrypt_and_hash(&s_pub) {
                        Ok(c) => {
                            append_bytes(&mut out, c.as_slice());
                        },
                        Err(e) => {
                            proof {
                                lemma_write_prefix_stays_none(old(self).symmetric_spec().view(), old(self).keys_view(), tokens@, (i + 1) as nat, tokens@.len());
                            }
                            return Err(e);
                        },
                    }
                },
                dh_token => {
                    match self.mix_dh(dh_token) {
                        Ok(()) => {},
                        Err(e) => {
                            proof {
                                lemma_write_prefix_stays_none(old(self).symmetric_spec().view(), old(self).keys_view(), tokens@, (i + 1) as nat, tokens@.len());
                            }
                            return Err(e);
                        },
                    }
                    proof {
                        assert(out0 + Seq::<u8>::empty() =~= out0);
                    }
                },
            }
            proof {
                assert(write_token_v(t0, old(self).keys_view(), tokens@[i as int]) == Some((self.symmetric_spec().view(), out@.subrange(out0.len() as int, out@.len() as int))));
                assert(out@ =~= out0 + out@.subrange(out0.len() as int, out@.len() as int));
            }
            i = i + 1;
        }
        let c = self.symmetric.encrypt_and_hash(payload)?;
        append_bytes(&mut out, c.as_slice());
        Ok(out)
    }

    /// Reads the peer's next handshake message and returns the payload it carries: exactly
    /// the line read from the transcript and the key slots as they stood. A message that
    /// cannot be read invalidates the state, which then refuses every further call.
    #[verifier::rlimit(50)]
    pub fn read_message(&mut self, message: &[u8]) -> (r: Result<Vec<u8>, NoiseError>)
        requires
            old(self).wf(),
        ensures
            final(self).wf(),
            final(self).pattern_spec() == old(self).pattern_spec(),
            final(self).is_initiator_spec() == old(self).is_initiator_spec(),
            old(self).failed_spec() ==> r == Err::<Vec<u8>, NoiseError>(NoiseError::Invalidated)
                && *final(self) == *old(self),
            !old(self).failed_spec() && old(self).finished_spec() ==>
                r == Err::<Vec<u8>, NoiseError>(NoiseError::HandshakeFinished) && *final(self) == *old(self),
            !old(self).failed_spec() && !old(self).finished_spec()
                && writes_line(old(self).is_initiator_spec(), old(self).message_index_spec()) ==>
                r == Err::<Vec<u8>, NoiseError>(NoiseError::WrongTurn) && *final(self) == *old(self),
            r is Ok ==> !old(self).failed_spec() && !old(self).finished_spec()
                && !writes_line(old(self).is_initiator_spec(), old(self).message_index_spec())
                && final(self).message_index_spec() == old(self).message_index_spec() + 1
                && !final(self).failed_spec(),
            r matches Ok(p) ==> read_line_v(old(self).symmetric_spec().view(), old(self).keys_view(),
                pattern_messages(old(self).pattern_spec())[old(self).message_index_spec() as int], message@)
                == Some((final(self).symmetric_spec().view(), final(self).keys_view(), p@)),
            (!old(self).failed_spec() && !old(self).finished_spec()
                && !writes_line(old(self).is_initiator_spec(), old(self).message_index_spec())
                && read_line_v(old(self).symmetric_spec().view(), old(self).keys_view(),
                    pattern_messages(old(self).pattern_spec())[old(self).message_index_spec() as int], message@) is None)
                ==> r is Err && final(self).failed_spec(),
            (!old(self).failed_spec() && !old(self).finished_spec()
                && !writes_line(old(self).is_initiator_spec(), old(self).message_index_spec())
                && read_line_v(old(self).symmetric_spec().view(), old(self).keys_view(),
                    pattern_messages(old(self).pattern_spec())[old(self).message_index_spec() as int], message@) is Some)
                ==> r is Ok,
            r is Ok && final(self).finished_spec() ==> {
                let keys = split_keys(final(self).symmetric_spec().hash_choice(), final(self).symmetric_spec().ck_spec());
                &&& final(self).transport_spec().0.has_key_spec() && final(self).transport_spec().1.has_key_spec()
                &&& final(self).transport_spec().0.key_spec() == keys.0
                &&& final(self).transport_spec().1.key_spec() == keys.1
                &&& final(self).transport_spec().0.nonce_spec() == 0 && final(self).transport_spec().1.nonce_spec() == 0
            },
            (r is Err && !old(self).failed_spec() && !old(self).finished_spec()
                && !writes_line(old(self).is_initiator_spec(), old(self).message_index_spec())) ==> final(self).failed_spec(),
    {
        if self.failed {
            return Err(NoiseError::Invalidated);
        }
        if self.msg_index >= self.pattern.message_count() {
            return Err(NoiseError::HandshakeFinished);
        }
        if (self.msg_index % 2 == 0) == self.initiator {
            return Err(NoiseError::WrongTurn);
        }
        let tokens = self.pattern.message_tokens(self.msg_index);
        let result = self.read_tokens(&tokens, message);
        match result {
            Ok(payload) => {
                self.msg_index = self.msg_index + 1;
                self.finish_if_done();
                Ok(payload)
            },
            Err(e) => {
                self.failed = true;
                Err(e)
            },
        }
    }

    fn read_tokens(&mut self, tokens: &Vec<Token>, message: &[u8]) -> (r: Result<Vec<u8>, NoiseError>)
        requires
            old(self).wf(),
            !old(self).finished_spec(),
        ensures
            final(self).wf(),
            final(self).pattern_spec() == old(self).pattern_spec(),
            final(self).is_initiator_spec() == old(self).is_initiator_spec(),
            final(self).message_index_spec() == old(self).message_index_spec(),
            final(self).failed_spec() == old(self).failed_spec(),
            final(self).transport_spec() == old(self).transport_spec(),
            match r {
                Ok(p) => read_line_v(old(self).symmetric_spec().view(), old(self).keys_view(), tokens@, message@)
                    == Some((final(self).symmetric_spec().view(), final(self).keys_view(), p@)),
                Err(_) => read_line_v(old(self).symmetric_spec().view(), old(self).keys_view(), tokens@, message@) is None,
            },
    {
        let mut pos: usize = 0;
        let mut i: usize = 0;
        while i < tokens.len()
            invariant
                self.wf(),
                !self.finished_spec(),
                i <= tokens@.len(),
                pos <= message@.len(),
                self.pattern_spec() == old(self).pattern_spec(),
                self.is_initiator_spec() == old(self).is_initiator_spec(),
                self.message_index_spec() == old(self).message_index_spec(),
                self.failed_spec() == old(self).failed_spec(),
                self.transport_spec() == old(self).transport_spec(),
                self.keys_view().dh == old(self).keys_view().dh,
                read_prefix_v(old(self).symmetric_spec().view(), old(self).keys_view(), tokens@, message@, i as nat)
                    == Some((self.symmetric_spec().view(), self.keys_view(), pos as nat)),
            decreases tokens.len() - i,
        {
            let ghost t0 = self.symmetric_spec().view();
            let ghost k0 = self.keys_view();
            let ghost pos0 = pos as nat;
            proof {
                assert(read_prefix_v(old(self).symmetric_spec().view(), old(self).keys_view(), tokens@, message@, (i + 1) as nat)
                    == read_token_v(t0, k0, tokens@[i as int], message@, pos0));
            }
            match tokens[i] {
                Token::E => {
                    if message.len() - pos < 32 {
                        proof {
                            lemma_read_prefix_stays_none(old(self).symmetric_spec().view(), old(self).keys_view(), tokens@, message@, (i + 1) as nat, tokens@.len());
                        }
                        return Err(NoiseError::Malformed);
                    }
                    let re = slice_range(message, pos, pos + 32);
                    pos = pos + 32;
                    self.re = to_array32(re.as_slice());
                    self.has_re = true;
                    self.symmetric.mix_hash(re.as_slice());
                    if self.has_psk {
                        self.symmetric.mix_key(re.as_slice());
                    }
                },
                Token::S => {
                    let len: usize = if self.symmetric.has_key() { 48 } else { 32 };
                    if message.len() - pos < len {
                        proof {
                            lemma_read_prefix_stays_none(old(self).symmetric_spec().view(), old(self).keys_view(), tokens@, message@, (i + 1) as nat, tokens@.len());
                        }
                        return Err(NoiseError::Malformed);
                    }
                    let field = slice_range(message, pos, pos + len);
                    pos = pos + len;
                    match self.symmetric.decrypt_and_hash(field.as_slice()) {
                        Ok(rs) => {
                            if rs.len() != 32 {
                                proof {
                                    lemma_read_prefix_stays_none(old(self).symmetric_spec().view(), old(self).keys_view(), tokens@, message@, (i + 1) as nat, tokens@.len());
                                }
                                return Err(NoiseError::Malformed);
                            }
                            self.rs = to_array32(rs.as_slice());
                            self.has_rs = true;
                        },
                        Err(e) => {
                            proof {
                                lemma_read_prefix_stays_none(old(self).symmetric_spec().view(), old(self).keys_view(), tokens@, message@, (i + 1) as nat, tokens@.len());
                            }
                            return Err(e);
                        },
                    }
                },
                dh_token => {
                    match self.mix_dh(dh_token) {
                        Ok(()) => {},
                        Err(e) => {
                            proof {
                                lemma_read_prefix_stays_none(old(self).symmetric_spec().view(), old(self).keys_view(), tokens@, message@, (i + 1) as nat, tokens@.len());
                            }
                            return Err(e);
                        },
                    }
                },
            }
            i = i + 1;
        }
        let rest = slice_range(message, pos, message.len());
        self.symmetric.decrypt_and_hash(rest.as_slice())
    }

    /// The two transport ciphers, once the handshake has finished: the first carries the
    /// initiator's messages and the second the responder's, on both sides alike.
    pub fn into_transport(self) -> (r: Result<(CipherState, CipherState), NoiseError>)
        requires
            self.wf(),
        ensures
            self.finished_spec() ==> r == Ok::<(CipherState, CipherState), NoiseError>(self.transport_spec()),
            !self.finished_spec() ==> r == Err::<(CipherState, CipherState), NoiseError>(NoiseError::HandshakeNotFinished),
    {
        if self.msg_index >= self.pattern.message_count() {
            Ok(self.transport)
        } else {
            Err(NoiseError::HandshakeNotFinished)
        }
    }
}

/// Two finished sides whose transcripts reached the same chaining key under the same hash
/// hold the same transport keys in the same order: on both sides the first cipher carries
/// the initiator's messages and the second the responder's, so one side's sending cipher
/// is keyed as the other side's receiving cipher.
pub proof fn lemma_transport_pairs_match(a: HandshakeState, b: HandshakeState)
    requires
        a.wf(),
        b.wf(),
        a.finished_spec(),
        b.finished_spec(),
        a.symmetric_spec().hash_choice() == b.symmetric_spec().hash_choice(),
        a.symmetric_spec().ck_spec() == b.symmetric_spec().ck_spec(),
    ensures
        a.transport_spec().0.key_spec() == b.transport_spec().0.key_spec(),
        a.transport_spec().1.key_spec() == b.transport_spec().1.key_spec(),
        a.transport_spec().0.has_key_spec() && b.transport_spec().0.has_key_spec(),
        a.transport_spec().1.has_key_spec() && b.transport_spec().1.has_key_spec(),
{
}

} // verus!
