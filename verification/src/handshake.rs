//! The Noise-pattern handshake: a three-message state machine that
//! mutually authenticates a connection and derives one cipher state per
//! traffic direction. This client is always the initiator. No
//! transition skips a step; any failure is fatal to the connection and
//! the handshake is never retried in place.

use vstd::prelude::*;
use vstd::string::StrSliceExecFns;
use vstd::string::StringSliceAdditionalSpecFns;
use vstd::utf8::encode_utf8;
use crate::crypto::{
    aes256_gcm_open, aes256_gcm_open_of, aes256_gcm_seal, aes256_gcm_seal_of, hkdf_sha256_64,
    hkdf_sha256_64_of, sha256, sha256_of, x25519_basepoint, x25519_basepoint_bytes, x25519_dh,
    x25519_of,
};
use crate::encoding::{copy_range, push_u64_be, u64_be_bytes};

verus! {

/// The handshake pattern and cipher-suite identifier, padded to the
/// hash width; it seeds the transcript hash and the chaining key.
pub const NOISE_START_PATTERN: &'static str = "Noise_XX_25519_AESGCM_SHA256\x00\x00\x00\x00";

/// Errors that end a handshake. All are fatal: the caller tears the
/// connection down and starts over with fresh state.
#[derive(Clone, Copy, Debug, PartialEq, Eq, Structural)]
pub enum HandshakeError {
    /// A message arrived or was requested in a non-matching state.
    OutOfOrder,
    /// A message too short for its fixed-size fields, or key material
    /// of the wrong length.
    MalformedMessage,
    /// An authentication tag did not verify.
    DecryptFailed,
}

/// The stages of the initiator's state machine, in order.
#[derive(Clone, Copy, Debug, PartialEq, Eq, Structural)]
pub enum HandshakeStage {
    Start,
    SentMessage1,
    ReceivedMessage2,
    SentMessage3,
    /// A failed handshake; nothing further is accepted.
    Failed,
}

// ---------------------------------------------------------------------------
// The symbolic model of the handshake
// ---------------------------------------------------------------------------

/// Mixing data into the transcript hash.
pub open spec fn mix_hash(h: Seq<u8>, data: Seq<u8>) -> Seq<u8> {
    sha256_of(h + data)
}

/// Mixing key material into the chaining key: the new chaining key.
pub open spec fn mix_key_ck(ck: Seq<u8>, ikm: Seq<u8>) -> Seq<u8> {
    hkdf_sha256_64_of(ck, ikm).take(32)
}

/// Mixing key material into the chaining key: the new cipher key.
pub open spec fn mix_key_k(ck: Seq<u8>, ikm: Seq<u8>) -> Seq<u8> {
    hkdf_sha256_64_of(ck, ikm).skip(32)
}

/// The initial transcript hash: the pattern name itself when it already
/// fills the hash width, else its digest.
pub open spec fn hs_init_h() -> Seq<u8> {
    let p = encode_utf8(NOISE_START_PATTERN@);
    if p.len() == 32 {
        p
    } else {
        sha256_of(p)
    }
}

/// The twelve-byte nonce of a counter: four zero bytes, then the
/// counter big-endian.
pub open spec fn nonce_of(counter: u64) -> Seq<u8> {
    seq![0u8, 0u8, 0u8, 0u8] + u64_be_bytes(counter)
}

/// The mathematical value of a [`HandshakeState`].
pub struct HsV {
    pub stage: HandshakeStage,
    pub h: Seq<u8>,
    pub ck: Seq<u8>,
    pub k: Seq<u8>,
    pub e_priv: Seq<u8>,
    pub s_priv: Seq<u8>,
    pub s_pub: Seq<u8>,
    pub re: Seq<u8>,
}

/// A fresh initiator state: pattern seeds hash and chaining key, the
/// prologue (the connection header) is mixed into the hash.
pub open spec fn spec_hs_new(
    e_priv: Seq<u8>,
    s_priv: Seq<u8>,
    s_pub: Seq<u8>,
    prologue: Seq<u8>,
) -> HsV {
    HsV {
        stage: HandshakeStage::Start,
        h: mix_hash(hs_init_h(), prologue),
        ck: hs_init_h(),
        k: Seq::empty(),
        e_priv,
        s_priv,
        s_pub,
        re: Seq::empty(),
    }
}

/// The local ephemeral public key: message 1's whole body.
pub open spec fn spec_msg1_bytes(st: HsV) -> Seq<u8> {
    x25519_of(st.e_priv, x25519_basepoint())
}

/// The state after sending message 1: the ephemeral public key is
/// mixed into the transcript hash.
pub open spec fn spec_msg1_state(st: HsV) -> HsV {
    HsV {
        stage: HandshakeStage::SentMessage1,
        h: mix_hash(st.h, spec_msg1_bytes(st)),
        ..st
    }
}

/// Processing message 2 (remote ephemeral, encrypted remote static,
/// encrypted authentication payload): the new state and the decrypted
/// authentication payload, or nothing when a field is malformed or a
/// tag fails.
pub open spec fn spec_msg2(st: HsV, msg: Seq<u8>) -> Option<(HsV, Seq<u8>)> {
    if msg.len() < 80 {
        None
    } else {
        let re = msg.subrange(0, 32);
        let static_enc = msg.subrange(32, 80);
        let payload_enc = msg.skip(80);
        let h1 = mix_hash(st.h, re);
        let ck1 = mix_key_ck(st.ck, x25519_of(st.e_priv, re));
        let k1 = mix_key_k(st.ck, x25519_of(st.e_priv, re));
        match aes256_gcm_open_of(k1, nonce_of(0), h1, static_enc) {
            Option::None => None,
            Option::Some(rs) => {
                if rs.len() != 32 {
                    None
                } else {
                    let h2 = mix_hash(h1, static_enc);
                    let ck2 = mix_key_ck(ck1, x25519_of(st.e_priv, rs));
                    let k2 = mix_key_k(ck1, x25519_of(st.e_priv, rs));
                    match aes256_gcm_open_of(k2, nonce_of(0), h2, payload_enc) {
                        Option::None => None,
                        Option::Some(payload) => {
                            let h3 = mix_hash(h2, payload_enc);
                            Option::Some(
                                (
                                    HsV {
                                        stage: HandshakeStage::ReceivedMessage2,
                                        h: h3,
                                        ck: ck2,
                                        k: k2,
                                        re,
                                        ..st
                                    },
                                    payload,
                                ),
                            )
                        },
                    }
                }
            },
        }
    }
}

/// Message 3's body: the encrypted local static key, then the encrypted
/// caller payload.
pub open spec fn spec_msg3_bytes(st: HsV, payload: Seq<u8>) -> Seq<u8> {
    let enc_s = aes256_gcm_seal_of(st.k, nonce_of(0), st.h, st.s_pub);
    let h1 = mix_hash(st.h, enc_s);
    let k1 = mix_key_k(st.ck, x25519_of(st.s_priv, st.re));
    let enc_p = aes256_gcm_seal_of(k1, nonce_of(0), h1, payload);
    enc_s + enc_p
}

/// The state after sending message 3.
pub open spec fn spec_msg3_state(st: HsV, payload: Seq<u8>) -> HsV {
    let enc_s = aes256_gcm_seal_of(st.k, nonce_of(0), st.h, st.s_pub);
    let h1 = mix_hash(st.h, enc_s);
    let ck1 = mix_key_ck(st.ck, x25519_of(st.s_priv, st.re));
    let k1 = mix_key_k(st.ck, x25519_of(st.s_priv, st.re));
    let enc_p = aes256_gcm_seal_of(k1, nonce_of(0), h1, payload);
    HsV { stage: HandshakeStage::SentMessage3, h: mix_hash(h1, enc_p), ck: ck1, k: k1, ..st }
}

/// The final split: the key for frames this side sends.
pub open spec fn spec_split_send(ck: Seq<u8>) -> Seq<u8> {
    hkdf_sha256_64_of(ck, Seq::empty()).take(32)
}

/// The final split: the key for frames this side receives.
pub open spec fn spec_split_recv(ck: Seq<u8>) -> Seq<u8> {
    hkdf_sha256_64_of(ck, Seq::empty()).skip(32)
}

// ---------------------------------------------------------------------------
// The executable state machine
// ---------------------------------------------------------------------------

/// The initiator's handshake state. Created at connection start, fed
/// one message at a time, and consumed by [`HandshakeState::finish`]
/// once message 3 is out.
pub struct HandshakeState {
    stage: HandshakeStage,
    h: Vec<u8>,
    ck: Vec<u8>,
    k: Vec<u8>,
    e_priv: Vec<u8>,
    s_priv: Vec<u8>,
    s_pub: Vec<u8>,
    re: Vec<u8>,
}

impl View for HandshakeState {
    type V = HsV;

    closed spec fn view(&self) -> HsV {
        HsV {
            stage: self.stage,
            h: self.h@,
            ck: self.ck@,
            k: self.k@,
            e_priv: self.e_priv@,
            s_priv: self.s_priv@,
            s_pub: self.s_pub@,
            re: self.re@,
        }
    }
}

/// The twelve-byte nonce of a counter.
pub fn nonce_bytes(counter: u64) -> (r: Vec<u8>)
    ensures
        r@ == nonce_of(counter),
        r@.len() == 12,
{
    let mut v: Vec<u8> = Vec::new();
    v.push(0);
    v.push(0);
    v.push(0);
    v.push(0);
    push_u64_be(&mut v, counter);
    proof {
        assert(v@ =~= nonce_of(counter));
    }
    v
}

/// `h := SHA-256(h || data)`.
fn mix_hash_exec(h: &Vec<u8>, data: &[u8]) -> (r: Vec<u8>)
    ensures
        r@ == mix_hash(h@, data@),
        r@.len() == 32,
{
    let mut buf = h.clone();
    buf.extend_from_slice(data);
    proof {
        assert(buf@ =~= h@ + data@);
    }
    sha256(buf.as_slice())
}

/// `ck, k := HKDF(ck, ikm)`.
fn mix_key_exec(ck: &Vec<u8>, ikm: &[u8]) -> (r: (Vec<u8>, Vec<u8>))
    ensures
        r.0@ == mix_key_ck(ck@, ikm@),
        r.1@ == mix_key_k(ck@, ikm@),
        r.0@.len() == 32,
        r.1@.len() == 32,
{
    let okm = hkdf_sha256_64(ck.as_slice(), ikm);
    let a = copy_range(okm.as_slice(), 0, 32);
    let b = copy_range(okm.as_slice(), 32, 64);
    proof {
        assert(a@ =~= hkdf_sha256_64_of(ck@, ikm@).take(32));
        assert(b@ =~= hkdf_sha256_64_of(ck@, ikm@).skip(32));
    }
    (a, b)
}

impl HandshakeState {
    /// Well-formedness: all key material has the curve and hash widths.
    pub closed spec fn wf(&self) -> bool {
        &&& self.h@.len() == 32
        &&& self.ck@.len() == 32
        &&& self.e_priv@.len() == 32
        &&& self.s_priv@.len() == 32
        &&& self.s_pub@.len() == 32
        &&& (self.stage is ReceivedMessage2 || self.stage is SentMessage3 ==> self.k@.len() == 32
            && self.re@.len() == 32)
    }

    /// A fresh initiator handshake over the given key material and
    /// prologue (the connection header).
    pub fn new(e_priv: Vec<u8>, s_priv: Vec<u8>, s_pub: Vec<u8>, prologue: &[u8]) -> (r:
        HandshakeState)
        requires
            e_priv@.len() == 32,
            s_priv@.len() == 32,
            s_pub@.len() == 32,
        ensures
            r.wf(),
            r@ == spec_hs_new(e_priv@, s_priv@, s_pub@, prologue@),
    {
        let pattern = NOISE_START_PATTERN;
        let pb = pattern.as_bytes_vec();
        let h0 = if pb.len() == 32 {
            pb
        } else {
            sha256(pb.as_slice())
        };
        let h = mix_hash_exec(&h0, prologue);
        HandshakeState {
            stage: HandshakeStage::Start,
            h,
            ck: h0,
            k: Vec::new(),
            e_priv,
            s_priv,
            s_pub,
            re: Vec::new(),
        }
    }

    /// Produces message 1: the local ephemeral public key, sent in the
    /// clear as the first frame after the connection header.
    pub fn write_message1(&mut self) -> (r: Result<Vec<u8>, HandshakeError>)
        requires
            old(self).wf(),
        ensures
            final(self).wf(),
            old(self)@.stage is Start ==> (r matches Ok(m) && m@ == spec_msg1_bytes(old(self)@)
                && m@.len() == 32 && final(self)@ == spec_msg1_state(old(self)@)),
            !(old(self)@.stage is Start) ==> r == Err::<Vec<u8>, HandshakeError>(
                HandshakeError::OutOfOrder,
            ) && final(self)@ == old(self)@,
    {
        if !matches!(self.stage, HandshakeStage::Start) {
            return Err(HandshakeError::OutOfOrder);
        }
        let base = x25519_basepoint_bytes();
        let e_pub = x25519_dh(self.e_priv.as_slice(), base.as_slice());
        self.h = mix_hash_exec(&self.h, e_pub.as_slice());
        self.stage = HandshakeStage::SentMessage1;
        Ok(e_pub)
    }

    /// Processes message 2: learns the remote ephemeral and static
    /// keys, advances the transcript, and returns the decrypted
    /// authentication payload for the caller's trust anchor to verify.
    /// Any failure is fatal: the state moves to `Failed`.
    pub fn read_message2(&mut self, msg: &[u8]) -> (r: Result<Vec<u8>, HandshakeError>)
        requires
            old(self).wf(),
        ensures
            final(self).wf(),
            old(self)@.stage is SentMessage1 ==> match spec_msg2(old(self)@, msg@) {
                Option::Some((st2, payload)) => r matches Ok(p) && p@ == payload && final(self)@
                    == st2,
                Option::None => r is Err && final(self)@.stage is Failed,
            },
            !(old(self)@.stage is SentMessage1) ==> r == Err::<Vec<u8>, HandshakeError>(
                HandshakeError::OutOfOrder,
            ) && final(self)@ == old(self)@,
    {
        if !matches!(self.stage, HandshakeStage::SentMessage1) {
            return Err(HandshakeError::OutOfOrder);
        }
        if msg.len() < 80 {
            self.stage = HandshakeStage::Failed;
            return Err(HandshakeError::MalformedMessage);
        }
        let re = copy_range(msg, 0, 32);
        let static_enc = copy_range(msg, 32, 80);
        let payload_enc = copy_range(msg, 80, msg.len());
        proof {
            assert(payload_enc@ =~= msg@.skip(80));
        }
        let h1 = mix_hash_exec(&self.h, re.as_slice());
        let dh1 = x25519_dh(self.e_priv.as_slice(), re.as_slice());
        let (ck1, k1) = mix_key_exec(&self.ck, dh1.as_slice());
        let n0 = nonce_bytes(0);
        let rs = match aes256_gcm_open(
            k1.as_slice(),
            n0.as_slice(),
            h1.as_slice(),
            static_enc.as_slice(),
        ) {
            Option::Some(p) => p,
            Option::None => {
                self.stage = HandshakeStage::Failed;
                return Err(HandshakeError::DecryptFailed);
            },
        };
        if rs.len() != 32 {
            self.stage = HandshakeStage::Failed;
            return Err(HandshakeError::MalformedMessage);
        }
        let h2 = mix_hash_exec(&h1, static_enc.as_slice());
        let dh2 = x25519_dh(self.e_priv.as_slice(), rs.as_slice());
        let (ck2, k2) = mix_key_exec(&ck1, dh2.as_slice());
        let payload = match aes256_gcm_open(
            k2.as_slice(),
            n0.as_slice(),
            h2.as_slice(),
            payload_enc.as_slice(),
        ) {
            Option::Some(p) => p,
            Option::None => {
                self.stage = HandshakeStage::Failed;
                return Err(HandshakeError::DecryptFailed);
            },
        };
        let h3 = mix_hash_exec(&h2, payload_enc.as_slice());
        self.h = h3;
        self.ck = ck2;
        self.k = k2;
        self.re = re;
        self.stage = HandshakeStage::ReceivedMessage2;
        Ok(payload)
    }

    /// Produces message 3: the encrypted local static key and the
    /// encrypted caller payload (the static-key proof material).
    pub fn write_message3(&mut self, payload: &[u8]) -> (r: Result<Vec<u8>, HandshakeError>)
        requires
            old(self).wf(),
            payload@.len() < 0x100000000,
        ensures
            final(self).wf(),
            old(self)@.stage is ReceivedMessage2 ==> (r matches Ok(m) && m@ == spec_msg3_bytes(
                old(self)@,
                payload@,
            ) && final(self)@ == spec_msg3_state(old(self)@, payload@)),
            !(old(self)@.stage is ReceivedMessage2) ==> r == Err::<Vec<u8>, HandshakeError>(
                HandshakeError::OutOfOrder,
            ) && final(self)@ == old(self)@,
    {
        if !matches!(self.stage, HandshakeStage::ReceivedMessage2) {
            return Err(HandshakeError::OutOfOrder);
        }
        let n0 = nonce_bytes(0);
        let enc_s = aes256_gcm_seal(
            self.k.as_slice(),
            n0.as_slice(),
            self.h.as_slice(),
            self.s_pub.as_slice(),
        );
        let h1 = mix_hash_exec(&self.h, enc_s.as_slice());
        let dh = x25519_dh(self.s_priv.as_slice(), self.re.as_slice());
        let (ck1, k1) = mix_key_exec(&self.ck, dh.as_slice());
        let enc_p = aes256_gcm_seal(k1.as_slice(), n0.as_slice(), h1.as_slice(), payload);
        let h2 = mix_hash_exec(&h1, enc_p.as_slice());
        let mut msg = enc_s;
        msg.extend_from_slice(enc_p.as_slice());
        self.h = h2;
        self.ck = ck1;
        self.k = k1;
        self.stage = HandshakeStage::SentMessage3;
        proof {
            assert(msg@ =~= spec_msg3_bytes(old(self)@, payload@));
        }
        Ok(msg)
    }

    /// Splits the final chaining key into the two directional cipher
    /// states and consumes the handshake: one state for frames this
    /// side sends, one for frames it receives, each starting at nonce
    /// counter zero.
    pub fn finish(self) -> (r: Result<(CipherState, CipherState), HandshakeError>)
        requires
            self.wf(),
        ensures
            self@.stage is SentMessage3 ==> (r matches Ok((snd, rcv)) && snd@ == (CsV {
                key: spec_split_send(self@.ck),
                counter: 0,
            }) && rcv@ == (CsV { key: spec_split_recv(self@.ck), counter: 0 }) && snd.wf()
                && rcv.wf()),
            !(self@.stage is SentMessage3) ==> r == Err::<
                (CipherState, CipherState),
                HandshakeError,
            >(HandshakeError::OutOfOrder),
    {
        if !matches!(self.stage, HandshakeStage::SentMessage3) {
            return Err(HandshakeError::OutOfOrder);
        }
        let empty: Vec<u8> = Vec::new();
        let (wk, rk) = mix_key_exec(&self.ck, empty.as_slice());
        Ok((CipherState::new(wk), CipherState::new(rk)))
    }
}

// ---------------------------------------------------------------------------
// Post-handshake cipher states
// ---------------------------------------------------------------------------

/// The mathematical value of a [`CipherState`].
pub struct CsV {
    pub key: Seq<u8>,
    pub counter: u64,
}

/// One direction's symmetric key and its strictly monotonic nonce
/// counter. Never reused across connections, never rewound: the
/// counter is owned by this state and only ever moves forward by one.
pub struct CipherState {
    key: Vec<u8>,
    counter: u64,
}

impl View for CipherState {
    type V = CsV;

    closed spec fn view(&self) -> CsV {
        CsV { key: self.key@, counter: self.counter }
    }
}

impl CipherState {
    /// Well-formedness: a full-width key.
    pub closed spec fn wf(&self) -> bool {
        self.key@.len() == 32
    }

    /// A fresh cipher state at counter zero.
    pub fn new(key: Vec<u8>) -> (r: CipherState)
        requires
            key@.len() == 32,
        ensures
            r.wf(),
            r@ == (CsV { key: key@, counter: 0 }),
    {
        CipherState { key, counter: 0 }
    }

    /// The nonce counter used so far: equals the number of operations
    /// this direction has completed.
    pub fn counter(&self) -> (r: u64)
        ensures
            r == self@.counter,
    {
        self.counter
    }

    /// Seals one frame payload under the next nonce. The nonce used is
    /// exactly the pre-call counter; the counter then moves one step,
    /// so no nonce is ever reused.
    pub fn encrypt_next(&mut self, plaintext: &[u8]) -> (r: Vec<u8>)
        requires
            old(self).wf(),
            old(self)@.counter < u64::MAX,
            plaintext@.len() < 0x100000000,
        ensures
            final(self).wf(),
            r@ == aes256_gcm_seal_of(
                old(self)@.key,
                nonce_of(old(self)@.counter),
                Seq::<u8>::empty(),
                plaintext@,
            ),
            r@.len() == plaintext@.len() + 16,
            final(self)@ == (CsV { key: old(self)@.key, counter: (old(self)@.counter + 1) as u64 }),
    {
        let n = nonce_bytes(self.counter);
        let empty: Vec<u8> = Vec::new();
        let ct = aes256_gcm_seal(self.key.as_slice(), n.as_slice(), empty.as_slice(), plaintext);
        self.counter = self.counter + 1;
        ct
    }

    /// Opens one frame payload under the next nonce. On success the
    /// counter moves one step; a tag failure leaves the state unchanged
    /// and is fatal to the connection one layer up.
    pub fn decrypt_next(&mut self, ciphertext: &[u8]) -> (r: Option<Vec<u8>>)
        requires
            old(self).wf(),
            old(self)@.counter < u64::MAX,
        ensures
            final(self).wf(),
            match aes256_gcm_open_of(
                old(self)@.key,
                nonce_of(old(self)@.counter),
                Seq::<u8>::empty(),
                ciphertext@,
            ) {
                Option::Some(p) => r matches Some(pp) && pp@ == p && final(self)@ == (CsV {
                    key: old(self)@.key,
                    counter: (old(self)@.counter + 1) as u64,
                }),
                Option::None => r is None && final(self)@ == old(self)@,
            },
            r matches Some(pp) ==> (forall|p: Seq<u8>|
                ciphertext@ == aes256_gcm_seal_of(
                    old(self)@.key,
                    nonce_of(old(self)@.counter),
                    Seq::<u8>::empty(),
                    p,
                ) ==> pp@ == p),
            r is None ==> (forall|p: Seq<u8>|
                ciphertext@ != aes256_gcm_seal_of(
                    old(self)@.key,
                    nonce_of(old(self)@.counter),
                    Seq::<u8>::empty(),
                    p,
                )),
    {
        let n = nonce_bytes(self.counter);
        let empty: Vec<u8> = Vec::new();
        match aes256_gcm_open(self.key.as_slice(), n.as_slice(), empty.as_slice(), ciphertext) {
            Option::Some(p) => {
                self.counter = self.counter + 1;
                Some(p)
            },
            Option::None => None,
        }
    }
}

// ---------------------------------------------------------------------------
// Laws
// ---------------------------------------------------------------------------

/// The whole initiator transcript as a function of its inputs: the
/// three message bodies this side sees or sends and the two derived
/// directional keys, or nothing when message 2 is rejected.
pub open spec fn spec_handshake_run(
    e_priv: Seq<u8>,
    s_priv: Seq<u8>,
    s_pub: Seq<u8>,
    prologue: Seq<u8>,
    msg2: Seq<u8>,
    payload3: Seq<u8>,
) -> Option<(Seq<u8>, Seq<u8>, Seq<u8>, Seq<u8>)> {
    let st0 = spec_hs_new(e_priv, s_priv, s_pub, prologue);
    let m1 = spec_msg1_bytes(st0);
    let st1 = spec_msg1_state(st0);
    match spec_msg2(st1, msg2) {
        Option::None => None,
        Option::Some((st2, _payload)) => {
            let m3 = spec_msg3_bytes(st2, payload3);
            let st3 = spec_msg3_state(st2, payload3);
            Option::Some((m1, m3, spec_split_send(st3.ck), spec_split_recv(st3.ck)))
        },
    }
}

/// Handshake determinism: with the same key material, the same
/// randomness for the ephemeral key and the same peer message, the
/// messages sent and the two derived cipher keys are bit-exact across
/// runs. The executable state machine returns exactly these values, so
/// two runs over equal inputs cannot diverge.
pub proof fn lemma_handshake_deterministic(
    e_priv1: Seq<u8>,
    s_priv1: Seq<u8>,
    s_pub1: Seq<u8>,
    prologue1: Seq<u8>,
    msg21: Seq<u8>,
    payload31: Seq<u8>,
    e_priv2: Seq<u8>,
    s_priv2: Seq<u8>,
    s_pub2: Seq<u8>,
    prologue2: Seq<u8>,
    msg22: Seq<u8>,
    payload32: Seq<u8>,
)
    requires
        e_priv1 == e_priv2,
        s_priv1 == s_priv2,
        s_pub1 == s_pub2,
        prologue1 == prologue2,
        msg21 == msg22,
        payload31 == payload32,
    ensures
        spec_handshake_run(e_priv1, s_priv1, s_pub1, prologue1, msg21, payload31)
            == spec_handshake_run(e_priv2, s_priv2, s_pub2, prologue2, msg22, payload32),
{
}

/// Nonce monotonicity: `encrypt_next` and `decrypt_next` use exactly
/// the counter they start with and advance it by one, so N consecutive
/// operations in one direction use the counters 0, 1, …, N-1; and
/// distinct counters give distinct nonces, so no nonce repeats under a
/// key.
pub proof fn lemma_nonce_monotonicity(i: u64, j: u64)
    requires
        i != j,
    ensures
        nonce_of(i) != nonce_of(j),
{
    if nonce_of(i) == nonce_of(j) {
        assert forall|t: int| 0 <= t < 8 implies u64_be_bytes(i)[t] == u64_be_bytes(j)[t] by {
            assert(nonce_of(i)[t + 4] == u64_be_bytes(i)[t]);
            assert(nonce_of(j)[t + 4] == u64_be_bytes(j)[t]);
        }
        assert(u64_be_bytes(i) =~= u64_be_bytes(j));
        crate::encoding::lemma_u64_be_injective(i, j);
    }
}

} // verus!
