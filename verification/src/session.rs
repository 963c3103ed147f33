//! The transport session: wires framing, handshake and codec together.
//! It drives the three-message handshake over the frame layer, then
//! switches the same connection into encrypted node-frame mode. The
//! caller performs the I/O: bytes read off the connection are fed in,
//! and every byte string this module returns is written out verbatim.

use vstd::prelude::*;
use crate::codec::{
    dec_node, decode_node_complete, encode_node, node_enc, node_encodable, NodeDecodeError,
    NodeEncodeError,
};
use crate::crypto::{aes256_gcm_open_of, aes256_gcm_seal_of};
use crate::frame::{
    conn_header, conn_header_bytes, encode_frame, frame_bytes, frame_decode_v, FrameAssembler,
    SocketError,
};
use crate::handshake::{
    nonce_of, spec_hs_new, spec_msg1_bytes, spec_msg1_state, spec_msg2, spec_msg3_bytes,
    spec_msg3_state, spec_split_recv, spec_split_send, CipherState, CsV, HandshakeError,
    HandshakeState, HsV,
};
use crate::node::Node;
use crate::FRAME_MAX_SIZE;

verus! {

/// Any fatal failure of the transport layer, surfaced to the excluded
/// dispatch/reconnection logic as a single terminal error.
#[derive(Clone, Copy, Debug, PartialEq, Eq, Structural)]
pub enum TransportError {
    /// A framing failure: oversize payload or a closed socket.
    Socket(SocketError),
    /// A handshake failure; the connection must be torn down.
    Handshake(HandshakeError),
    /// An outbound node that cannot be encoded.
    Encode(NodeEncodeError),
    /// An inbound payload that does not decode to a node.
    Decode(NodeDecodeError),
    /// An inbound frame whose authentication tag does not verify.
    Decrypt,
    /// A nonce counter has reached its end; the connection must be
    /// reestablished rather than ever reusing a nonce.
    NonceExhausted,
}

/// The mathematical value of a session's phase.
pub enum PhaseV {
    Handshaking(HsV),
    Open { send: CsV, recv: CsV },
    Closed,
}

/// The mathematical value of a [`Session`].
pub struct SessionV {
    pub phase: PhaseV,
    pub pending: Seq<u8>,
}

enum Phase {
    Handshaking(HandshakeState),
    Open { send: CipherState, recv: CipherState },
    Closed,
}

/// One connection attempt's transport state: the handshake while it
/// runs, the two directional cipher states after it, and the receive
/// buffer that reassembles frames from the byte stream.
pub struct Session {
    phase: Phase,
    assembler: FrameAssembler,
}

impl View for Session {
    type V = SessionV;

    closed spec fn view(&self) -> SessionV {
        SessionV {
            phase: match self.phase {
                Phase::Handshaking(hs) => PhaseV::Handshaking(hs@),
                Phase::Open { send, recv } => PhaseV::Open { send: send@, recv: recv@ },
                Phase::Closed => PhaseV::Closed,
            },
            pending: self.assembler.pending(),
        }
    }
}

impl Session {
    /// Well-formedness, kept by every method.
    pub closed spec fn wf(&self) -> bool {
        &&& self.assembler.wf()
        &&& match self.phase {
            Phase::Handshaking(hs) => hs.wf(),
            Phase::Open { send, recv } => send.wf() && recv.wf(),
            Phase::Closed => true,
        }
    }

    /// Opens a session as the initiating side: the returned bytes are
    /// the four-byte connection header followed by the frame that
    /// carries handshake message 1, to be written before anything else.
    pub fn start(e_priv: Vec<u8>, s_priv: Vec<u8>, s_pub: Vec<u8>) -> (r: (Session, Vec<u8>))
        requires
            e_priv@.len() == 32,
            s_priv@.len() == 32,
            s_pub@.len() == 32,
        ensures
            r.0.wf(),
            r.0@.pending == Seq::<u8>::empty(),
            r.0@.phase == PhaseV::Handshaking(
                spec_msg1_state(spec_hs_new(e_priv@, s_priv@, s_pub@, conn_header_bytes())),
            ),
            r.1@ == conn_header_bytes() + frame_bytes(
                spec_msg1_bytes(spec_hs_new(e_priv@, s_priv@, s_pub@, conn_header_bytes())),
            ),
    {
        let header = conn_header();
        let mut hs = HandshakeState::new(e_priv, s_priv, s_pub, header.as_slice());
        let msg1 = match hs.write_message1() {
            Ok(m) => m,
            Err(_) => unreached(),
        };
        let framed = match encode_frame(msg1.as_slice()) {
            Ok(f) => f,
            Err(_) => unreached(),
        };
        let mut out = header;
        out.extend_from_slice(framed.as_slice());
        let session = Session { phase: Phase::Handshaking(hs), assembler: FrameAssembler::new() };
        (session, out)
    }

    /// Feeds bytes read off the connection into the frame reassembler.
    pub fn feed(&mut self, data: &[u8])
        requires
            old(self).wf(),
        ensures
            final(self).wf(),
            final(self)@.pending == old(self)@.pending + data@,
            final(self)@.phase == old(self)@.phase,
    {
        self.assembler.push_bytes(data);
    }

    /// Takes the next complete frame payload off the stream, if the
    /// bytes fed so far hold one.
    pub fn next_frame(&mut self) -> (r: Option<Vec<u8>>)
        requires
            old(self).wf(),
        ensures
            final(self).wf(),
            final(self)@.phase == old(self)@.phase,
            match frame_decode_v(old(self)@.pending) {
                Some((payload, rest)) => r matches Some(p) && p@ == payload && final(self)@.pending
                    == rest,
                None => r is None && final(self)@.pending == old(self)@.pending,
            },
    {
        self.assembler.next_frame()
    }

    /// Processes the frame that carries handshake message 2. On success
    /// the session is open: the returned bytes are the frame carrying
    /// message 3 (with the given static-key proof payload), and the
    /// decrypted authentication payload is handed back for the caller's
    /// trust anchor to verify. Any failure closes the session.
    pub fn process_handshake_frame(&mut self, frame: &[u8], msg3_payload: &[u8]) -> (r: Result<
        (Vec<u8>, Vec<u8>),
        TransportError,
    >)
        requires
            old(self).wf(),
            msg3_payload@.len() < 0x100000000,
        ensures
            final(self).wf(),
            final(self)@.pending == old(self)@.pending,
            match old(self)@.phase {
                PhaseV::Handshaking(hs) => {
                    if hs.stage is SentMessage1 {
                        match spec_msg2(hs, frame@) {
                            Some((st2, auth_payload)) => {
                                let st3 = spec_msg3_state(st2, msg3_payload@);
                                let m3 = spec_msg3_bytes(st2, msg3_payload@);
                                if m3.len() < FRAME_MAX_SIZE {
                                    r matches Ok((out, auth)) && out@ == frame_bytes(m3) && auth@
                                        == auth_payload && final(self)@.phase == (PhaseV::Open {
                                        send: CsV { key: spec_split_send(st3.ck), counter: 0 },
                                        recv: CsV { key: spec_split_recv(st3.ck), counter: 0 },
                                    })
                                } else {
                                    r is Err && final(self)@.phase is Closed
                                }
                            },
                            None => r is Err && final(self)@.phase is Closed,
                        }
                    } else {
                        r is Err && final(self)@.phase is Closed
                    }
                },
                _ => r == Err::<(Vec<u8>, Vec<u8>), TransportError>(
                    TransportError::Socket(SocketError::SocketClosed),
                ) && final(self)@.phase == old(self)@.phase,
            },
    {
        let mut taken = Phase::Closed;
        core::mem::swap(&mut taken, &mut self.phase);
        match taken {
            Phase::Handshaking(mut hs) => {
                let auth = match hs.read_message2(frame) {
                    Ok(p) => p,
                    Err(e) => {
                        self.phase = Phase::Closed;
                        return Err(TransportError::Handshake(e));
                    },
                };
                let msg3 = match hs.write_message3(msg3_payload) {
                    Ok(m) => m,
                    Err(e) => {
                        self.phase = Phase::Closed;
                        return Err(TransportError::Handshake(e));
                    },
                };
                let framed = match encode_frame(msg3.as_slice()) {
                    Ok(f) => f,
                    Err(e) => {
                        self.phase = Phase::Closed;
                        return Err(TransportError::Socket(e));
                    },
                };
                let (send, recv) = match hs.finish() {
                    Ok(p) => p,
                    Err(e) => {
                        self.phase = Phase::Closed;
                        return Err(TransportError::Handshake(e));
                    },
                };
                self.phase = Phase::Open { send, recv };
                Ok((framed, auth))
            },
            other => {
                self.phase = other;
                Err(TransportError::Socket(SocketError::SocketClosed))
            },
        }
    }

    /// Sends one node: encodes it, seals it under the send direction's
    /// next nonce, and frames the ciphertext. The returned bytes go out
    /// on the connection as they are.
    #[verifier::spinoff_prover]
    #[verifier::rlimit(100)]
    pub fn send_node(&mut self, n: &Node) -> (r: Result<Vec<u8>, TransportError>)
        requires
            old(self).wf(),
        ensures
            final(self).wf(),
            final(self)@.pending == old(self)@.pending,
            match old(self)@.phase {
                PhaseV::Open { send, recv } => {
                    if !node_encodable(n@) {
                        r is Err && final(self)@.phase == old(self)@.phase
                    } else if node_enc(n@).len() + 16 >= FRAME_MAX_SIZE {
                        r == Err::<Vec<u8>, TransportError>(
                            TransportError::Socket(SocketError::FrameTooLarge),
                        ) && final(self)@.phase == old(self)@.phase
                    } else if send.counter == u64::MAX {
                        r == Err::<Vec<u8>, TransportError>(TransportError::NonceExhausted)
                            && final(self)@.phase == old(self)@.phase
                    } else {
                        let ct = aes256_gcm_seal_of(
                            send.key,
                            nonce_of(send.counter),
                            Seq::<u8>::empty(),
                            node_enc(n@),
                        );
                        r matches Ok(out) && out@ == frame_bytes(ct) && final(self)@.phase
                            == (PhaseV::Open {
                            send: CsV { key: send.key, counter: (send.counter + 1) as u64 },
                            recv,
                        })
                    }
                },
                _ => r == Err::<Vec<u8>, TransportError>(
                    TransportError::Socket(SocketError::SocketClosed),
                ) && final(self)@.phase == old(self)@.phase,
            },
    {
        match &mut self.phase {
            Phase::Open { send, recv: _ } => {
                let encoded = match encode_node(n) {
                    Ok(v) => v,
                    Err(e) => {
                        return Err(TransportError::Encode(e));
                    },
                };
                if encoded.len() >= FRAME_MAX_SIZE - 16 {
                    return Err(TransportError::Socket(SocketError::FrameTooLarge));
                }
                if send.counter() == u64::MAX {
                    return Err(TransportError::NonceExhausted);
                }
                let ct = send.encrypt_next(encoded.as_slice());
                let framed = match encode_frame(ct.as_slice()) {
                    Ok(f) => f,
                    Err(_) => unreached(),
                };
                Ok(framed)
            },
            _ => Err(TransportError::Socket(SocketError::SocketClosed)),
        }
    }

    /// Receives one node from a post-handshake frame payload: opens it
    /// under the receive direction's next nonce and decodes the
    /// plaintext. Decrypt and decode failures are fatal: the stream
    /// position is shared state, so the session closes.
    pub fn receive_node(&mut self, payload: &[u8]) -> (r: Result<Node, TransportError>)
        requires
            old(self).wf(),
        ensures
            final(self).wf(),
            final(self)@.pending == old(self)@.pending,
            match old(self)@.phase {
                PhaseV::Open { send, recv } => {
                    if recv.counter == u64::MAX {
                        r == Err::<Node, TransportError>(TransportError::NonceExhausted)
                            && final(self)@.phase is Closed
                    } else {
                        match aes256_gcm_open_of(
                            recv.key,
                            nonce_of(recv.counter),
                            Seq::<u8>::empty(),
                            payload@,
                        ) {
                            Some(pt) => {
                                match dec_node(pt) {
                                    Some((nv, rest)) => {
                                        if rest.len() == 0 {
                                            r matches Ok(n) && n@ == nv && final(self)@.phase
                                                == (PhaseV::Open {
                                                send,
                                                recv: CsV {
                                                    key: recv.key,
                                                    counter: (recv.counter + 1) as u64,
                                                },
                                            })
                                        } else {
                                            r is Err && final(self)@.phase is Closed
                                        }
                                    },
                                    None => r is Err && final(self)@.phase is Closed,
                                }
                            },
                            None => r == Err::<Node, TransportError>(TransportError::Decrypt)
                                && final(self)@.phase is Closed,
                        }
                    }
                },
                _ => r == Err::<Node, TransportError>(
                    TransportError::Socket(SocketError::SocketClosed),
                ) && final(self)@.phase == old(self)@.phase,
            },
    {
        match &mut self.phase {
            Phase::Open { send: _, recv } => {
                if recv.counter() == u64::MAX {
                    self.phase = Phase::Closed;
                    return Err(TransportError::NonceExhausted);
                }
                let pt = match recv.decrypt_next(payload) {
                    Some(p) => p,
                    None => {
                        self.phase = Phase::Closed;
                        return Err(TransportError::Decrypt);
                    },
                };
                match decode_node_complete(pt.as_slice()) {
                    Ok(n) => Ok(n),
                    Err(e) => {
                        self.phase = Phase::Closed;
                        Err(TransportError::Decode(e))
                    },
                }
            },
            _ => Err(TransportError::Socket(SocketError::SocketClosed)),
        }
    }

    /// Closes the session. Idempotent; all later sends and receives
    /// fail with the closed-socket error.
    pub fn close(&mut self)
        requires
            old(self).wf(),
        ensures
            final(self).wf(),
            final(self)@.phase is Closed,
            final(self)@.pending == old(self)@.pending,
    {
        self.phase = Phase::Closed;
    }
}

} // verus!
