//! Length-prefixed framing of the raw byte stream: every unit of traffic,
//! handshake message or ciphertext alike, travels as a three-byte
//! big-endian length followed by that many payload bytes.

use vstd::prelude::*;
use crate::encoding::{push_u24_be, read_u24_be, u24_be_bytes, u24_of_be};
use crate::token::DICT_VERSION;
use crate::{FRAME_LENGTH_SIZE, FRAME_MAX_SIZE};

verus! {

/// Magic value of the connection header.
pub const WA_MAGIC_VALUE: u8 = 6;

/// The spec-level connection header: `'W'`, `'A'`, the magic value, and
/// the token dictionary version.
pub open spec fn conn_header_bytes() -> Seq<u8> {
    seq![87u8, 65u8, WA_MAGIC_VALUE, DICT_VERSION]
}

/// The four-byte preamble a client sends once, before its first frame.
pub fn conn_header() -> (r: Vec<u8>)
    ensures
        r@ == conn_header_bytes(),
{
    let mut v: Vec<u8> = Vec::new();
    v.push(87);
    v.push(65);
    v.push(WA_MAGIC_VALUE);
    v.push(DICT_VERSION);
    proof {
        assert(v@ =~= conn_header_bytes());
    }
    v
}

/// Errors of the frame socket layer.
#[derive(Clone, Copy, Debug, PartialEq, Eq, Structural)]
pub enum SocketError {
    /// The payload does not fit the three-byte length prefix.
    FrameTooLarge,
    /// The socket is closed (or the stream ended mid-frame).
    SocketClosed,
    /// `open` was called on an already-open socket.
    SocketAlreadyOpen,
}

impl SocketError {
    /// A short description of the error.
    pub fn message(&self) -> (r: String)
        ensures
            *self == SocketError::FrameTooLarge ==> r@ == "frame too large"@,
            *self == SocketError::SocketClosed ==> r@ == "frame socket is closed"@,
            *self == SocketError::SocketAlreadyOpen ==> r@ == "frame socket is already open"@,
    {
        match self {
            SocketError::FrameTooLarge => "frame too large".to_owned(),
            SocketError::SocketClosed => "frame socket is closed".to_owned(),
            SocketError::SocketAlreadyOpen => "frame socket is already open".to_owned(),
        }
    }
}

/// The wire image of one frame: length prefix, then the payload.
pub open spec fn frame_bytes(payload: Seq<u8>) -> Seq<u8>
    recommends
        payload.len() < FRAME_MAX_SIZE,
{
    u24_be_bytes(payload.len() as u32) + payload
}

/// Splits one leading frame off a byte stream: `None` while the stream
/// holds less than a full frame, otherwise the payload and the rest.
pub open spec fn frame_decode_v(b: Seq<u8>) -> Option<(Seq<u8>, Seq<u8>)> {
    if b.len() < FRAME_LENGTH_SIZE {
        None
    } else {
        let n = u24_of_be(b[0], b[1], b[2]) as int;
        if b.len() < FRAME_LENGTH_SIZE + n {
            None
        } else {
            Some((b.subrange(3, 3 + n), b.skip(3 + n)))
        }
    }
}

/// Encodes one frame. Oversize payloads are rejected before anything is
/// produced; everything below the limit is framed.
pub fn encode_frame(payload: &[u8]) -> (r: Result<Vec<u8>, SocketError>)
    ensures
        payload@.len() < FRAME_MAX_SIZE ==> (r matches Ok(v) && v@ == frame_bytes(payload@)),
        payload@.len() >= FRAME_MAX_SIZE ==> r == Err::<Vec<u8>, SocketError>(
            SocketError::FrameTooLarge,
        ),
{
    if payload.len() >= FRAME_MAX_SIZE {
        return Err(SocketError::FrameTooLarge);
    }
    let mut out: Vec<u8> = Vec::new();
    push_u24_be(&mut out, payload.len() as u32);
    out.extend_from_slice(payload);
    proof {
        assert(out@ =~= frame_bytes(payload@));
    }
    Ok(out)
}

/// Framing inverts: decoding a stream that starts with an encoded frame
/// yields exactly that payload and leaves exactly the trailing bytes.
pub proof fn lemma_frame_round_trip(payload: Seq<u8>, rest: Seq<u8>)
    requires
        payload.len() < FRAME_MAX_SIZE,
    ensures
        frame_decode_v(frame_bytes(payload) + rest) == Some((payload, rest)),
{
    let b = frame_bytes(payload) + rest;
    let n = payload.len() as u32;
    crate::encoding::lemma_u24_be_round(n);
    assert(b[0] == u24_be_bytes(n)[0]);
    assert(b[1] == u24_be_bytes(n)[1]);
    assert(b[2] == u24_be_bytes(n)[2]);
    assert(u24_of_be(b[0], b[1], b[2]) == n);
    assert(b.subrange(3, 3 + n as int) =~= payload);
    assert(b.skip(3 + n as int) =~= rest);
}

/// Reassembles frames from a byte stream delivered in arbitrary pieces.
/// Bytes go in as they arrive; complete frames come out in order.
pub struct FrameAssembler {
    buf: Vec<u8>,
    pos: usize,
}

impl FrameAssembler {
    /// The bytes received and not yet returned as a frame.
    pub closed spec fn pending(&self) -> Seq<u8> {
        self.buf@.skip(self.pos as int)
    }

    /// Well-formedness: the read position stays inside the buffer.
    /// Constructors establish it and every method keeps it.
    pub closed spec fn wf(&self) -> bool {
        self.pos <= self.buf@.len()
    }

    /// An assembler with nothing pending.
    pub fn new() -> (r: FrameAssembler)
        ensures
            r.wf(),
            r.pending() == Seq::<u8>::empty(),
    {
        let r = FrameAssembler { buf: Vec::new(), pos: 0 };
        proof {
            assert(r.pending() =~= Seq::<u8>::empty());
        }
        r
    }

    /// Feeds newly received bytes in.
    pub fn push_bytes(&mut self, data: &[u8])
        requires
            old(self).wf(),
        ensures
            final(self).wf(),
            final(self).pending() == old(self).pending() + data@,
    {
        self.buf.extend_from_slice(data);
        proof {
            assert(self.pending() =~= old(self).pending() + data@);
        }
    }

    /// Takes the next complete frame's payload off the stream, or reports
    /// that the bytes so far hold no complete frame yet.
    pub fn next_frame(&mut self) -> (r: Option<Vec<u8>>)
        requires
            old(self).wf(),
        ensures
            final(self).wf(),
            match frame_decode_v(old(self).pending()) {
                Some((payload, rest)) => r matches Some(p) && p@ == payload
                    && final(self).pending() == rest,
                None => r is None && final(self).pending() == old(self).pending(),
            },
    {
        let avail = self.buf.len() - self.pos;
        if avail < FRAME_LENGTH_SIZE {
            return None;
        }
        let n = read_u24_be(self.buf.as_slice(), self.pos) as usize;
        proof {
            assert(self.pending()[0] == self.buf@[self.pos as int]);
            assert(self.pending()[1] == self.buf@[self.pos as int + 1]);
            assert(self.pending()[2] == self.buf@[self.pos as int + 2]);
        }
        if avail - FRAME_LENGTH_SIZE < n {
            return None;
        }
        let start = self.pos + FRAME_LENGTH_SIZE;
        let total = self.buf.len();
        let mut payload: Vec<u8> = Vec::new();
        let mut i: usize = 0;
        while i < n
            invariant
                0 <= i <= n,
                start + n <= total,
                total == self.buf@.len(),
                payload@ == self.buf@.subrange(start as int, start + i),
            decreases n - i,
        {
            payload.push(self.buf[start + i]);
            proof {
                assert(payload@ =~= self.buf@.subrange(start as int, start + i + 1));
            }
            i += 1;
        }
        self.pos = start + n;
        proof {
            let opending = old(self).pending();
            assert(payload@ =~= opending.subrange(3, 3 + n as int));
            assert(self.pending() =~= opending.skip(3 + n as int));
        }
        Some(payload)
    }
}

} // verus!
