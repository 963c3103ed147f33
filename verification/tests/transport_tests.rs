//! Handshake, cipher-state and whole-session tests, driven against a
//! scripted responder implemented here directly on the cryptographic
//! crates, independent of the library's own code.

use aes_gcm::aead::{Aead, KeyInit, Payload};
use aes_gcm::Aes256Gcm;
use sha2::Digest;
use wa_transport::codec::{decode_node_complete, encode_node};
use wa_transport::frame::conn_header;
use wa_transport::handshake::{HandshakeError, HandshakeState};
use wa_transport::node::{node_eq, Attr, AttrValue, Node};
use wa_transport::session::{Session, TransportError};

const PATTERN: &[u8] = b"Noise_XX_25519_AESGCM_SHA256\x00\x00\x00\x00";

fn sha(data: &[u8]) -> Vec<u8> {
    sha2::Sha256::digest(data).to_vec()
}

fn mix_hash(h: &[u8], data: &[u8]) -> Vec<u8> {
    let mut buf = h.to_vec();
    buf.extend_from_slice(data);
    sha(&buf)
}

fn mix_key(ck: &[u8], ikm: &[u8]) -> (Vec<u8>, Vec<u8>) {
    let hk = hkdf::Hkdf::<sha2::Sha256>::new(Some(ck), ikm);
    let mut okm = [0u8; 64];
    hk.expand(&[], &mut okm).unwrap();
    (okm[..32].to_vec(), okm[32..].to_vec())
}

fn nonce0() -> [u8; 12] {
    [0u8; 12]
}

fn nonce_for(counter: u64) -> [u8; 12] {
    let mut n = [0u8; 12];
    n[4..].copy_from_slice(&counter.to_be_bytes());
    n
}

fn seal(key: &[u8], nonce: &[u8; 12], aad: &[u8], pt: &[u8]) -> Vec<u8> {
    let cipher = Aes256Gcm::new_from_slice(key).unwrap();
    let n = aes_gcm::Nonce::<aes_gcm::aead::consts::U12>::try_from(&nonce[..]).unwrap();
    cipher.encrypt(&n, Payload { msg: pt, aad }).unwrap()
}

fn open(key: &[u8], nonce: &[u8; 12], aad: &[u8], ct: &[u8]) -> Option<Vec<u8>> {
    let cipher = Aes256Gcm::new_from_slice(key).unwrap();
    let n = aes_gcm::Nonce::<aes_gcm::aead::consts::U12>::try_from(&nonce[..]).unwrap();
    cipher.decrypt(&n, Payload { msg: ct, aad }).ok()
}

fn pubkey(secret: &[u8; 32]) -> [u8; 32] {
    x25519_dalek::x25519(*secret, x25519_dalek::X25519_BASEPOINT_BYTES)
}

fn dh(secret: &[u8; 32], point: &[u8]) -> Vec<u8> {
    let mut p = [0u8; 32];
    p.copy_from_slice(point);
    x25519_dalek::x25519(*secret, p).to_vec()
}

/// The scripted responder's view of the handshake: consumes the
/// client's ephemeral, produces message 2, consumes message 3, and
/// splits the directional keys (swapped relative to the initiator).
struct Responder {
    h: Vec<u8>,
    ck: Vec<u8>,
    k: Vec<u8>,
    e_priv: [u8; 32],
    s_priv: [u8; 32],
    cert: Vec<u8>,
    re: Option<Vec<u8>>,
}

impl Responder {
    fn new(prologue: &[u8], e_priv: [u8; 32], s_priv: [u8; 32], cert: Vec<u8>) -> Responder {
        let h0 = PATTERN.to_vec();
        assert_eq!(h0.len(), 32);
        let h = mix_hash(&h0, prologue);
        Responder {
            h,
            ck: h0,
            k: Vec::new(),
            e_priv,
            s_priv,
            cert,
            re: None,
        }
    }

    fn read_message1(&mut self, client_eph_pub: &[u8]) {
        self.h = mix_hash(&self.h, client_eph_pub);
        self.re = Some(client_eph_pub.to_vec());
    }

    fn write_message2(&mut self) -> Vec<u8> {
        let re = self.re.clone().unwrap();
        let e_pub = pubkey(&self.e_priv);
        self.h = mix_hash(&self.h, &e_pub);
        let (ck1, k1) = mix_key(&self.ck, &dh(&self.e_priv, &re));
        let s_pub = pubkey(&self.s_priv);
        let enc_static = seal(&k1, &nonce0(), &self.h, &s_pub);
        self.h = mix_hash(&self.h, &enc_static);
        let (ck2, k2) = mix_key(&ck1, &dh(&self.s_priv, &re));
        let enc_cert = seal(&k2, &nonce0(), &self.h, &self.cert);
        self.h = mix_hash(&self.h, &enc_cert);
        self.ck = ck2;
        self.k = k2;
        let mut msg = e_pub.to_vec();
        msg.extend_from_slice(&enc_static);
        msg.extend_from_slice(&enc_cert);
        msg
    }

    fn read_message3(&mut self, msg: &[u8]) -> Vec<u8> {
        let enc_s = &msg[..48];
        let client_static = open(&self.k, &nonce0(), &self.h, enc_s).expect("static decrypts");
        self.h = mix_hash(&self.h, enc_s);
        let (ck1, k1) = mix_key(&self.ck, &dh(&self.e_priv, &client_static));
        let payload = open(&k1, &nonce0(), &self.h, &msg[48..]).expect("payload decrypts");
        self.h = mix_hash(&self.h, &msg[48..]);
        self.ck = ck1;
        payload
    }

    /// (key for frames the client sends, key for frames the client receives)
    fn split(&self) -> (Vec<u8>, Vec<u8>) {
        mix_key(&self.ck, &[])
    }
}

fn fixed_keys() -> ([u8; 32], [u8; 32], [u8; 32], [u8; 32]) {
    let client_eph = [7u8; 32];
    let client_static = [9u8; 32];
    let server_eph = [11u8; 32];
    let server_static = [13u8; 32];
    (client_eph, client_static, server_eph, server_static)
}

fn run_client_handshake(
    msg2: &[u8],
) -> (Vec<u8>, Vec<u8>, Vec<u8>, wa_transport::handshake::CipherState, wa_transport::handshake::CipherState) {
    let (ce, cs, _, _) = fixed_keys();
    let mut hs = HandshakeState::new(
        ce.to_vec(),
        cs.to_vec(),
        pubkey(&cs).to_vec(),
        &conn_header(),
    );
    let m1 = hs.write_message1().unwrap();
    let auth = hs.read_message2(msg2).unwrap();
    let m3 = hs.write_message3(b"client-proof").unwrap();
    let (snd, rcv) = hs.finish().unwrap();
    (m1, auth, m3, snd, rcv)
}

fn scripted_msg2() -> Vec<u8> {
    let (ce, _, se, ss) = fixed_keys();
    let mut responder = Responder::new(&conn_header(), se, ss, b"server-cert-chain".to_vec());
    responder.read_message1(&pubkey(&ce));
    responder.write_message2()
}

#[test]
fn handshake_is_deterministic() {
    // Same key material, same randomness, same peer message: both runs
    // produce bit-identical messages and keys.
    let msg2 = scripted_msg2();
    let (m1a, autha, m3a, mut snda, _) = run_client_handshake(&msg2);
    let (m1b, authb, m3b, mut sndb, _) = run_client_handshake(&msg2);
    assert_eq!(m1a, m1b);
    assert_eq!(autha, authb);
    assert_eq!(m3a, m3b);
    let ct_a = snda.encrypt_next(b"same plaintext");
    let ct_b = sndb.encrypt_next(b"same plaintext");
    assert_eq!(ct_a, ct_b);
}

#[test]
fn handshake_agrees_with_independent_responder() {
    let (ce, cs, se, ss) = fixed_keys();
    let mut responder = Responder::new(&conn_header(), se, ss, b"server-cert-chain".to_vec());

    let mut hs = HandshakeState::new(
        ce.to_vec(),
        cs.to_vec(),
        pubkey(&cs).to_vec(),
        &conn_header(),
    );
    let m1 = hs.write_message1().unwrap();
    assert_eq!(m1, pubkey(&ce).to_vec());

    responder.read_message1(&m1);
    let msg2 = responder.write_message2();

    let auth = hs.read_message2(&msg2).unwrap();
    assert_eq!(auth, b"server-cert-chain".to_vec());

    let m3 = hs.write_message3(b"client-proof").unwrap();
    let payload = responder.read_message3(&m3);
    assert_eq!(payload, b"client-proof".to_vec());

    // Both ends derive the same directional keys: check by sealing on
    // one side and opening on the other.
    let (client_send_key, client_recv_key) = responder.split();
    let (mut snd, mut rcv) = hs.finish().unwrap();
    let ct = snd.encrypt_next(b"ping");
    assert_eq!(
        open(&client_send_key, &nonce_for(0), &[], &ct).unwrap(),
        b"ping".to_vec()
    );
    let ct2 = seal(&client_recv_key, &nonce_for(0), &[], b"pong");
    assert_eq!(rcv.decrypt_next(&ct2).unwrap(), b"pong".to_vec());
}

#[test]
fn tampered_message2_fails_never_succeeds_with_wrong_keys() {
    let msg2 = scripted_msg2();
    for i in [0usize, 31, 32, 79, msg2.len() - 1] {
        let (ce, cs, _, _) = fixed_keys();
        let mut hs = HandshakeState::new(
            ce.to_vec(),
            cs.to_vec(),
            pubkey(&cs).to_vec(),
            &conn_header(),
        );
        hs.write_message1().unwrap();
        let mut bad = msg2.clone();
        bad[i] ^= 0x01;
        let r = hs.read_message2(&bad);
        assert!(r.is_err(), "tampering byte {} must fail", i);
        // The state machine is now dead: nothing further is accepted.
        assert_eq!(
            hs.write_message3(b"x"),
            Err(HandshakeError::OutOfOrder)
        );
    }
}

#[test]
fn out_of_order_messages_are_fatal() {
    let (ce, cs, _, _) = fixed_keys();
    let mut hs = HandshakeState::new(
        ce.to_vec(),
        cs.to_vec(),
        pubkey(&cs).to_vec(),
        &conn_header(),
    );
    // Message 2 before message 1 is out of order.
    assert_eq!(hs.read_message2(&[0u8; 96]), Err(HandshakeError::OutOfOrder));
    // Message 3 before message 2 is out of order.
    hs.write_message1().unwrap();
    assert_eq!(hs.write_message3(b"x"), Err(HandshakeError::OutOfOrder));
    // A short message 2 is malformed.
    assert_eq!(
        hs.read_message2(&[0u8; 79]),
        Err(HandshakeError::MalformedMessage)
    );
}

#[test]
fn nonce_sequence_is_strictly_monotonic() {
    let msg2 = scripted_msg2();
    let (_, _, _, mut snd, _) = run_client_handshake(&msg2);
    let (client_send_key, _) = {
        let (_, _, se, ss) = fixed_keys();
        let (ce, _, _, _) = fixed_keys();
        let mut responder = Responder::new(&conn_header(), se, ss, b"server-cert-chain".to_vec());
        responder.read_message1(&pubkey(&ce));
        responder.write_message2();
        // replay message 3 processing to reach the split
        let (m1, _auth, m3, _, _) = run_client_handshake(&msg2);
        let _ = m1;
        responder.read_message3(&m3);
        responder.split()
    };
    // N sends use nonces 0, 1, ..., N-1 exactly.
    for i in 0u64..5 {
        assert_eq!(snd.counter(), i);
        let ct = snd.encrypt_next(format!("m{}", i).as_bytes());
        assert_eq!(
            open(&client_send_key, &nonce_for(i), &[], &ct).unwrap(),
            format!("m{}", i).into_bytes()
        );
        // The same ciphertext does not open under any other nonce.
        assert!(open(&client_send_key, &nonce_for(i + 1), &[], &ct).is_none());
    }
    assert_eq!(snd.counter(), 5);
}

fn iq_node() -> Node {
    Node {
        tag: "iq".to_string(),
        attrs: vec![
            Attr {
                key: "id".to_string(),
                value: AttrValue::Text("1".to_string()),
            },
            Attr {
                key: "type".to_string(),
                value: AttrValue::Text("get".to_string()),
            },
        ],
        content: None,
    }
}

#[test]
fn end_to_end_scripted_session() {
    let (ce, cs, se, ss) = fixed_keys();
    let mut responder = Responder::new(&conn_header(), se, ss, b"server-cert-chain".to_vec());

    // Open: the first bytes on the wire are the connection header and
    // the framed message 1.
    let (mut session, hello) = Session::start(ce.to_vec(), cs.to_vec(), pubkey(&cs).to_vec());
    assert_eq!(&hello[..4], &[b'W', b'A', 6, 3]);
    assert_eq!(&hello[4..7], &[0, 0, 32]);
    let m1 = &hello[7..];
    assert_eq!(m1, &pubkey(&ce)[..]);

    // The scripted responder answers with message 2, framed.
    responder.read_message1(m1);
    let msg2 = responder.write_message2();
    let mut wire = Vec::new();
    wire.extend_from_slice(&[
        (msg2.len() >> 16) as u8,
        (msg2.len() >> 8) as u8,
        msg2.len() as u8,
    ]);
    wire.extend_from_slice(&msg2);

    // Feed the bytes in two arbitrary pieces.
    session.feed(&wire[..10]);
    assert!(session.next_frame().is_none());
    session.feed(&wire[10..]);
    let frame = session.next_frame().unwrap();
    assert_eq!(frame, msg2);

    let (msg3_framed, auth) = session
        .process_handshake_frame(&frame, b"client-proof")
        .unwrap();
    assert_eq!(auth, b"server-cert-chain".to_vec());
    let payload = responder.read_message3(&msg3_framed[3..]);
    assert_eq!(payload, b"client-proof".to_vec());
    let (client_send_key, client_recv_key) = responder.split();

    // Send a node; the peer decodes an identical node from the wire.
    let out = session.send_node(&iq_node()).unwrap();
    let (len_hi, len_mid, len_lo) = (out[0] as usize, out[1] as usize, out[2] as usize);
    let ct_len = (len_hi << 16) | (len_mid << 8) | len_lo;
    assert_eq!(ct_len, out.len() - 3);
    let pt = open(&client_send_key, &nonce_for(0), &[], &out[3..]).unwrap();
    let peer_view = decode_node_complete(&pt).unwrap();
    assert!(node_eq(&peer_view, &iq_node()));

    // The raw bytes on the wire match the reference transcript
    // recomputed here byte for byte.
    let mut expected = Vec::new();
    let expected_ct = seal(
        &client_send_key,
        &nonce_for(0),
        &[],
        &encode_node(&iq_node()).unwrap(),
    );
    expected.extend_from_slice(&[
        (expected_ct.len() >> 16) as u8,
        (expected_ct.len() >> 8) as u8,
        expected_ct.len() as u8,
    ]);
    expected.extend_from_slice(&expected_ct);
    assert_eq!(out, expected);

    // Receive a node sent by the peer.
    let reply = Node {
        tag: "ack".to_string(),
        attrs: vec![],
        content: None,
    };
    let reply_ct = seal(
        &client_recv_key,
        &nonce_for(0),
        &[],
        &encode_node(&reply).unwrap(),
    );
    let got = session.receive_node(&reply_ct).unwrap();
    assert!(node_eq(&got, &reply));

    // After close, traffic fails with the closed-socket error.
    session.close();
    assert!(matches!(
        session.send_node(&iq_node()),
        Err(TransportError::Socket(
            wa_transport::frame::SocketError::SocketClosed
        ))
    ));
}

#[test]
fn session_rejects_node_traffic_during_handshake() {
    let (ce, cs, _, _) = fixed_keys();
    let (mut session, _hello) = Session::start(ce.to_vec(), cs.to_vec(), pubkey(&cs).to_vec());
    assert!(matches!(
        session.send_node(&iq_node()),
        Err(TransportError::Socket(
            wa_transport::frame::SocketError::SocketClosed
        ))
    ));
    assert!(session.receive_node(&[0u8; 16]).is_err());
}

#[test]
fn session_tampered_frame_is_fatal() {
    let (ce, cs, se, ss) = fixed_keys();
    let mut responder = Responder::new(&conn_header(), se, ss, b"cert".to_vec());
    let (mut session, hello) = Session::start(ce.to_vec(), cs.to_vec(), pubkey(&cs).to_vec());
    responder.read_message1(&hello[7..]);
    let msg2 = responder.write_message2();
    let (m3, _auth) = session.process_handshake_frame(&msg2, b"p").unwrap();
    responder.read_message3(&m3[3..]);
    let (_, client_recv_key) = responder.split();

    let mut ct = seal(&client_recv_key, &nonce_for(0), &[], b"\x01\x00\x00");
    ct[0] ^= 0xFF;
    assert_eq!(session.receive_node(&ct), Err(TransportError::Decrypt));
    // The session is closed afterwards.
    assert!(matches!(
        session.send_node(&iq_node()),
        Err(TransportError::Socket(
            wa_transport::frame::SocketError::SocketClosed
        ))
    ));
}
