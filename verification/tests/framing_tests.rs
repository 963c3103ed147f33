use wa_transport::frame::{conn_header, encode_frame, FrameAssembler, SocketError};
use wa_transport::{FRAME_LENGTH_SIZE, FRAME_MAX_SIZE};

#[test]
fn conn_header_is_wa_magic_dict() {
    assert_eq!(conn_header(), vec![b'W', b'A', 6, 3]);
}

#[test]
fn frame_length_constants() {
    assert_eq!(FRAME_LENGTH_SIZE, 3);
    assert_eq!(FRAME_MAX_SIZE, 2 << 23);
}

#[test]
fn frame_round_trip_small() {
    let payload = vec![1u8, 2, 3];
    let framed = encode_frame(&payload).unwrap();
    assert_eq!(framed, vec![0u8, 0, 3, 1, 2, 3]);
    let mut assembler = FrameAssembler::new();
    assembler.push_bytes(&framed);
    assert_eq!(assembler.next_frame().unwrap(), payload);
    assert!(assembler.next_frame().is_none());
}

#[test]
fn frame_round_trip_empty() {
    let framed = encode_frame(&[]).unwrap();
    assert_eq!(framed, vec![0u8, 0, 0]);
    let mut assembler = FrameAssembler::new();
    assembler.push_bytes(&framed);
    assert_eq!(assembler.next_frame().unwrap(), Vec::<u8>::new());
}

#[test]
fn frame_round_trip_largest() {
    let payload = vec![0xABu8; FRAME_MAX_SIZE - 1];
    let framed = encode_frame(&payload).unwrap();
    assert_eq!(framed.len(), FRAME_MAX_SIZE - 1 + 3);
    assert_eq!(&framed[0..3], &[0xFF, 0xFF, 0xFF]);
    let mut assembler = FrameAssembler::new();
    assembler.push_bytes(&framed);
    assert_eq!(assembler.next_frame().unwrap(), payload);
}

#[test]
fn frame_oversize_rejected_before_any_write() {
    let payload = vec![0u8; FRAME_MAX_SIZE];
    assert_eq!(encode_frame(&payload), Err(SocketError::FrameTooLarge));
}

#[test]
fn assembler_handles_partial_and_multiple_frames() {
    let a = encode_frame(&[10, 20]).unwrap();
    let b = encode_frame(&[30]).unwrap();
    let mut stream = Vec::new();
    stream.extend_from_slice(&a);
    stream.extend_from_slice(&b);

    let mut assembler = FrameAssembler::new();
    // Feed byte by byte: no frame until the last byte of each arrives.
    let mut seen = Vec::new();
    for byte in stream {
        assembler.push_bytes(&[byte]);
        while let Some(frame) = assembler.next_frame() {
            seen.push(frame);
        }
    }
    assert_eq!(seen, vec![vec![10u8, 20], vec![30u8]]);
}

#[test]
fn socket_error_messages() {
    assert_eq!(SocketError::FrameTooLarge.message(), "frame too large");
    assert_eq!(SocketError::SocketClosed.message(), "frame socket is closed");
    assert_eq!(
        SocketError::SocketAlreadyOpen.message(),
        "frame socket is already open"
    );
}
