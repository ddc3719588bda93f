use pubsub::frame::{opcode, Frame, OpCode};

fn buffer_with(first: u8, length: u8, payload: &[u8]) -> [u8; 128] {
    let mut buffer = [0u8; 128];
    buffer[0] = first;
    buffer[1] = length;
    buffer[112..112 + payload.len()].copy_from_slice(payload);
    buffer
}

#[test]
fn can_read_fin_bit() {
    let message: [u8; 128] = buffer_with(129, 0, &[]);
    let frame = Frame::new(&message).unwrap();
    assert_eq!(frame.fin, true);
}

#[test]
fn fin_needs_a_first_byte_above_128() {
    assert_eq!(Frame::new(&buffer_with(128, 0, &[])).unwrap().fin, false);
    assert_eq!(Frame::new(&buffer_with(1, 0, &[])).unwrap().fin, false);
    assert_eq!(Frame::new(&buffer_with(255, 0, &[])).unwrap().fin, true);
}

#[test]
fn opcode_reads_the_first_byte_modulo_128() {
    assert_eq!(opcode(0), OpCode::Continuation);
    assert_eq!(opcode(1), OpCode::Text);
    assert_eq!(opcode(2), OpCode::Binary);
    assert_eq!(opcode(3), OpCode::Continuation);
    assert_eq!(opcode(8), OpCode::ConnectionClose);
    assert_eq!(opcode(9), OpCode::Ping);
    assert_eq!(opcode(10), OpCode::Pong);
    assert_eq!(opcode(11), OpCode::Continuation);
    assert_eq!(opcode(128), OpCode::Continuation);
    assert_eq!(opcode(129), OpCode::Text);
    assert_eq!(opcode(137), OpCode::Ping);
    assert_eq!(opcode(17), OpCode::Continuation);
}

#[test]
fn frame_reads_its_payload_as_text() {
    let frame = Frame::new(&buffer_with(129, 5, b"hello")).unwrap();
    assert_eq!(frame.opcode, OpCode::Text);
    assert_eq!(frame.payload, "hello");
    assert_eq!(frame.id, 0);
    let frame = Frame::new(&buffer_with(130, 4, "h\u{e9}!".as_bytes())).unwrap();
    assert_eq!(frame.opcode, OpCode::Binary);
    assert_eq!(frame.payload, "h\u{e9}!");
}

#[test]
fn frame_rejects_a_payload_that_is_not_text() {
    let result = Frame::new(&buffer_with(129, 2, &[0xff, 0xfe]));
    assert_eq!(result.err(), Some("Whoopsies"));
}

#[test]
fn frame_reads_a_length_of_two_bytes() {
    let mut buffer = vec![0u8; 112 + 300];
    buffer[0] = 129;
    buffer[1] = 126;
    buffer[2] = 1;
    buffer[3] = 44;
    for byte in buffer[112..].iter_mut() {
        *byte = b'a';
    }
    let frame = Frame::new(&buffer).unwrap();
    assert_eq!(frame.payload.len(), 300);
    assert!(frame.payload.bytes().all(|byte| byte == b'a'));
}

#[test]
fn frame_reads_a_length_of_eight_bytes() {
    let mut buffer = vec![0u8; 112 + 258];
    buffer[0] = 1;
    buffer[1] = 127;
    buffer[8] = 1;
    buffer[9] = 2;
    for byte in buffer[112..].iter_mut() {
        *byte = b'z';
    }
    let frame = Frame::new(&buffer).unwrap();
    assert_eq!(frame.payload.len(), 258);
    assert_eq!(frame.fin, false);
}

#[test]
fn fits_tells_whether_the_buffer_holds_the_frame() {
    assert!(Frame::fits(&buffer_with(129, 16, &[b'a'; 16])));
    assert!(!Frame::fits(&buffer_with(129, 17, &[])));
    assert!(!Frame::fits(&[]));
    assert!(!Frame::fits(&[129]));
    assert!(!Frame::fits(&[129, 0]));
    assert!(!Frame::fits(&[129, 126, 0]));
    assert!(Frame::fits(&[0u8; 112]));
    assert!(!Frame::fits(&[1u8; 112]));
    let mut long = vec![0u8; 112 + 256];
    long[1] = 126;
    long[2] = 1;
    assert!(Frame::fits(&long));
    long[3] = 1;
    assert!(!Frame::fits(&long));
    long[1] = 127;
    long[2] = 255;
    assert!(!Frame::fits(&long));
}

#[test]
fn try_from_reads_a_block_that_holds_its_frame() {
    let frame = Frame::try_from(buffer_with(129, 5, b"hello")).unwrap().unwrap();
    assert_eq!(frame.fin, true);
    assert_eq!(frame.opcode, OpCode::Text);
    assert_eq!(frame.payload, "hello");
    assert_eq!(frame.id, 0);
    let refused = Frame::try_from(buffer_with(129, 2, &[0xff, 0xfe])).unwrap();
    assert_eq!(refused.err(), Some("Whoopsies"));
    assert!(Frame::try_from(buffer_with(129, 17, &[])).is_none());
    let mut block = buffer_with(129, 126, &[]);
    assert!(Frame::try_from(block).unwrap().is_ok());
    block[3] = 17;
    assert!(Frame::try_from(block).is_none());
    assert!(Frame::try_from(buffer_with(1, 16, &[b'a'; 16])).unwrap().is_ok());
}
