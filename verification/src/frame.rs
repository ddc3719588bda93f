//! Reading the first bytes of a socket frame.

use vstd::prelude::*;
use vstd::array::array_as_slice;
use vstd::slice::{slice_subrange, slice_to_vec};
use vstd::utf8::{decode_utf8, valid_utf8};

verus! {

/// The kind of a frame, as its first byte gives it.
#[derive(Clone, Copy, Debug, PartialEq, Eq, Structural)]
pub enum OpCode {
    Continuation,
    Text,
    Binary,
    ConnectionClose,
    Ping,
    Pong,
}

/// The frame kind that a first byte stands for: the byte is taken modulo 128,
/// and every remainder without a kind of its own counts as a continuation.
pub open spec fn opcode_of(first_byte: u8) -> OpCode {
    let bits = first_byte % 128;
    if bits == 1 {
        OpCode::Text
    } else if bits == 2 {
        OpCode::Binary
    } else if bits == 8 {
        OpCode::ConnectionClose
    } else if bits == 9 {
        OpCode::Ping
    } else if bits == 10 {
        OpCode::Pong
    } else {
        OpCode::Continuation
    }
}

/// Reads the frame kind from the first byte of a frame.
pub fn opcode(first_byte: u8) -> (code: OpCode)
    ensures
        code == opcode_of(first_byte),
{
    let bits: u8 = first_byte % 128;
    match bits {
        1 => OpCode::Text,
        2 => OpCode::Binary,
        8 => OpCode::ConnectionClose,
        9 => OpCode::Ping,
        10 => OpCode::Pong,
        _ => OpCode::Continuation,
    }
}

/// Where the payload of a frame starts.
pub const PAYLOAD_START: usize = 112;

/// One frame: whether it is the last of its message, its kind, and its
/// payload as text.
pub struct Frame {
    pub fin: bool,
    pub opcode: OpCode,
    pub payload: String,
    pub id: i32,
}

/// The number of bytes that a frame's header takes to say how long the
/// payload is: the second byte alone, or with two or eight bytes after it.
pub open spec fn header_len(buffer: Seq<u8>) -> int {
    if buffer.len() < 2 {
        2
    } else if buffer[1] == 126 {
        4
    } else if buffer[1] == 127 {
        10
    } else {
        2
    }
}

/// The payload length that a frame's header gives: the second byte; or,
/// where that byte is 126 or 127, the big-endian number in the two or
/// eight bytes after it.
pub open spec fn payload_len(buffer: Seq<u8>) -> int
    recommends
        buffer.len() >= header_len(buffer),
{
    if buffer[1] == 126 {
        buffer[2] * 0x100 + buffer[3]
    } else if buffer[1] == 127 {
        buffer[2] * 0x100_0000_0000_0000 + buffer[3] * 0x1_0000_0000_0000 + buffer[4] * 0x100_0000_0000
            + buffer[5] * 0x1_0000_0000 + buffer[6] * 0x100_0000 + buffer[7] * 0x1_0000 + buffer[8]
            * 0x100 + buffer[9]
    } else {
        buffer[1] as int
    }
}

/// The buffer holds the whole header and the whole payload.
pub open spec fn holds_frame(buffer: Seq<u8>) -> bool {
    &&& buffer.len() >= header_len(buffer)
    &&& PAYLOAD_START + payload_len(buffer) <= buffer.len()
}

/// The bytes of the payload.
pub open spec fn payload_bytes(buffer: Seq<u8>) -> Seq<u8>
    recommends
        holds_frame(buffer),
{
    buffer.subrange(PAYLOAD_START as int, PAYLOAD_START + payload_len(buffer))
}

/// Calls `String::from_utf8`: the text that the bytes encode, or nothing
/// where they are not UTF-8.
#[verifier::external_body]
fn text_of(bytes: Vec<u8>) -> (text: Option<String>)
    ensures
        match text {
            Some(decoded) => valid_utf8(bytes@) && decoded@ == decode_utf8(bytes@),
            None => !valid_utf8(bytes@),
        },
{
    String::from_utf8(bytes).ok()
}

/// Reads the payload length from the header of a frame.
fn declared_len(buffer: &[u8]) -> (length: u64)
    requires
        buffer@.len() >= header_len(buffer@),
    ensures
        length == payload_len(buffer@),
{
    let length_byte: u8 = buffer[1];
    if length_byte == 126 {
        (buffer[2] as u64) * 0x100 + (buffer[3] as u64)
    } else if length_byte == 127 {
        (buffer[2] as u64) * 0x100_0000_0000_0000 + (buffer[3] as u64) * 0x1_0000_0000_0000
            + (buffer[4] as u64) * 0x100_0000_0000 + (buffer[5] as u64) * 0x1_0000_0000
            + (buffer[6] as u64) * 0x100_0000 + (buffer[7] as u64) * 0x1_0000
            + (buffer[8] as u64) * 0x100 + (buffer[9] as u64)
    } else {
        length_byte as u64
    }
}

/// `result` is what reading the frame in `buffer` gives. The frame is
/// final where the first byte is above 128; its kind comes from the first
/// byte; its payload is the text of the payload bytes. A payload that is
/// not UTF-8 is an error.
pub open spec fn read_as(buffer: Seq<u8>, result: Result<Frame, &'static str>) -> bool
    recommends
        holds_frame(buffer),
{
    match result {
        Ok(frame) => {
            &&& valid_utf8(payload_bytes(buffer))
            &&& frame.fin == (buffer[0] > 128)
            &&& frame.opcode == opcode_of(buffer[0])
            &&& frame.payload@ == decode_utf8(payload_bytes(buffer))
            &&& frame.id == 0
        },
        Err(reason) => !valid_utf8(payload_bytes(buffer)) && reason@ == "Whoopsies"@,
    }
}

impl Frame {
    /// Tells whether a buffer holds the whole header and the whole payload
    /// of its frame, so that the frame can be read from it.
    pub fn fits(buffer: &[u8]) -> (whole: bool)
        ensures
            whole == holds_frame(buffer@),
    {
        if buffer.len() < 2 {
            return false;
        }
        let length_byte: u8 = buffer[1];
        if (length_byte == 126 && buffer.len() < 4) || (length_byte == 127 && buffer.len() < 10) {
            return false;
        }
        if buffer.len() < PAYLOAD_START {
            return false;
        }
        let room: usize = buffer.len() - PAYLOAD_START;
        declared_len(buffer) <= room as u64
    }

    /// Reads a frame from a buffer that holds all of it: `result` is what
    /// `read_as` says of the buffer.
    pub fn new(buffer: &[u8]) -> (result: Result<Frame, &'static str>)
        requires
            holds_frame(buffer@),
        ensures
            read_as(buffer@, result),
    {
        let first_byte: u8 = buffer[0];
        let fin = first_byte > 128;
        let length: u64 = declared_len(buffer);
        let code = opcode(first_byte);
        let end: usize = PAYLOAD_START + length as usize;
        let payload = slice_to_vec(slice_subrange(buffer, PAYLOAD_START, end));
        match text_of(payload) {
            Some(payload) => Ok(Frame { fin, opcode: code, payload, id: 0 }),
            None => Err("Whoopsies"),
        }
    }

    /// Reads a frame from a block of 128 bytes, as `new` does; nothing
    /// where the block does not hold the whole of its frame.
    pub fn try_from(value: [u8; 128]) -> (result: Option<Result<Frame, &'static str>>)
        ensures
            result is Some == holds_frame(value@),
            result matches Some(read) ==> read_as(value@, read),
    {
        let buffer = array_as_slice(&value);
        if Frame::fits(buffer) {
            Some(Frame::new(buffer))
        } else {
            None
        }
    }
}

} // verus!
