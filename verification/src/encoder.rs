//! Framing a captured image as one part of a stream.

use crate::frame::FrameHandle;
use crate::wire::{decimal, envelope_value, part_bytes, part_header, CR, DIGIT_ZERO, LF};
use vstd::prelude::*;
use vstd::string::*;

verus! {

/// One frame made ready for the wire. The header and the payload are kept
/// apart because they are written in two steps.
#[derive(Debug)]
pub struct TransportChunk {
    pub header: Vec<u8>,
    pub payload: Vec<u8>,
}

impl TransportChunk {
    /// Everything the chunk puts on the wire, in order.
    pub open spec fn bytes(&self) -> Seq<u8> {
        self.header@ + self.payload@
    }

    /// The header followed by the payload, as one buffer.
    pub fn into_bytes(self) -> (bytes: Vec<u8>)
        ensures
            bytes@ == self.bytes(),
    {
        let mut bytes = self.header;
        append_bytes(&mut bytes, self.payload.as_slice());
        bytes
    }
}

pub(crate) fn append_bytes(out: &mut Vec<u8>, bytes: &[u8])
    ensures
        final(out)@ == old(out)@ + bytes@,
{
    out.extend_from_slice(bytes);
    assert(out@ =~= old(out)@ + bytes@);
}

pub(crate) fn append_decimal(out: &mut Vec<u8>, n: usize)
    ensures
        final(out)@ == old(out)@ + decimal(n as nat),
    decreases n,
{
    if n >= 10 {
        append_decimal(out, n / 10);
    }
    let digit: u8 = (n % 10) as u8;
    out.push(DIGIT_ZERO + digit);
    assert(out@ =~= old(out)@ + decimal(n as nat));
}

/// The value of the `Content-Type` header that opens a stream whose parts
/// are separated by the boundary token `token`.
pub fn envelope(token: &[u8]) -> (value: Vec<u8>)
    ensures
        value@ == envelope_value(token@),
{
    let mut value: Vec<u8> = Vec::new();
    append_bytes(&mut value, "multipart/x-mixed-replace; boundary=".as_bytes());
    append_bytes(&mut value, token);
    value
}

fn encode_header(token: &[u8], length: usize) -> (header: Vec<u8>)
    ensures
        header@ == part_header(token@, length as nat),
{
    let mut header: Vec<u8> = Vec::new();
    append_bytes(&mut header, "\r\n--".as_bytes());
    append_bytes(&mut header, token);
    header.push(CR);
    header.push(LF);
    append_bytes(&mut header, "Content-Type: image/jpeg\r\n".as_bytes());
    append_bytes(&mut header, "Content-Length: ".as_bytes());
    append_decimal(&mut header, length);
    header.push(CR);
    header.push(LF);
    header.push(CR);
    header.push(LF);
    assert(header@ =~= part_header(token@, length as nat));
    header
}

/// Frames one captured image under a boundary token given as bytes.
pub(crate) fn encode_part(frame: &FrameHandle, token: &[u8]) -> (chunk: TransportChunk)
    ensures
        chunk.header@ == part_header(token@, frame@.data.len()),
        chunk.payload@ == frame@.data,
{
    let header = encode_header(token, frame.len());
    let mut payload: Vec<u8> = Vec::new();
    append_bytes(&mut payload, frame.data());
    TransportChunk { header, payload }
}

/// Frames one captured image for the wire: the delimiter line with the
/// boundary token, the two header lines, a blank line, and then the image
/// bytes as they are. Nothing follows the payload. Every frame can be
/// framed: a handle always knows its own length.
pub fn encode(frame: &FrameHandle, boundary: &str) -> (chunk: TransportChunk)
    ensures
        chunk.header@ == part_header(boundary.spec_bytes(), frame@.data.len()),
        chunk.payload@ == frame@.data,
        chunk.bytes() == part_bytes(boundary.spec_bytes(), frame@.data),
{
    encode_part(frame, boundary.as_bytes())
}

} // verus!
