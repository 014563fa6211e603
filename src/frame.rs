use vstd::prelude::*;
use crate::connection::StreamId;
use crate::stream::{Header, PartContent, StreamPart};

verus! {

#[verifier::external_type_specification]
#[verifier::external_body]
pub struct ExEncoder<'a>(hpack::Encoder<'a>);

/// Frame type of a data frame.
pub const DATA_FRAME: u8 = 0x0;
/// Frame type of a headers frame.
pub const HEADERS_FRAME: u8 = 0x1;
/// Flag that ends the stream.
pub const END_STREAM: u8 = 0x1;
/// Flag that ends a header block.
pub const END_HEADERS: u8 = 0x4;
/// Largest payload that the 24-bit length field can describe.
pub const MAX_PAYLOAD: usize = 0xFF_FFFF;

/// The 9-byte frame header: a 24-bit big-endian payload length, the frame
/// type, the flags and the 32-bit big-endian stream id.
pub open spec fn frame_header(length: u32, frame_type: u8, flags: u8, stream_id: u32) -> Seq<u8> {
    seq![
        ((length / 0x10000) % 0x100) as u8,
        ((length / 0x100) % 0x100) as u8,
        (length % 0x100) as u8,
        frame_type,
        flags,
        ((stream_id / 0x1000000) % 0x100) as u8,
        ((stream_id / 0x10000) % 0x100) as u8,
        ((stream_id / 0x100) % 0x100) as u8,
        (stream_id % 0x100) as u8,
    ]
}

/// A whole frame: header, then payload.
pub open spec fn frame_bytes(frame_type: u8, flags: u8, stream_id: u32, payload: Seq<u8>) -> Seq<u8> {
    frame_header(payload.len() as u32, frame_type, flags, stream_id) + payload
}

/// The flags of a data frame.
pub open spec fn data_flags(last: bool) -> u8 {
    if last { END_STREAM } else { 0 }
}

/// The flags of a headers frame that carries a whole header block.
pub open spec fn headers_flags(last: bool) -> u8 {
    if last { (END_HEADERS | END_STREAM) as u8 } else { END_HEADERS }
}

/// Why a part cannot be framed.
#[derive(Debug, PartialEq, Eq, Structural)]
pub enum FrameError {
    /// The payload does not fit the 24-bit length field.
    PayloadTooLarge,
}

/// Relies on solicit's `RawFrame::with_payload` and `RawFrame::serialize`:
/// the header packed as 9 bytes (`pack_header`), then the payload.
#[verifier::external_body]
fn raw_frame(length: u32, frame_type: u8, flags: u8, stream_id: u32, payload: Vec<u8>) -> (r: Vec<u8>)
    ensures
        r@ == frame_header(length, frame_type, flags, stream_id) + payload@,
{
    solicit::http::frame::RawFrame::with_payload((length, frame_type, flags, stream_id), payload).serialize()
}

/// Relies on hpack's `Encoder::encode`, which compresses a header list
/// against the encoder's table and updates that table; the bytes depend on
/// what the encoder has seen before.
#[verifier::external_body]
fn encode_header_block(encoder: &mut hpack::Encoder<'static>, headers: &Vec<Header>) -> (r: Vec<u8>) {
    encoder.encode(headers.iter().map(|h| (&h.0[..], &h.1[..])))
}

/// A data frame of stream `stream_id` carrying `data`, ending the stream
/// where `last` holds.
pub fn data_frame(stream_id: StreamId, data: Vec<u8>, last: bool) -> (r: Result<Vec<u8>, FrameError>)
    ensures
        data@.len() <= MAX_PAYLOAD ==> (r matches Ok(v) && v@ == frame_bytes(
            DATA_FRAME,
            data_flags(last),
            stream_id,
            data@,
        )),
        data@.len() > MAX_PAYLOAD ==> r matches Err(FrameError::PayloadTooLarge),
{
    if data.len() > MAX_PAYLOAD {
        return Err(FrameError::PayloadTooLarge);
    }
    let flags: u8 = if last { END_STREAM } else { 0 };
    Ok(raw_frame(data.len() as u32, DATA_FRAME, flags, stream_id, data))
}

/// A headers frame of stream `stream_id` carrying the whole compressed
/// header block `fragment`, ending the stream where `last` holds.
pub fn headers_frame(stream_id: StreamId, fragment: Vec<u8>, last: bool) -> (r: Result<Vec<u8>, FrameError>)
    ensures
        fragment@.len() <= MAX_PAYLOAD ==> (r matches Ok(v) && v@ == frame_bytes(
            HEADERS_FRAME,
            headers_flags(last),
            stream_id,
            fragment@,
        )),
        fragment@.len() > MAX_PAYLOAD ==> r matches Err(FrameError::PayloadTooLarge),
{
    if fragment.len() > MAX_PAYLOAD {
        return Err(FrameError::PayloadTooLarge);
    }
    let flags: u8 = if last { END_HEADERS | END_STREAM } else { END_HEADERS };
    Ok(raw_frame(fragment.len() as u32, HEADERS_FRAME, flags, stream_id, fragment))
}

/// Serializes one outbound part of stream `stream_id`: a data unit as a
/// data frame, a header list, compressed by `encoder`, as a headers frame
/// that ends its block. The end-of-stream flag follows `part.last`.
pub fn encode_part(encoder: &mut hpack::Encoder<'static>, stream_id: StreamId, part: StreamPart) -> (r: Result<
    Vec<u8>,
    FrameError,
>)
    ensures
        match part.content {
            PartContent::Data(d) => {
                &&& d@.len() <= MAX_PAYLOAD ==> (r matches Ok(v) && v@ == frame_bytes(
                    DATA_FRAME,
                    data_flags(part.last),
                    stream_id,
                    d@,
                ))
                &&& d@.len() > MAX_PAYLOAD ==> r matches Err(FrameError::PayloadTooLarge)
            },
            PartContent::Headers(_) => {
                &&& r matches Ok(v) ==> exists|fragment: Seq<u8>|
                    fragment.len() <= MAX_PAYLOAD && v@ == frame_bytes(
                        HEADERS_FRAME,
                        headers_flags(part.last),
                        stream_id,
                        fragment,
                    )
                &&& r matches Err(e) ==> e == FrameError::PayloadTooLarge
            },
        },
{
    match part.content {
        PartContent::Data(d) => data_frame(stream_id, d, part.last),
        PartContent::Headers(h) => {
            let fragment = encode_header_block(encoder, &h);
            let ghost g = fragment@;
            let r = headers_frame(stream_id, fragment, part.last);
            assert(r matches Ok(v) ==> v@ == frame_bytes(HEADERS_FRAME, headers_flags(part.last), stream_id, g));
            r
        },
    }
}

} // verus!
