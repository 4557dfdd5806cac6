//! The Host/Runtime wire contract: envelopes and the length-prefixed frame codec.
//!
//! A frame is the payload's length as a 4-byte big-endian unsigned integer,
//! followed by the payload (a UTF-8 JSON document).
use vstd::prelude::*;

use crate::domain::DomainError;
use crate::json::JsonValue;

pub mod methods;
pub mod worker;

verus! {

/// The Host/Runtime protocol version.
pub const PROTOCOL_V1: u32 = 1;

/// The largest payload that a frame may carry by default (8 MiB).
pub const DEFAULT_MAX_FRAME_BYTES: usize = 8388608;

/// Why a frame could not be produced or accepted.
#[derive(Debug)]
pub enum FrameError {
    /// The payload length, which exceeds the configured maximum.
    TooLarge(usize),
    /// The payload is not a valid JSON document; the parser's message.
    InvalidJson(String),
}

/// A request from the Host to the Runtime.
#[derive(Debug)]
pub struct RequestEnvelope {
    pub protocol: u32,
    pub request_id: String,
    pub method: String,
    pub params: JsonValue,
}

/// The Runtime's answer to one request.
#[derive(Debug)]
pub struct ResponseEnvelope {
    pub protocol: u32,
    pub request_id: String,
    pub ok: bool,
    pub result: Option<JsonValue>,
    pub error: Option<DomainError>,
}

/// An unsolicited event from the Runtime.
#[derive(Debug)]
pub struct EventEnvelope {
    pub protocol: u32,
    pub event: String,
    pub sequence: u64,
    pub payload: JsonValue,
}

/// The four big-endian bytes of `n`.
pub open spec fn be_bytes(n: u32) -> Seq<u8> {
    seq![
        (n / 16777216) as u8,
        ((n / 65536) % 256) as u8,
        ((n / 256) % 256) as u8,
        (n % 256) as u8,
    ]
}

/// The unsigned integer that four big-endian bytes denote.
pub open spec fn be_value(b: Seq<u8>) -> nat {
    (b[0] as nat) * 16777216 + (b[1] as nat) * 65536 + (b[2] as nat) * 256 + (b[3] as nat)
}

/// Reading back the four big-endian bytes of `n` gives `n`.
pub proof fn lemma_be_round_trip(n: u32)
    ensures
        be_value(be_bytes(n)) == n,
{
    let x = n as int;
    assert(x == (x / 16777216) * 16777216 + ((x / 65536) % 256) * 65536 + ((x / 256) % 256) * 256
        + x % 256) by (nonlinear_arith)
        requires
            0 <= x < 4294967296,
    ;
}

/// The frame for `payload`: its length (modulo 2^32) in four big-endian bytes, then the payload.
pub open spec fn framed(payload: Seq<u8>) -> Seq<u8> {
    be_bytes(payload.len() as u32) + payload
}

/// Frames an already encoded JSON payload. A payload longer than `max_bytes`
/// is refused with its length.
pub fn encode_json_frame(payload: &[u8], max_bytes: usize) -> (r: Result<Vec<u8>, FrameError>)
    ensures
        payload@.len() > max_bytes ==> r == Err::<Vec<u8>, FrameError>(
            FrameError::TooLarge(payload@.len() as usize),
        ),
        payload@.len() <= max_bytes ==> (r matches Ok(bytes) && bytes@ == framed(payload@)),
{
    if payload.len() > max_bytes {
        return Err(FrameError::TooLarge(payload.len()));
    }
    #[verifier::truncate]
    let n: u32 = payload.len() as u32;
    let mut out: Vec<u8> = Vec::new();
    out.push((n / 16777216) as u8);
    out.push(((n / 65536) % 256) as u8);
    out.push(((n / 256) % 256) as u8);
    out.push((n % 256) as u8);
    let mut i: usize = 0;
    while i < payload.len()
        invariant
            0 <= i <= payload@.len(),
            out@ == be_bytes(n) + payload@.take(i as int),
        decreases payload@.len() - i,
    {
        out.push(payload[i]);
        assert(payload@.take(i + 1) =~= payload@.take(i as int).push(payload@[i as int]));
        i += 1;
    }
    assert(payload@.take(i as int) =~= payload@);
    Ok(out)
}

/// The payload length that a frame's 4-byte prefix announces; a length above
/// `max_bytes` is refused with that length.
pub fn frame_payload_len(prefix: [u8; 4], max_bytes: usize) -> (r: Result<usize, FrameError>)
    ensures
        be_value(prefix@) > max_bytes ==> r == Err::<usize, FrameError>(
            FrameError::TooLarge(be_value(prefix@) as usize),
        ),
        be_value(prefix@) <= max_bytes ==> r == Ok::<usize, FrameError>(be_value(prefix@) as usize),
{
    let size: u64 = (prefix[0] as u64) * 16777216 + (prefix[1] as u64) * 65536 + (prefix[2] as u64)
        * 256 + (prefix[3] as u64);
    if size > max_bytes as u64 {
        return Err(FrameError::TooLarge(size as usize));
    }
    Ok(size as usize)
}

/// Accepts a received payload for JSON decoding only when it is at most `max_bytes` long.
pub fn check_payload_size(payload: &[u8], max_bytes: usize) -> (r: Result<(), FrameError>)
    ensures
        payload@.len() > max_bytes ==> r == Err::<(), FrameError>(
            FrameError::TooLarge(payload@.len() as usize),
        ),
        payload@.len() <= max_bytes ==> r is Ok,
{
    if payload.len() > max_bytes {
        return Err(FrameError::TooLarge(payload.len()));
    }
    Ok(())
}

/// Reading the prefix of an encoded frame gives back the payload length, and the
/// bytes after it are the payload: the codec loses nothing. (The prefix holds the
/// length modulo 2^32, so the law is for payloads shorter than 4 GiB.)
pub proof fn lemma_frame_round_trip(payload: Seq<u8>)
    requires
        payload.len() <= u32::MAX,
    ensures
        framed(payload).len() == payload.len() + 4,
        be_value(framed(payload).take(4)) == payload.len(),
        framed(payload).skip(4) == payload,
{
    let f = framed(payload);
    lemma_be_round_trip(payload.len() as u32);
    assert(f.take(4) =~= be_bytes(payload.len() as u32));
    assert(f.skip(4) =~= payload);
}

/// The message of a frame error.
pub open spec fn frame_error_text(e: FrameError) -> Seq<char> {
    match e {
        FrameError::TooLarge(n) => "frame length "@ + crate::text::decimal(n as nat)
            + " exceeds configured maximum"@,
        FrameError::InvalidJson(m) => "payload is not valid JSON: "@ + m@,
    }
}

impl FrameError {
    /// The message of the error.
    pub fn describe(&self) -> (r: String)
        ensures
            r@ == frame_error_text(*self),
    {
        match self {
            FrameError::TooLarge(n) => {
                let digits = crate::text::u64_to_decimal(*n as u64);
                crate::text::concat3("frame length ", digits.as_str(), " exceeds configured maximum")
            },
            FrameError::InvalidJson(m) => crate::text::concat2("payload is not valid JSON: ", m.as_str()),
        }
    }
}

} // verus!
