//! Frames of the JSON-RPC transport: a four-byte little-endian length, then
//! the payload.
use vstd::prelude::*;

verus! {

/// Bytes of the length header.
pub const HEADER_SIZE: usize = 4;

/// The largest payload, in bytes (64 KiB).
pub const MAX_PAYLOAD_SIZE: usize = 65536;

/// Why a frame could not be read.
#[derive(Debug, Clone, PartialEq, Eq)]
pub enum FrameError {
    /// Fewer bytes than the header, or than the length it gives.
    Truncated,
    /// The header gives a length above the limit.
    PayloadTooLarge,
    /// The payload is not the JSON expected; the text is the parser's.
    Malformed(String),
}

impl FrameError {
    /// The text the error displays.
    pub open spec fn text(&self) -> Seq<char> {
        match self {
            FrameError::Truncated => "frame too short"@,
            FrameError::PayloadTooLarge => "payload too large"@,
            FrameError::Malformed(_) => "invalid json"@,
        }
    }

    /// The text the error displays.
    pub fn display_string(&self) -> (r: String)
        ensures
            r@ == self.text(),
    {
        match self {
            FrameError::Truncated => String::from_str("frame too short"),
            FrameError::PayloadTooLarge => String::from_str("payload too large"),
            FrameError::Malformed(_) => String::from_str("invalid json"),
        }
    }
}

/// Why a frame could not be written.
#[derive(Debug, Clone, PartialEq, Eq)]
pub enum EncodeError {
    PayloadTooLarge,
    /// The message could not be written as JSON; the text is the writer's.
    Json(String),
}

impl EncodeError {
    /// The text the error displays.
    pub open spec fn text(&self) -> Seq<char> {
        match self {
            EncodeError::PayloadTooLarge => "payload too large"@,
            EncodeError::Json(s) => s@,
        }
    }

    /// The text the error displays.
    pub fn display_string(&self) -> (r: String)
        ensures
            r@ == self.text(),
    {
        match self {
            EncodeError::PayloadTooLarge => String::from_str("payload too large"),
            EncodeError::Json(s) => s.clone(),
        }
    }
}

/// The four little-endian bytes of `n`.
pub open spec fn le_bytes(n: u32) -> Seq<u8> {
    seq![(n % 256) as u8, ((n / 256) % 256) as u8, ((n / 65536) % 256) as u8, (n / 16777216) as u8]
}

/// The number four little-endian bytes stand for.
pub open spec fn le_value(b: Seq<u8>) -> nat {
    b[0] as nat + 256 * (b[1] as nat) + 65536 * (b[2] as nat) + 16777216 * (b[3] as nat)
}

proof fn lemma_le_roundtrip(n: u32)
    ensures
        le_value(le_bytes(n)) == n,
{
    let b = le_bytes(n);
    assert(b[0] == n % 256);
    assert(b[1] == (n / 256) % 256);
    assert(b[2] == (n / 65536) % 256);
    assert(b[3] == n / 16777216);
    assert(n == n % 256 + 256 * ((n / 256) % 256) + 65536 * ((n / 65536) % 256) + 16777216 * (n / 16777216)) by (nonlinear_arith);
}

/// The frame of `payload`.
pub open spec fn framed(payload: Seq<u8>) -> Seq<u8> {
    le_bytes(payload.len() as u32) + payload
}

/// Frames `payload`; a payload above the limit is refused.
pub fn encode_frame(payload: &[u8]) -> (r: Result<Vec<u8>, EncodeError>)
    ensures
        payload@.len() > MAX_PAYLOAD_SIZE ==> r == Err::<Vec<u8>, EncodeError>(EncodeError::PayloadTooLarge),
        payload@.len() <= MAX_PAYLOAD_SIZE ==> (r matches Ok(f) && f@ == framed(payload@)),
{
    if payload.len() > MAX_PAYLOAD_SIZE {
        return Err(EncodeError::PayloadTooLarge);
    }
    let n: u32 = payload.len() as u32;
    let mut frame: Vec<u8> = Vec::new();
    frame.push((n % 256) as u8);
    frame.push(((n / 256) % 256) as u8);
    frame.push(((n / 65536) % 256) as u8);
    frame.push((n / 16777216) as u8);
    let mut i: usize = 0;
    while i < payload.len()
        invariant
            i <= payload@.len(),
            n == payload@.len(),
            frame@ == le_bytes(n) + payload@.take(i as int),
        decreases payload.len() - i,
    {
        frame.push(payload[i]);
        assert(payload@.take(i + 1) == payload@.take(i as int).push(payload@[i as int]));
        i = i + 1;
    }
    assert(payload@.take(payload@.len() as int) == payload@);
    Ok(frame)
}

/// What reading a frame from `data` gives.
pub open spec fn frame_outcome(data: Seq<u8>) -> Result<Seq<u8>, FrameError> {
    if data.len() < HEADER_SIZE {
        Err(FrameError::Truncated)
    } else if le_value(data) > MAX_PAYLOAD_SIZE {
        Err(FrameError::PayloadTooLarge)
    } else if data.len() - HEADER_SIZE < le_value(data) {
        Err(FrameError::Truncated)
    } else {
        Ok(data.subrange(HEADER_SIZE as int, HEADER_SIZE + le_value(data)))
    }
}

/// The payload of the frame at the start of `data`: too short a header or
/// body is truncated, a length above the limit is refused; bytes after the
/// frame are ignored.
pub fn decode_frame(data: &[u8]) -> (r: Result<Vec<u8>, FrameError>)
    ensures
        match r {
            Ok(p) => frame_outcome(data@) == Ok::<Seq<u8>, FrameError>(p@),
            Err(e) => frame_outcome(data@) == Err::<Seq<u8>, FrameError>(e),
        },
{
    if data.len() < HEADER_SIZE {
        return Err(FrameError::Truncated);
    }
    let len: u64 = data[0] as u64 + 256 * (data[1] as u64) + 65536 * (data[2] as u64) + 16777216 * (data[3] as u64);
    assert(len == le_value(data@));
    if len > MAX_PAYLOAD_SIZE as u64 {
        return Err(FrameError::PayloadTooLarge);
    }
    let len = len as usize;
    if data.len() - HEADER_SIZE < len {
        return Err(FrameError::Truncated);
    }
    let mut payload: Vec<u8> = Vec::new();
    let mut i: usize = 0;
    while i < len
        invariant
            i <= len,
            HEADER_SIZE + len <= data@.len(),
            data@.len() == data.len(),
            payload@ == data@.subrange(HEADER_SIZE as int, HEADER_SIZE + i),
        decreases len - i,
    {
        payload.push(data[HEADER_SIZE + i]);
        assert(data@.subrange(HEADER_SIZE as int, HEADER_SIZE + i + 1)
            == data@.subrange(HEADER_SIZE as int, HEADER_SIZE + i).push(data@[HEADER_SIZE + i]));
        i = i + 1;
    }
    Ok(payload)
}

/// Reading back a frame gives the payload that was framed, for every
/// payload within the limit.
pub proof fn law_frame_roundtrip(payload: Seq<u8>)
    requires
        payload.len() <= MAX_PAYLOAD_SIZE,
    ensures
        frame_outcome(framed(payload)) == Ok::<Seq<u8>, FrameError>(payload),
{
    let n = payload.len() as u32;
    lemma_le_roundtrip(n);
    let f = framed(payload);
    assert(le_value(f) == le_value(le_bytes(n))) by {
        assert(f[0] == le_bytes(n)[0]);
        assert(f[1] == le_bytes(n)[1]);
        assert(f[2] == le_bytes(n)[2]);
        assert(f[3] == le_bytes(n)[3]);
    }
    assert(f.subrange(4, 4 + payload.len() as int) =~= payload);
}

/// A frame cut short by even one byte is reported truncated.
pub proof fn law_cut_frame_truncated(payload: Seq<u8>, keep: int)
    requires
        payload.len() <= MAX_PAYLOAD_SIZE,
        0 <= keep < framed(payload).len(),
    ensures
        frame_outcome(framed(payload).take(keep)) == Err::<Seq<u8>, FrameError>(FrameError::Truncated),
{
    let n = payload.len() as u32;
    let full = framed(payload);
    assert(full.len() == 4 + payload.len());
    let f = full.take(keep);
    assert(f.len() == keep);
    if keep >= 4 {
        lemma_le_roundtrip(n);
        assert(f[0] == full[0] && full[0] == le_bytes(n)[0]);
        assert(f[1] == full[1] && full[1] == le_bytes(n)[1]);
        assert(f[2] == full[2] && full[2] == le_bytes(n)[2]);
        assert(f[3] == full[3] && full[3] == le_bytes(n)[3]);
        assert(le_value(f) == n);
    }
}

} // verus!
