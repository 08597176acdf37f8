//! Length-prefixed IPC frames: a 4-byte big-endian body length, then the
//! body. Both ends refuse a declared length above a 1 MiB cap before they
//! read (or allocate) the body.

use vstd::prelude::*;

use crate::text::{decimal, push_decimal, push_str};

verus! {

/// Hard cap on a single frame body. Requests are tiny JSON objects; anything
/// larger is treated as a hostile or malformed sender.
pub const MAX_FRAME_BYTES: usize = 1048576;

/// Why a frame could not be written or read.
#[derive(Debug, Clone, Copy, PartialEq, Eq, Structural)]
pub enum FrameError {
    /// The body is longer than a 4-byte length can state.
    BodyTooLong { len: usize },
    /// The declared body length is above [`MAX_FRAME_BYTES`].
    LengthOverCap { len: usize },
}

/// The number a 4-byte big-endian header states.
pub open spec fn be32(h: Seq<u8>) -> nat {
    (h[0] as nat) * 16777216 + (h[1] as nat) * 65536 + (h[2] as nat) * 256 + (h[3] as nat)
}

/// The 4-byte big-endian form of `n` (`u32::to_be_bytes`).
pub open spec fn be_bytes(n: nat) -> Seq<u8> {
    seq![
        (n / 16777216) as u8,
        (n / 65536 % 256) as u8,
        (n / 256 % 256) as u8,
        (n % 256) as u8,
    ]
}

/// The bytes of the frame that carries `body`.
pub open spec fn framed(body: Seq<u8>) -> Seq<u8> {
    be_bytes(body.len()) + body
}

/// The text each error reads as.
pub open spec fn frame_error_text(e: FrameError) -> Seq<char> {
    match e {
        FrameError::BodyTooLong { .. } => "response exceeds 4 GiB"@,
        FrameError::LengthOverCap { len } => "frame length "@ + decimal(len as nat)
            + " exceeds 1048576-byte cap"@,
    }
}

/// What reading the front of a byte stream yields.
#[derive(Debug)]
pub enum FrameRead {
    /// The stream does not yet hold a whole frame.
    NeedMore,
    /// A whole frame: its body and how many stream bytes it took.
    Frame { body: Vec<u8>, consumed: usize },
}

/// Reading a frame from `buf`: `None` when more bytes are needed, else the
/// body (or the cap error) and the bytes consumed.
pub open spec fn read_spec(buf: Seq<u8>) -> Option<Result<(Seq<u8>, nat), FrameError>> {
    if buf.len() < 4 {
        None
    } else {
        let len = be32(buf.subrange(0, 4));
        if len > MAX_FRAME_BYTES {
            Some(Err(FrameError::LengthOverCap { len: len as usize }))
        } else if buf.len() < 4 + len {
            None
        } else {
            Some(Ok((buf.subrange(4, 4 + len as int), (4 + len) as nat)))
        }
    }
}

/// Decoding the header of `n` gives back `n`.
pub proof fn lemma_be_round_trip(n: nat)
    requires
        n <= 0xffff_ffff,
    ensures
        be_bytes(n).len() == 4,
        be32(be_bytes(n)) == n,
{
    let b0 = n / 16777216;
    let b1 = n / 65536 % 256;
    let b2 = n / 256 % 256;
    let b3 = n % 256;
    assert(b0 < 256 && b1 < 256 && b2 < 256 && b3 < 256) by (nonlinear_arith)
        requires
            n <= 0xffff_ffff,
            b0 == n / 16777216,
            b1 == n / 65536 % 256,
            b2 == n / 256 % 256,
            b3 == n % 256,
    ;
    assert(b0 * 16777216 + b1 * 65536 + b2 * 256 + b3 == n) by (nonlinear_arith)
        requires
            b0 == n / 16777216,
            b1 == n / 65536 % 256,
            b2 == n / 256 % 256,
            b3 == n % 256,
    ;
}

/// The header for a body of `len` bytes, or `BodyTooLong` when `len` does
/// not fit in 4 bytes.
pub fn frame_header(len: usize) -> (r: Result<Vec<u8>, FrameError>)
    ensures
        len <= 0xffff_ffff ==> (r matches Ok(h) && h@ == be_bytes(len as nat)),
        len > 0xffff_ffff ==> r == Err::<Vec<u8>, FrameError>(FrameError::BodyTooLong { len }),
{
    if len > 0xffff_ffff {
        return Err(FrameError::BodyTooLong { len });
    }
    let x: u64 = len as u64;
    proof {
        lemma_be_round_trip(len as nat);
    }
    let mut h: Vec<u8> = Vec::new();
    h.push((x / 16777216) as u8);
    h.push((x / 65536 % 256) as u8);
    h.push((x / 256 % 256) as u8);
    h.push((x % 256) as u8);
    assert(h@ =~= be_bytes(len as nat));
    Ok(h)
}

/// The body length a 4-byte header states.
pub fn header_len(h: &[u8]) -> (n: u64)
    requires
        h@.len() == 4,
    ensures
        n == be32(h@),
{
    (h[0] as u64) * 16777216 + (h[1] as u64) * 65536 + (h[2] as u64) * 256 + (h[3] as u64)
}

/// The whole frame for `body`: its header, then the body.
pub fn encode_frame(body: &[u8]) -> (r: Result<Vec<u8>, FrameError>)
    ensures
        body@.len() <= 0xffff_ffff ==> (r matches Ok(f) && f@ == framed(body@)),
        body@.len() > 0xffff_ffff ==> r == Err::<Vec<u8>, FrameError>(
            FrameError::BodyTooLong { len: body@.len() as usize },
        ),
{
    let mut out = match frame_header(body.len()) {
        Ok(h) => h,
        Err(e) => return Err(e),
    };
    let ghost h0 = out@;
    let mut i: usize = 0;
    while i < body.len()
        invariant
            i <= body@.len(),
            out@ == h0 + body@.take(i as int),
        decreases body@.len() - i,
    {
        out.push(body[i]);
        assert(body@.take(i as int + 1) =~= body@.take(i as int).push(body@[i as int]));
        i += 1;
    }
    assert(body@.take(body@.len() as int) =~= body@);
    Ok(out)
}

/// Read one frame from the front of `buf`. The cap is checked as soon as
/// the header is in, before any body byte is needed.
pub fn read_frame_from(buf: &[u8]) -> (r: Result<FrameRead, FrameError>)
    ensures
        match read_spec(buf@) {
            None => r matches Ok(FrameRead::NeedMore),
            Some(Err(e)) => r == Err::<FrameRead, FrameError>(e),
            Some(Ok((body, consumed))) => r matches Ok(FrameRead::Frame { body: b, consumed: c })
                && b@ == body && c == consumed,
        },
{
    if buf.len() < 4 {
        return Ok(FrameRead::NeedMore);
    }
    let n = header_len(&buf[0..4]);
    assert(buf@.subrange(0, 4) =~= buf@.subrange(0, 4));
    if n > MAX_FRAME_BYTES as u64 {
        return Err(FrameError::LengthOverCap { len: n as usize });
    }
    let len = n as usize;
    if buf.len() - 4 < len {
        return Ok(FrameRead::NeedMore);
    }
    let mut body: Vec<u8> = Vec::new();
    let mut i: usize = 0;
    while i < len
        invariant
            i <= len,
            4 + len <= buf.len(),
            body@ == buf@.subrange(4, 4 + i as int),
        decreases len - i,
    {
        body.push(buf[4 + i]);
        assert(buf@.subrange(4, 4 + i as int + 1) =~= buf@.subrange(4, 4 + i as int).push(
            buf@[4 + i as int],
        ));
        i += 1;
    }
    Ok(FrameRead::Frame { body, consumed: 4 + len })
}

/// What a reader gets back of a written frame: a body within the cap comes
/// back unchanged, whatever follows it in the stream, and the reader
/// consumes exactly the frame.
pub proof fn law_frame_round_trip(body: Seq<u8>, rest: Seq<u8>)
    requires
        body.len() <= MAX_FRAME_BYTES,
    ensures
        read_spec(framed(body) + rest) == Some(Ok::<(Seq<u8>, nat), FrameError>((body, (4 + body.len()) as nat))),
{
    lemma_be_round_trip(body.len());
    let buf = framed(body) + rest;
    assert(buf.subrange(0, 4) =~= be_bytes(body.len()));
    assert(buf.subrange(4, 4 + body.len() as int) =~= body);
}

/// A header that declares more than the cap is refused from the header
/// alone, however few body bytes follow.
pub proof fn law_oversize_refused_from_header(len: nat, rest: Seq<u8>)
    requires
        MAX_FRAME_BYTES < len <= 0xffff_ffff,
    ensures
        read_spec(be_bytes(len) + rest) == Some(
            Err::<(Seq<u8>, nat), FrameError>(FrameError::LengthOverCap { len: len as usize }),
        ),
{
    lemma_be_round_trip(len);
    assert((be_bytes(len) + rest).subrange(0, 4) =~= be_bytes(len));
}

impl FrameError {
    /// The error's text.
    pub fn message(&self) -> (s: String)
        ensures
            s@ == frame_error_text(*self),
    {
        let mut s = String::new();
        match self {
            FrameError::BodyTooLong { .. } => {
                push_str(&mut s, "response exceeds 4 GiB");
            },
            FrameError::LengthOverCap { len } => {
                push_str(&mut s, "frame length ");
                push_decimal(&mut s, *len as u64);
                push_str(&mut s, " exceeds 1048576-byte cap");
            },
        }
        s
    }
}

} // verus!
