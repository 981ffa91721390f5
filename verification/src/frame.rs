//! Length-prefixed framing: every frame is the payload's length as a 4-byte
//! big-endian integer, then the payload. Payloads above 8 MiB are refused
//! on both sides.
use vstd::prelude::*;

verus! {

/// The largest payload a frame may carry.
pub const MAX_FRAME: usize = 8388608;

/// The size of the length prefix.
pub const FRAME_HEADER_LEN: usize = 4;

/// Why a frame could not be written or read.
#[derive(Debug, Clone, Copy, PartialEq, Eq, Structural)]
pub enum FrameError {
    /// The payload length (given) exceeds `MAX_FRAME`.
    TooLarge(u64),
    /// The input ends before the frame does.
    Incomplete,
}

/// The 4-byte big-endian representation of `n` (for `n < 2^32`).
pub open spec fn be_bytes(n: int) -> Seq<u8> {
    seq![
        (n / 16777216) as u8,
        ((n / 65536) % 256) as u8,
        ((n / 256) % 256) as u8,
        (n % 256) as u8,
    ]
}

/// The number that 4 big-endian bytes represent.
pub open spec fn be_value(b: Seq<u8>) -> int {
    (b[0] as int) * 16777216 + (b[1] as int) * 65536 + (b[2] as int) * 256 + (b[3] as int)
}

/// The frame that carries `payload`.
pub open spec fn frame_bytes(payload: Seq<u8>) -> Seq<u8> {
    be_bytes(payload.len() as int) + payload
}

/// What reading one frame from the front of `input` gives: the payload and
/// the number of bytes the frame takes, or the reason it cannot be read.
pub open spec fn parsed_frame(input: Seq<u8>) -> Result<(Seq<u8>, int), FrameError> {
    if input.len() < FRAME_HEADER_LEN {
        Err(FrameError::Incomplete)
    } else if be_value(input) > MAX_FRAME {
        Err(FrameError::TooLarge(be_value(input) as u64))
    } else if input.len() < FRAME_HEADER_LEN + be_value(input) {
        Err(FrameError::Incomplete)
    } else {
        Ok(
            (
                input.subrange(FRAME_HEADER_LEN as int, FRAME_HEADER_LEN + be_value(input)),
                FRAME_HEADER_LEN + be_value(input),
            ),
        )
    }
}

/// Big-endian bytes read back as the number they were made of.
pub proof fn lemma_be_roundtrip(n: int)
    requires
        0 <= n < 4294967296,
    ensures
        be_value(be_bytes(n)) == n,
{
    let b = be_bytes(n);
    assert(0 <= n / 16777216 < 256) by (nonlinear_arith)
        requires
            0 <= n < 4294967296,
    ;
    assert(0 <= n / 65536);
    assert(0 <= n / 256);
    assert(b[0] == n / 16777216);
    assert(b[1] == (n / 65536) % 256);
    assert(b[2] == (n / 256) % 256);
    assert(b[3] == n % 256);
    assert((n / 16777216) * 16777216 + ((n / 65536) % 256) * 65536 + ((n / 256) % 256) * 256 + n
        % 256 == n) by (nonlinear_arith)
        requires
            0 <= n,
    ;
}

/// The length prefix for a payload of `len` bytes; refused above `MAX_FRAME`.
pub fn frame_header(len: usize) -> (res: Result<[u8; 4], FrameError>)
    ensures
        res matches Ok(h) ==> len <= MAX_FRAME && h@ == be_bytes(len as int),
        res is Err ==> len > MAX_FRAME && res == Err::<[u8; 4], _>(FrameError::TooLarge(len as u64)),
{
    if len > MAX_FRAME {
        return Err(FrameError::TooLarge(len as u64));
    }
    let b0: u8 = (len / 16777216) as u8;
    let b1: u8 = ((len / 65536) % 256) as u8;
    let b2: u8 = ((len / 256) % 256) as u8;
    let b3: u8 = (len % 256) as u8;
    let h = [b0, b1, b2, b3];
    assert(h@ =~= be_bytes(len as int));
    Ok(h)
}

/// The payload length that a length prefix announces; refused above `MAX_FRAME`.
pub fn frame_length(header: &[u8; 4]) -> (res: Result<usize, FrameError>)
    ensures
        res matches Ok(n) ==> n == be_value(header@) && n <= MAX_FRAME,
        res is Err ==> be_value(header@) > MAX_FRAME && res == Err::<usize, _>(
            FrameError::TooLarge(be_value(header@) as u64),
        ),
{
    let n: u64 = (header[0] as u64) * 16777216 + (header[1] as u64) * 65536 + (header[2] as u64)
        * 256 + (header[3] as u64);
    if n > MAX_FRAME as u64 {
        return Err(FrameError::TooLarge(n));
    }
    Ok(n as usize)
}

/// Appends the frame that carries `payload` to `out`. A payload above
/// `MAX_FRAME` is refused and `out` is left as it was.
pub fn write_frame(out: &mut Vec<u8>, payload: &[u8]) -> (res: Result<(), FrameError>)
    ensures
        res is Ok <==> payload@.len() <= MAX_FRAME,
        res is Ok ==> final(out)@ == old(out)@ + frame_bytes(payload@),
        res is Err ==> final(out)@ == old(out)@ && res == Err::<(), _>(
            FrameError::TooLarge(payload@.len() as u64),
        ),
{
    let header = match frame_header(payload.len()) {
        Ok(h) => h,
        Err(e) => return Err(e),
    };
    let ghost start = out@;
    let mut i: usize = 0;
    while i < FRAME_HEADER_LEN
        invariant
            i <= FRAME_HEADER_LEN,
            out@ == start + header@.take(i as int),
        decreases FRAME_HEADER_LEN - i,
    {
        out.push(header[i]);
        i += 1;
    }
    assert(header@.take(4) == header@);
    let mut j: usize = 0;
    while j < payload.len()
        invariant
            j <= payload@.len(),
            out@ == start + header@ + payload@.take(j as int),
        decreases payload@.len() - j,
    {
        out.push(payload[j]);
        j += 1;
    }
    assert(payload@.take(payload@.len() as int) == payload@);
    assert(out@ =~= start + frame_bytes(payload@));
    Ok(())
}

/// Reads one frame from the front of `input`: its payload and the number of
/// bytes the frame takes.
pub fn read_frame(input: &[u8]) -> (res: Result<(Vec<u8>, usize), FrameError>)
    ensures
        res matches Ok((p, n)) ==> parsed_frame(input@) == Ok::<(Seq<u8>, int), FrameError>(
            (p@, n as int),
        ),
        res matches Err(e) ==> parsed_frame(input@) == Err::<(Seq<u8>, int), FrameError>(e),
{
    if input.len() < FRAME_HEADER_LEN {
        return Err(FrameError::Incomplete);
    }
    let header = [input[0], input[1], input[2], input[3]];
    assert(be_value(header@) == be_value(input@));
    let len = match frame_length(&header) {
        Ok(n) => n,
        Err(e) => return Err(e),
    };
    if input.len() - FRAME_HEADER_LEN < len {
        return Err(FrameError::Incomplete);
    }
    let end = FRAME_HEADER_LEN + len;
    let payload = vstd::slice::slice_subrange(input, FRAME_HEADER_LEN, end);
    let v = vstd::slice::slice_to_vec(payload);
    Ok((v, end))
}

/// Reading a frame gives back what writing it wrote, whatever follows it.
pub proof fn lemma_read_frame_of_written(payload: Seq<u8>, rest: Seq<u8>)
    requires
        payload.len() <= MAX_FRAME,
    ensures
        parsed_frame(frame_bytes(payload) + rest) == Ok::<(Seq<u8>, int), FrameError>(
            (payload, FRAME_HEADER_LEN + payload.len()),
        ),
{
    let input = frame_bytes(payload) + rest;
    lemma_be_roundtrip(payload.len() as int);
    assert(input.subrange(0, 4) =~= be_bytes(payload.len() as int));
    assert(be_value(input) == be_value(be_bytes(payload.len() as int)));
    assert(input.subrange(4, 4 + payload.len() as int) =~= payload);
}

} // verus!
