//! Wire framing between the daemon and its clients: each message is a
//! 4-byte big-endian length followed by that many bytes of JSON, and no
//! frame may carry more than `IPC_FRAME_MAX` bytes.

use vstd::prelude::*;

verus! {

/// Maximum IPC frame size (16 MiB).
pub const IPC_FRAME_MAX: usize = 16 * 1024 * 1024;

/// Maximum frame size used by the codec on both ends.
pub const MAX_FRAME_LEN: usize = IPC_FRAME_MAX;

/// Width of the length prefix in bytes (big-endian).
pub const LENGTH_FIELD_LEN: usize = 4;

/// The big-endian 4-byte encoding of `n` (for `n < 2^32`).
pub open spec fn be_u32(n: nat) -> Seq<u8> {
    seq![
        (n / 0x1000000) as u8,
        ((n / 0x10000) % 0x100) as u8,
        ((n / 0x100) % 0x100) as u8,
        (n % 0x100) as u8,
    ]
}

/// The number that the first four bytes of `b` encode, big-endian.
pub open spec fn be_value(b: Seq<u8>) -> nat {
    (b[0] as nat) * 0x1000000 + (b[1] as nat) * 0x10000 + (b[2] as nat) * 0x100 + (b[3] as nat)
}

/// The frame that carries `payload`.
pub open spec fn frame_of(payload: Seq<u8>) -> Seq<u8> {
    be_u32(payload.len()) + payload
}

/// What a decoder makes of the start of a byte buffer.
#[derive(Debug, PartialEq)]
pub enum Decoded {
    /// Not enough bytes yet for a whole frame.
    Incomplete,
    /// The length prefix announces more than the maximum frame size.
    TooLarge(u64),
    /// A whole frame: its payload, and how many bytes of the buffer it took.
    Frame(Vec<u8>, usize),
}

/// The model of `Decoded`.
pub enum DecodedView {
    Incomplete,
    TooLarge(nat),
    Frame(Seq<u8>, nat),
}

impl View for Decoded {
    type V = DecodedView;

    open spec fn view(&self) -> DecodedView {
        match self {
            Decoded::Incomplete => DecodedView::Incomplete,
            Decoded::TooLarge(n) => DecodedView::TooLarge(*n as nat),
            Decoded::Frame(p, c) => DecodedView::Frame(p@, *c as nat),
        }
    }
}

/// The result of decoding the start of `buf` with frames of at most `max` bytes.
pub open spec fn decode_spec(buf: Seq<u8>, max: nat) -> DecodedView {
    if buf.len() < 4 {
        DecodedView::Incomplete
    } else if be_value(buf) > max {
        DecodedView::TooLarge(be_value(buf))
    } else if buf.len() < 4 + be_value(buf) {
        DecodedView::Incomplete
    } else {
        DecodedView::Frame(buf.subrange(4, 4 + be_value(buf) as int), 4 + be_value(buf))
    }
}

/// A payload longer than the maximum frame size cannot be sent.
#[derive(Debug, PartialEq)]
pub struct FrameTooLarge {
    pub size: usize,
    pub max: usize,
}

pub proof fn lemma_be_roundtrip(n: nat)
    requires
        n < 0x1_0000_0000,
    ensures
        be_u32(n).len() == 4,
        be_value(be_u32(n)) == n,
{
    let b = be_u32(n);
    assert(b[0] as nat == n / 0x1000000);
    assert(b[1] as nat == (n / 0x10000) % 0x100);
    assert(b[2] as nat == (n / 0x100) % 0x100);
    assert(b[3] as nat == n % 0x100);
    assert((n / 0x1000000) * 0x1000000 + ((n / 0x10000) % 0x100) * 0x10000 + ((n / 0x100)
        % 0x100) * 0x100 + n % 0x100 == n) by (nonlinear_arith)
        requires
            n < 0x1_0000_0000,
    ;
}

/// Frames a payload: the big-endian length of `payload`, then `payload`.
/// A payload of more than `max` bytes is refused.
pub fn encode_frame(payload: &[u8], max: usize) -> (r: Result<Vec<u8>, FrameTooLarge>)
    requires
        max <= u32::MAX,
    ensures
        payload@.len() > max <==> r is Err,
        r matches Ok(v) ==> v@ == frame_of(payload@),
        r matches Err(e) ==> e.size == payload@.len() && e.max == max,
{
    let n = payload.len();
    if n > max {
        return Err(FrameTooLarge { size: n, max });
    }
    let mut out: Vec<u8> = Vec::new();
    out.push((n / 0x1000000) as u8);
    out.push(((n / 0x10000) % 0x100) as u8);
    out.push(((n / 0x100) % 0x100) as u8);
    out.push((n % 0x100) as u8);
    assert(out@ =~= be_u32(n as nat));
    let mut i: usize = 0;
    while i < n
        invariant
            n == payload@.len(),
            i <= n,
            out@ =~= be_u32(n as nat) + payload@.subrange(0, i as int),
        decreases n - i,
    {
        out.push(payload[i]);
        assert(payload@.subrange(0, (i + 1) as int) =~= payload@.subrange(0, i as int).push(
            payload@[i as int],
        ));
        i = i + 1;
    }
    assert(payload@.subrange(0, n as int) =~= payload@);
    Ok(out)
}

/// Reads one frame from the start of `buf`, with frames of at most `max` bytes.
pub fn decode_frame(buf: &[u8], max: usize) -> (r: Decoded)
    ensures
        r@ == decode_spec(buf@, max as nat),
{
    if buf.len() < 4 {
        return Decoded::Incomplete;
    }
    let n: u64 = (buf[0] as u64) * 0x1000000 + (buf[1] as u64) * 0x10000 + (buf[2] as u64) * 0x100
        + (buf[3] as u64);
    assert(n == be_value(buf@));
    if n > max as u64 {
        return Decoded::TooLarge(n);
    }
    let len = n as usize;
    if buf.len() - 4 < len {
        return Decoded::Incomplete;
    }
    let mut payload: Vec<u8> = Vec::new();
    let mut i: usize = 0;
    while i < len
        invariant
            4 + len <= buf.len(),
            i <= len,
            payload@ =~= buf@.subrange(4, 4 + i),
        decreases len - i,
    {
        payload.push(buf[4 + i]);
        i = i + 1;
    }
    Decoded::Frame(payload, 4 + len)
}

/// Decoding a frame gives back its payload and consumes exactly the frame,
/// whatever bytes follow it.
pub proof fn lemma_decode_encode(payload: Seq<u8>, rest: Seq<u8>, max: nat)
    requires
        payload.len() <= max,
        max < 0x1_0000_0000,
    ensures
        decode_spec(frame_of(payload) + rest, max) == DecodedView::Frame(
            payload,
            4 + payload.len(),
        ),
{
    let buf = frame_of(payload) + rest;
    lemma_be_roundtrip(payload.len());
    assert(buf.subrange(0, 4) =~= be_u32(payload.len()));
    assert(buf[0] == be_u32(payload.len())[0]);
    assert(buf[1] == be_u32(payload.len())[1]);
    assert(buf[2] == be_u32(payload.len())[2]);
    assert(buf[3] == be_u32(payload.len())[3]);
    assert(be_value(buf) == payload.len());
    assert(buf.subrange(4, 4 + payload.len() as int) =~= payload);
}

/// A reader that has only part of a frame waits for more bytes.
pub proof fn lemma_prefix_incomplete(payload: Seq<u8>, k: nat, max: nat)
    requires
        payload.len() <= max,
        max < 0x1_0000_0000,
        k < frame_of(payload).len(),
    ensures
        decode_spec(frame_of(payload).subrange(0, k as int), max) == DecodedView::Incomplete,
{
    let f = frame_of(payload);
    let pre = f.subrange(0, k as int);
    if k >= 4 {
        lemma_be_roundtrip(payload.len());
        assert(pre[0] == f[0] && pre[1] == f[1] && pre[2] == f[2] && pre[3] == f[3]);
        assert(be_value(pre) == be_value(f));
        assert(f[0] == be_u32(payload.len())[0]);
        assert(f[1] == be_u32(payload.len())[1]);
        assert(f[2] == be_u32(payload.len())[2]);
        assert(f[3] == be_u32(payload.len())[3]);
        assert(be_value(f) == payload.len());
    }
}

/// Two frames sent back to back are read back in order: the first decode
/// yields the first payload and the bytes it leaves are the second frame.
pub proof fn lemma_two_frames(p1: Seq<u8>, p2: Seq<u8>, max: nat)
    requires
        p1.len() <= max,
        p2.len() <= max,
        max < 0x1_0000_0000,
    ensures
        decode_spec(frame_of(p1) + frame_of(p2), max) == DecodedView::Frame(p1, 4 + p1.len()),
        (frame_of(p1) + frame_of(p2)).subrange(4 + p1.len() as int, (frame_of(p1) + frame_of(p2)).len() as int)
            == frame_of(p2),
        decode_spec(
            (frame_of(p1) + frame_of(p2)).subrange(
                4 + p1.len() as int,
                (frame_of(p1) + frame_of(p2)).len() as int,
            ),
            max,
        ) == DecodedView::Frame(p2, 4 + p2.len()),
{
    lemma_decode_encode(p1, frame_of(p2), max);
    lemma_be_roundtrip(p1.len());
    let whole = frame_of(p1) + frame_of(p2);
    assert(whole.subrange(4 + p1.len() as int, whole.len() as int) =~= frame_of(p2));
    lemma_decode_encode(p2, Seq::empty(), max);
    assert(frame_of(p2) + Seq::<u8>::empty() =~= frame_of(p2));
}

} // verus!
