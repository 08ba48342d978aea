//! Packet framing: the `VarInt` length prefix and the optional zlib
//! compression negotiated with `S2CSetCompression`.
//!
//! A frame is `VarInt(length)` followed by `length` bytes. Without
//! compression those bytes are the packet (its id, then its fields). With a
//! threshold they start with a `VarInt` "data length": 0 when the packet
//! follows uncompressed, otherwise the packet's uncompressed size, followed
//! by the zlib-compressed packet.

use vstd::prelude::*;

use crate::error::DecodeError;
use crate::varint::{
    lemma_varint_prefix_truncated, lemma_varint_read_len, lemma_varint_roundtrip, read_varint, spec_varint_encode, spec_varint_read, write_varint,
    VarIntRead,
};

verus! {

/// The largest frame length accepted: the largest length a 3-byte `VarInt`
/// holds.
pub const MAX_PACKET_SIZE: i32 = 2097151;

/// Declares `bytes::BytesMut`, the read buffer of a connection, as an
/// opaque type; what it holds is [`bytes_mut_contents`].
#[verifier::external_type_specification]
#[verifier::external_body]
pub struct ExBytesMut(bytes::BytesMut);

/// The bytes a `bytes::BytesMut` holds (its length is their number).
pub uninterp spec fn bytes_mut_contents(b: bytes::BytesMut) -> Seq<u8>;

/// Calls `bytes::BytesMut::with_capacity`, which gives an empty buffer (the
/// capacity is only a reservation and is not modeled).
#[verifier::external_body]
pub(crate) fn new_buffer(capacity: usize) -> (r: bytes::BytesMut)
    ensures
        bytes_mut_contents(r) == Seq::<u8>::empty(),
{
    bytes::BytesMut::with_capacity(capacity)
}

/// The bytes of the buffer, through `bytes::BytesMut`'s `Deref` to `[u8]`,
/// which views exactly the bytes it holds.
#[verifier::external_body]
fn buffer_bytes(b: &bytes::BytesMut) -> (r: &[u8])
    ensures
        r@ == bytes_mut_contents(*b),
{
    &b[..]
}

/// Calls `bytes::Buf::advance` on a `bytes::BytesMut`, which drops the
/// first `n` bytes. It panics when `n` exceeds the length, which `requires`
/// rules out.
#[verifier::external_body]
fn advance(b: &mut bytes::BytesMut, n: usize)
    requires
        n <= bytes_mut_contents(*old(b)).len(),
    ensures
        bytes_mut_contents(*final(b)) == bytes_mut_contents(*old(b)).skip(n as int),
{
    bytes::Buf::advance(b, n)
}

/// What zlib-decompressing `data` into a buffer of exactly `len` bytes gives
/// (`ZlibDecoder` over `data`, then `read_exact`): `None` when `data` is not
/// a zlib stream or yields fewer than `len` bytes.
pub uninterp spec fn zlib_inflate(data: Seq<u8>, len: nat) -> Option<Seq<u8>>;

/// What zlib-compressing `data` at the default level gives (`ZlibEncoder`
/// over a `Vec`, `write_all`, then `finish`).
pub uninterp spec fn zlib_deflate(data: Seq<u8>) -> Seq<u8>;

/// Decompresses exactly `len` bytes from `data` with flate2's
/// `read::ZlibDecoder` and `Read::read_exact`. The result is named
/// [`zlib_inflate`]; `read_exact` fills the whole buffer when it succeeds,
/// so a result holds `len` bytes. The output buffer is allocated up front,
/// so `len` is bounded by [`MAX_PACKET_SIZE`].
#[verifier::external_body]
fn inflate(data: &[u8], len: usize) -> (r: Option<Vec<u8>>)
    requires
        len <= MAX_PACKET_SIZE,
    ensures
        match r {
            Some(v) => zlib_inflate(data@, len as nat) == Some(v@) && v@.len() == len,
            None => zlib_inflate(data@, len as nat) is None,
        },
{
    let mut decoder = flate2::read::ZlibDecoder::new(data);
    let mut out = vec![0u8; len];
    match std::io::Read::read_exact(&mut decoder, &mut out) {
        Ok(()) => Some(out),
        Err(_) => None,
    }
}

/// Compresses `data` with flate2's `write::ZlibEncoder` at
/// `Compression::default()` into a `Vec`. The result is named
/// [`zlib_deflate`]; decompressing a complete zlib stream gives back the
/// bytes that were compressed, so inflating the result to `data`'s length
/// gives `data`. Compression into a `Vec` succeeds: writing to a `Vec`
/// never fails, and the miniz_oxide backend reports an error only for a
/// dictionary request or a corrupt stream state, which compressing does
/// not reach; the error arms below are never taken.
#[verifier::external_body]
fn deflate(data: &[u8]) -> (r: Vec<u8>)
    ensures
        r@ == zlib_deflate(data@),
        zlib_inflate(r@, data@.len()) == Some(data@),
{
    let mut encoder = flate2::write::ZlibEncoder::new(Vec::new(), flate2::Compression::default());
    match std::io::Write::write_all(&mut encoder, data) {
        Ok(()) => {},
        Err(_) => return Vec::new(),
    }
    encoder.finish().unwrap_or_default()
}

/// Whether a packet body of `len` bytes is compressed under `threshold`:
/// when its length reaches the threshold, compared as `usize` (a negative
/// threshold, read as a huge `usize`, is never reached).
pub open spec fn compresses(len: nat, threshold: i32) -> bool {
    len >= threshold as usize
}

/// Whether a packet body of `len` bytes is sent compressed in the
/// compression state `threshold`.
pub open spec fn compressing(len: nat, threshold: Option<i32>) -> bool {
    match threshold {
        Some(t) => compresses(len, t),
        None => false,
    }
}

/// The framed body (what the length prefix counts) of a packet `body` with
/// the compression state `threshold`, given the compressed bytes.
pub open spec fn spec_framed_body(body: Seq<u8>, threshold: Option<i32>) -> Seq<u8> {
    match threshold {
        None => body,
        Some(t) => if compresses(body.len(), t) {
            spec_varint_encode(body.len() as i32) + zlib_deflate(body)
        } else {
            spec_varint_encode(0) + body
        },
    }
}

/// The frame of a packet `body`: the `VarInt` length of the framed body,
/// then the framed body.
pub open spec fn spec_frame(body: Seq<u8>, threshold: Option<i32>) -> Seq<u8> {
    spec_varint_encode(spec_framed_body(body, threshold).len() as i32) + spec_framed_body(
        body,
        threshold,
    )
}

/// The frames that the reader takes back whole: the framed body fits
/// [`MAX_PACKET_SIZE`], and a compressed body is not empty (an empty body
/// would carry data length 0, which means "uncompressed") and fits
/// [`MAX_PACKET_SIZE`] as well.
pub open spec fn frame_readable(body: Seq<u8>, threshold: Option<i32>) -> bool {
    &&& spec_framed_body(body, threshold).len() <= MAX_PACKET_SIZE
    &&& compressing(body.len(), threshold) ==> 0 < body.len() <= MAX_PACKET_SIZE
}

/// Taking a frame from the frame of `body`, whatever follows it, gives
/// `body` back and consumes exactly the frame, when the frame is readable
/// and (if it is compressed) the compressed bytes inflate back to `body`.
pub proof fn lemma_take_frame_of_frame(body: Seq<u8>, threshold: Option<i32>, rest: Seq<u8>)
    requires
        frame_readable(body, threshold),
        compressing(body.len(), threshold) ==> zlib_inflate(
            zlib_deflate(body),
            body.len(),
        ) == Some(body),
    ensures
        spec_take_frame(spec_frame(body, threshold) + rest, threshold) == FrameStep::Frame(
            body,
            spec_frame(body, threshold).len(),
        ),
{
    let fb = spec_framed_body(body, threshold);
    let l = fb.len() as i32;
    let h = spec_varint_encode(l);
    let s = spec_frame(body, threshold) + rest;
    assert(s =~= h + (fb + rest));
    lemma_varint_roundtrip(l, fb + rest);
    assert(s.subrange(h.len() as int, h.len() + l) =~= fb);
    match threshold {
        None => {},
        Some(t) => {
            if compresses(body.len(), t) {
                let d = body.len() as i32;
                lemma_varint_roundtrip(d, zlib_deflate(body));
                assert((spec_varint_encode(d) + zlib_deflate(body)).skip(
                    spec_varint_encode(d).len() as int,
                ) =~= zlib_deflate(body));
                assert(d as usize == body.len());
            } else {
                lemma_varint_roundtrip(0, body);
                assert((spec_varint_encode(0) + body).skip(spec_varint_encode(0).len() as int)
                    =~= body);
            }
        },
    }
}

/// Frames a packet `body` (its id, then its fields) for sending. A
/// readable frame is taken back whole by [`take_frame`], whatever follows
/// it in the buffer.
pub fn frame_packet(body: &[u8], threshold: Option<i32>) -> (f: Vec<u8>)
    ensures
        f@ == spec_frame(body@, threshold),
        frame_readable(body@, threshold) ==> forall|rest: Seq<u8>|
            #[trigger] spec_take_frame(f@ + rest, threshold) == FrameStep::Frame(
                body@,
                f@.len(),
            ),
{
    let framed = match threshold {
        Some(t) => {
            if body.len() >= t as usize {
                let compressed = deflate(body);
                data_length_prefixed(body.len() as i32, compressed.as_slice())
            } else {
                data_length_prefixed(0, body)
            }
        },
        None => copy_range(body, 0, body.len()),
    };
    assert(body@.subrange(0, body@.len() as int) =~= body@);
    assert(framed@ == spec_framed_body(body@, threshold));
    let out = length_prefixed(framed.as_slice());
    proof {
        if frame_readable(body@, threshold) {
            assert forall|rest: Seq<u8>|
                #[trigger] spec_take_frame(out@ + rest, threshold) == FrameStep::Frame(
                    body@,
                    out@.len(),
                ) by {
                lemma_take_frame_of_frame(body@, threshold, rest);
            }
        }
    }
    out
}

/// A compressed framed body: the `VarInt` data length, then the bytes
/// (the zlib stream, or the packet itself when the data length is 0).
pub fn data_length_prefixed(data_len: i32, bytes: &[u8]) -> (r: Vec<u8>)
    ensures
        r@ == spec_varint_encode(data_len) + bytes@,
{
    let mut out: Vec<u8> = Vec::new();
    write_varint(data_len, &mut out);
    append(&mut out, bytes);
    out
}

/// A frame: the `VarInt` length of the framed body (as `i32`, truncated
/// as `as` truncates), then the framed body.
pub fn length_prefixed(framed: &[u8]) -> (r: Vec<u8>)
    ensures
        r@ == spec_varint_encode(framed@.len() as i32) + framed@,
{
    let mut out: Vec<u8> = Vec::new();
    write_varint(framed.len() as i32, &mut out);
    append(&mut out, framed);
    out
}

/// Appends the bytes of `b` to `out`.
fn append(out: &mut Vec<u8>, b: &[u8])
    ensures
        final(out)@ == old(out)@ + b@,
{
    crate::containers::append_bytes(out, b)
}

/// The bytes `start..end` of `b`, in a new vector.
fn copy_range(b: &[u8], start: usize, end: usize) -> (r: Vec<u8>)
    requires
        start <= end <= b@.len(),
    ensures
        r@ == b@.subrange(start as int, end as int),
{
    let mut out: Vec<u8> = Vec::new();
    let mut i: usize = start;
    while i < end
        invariant
            start <= i <= end <= b@.len(),
            out@ == b@.subrange(start as int, i as int),
        decreases end - i,
    {
        out.push(b[i]);
        i = i + 1;
        assert(out@ =~= b@.subrange(start as int, i as int));
    }
    out
}

/// Why a buffered frame cannot be taken.
#[derive(Debug, Clone, Copy, PartialEq, Eq, Structural)]
pub enum FrameError {
    /// A `VarInt` (the length or the data length) is malformed.
    Decode(DecodeError),
    /// The declared length is negative.
    NegativeLength,
    /// The declared length exceeds [`MAX_PACKET_SIZE`].
    TooLong,
    /// A compressed packet declares a data length below the threshold.
    BelowThreshold,
    /// A compressed packet declares a data length above
    /// [`MAX_PACKET_SIZE`].
    DataTooLong,
    /// The compressed bytes do not inflate to the declared data length.
    Inflate,
}

/// What taking a frame from the front of the buffer does.
pub ghost enum FrameStep {
    /// The length prefix or the frame is not all buffered; nothing is
    /// consumed.
    NeedMore,
    /// The frame is malformed; `consumed` bytes are consumed.
    Fail(FrameError, nat),
    /// A packet body (decompressed when it was compressed), and the bytes
    /// consumed (the whole frame).
    Frame(Seq<u8>, nat),
}

/// How the body of a complete frame `b` (after the length prefix of
/// `header` bytes) is read under `threshold`.
pub open spec fn spec_frame_body(b: Seq<u8>, header: nat, threshold: Option<i32>) -> FrameStep {
    match threshold {
        None => FrameStep::Frame(b, header + b.len()),
        Some(t) => match spec_varint_read(b) {
            VarIntRead::Truncated => FrameStep::Fail(
                FrameError::Decode(DecodeError::UnexpectedEof),
                header,
            ),
            VarIntRead::TooLong => FrameStep::Fail(
                FrameError::Decode(DecodeError::VarIntTooLong),
                header,
            ),
            VarIntRead::Value(d, n) => if d as usize == 0 {
                FrameStep::Frame(b.skip(n as int), header + b.len())
            } else if !(d as usize >= t as usize) {
                FrameStep::Fail(FrameError::BelowThreshold, header)
            } else if !(d as usize <= MAX_PACKET_SIZE as usize) {
                FrameStep::Fail(FrameError::DataTooLong, header)
            } else {
                match zlib_inflate(b.skip(n as int), d as usize as nat) {
                    Some(body) => FrameStep::Frame(body, header + b.len()),
                    None => FrameStep::Fail(FrameError::Inflate, header),
                }
            },
        },
    }
}

/// What taking a frame from the front of `s` under `threshold` does.
pub open spec fn spec_take_frame(s: Seq<u8>, threshold: Option<i32>) -> FrameStep {
    match spec_varint_read(s) {
        VarIntRead::Truncated => FrameStep::NeedMore,
        VarIntRead::TooLong => FrameStep::Fail(FrameError::Decode(DecodeError::VarIntTooLong), 0),
        VarIntRead::Value(len, h) => if len < 0 {
            FrameStep::Fail(FrameError::NegativeLength, 0)
        } else if len > MAX_PACKET_SIZE {
            FrameStep::Fail(FrameError::TooLong, 0)
        } else if s.len() < h + len {
            FrameStep::NeedMore
        } else {
            spec_frame_body(s.subrange(h as int, h + len), h, threshold)
        },
    }
}

/// The bytes a step consumes.
pub open spec fn step_consumed(st: FrameStep) -> nat {
    match st {
        FrameStep::NeedMore => 0,
        FrameStep::Fail(_, n) => n,
        FrameStep::Frame(_, n) => n,
    }
}

/// Takes the next frame from the front of `buffer` and returns its packet
/// body (decompressed under a threshold). `Ok(None)` when more bytes are
/// needed; a whole frame whose data length does not parse is malformed.
pub fn take_frame(buffer: &mut bytes::BytesMut, threshold: Option<i32>) -> (r: Result<
    Option<Vec<u8>>,
    FrameError,
>)
    ensures
        ({
            let st = spec_take_frame(bytes_mut_contents(*old(buffer)), threshold);
            &&& step_consumed(st) <= bytes_mut_contents(*old(buffer)).len()
            &&& bytes_mut_contents(*final(buffer)) == bytes_mut_contents(*old(buffer)).skip(
                step_consumed(st) as int,
            )
            &&& match st {
                FrameStep::NeedMore => r == Ok::<Option<Vec<u8>>, FrameError>(None),
                FrameStep::Fail(e, _) => r == Err::<Option<Vec<u8>>, FrameError>(e),
                FrameStep::Frame(body, _) => r matches Ok(Some(v)) && v@ == body,
            }
        }),
{
    let ghost s = bytes_mut_contents(*buffer);
    let view = buffer_bytes(buffer);
    assert(view@.skip(0) =~= view@);
    let (length, header) = match read_varint(view, 0) {
        Ok(x) => x,
        Err(DecodeError::UnexpectedEof) => return Ok(None),
        Err(e) => return Err(FrameError::Decode(e)),
    };
    proof {
        lemma_varint_read_len(view@);
    }
    if length < 0 {
        return Err(FrameError::NegativeLength);
    }
    if length > MAX_PACKET_SIZE {
        return Err(FrameError::TooLong);
    }
    let length = length as usize;
    if view.len() - header < length {
        return Ok(None);
    }
    let end = header + length;
    let b = copy_range(view, header, end);
    let ghost bs = s.subrange(header as int, end as int);
    match threshold {
        None => {
            advance(buffer, end);
            Ok(Some(b))
        },
        Some(t) => {
            let bv = b.as_slice();
            assert(bv@.skip(0) =~= bv@);
            let (d, n) = match read_varint(bv, 0) {
                Ok(x) => x,
                Err(e) => {
                    advance(buffer, header);
                    return Err(FrameError::Decode(e));
                },
            };
            proof {
                lemma_varint_read_len(bv@);
            }
            let dlen = d as usize;
            if dlen == 0 {
                let body = copy_range(bv, n, bv.len());
                assert(body@ =~= bs.skip(n as int));
                advance(buffer, end);
                Ok(Some(body))
            } else if !(dlen >= t as usize) {
                advance(buffer, header);
                Err(FrameError::BelowThreshold)
            } else if !(dlen <= MAX_PACKET_SIZE as usize) {
                advance(buffer, header);
                Err(FrameError::DataTooLong)
            } else {
                let compressed = copy_range(bv, n, bv.len());
                assert(compressed@ =~= bs.skip(n as int));
                match inflate(compressed.as_slice(), dlen) {
                    Some(body) => {
                        advance(buffer, end);
                        Ok(Some(body))
                    },
                    None => {
                        advance(buffer, header);
                        Err(FrameError::Inflate)
                    },
                }
            }
        },
    }
}

/// Every proper prefix of a frame whose framed body fits [`MAX_PACKET_SIZE`]
/// needs more bytes: taking a frame from it gives nothing and consumes
/// nothing.
pub proof fn lemma_frame_prefix_needs_more(body: Seq<u8>, threshold: Option<i32>, k: nat)
    requires
        spec_framed_body(body, threshold).len() <= MAX_PACKET_SIZE,
        k < spec_frame(body, threshold).len(),
    ensures
        spec_take_frame(spec_frame(body, threshold).take(k as int), threshold)
            == FrameStep::NeedMore,
{
    let fb = spec_framed_body(body, threshold);
    let l = fb.len() as i32;
    let h = spec_varint_encode(l);
    let f = spec_frame(body, threshold);
    assert(f == h + fb);
    if k < h.len() {
        assert(f.take(k as int) =~= h.take(k as int));
        lemma_varint_prefix_truncated(l, k);
    } else {
        let tail = fb.take(k - h.len());
        assert(f.take(k as int) =~= h + tail);
        lemma_varint_roundtrip(l, tail);
    }
}

} // verus!
