//! Length-delimited framing.
//!
//! Every frame on the wire is its payload preceded by the payload length as
//! a 4-byte big-endian integer.  A receiver enforces a maximum payload
//! length; an announced length above it is a protocol violation, which is
//! terminal for the connection, while a merely incomplete frame asks for
//! more bytes.

use vstd::prelude::*;

use crate::wire::{
    read_u32_be, spec_take_u32_be, spec_u32_be, write_u32_be,
};

verus! {

/// The framed form of one payload.
pub open spec fn spec_frame(payload: Seq<u8>) -> Seq<u8> {
    spec_u32_be(payload.len() as u32) + payload
}

/// Whether the stream starts with a header announcing a payload above `max`.
pub open spec fn spec_frame_too_large(b: Seq<u8>, max: u32) -> bool {
    match spec_take_u32_be(b) {
        Some((n, _)) => n > max,
        None => false,
    }
}

/// One complete frame at the head of the stream, with the remainder.
///
/// `None` both when the stream is incomplete and when the announced length
/// is above `max`; `spec_frame_too_large` tells the two apart.
pub open spec fn spec_take_frame(b: Seq<u8>, max: u32) -> Option<(Seq<u8>, Seq<u8>)> {
    match spec_take_u32_be(b) {
        Some((n, rest)) => if n <= max && rest.len() >= n {
            Some((rest.take(n as int), rest.skip(n as int)))
        } else {
            None
        },
        None => None,
    }
}

/// The byte stream produced by framing each payload in order.
pub open spec fn spec_frame_stream(payloads: Seq<Seq<u8>>) -> Seq<u8>
    decreases payloads.len(),
{
    if payloads.len() == 0 {
        Seq::empty()
    } else {
        spec_frame(payloads[0]) + spec_frame_stream(payloads.skip(1))
    }
}

/// All frames of a byte stream, in order; `None` when the stream does not
/// split exactly into frames no longer than `max`.
pub open spec fn spec_decode_frame_stream(b: Seq<u8>, max: u32) -> Option<Seq<Seq<u8>>>
    decreases b.len(),
{
    if b.len() == 0 {
        Some(Seq::empty())
    } else {
        match spec_take_frame(b, max) {
            Some((payload, rest)) => match spec_decode_frame_stream(rest, max) {
                Some(tail) => Some(seq![payload] + tail),
                None => None,
            },
            None => None,
        }
    }
}

/// Decoding one framed payload from the head of a stream yields that
/// payload and the remainder.
pub proof fn lemma_frame_round_trip(payload: Seq<u8>, rest: Seq<u8>, max: u32)
    requires
        payload.len() <= max,
    ensures
        spec_take_frame(spec_frame(payload) + rest, max) == Some((payload, rest)),
        !spec_frame_too_large(spec_frame(payload) + rest, max),
{
    let n = payload.len() as u32;
    crate::wire::lemma_u32_be_round_trip(n, payload + rest);
    assert(spec_u32_be(n) + (payload + rest) =~= spec_frame(payload) + rest);
    assert((payload + rest).take(n as int) =~= payload);
    assert((payload + rest).skip(n as int) =~= rest);
}

/// Delivery order: framing any sequence of payloads and decoding the
/// resulting byte stream yields exactly the same payloads in the same
/// order.  On a single connection, what the reader decodes is therefore
/// what the sender framed, in sending order.
pub proof fn lemma_frame_stream_round_trip(payloads: Seq<Seq<u8>>, max: u32)
    requires
        forall|i: int| 0 <= i < payloads.len() ==> #[trigger] payloads[i].len() <= max,
    ensures
        spec_decode_frame_stream(spec_frame_stream(payloads), max) == Some(payloads),
    decreases payloads.len(),
{
    if payloads.len() == 0 {
        assert(spec_frame_stream(payloads) =~= Seq::<u8>::empty());
        assert(Some(Seq::<Seq<u8>>::empty()) == Some(payloads));
    } else {
        let head = payloads[0];
        let tail = payloads.skip(1);
        lemma_frame_stream_round_trip(tail, max);
        let rest = spec_frame_stream(tail);
        lemma_frame_round_trip(head, rest, max);
        let b = spec_frame_stream(payloads);
        assert(b == spec_frame(head) + rest);
        assert(b.len() > 0);
        assert(spec_take_frame(b, max) == Some((head, rest)));
        assert(seq![head] + tail =~= payloads);
    }
}

/// The error a receiver reports for a frame whose announced length is
/// above the agreed maximum.
#[derive(Clone, Copy, PartialEq, Eq, Structural, Debug)]
pub enum FrameError {
    /// The peer announced a frame longer than the maximum; terminal.
    TooLarge,
}

/// Frames `payload`, appending the header and the payload to `out`.
pub fn write_frame(out: &mut Vec<u8>, payload: &Vec<u8>)
    requires
        payload.len() <= u32::MAX,
    ensures
        final(out)@ == old(out)@ + spec_frame(payload@),
{
    write_u32_be(out, payload.len() as u32);
    let mut i: usize = 0;
    while i < payload.len()
        invariant
            i <= payload.len(),
            payload.len() <= u32::MAX,
            out@ == old(out)@ + spec_u32_be(payload.len() as u32) + payload@.take(i as int),
        decreases payload.len() - i,
    {
        out.push(payload[i]);
        assert(payload@.take(i as int) + seq![payload@[i as int]] =~= payload@.take(i + 1));
        i = i + 1;
    }
    assert(payload@.take(payload.len() as int) =~= payload@);
    assert(out@ =~= old(out)@ + spec_frame(payload@));
}

/// Reads one frame from `buf` at `pos`.
///
/// Returns the payload and the position after it, `Ok(None)` when the
/// frame is not complete yet, and `Err(FrameError::TooLarge)` when the
/// announced length is above `max`.
pub fn read_frame(buf: &Vec<u8>, pos: usize, max: u32) -> (r: Result<
    Option<(Vec<u8>, usize)>,
    FrameError,
>)
    requires
        pos <= buf.len(),
    ensures
        r is Err <==> spec_frame_too_large(buf@.skip(pos as int), max),
        match r {
            Ok(Some((payload, p))) => pos < p <= buf.len() && spec_take_frame(
                buf@.skip(pos as int),
                max,
            ) == Some((payload@, buf@.skip(p as int))),
            Ok(None) => spec_take_frame(buf@.skip(pos as int), max) is None,
            Err(e) => e == FrameError::TooLarge,
        },
{
    match read_u32_be(buf, pos) {
        Some((n, body)) => {
            if n > max {
                Err(FrameError::TooLarge)
            } else {
                let n = n as usize;
                if buf.len() - body >= n {
                    let mut payload: Vec<u8> = Vec::new();
                    let mut i: usize = 0;
                    while i < n
                        invariant
                            i <= n,
                            body + n <= buf.len(),
                            payload@ == buf@.skip(body as int).take(i as int),
                        decreases n - i,
                    {
                        payload.push(buf[body + i]);
                        assert(buf@.skip(body as int).take(i as int) + seq![buf@[body + i]]
                            =~= buf@.skip(body as int).take(i + 1));
                        i = i + 1;
                    }
                    assert(buf@.skip(body as int).skip(n as int) =~= buf@.skip(body + n));
                    Ok(Some((payload, body + n)))
                } else {
                    Ok(None)
                }
            }
        },
        None => Ok(None),
    }
}

/// Splits a complete byte stream into its frames.
///
/// Returns exactly what `spec_decode_frame_stream` describes: the payloads
/// in order, or `None` when the stream is not a whole number of frames
/// within the maximum.
pub fn decode_frame_stream(buf: &Vec<u8>, max: u32) -> (r: Option<Vec<Vec<u8>>>)
    ensures
        match r {
            Some(payloads) => spec_decode_frame_stream(buf@, max) == Some(payloads@.map_values(
                |p: Vec<u8>| p@,
            )),
            None => spec_decode_frame_stream(buf@, max) is None,
        },
{
    let mut acc: Vec<Vec<u8>> = Vec::new();
    let mut pos: usize = 0;
    proof {
        assert(buf@.skip(0) =~= buf@);
        if spec_decode_frame_stream(buf@, max) is Some {
            assert(acc@.map_values(|q: Vec<u8>| q@) + spec_decode_frame_stream(buf@, max).unwrap()
                =~= spec_decode_frame_stream(buf@, max).unwrap());
        }
    }
    loop
        invariant
            pos <= buf.len(),
            spec_decode_frame_stream(buf@, max) == (match spec_decode_frame_stream(
                buf@.skip(pos as int),
                max,
            ) {
                Some(tail) => Some(acc@.map_values(|q: Vec<u8>| q@) + tail),
                None => None::<Seq<Seq<u8>>>,
            }),
        decreases buf.len() - pos,
    {
        if pos == buf.len() {
            proof {
                assert(buf@.skip(pos as int) =~= Seq::<u8>::empty());
                assert(acc@.map_values(|q: Vec<u8>| q@) + Seq::<Seq<u8>>::empty()
                    =~= acc@.map_values(|q: Vec<u8>| q@));
            }
            return Some(acc);
        }
        match read_frame(buf, pos, max) {
            Ok(Some((payload, p))) => {
                proof {
                    assert(buf@.skip(pos as int).len() > 0);
                }
                let ghost prev = acc@.map_values(|q: Vec<u8>| q@);
                proof {
                    let rest_result = spec_decode_frame_stream(buf@.skip(p as int), max);
                    if rest_result is Some {
                        let t = rest_result.unwrap();
                        assert(spec_decode_frame_stream(buf@.skip(pos as int), max)
                            == Some(seq![payload@] + t));
                        assert(prev + (seq![payload@] + t) =~= (prev + seq![payload@]) + t);
                    } else {
                        assert(spec_decode_frame_stream(buf@.skip(pos as int), max) is None);
                    }
                }
                acc.push(payload);
                proof {
                    assert(acc@.map_values(|q: Vec<u8>| q@) =~= prev + seq![payload@]);
                }
                pos = p;
            },
            Ok(None) => {
                proof {
                    assert(buf@.skip(pos as int).len() > 0);
                }
                return None;
            },
            Err(_) => {
                proof {
                    assert(buf@.skip(pos as int).len() > 0);
                }
                return None;
            },
        }
    }
}

} // verus!
