//! Primitive wire codec.
//!
//! The wire format is a deterministic binary encoding with fixed-width
//! little-endian integers, explicit presence tags for optional fields and
//! length-prefixed variable-length byte strings.  The frame header (see
//! `framing`) is the one big-endian exception.
//!
//! Every primitive has a `spec` encoder producing the exact byte sequence,
//! a `spec` decoder consuming a prefix of a byte sequence, a proof that the
//! two invert each other, and executable functions proved against them.

use vstd::prelude::*;

verus! {

// ---------------------------------------------------------------------------
// Specification-level encoders
// ---------------------------------------------------------------------------

/// The two little-endian bytes of a 16-bit integer.
pub open spec fn spec_u16_le(v: u16) -> Seq<u8> {
    seq![(v & 0xff) as u8, ((v >> 8) & 0xff) as u8]
}

/// The four little-endian bytes of a 32-bit integer.
pub open spec fn spec_u32_le(v: u32) -> Seq<u8> {
    seq![
        (v & 0xff) as u8,
        ((v >> 8) & 0xff) as u8,
        ((v >> 16) & 0xff) as u8,
        ((v >> 24) & 0xff) as u8,
    ]
}

/// The four big-endian bytes of a 32-bit integer (frame headers only).
pub open spec fn spec_u32_be(v: u32) -> Seq<u8> {
    seq![
        ((v >> 24) & 0xff) as u8,
        ((v >> 16) & 0xff) as u8,
        ((v >> 8) & 0xff) as u8,
        (v & 0xff) as u8,
    ]
}

/// A byte string, prefixed by its length as a little-endian 32-bit integer.
pub open spec fn spec_bytes(b: Seq<u8>) -> Seq<u8> {
    spec_u32_le(b.len() as u32) + b
}

/// A boolean as a single tag byte: zero for false, one for true.
pub open spec fn spec_bool(v: bool) -> Seq<u8> {
    seq![if v { 1u8 } else { 0u8 }]
}

// ---------------------------------------------------------------------------
// Specification-level decoders
//
// Each consumes a prefix of `b` and returns the decoded value together with
// the remainder, or `None` when `b` is too short or malformed.
// ---------------------------------------------------------------------------

/// The 16-bit integer with the given little-endian bytes.
pub open spec fn spec_u16_from_le(b0: u8, b1: u8) -> u16 {
    (b0 as u16) | ((b1 as u16) << 8)
}

/// The 32-bit integer with the given little-endian bytes.
pub open spec fn spec_u32_from_le(b0: u8, b1: u8, b2: u8, b3: u8) -> u32 {
    (b0 as u32) | ((b1 as u32) << 8) | ((b2 as u32) << 16) | ((b3 as u32) << 24)
}

pub open spec fn spec_take_u8(b: Seq<u8>) -> Option<(u8, Seq<u8>)> {
    if b.len() >= 1 {
        Some((b[0], b.skip(1)))
    } else {
        None
    }
}

pub open spec fn spec_take_u16_le(b: Seq<u8>) -> Option<(u16, Seq<u8>)> {
    if b.len() >= 2 {
        Some((spec_u16_from_le(b[0], b[1]), b.skip(2)))
    } else {
        None
    }
}

pub open spec fn spec_take_u32_le(b: Seq<u8>) -> Option<(u32, Seq<u8>)> {
    if b.len() >= 4 {
        Some((spec_u32_from_le(b[0], b[1], b[2], b[3]), b.skip(4)))
    } else {
        None
    }
}

pub open spec fn spec_take_u32_be(b: Seq<u8>) -> Option<(u32, Seq<u8>)> {
    if b.len() >= 4 {
        Some((spec_u32_from_le(b[3], b[2], b[1], b[0]), b.skip(4)))
    } else {
        None
    }
}

/// A length-prefixed byte string.
pub open spec fn spec_take_bytes(b: Seq<u8>) -> Option<(Seq<u8>, Seq<u8>)> {
    match spec_take_u32_le(b) {
        Some((n, rest)) => if rest.len() >= n {
            Some((rest.take(n as int), rest.skip(n as int)))
        } else {
            None
        },
        None => None,
    }
}

/// A fixed number of raw bytes.
pub open spec fn spec_take_n(b: Seq<u8>, n: int) -> Option<(Seq<u8>, Seq<u8>)> {
    if 0 <= n <= b.len() {
        Some((b.take(n), b.skip(n)))
    } else {
        None
    }
}

/// A boolean tag byte; any byte other than zero or one is malformed.
pub open spec fn spec_take_bool(b: Seq<u8>) -> Option<(bool, Seq<u8>)> {
    match spec_take_u8(b) {
        Some((t, rest)) => if t == 0 {
            Some((false, rest))
        } else if t == 1 {
            Some((true, rest))
        } else {
            None
        },
        None => None,
    }
}

// ---------------------------------------------------------------------------
// Round-trip proofs: decoding an encoding yields the value and the remainder
// ---------------------------------------------------------------------------

pub proof fn lemma_u16_le_round_trip(v: u16, rest: Seq<u8>)
    ensures
        spec_take_u16_le(spec_u16_le(v) + rest) == Some((v, rest)),
{
    let enc = spec_u16_le(v) + rest;
    assert(spec_u16_from_le((v & 0xff) as u8, ((v >> 8) & 0xff) as u8) == v) by (bit_vector);
    assert(enc.skip(2) =~= rest);
}

pub proof fn lemma_u32_le_round_trip(v: u32, rest: Seq<u8>)
    ensures
        spec_take_u32_le(spec_u32_le(v) + rest) == Some((v, rest)),
{
    let enc = spec_u32_le(v) + rest;
    assert(spec_u32_from_le(
        (v & 0xff) as u8,
        ((v >> 8) & 0xff) as u8,
        ((v >> 16) & 0xff) as u8,
        ((v >> 24) & 0xff) as u8,
    ) == v) by (bit_vector);
    assert(enc.skip(4) =~= rest);
}

pub proof fn lemma_u32_be_round_trip(v: u32, rest: Seq<u8>)
    ensures
        spec_take_u32_be(spec_u32_be(v) + rest) == Some((v, rest)),
{
    let enc = spec_u32_be(v) + rest;
    assert(spec_u32_from_le(
        (v & 0xff) as u8,
        ((v >> 8) & 0xff) as u8,
        ((v >> 16) & 0xff) as u8,
        ((v >> 24) & 0xff) as u8,
    ) == v) by (bit_vector);
    assert(enc.skip(4) =~= rest);
}

#[verifier::rlimit(50)]
pub proof fn lemma_bytes_round_trip(b: Seq<u8>, rest: Seq<u8>)
    requires
        b.len() <= u32::MAX,
    ensures
        spec_take_bytes(spec_bytes(b) + rest) == Some((b, rest)),
{
    let n = b.len() as u32;
    lemma_u32_le_round_trip(n, b + rest);
    assert(spec_u32_le(n) + (b + rest) =~= spec_bytes(b) + rest);
    assert((b + rest).take(n as int) =~= b);
    assert((b + rest).skip(n as int) =~= rest);
}

pub proof fn lemma_take_n_round_trip(b: Seq<u8>, rest: Seq<u8>)
    ensures
        spec_take_n(b + rest, b.len() as int) == Some((b, rest)),
{
    assert((b + rest).take(b.len() as int) =~= b);
    assert((b + rest).skip(b.len() as int) =~= rest);
}

pub proof fn lemma_bool_round_trip(v: bool, rest: Seq<u8>)
    ensures
        spec_take_bool(spec_bool(v) + rest) == Some((v, rest)),
{
    let enc = spec_bool(v) + rest;
    assert(enc.skip(1) =~= rest);
}

// ---------------------------------------------------------------------------
// Executable encoders
// ---------------------------------------------------------------------------

pub fn write_u16_le(out: &mut Vec<u8>, v: u16)
    ensures
        final(out)@ == old(out)@ + spec_u16_le(v),
{
    out.push((v & 0xff) as u8);
    out.push(((v >> 8) & 0xff) as u8);
    assert(out@ =~= old(out)@ + spec_u16_le(v));
}

pub fn write_u32_le(out: &mut Vec<u8>, v: u32)
    ensures
        final(out)@ == old(out)@ + spec_u32_le(v),
{
    out.push((v & 0xff) as u8);
    out.push(((v >> 8) & 0xff) as u8);
    out.push(((v >> 16) & 0xff) as u8);
    out.push(((v >> 24) & 0xff) as u8);
    assert(out@ =~= old(out)@ + spec_u32_le(v));
}

pub fn write_u32_be(out: &mut Vec<u8>, v: u32)
    ensures
        final(out)@ == old(out)@ + spec_u32_be(v),
{
    out.push(((v >> 24) & 0xff) as u8);
    out.push(((v >> 16) & 0xff) as u8);
    out.push(((v >> 8) & 0xff) as u8);
    out.push((v & 0xff) as u8);
    assert(out@ =~= old(out)@ + spec_u32_be(v));
}

pub fn write_bytes(out: &mut Vec<u8>, b: &Vec<u8>)
    requires
        b.len() <= u32::MAX,
    ensures
        final(out)@ == old(out)@ + spec_bytes(b@),
{
    write_u32_le(out, b.len() as u32);
    let mut i: usize = 0;
    while i < b.len()
        invariant
            i <= b.len(),
            b.len() <= u32::MAX,
            out@ == old(out)@ + spec_u32_le(b.len() as u32) + b@.take(i as int),
        decreases b.len() - i,
    {
        out.push(b[i]);
        assert(b@.take(i as int) + seq![b@[i as int]] =~= b@.take(i + 1));
        i = i + 1;
    }
    assert(b@.take(b.len() as int) =~= b@);
    assert(out@ =~= old(out)@ + spec_bytes(b@));
}

/// Appends the bytes of `b` as they are, with no length prefix.
pub fn write_raw(out: &mut Vec<u8>, b: &Vec<u8>)
    ensures
        final(out)@ == old(out)@ + b@,
{
    let mut i: usize = 0;
    while i < b.len()
        invariant
            i <= b.len(),
            out@ == old(out)@ + b@.take(i as int),
        decreases b.len() - i,
    {
        out.push(b[i]);
        assert(b@.take(i as int) + seq![b@[i as int]] =~= b@.take(i + 1));
        i = i + 1;
    }
    assert(b@.take(b.len() as int) =~= b@);
    assert(out@ =~= old(out)@ + b@);
}

pub fn write_bool(out: &mut Vec<u8>, v: bool)
    ensures
        final(out)@ == old(out)@ + spec_bool(v),
{
    out.push(if v { 1u8 } else { 0u8 });
    assert(out@ =~= old(out)@ + spec_bool(v));
}

// ---------------------------------------------------------------------------
// Executable decoders
//
// Each works on `buf` from position `pos` and is proved to agree exactly
// with its specification decoder applied to the remaining bytes.
// ---------------------------------------------------------------------------

pub fn read_u8(buf: &Vec<u8>, pos: usize) -> (r: Option<(u8, usize)>)
    requires
        pos <= buf.len(),
    ensures
        match r {
            Some((v, p)) => pos < p <= buf.len() && spec_take_u8(buf@.skip(pos as int))
                == Some((v, buf@.skip(p as int))),
            None => spec_take_u8(buf@.skip(pos as int)) is None,
        },
{
    if pos < buf.len() {
        let v = buf[pos];
        assert(buf@.skip(pos as int)[0] == v);
        assert(buf@.skip(pos as int).skip(1) =~= buf@.skip(pos + 1));
        Some((v, pos + 1))
    } else {
        None
    }
}

pub fn read_u16_le(buf: &Vec<u8>, pos: usize) -> (r: Option<(u16, usize)>)
    requires
        pos <= buf.len(),
    ensures
        match r {
            Some((v, p)) => pos < p <= buf.len() && spec_take_u16_le(buf@.skip(pos as int))
                == Some((v, buf@.skip(p as int))),
            None => spec_take_u16_le(buf@.skip(pos as int)) is None,
        },
{
    if buf.len() - pos >= 2 {
        let b0 = buf[pos];
        let b1 = buf[pos + 1];
        let v = (b0 as u16) | ((b1 as u16) << 8);
        assert(buf@.skip(pos as int)[0] == b0);
        assert(buf@.skip(pos as int)[1] == b1);
        assert(buf@.skip(pos as int).skip(2) =~= buf@.skip(pos + 2));
        Some((v, pos + 2))
    } else {
        None
    }
}

pub fn read_u32_le(buf: &Vec<u8>, pos: usize) -> (r: Option<(u32, usize)>)
    requires
        pos <= buf.len(),
    ensures
        match r {
            Some((v, p)) => pos < p <= buf.len() && spec_take_u32_le(buf@.skip(pos as int))
                == Some((v, buf@.skip(p as int))),
            None => spec_take_u32_le(buf@.skip(pos as int)) is None,
        },
{
    if buf.len() - pos >= 4 {
        let b0 = buf[pos];
        let b1 = buf[pos + 1];
        let b2 = buf[pos + 2];
        let b3 = buf[pos + 3];
        let v = (b0 as u32) | ((b1 as u32) << 8) | ((b2 as u32) << 16) | ((b3 as u32) << 24);
        assert(buf@.skip(pos as int)[0] == b0);
        assert(buf@.skip(pos as int)[1] == b1);
        assert(buf@.skip(pos as int)[2] == b2);
        assert(buf@.skip(pos as int)[3] == b3);
        assert(buf@.skip(pos as int).skip(4) =~= buf@.skip(pos + 4));
        Some((v, pos + 4))
    } else {
        None
    }
}

pub fn read_u32_be(buf: &Vec<u8>, pos: usize) -> (r: Option<(u32, usize)>)
    requires
        pos <= buf.len(),
    ensures
        match r {
            Some((v, p)) => pos < p <= buf.len() && spec_take_u32_be(buf@.skip(pos as int))
                == Some((v, buf@.skip(p as int))),
            None => spec_take_u32_be(buf@.skip(pos as int)) is None,
        },
{
    if buf.len() - pos >= 4 {
        let b0 = buf[pos];
        let b1 = buf[pos + 1];
        let b2 = buf[pos + 2];
        let b3 = buf[pos + 3];
        let v = (b3 as u32) | ((b2 as u32) << 8) | ((b1 as u32) << 16) | ((b0 as u32) << 24);
        assert(buf@.skip(pos as int)[0] == b0);
        assert(buf@.skip(pos as int)[1] == b1);
        assert(buf@.skip(pos as int)[2] == b2);
        assert(buf@.skip(pos as int)[3] == b3);
        assert(buf@.skip(pos as int).skip(4) =~= buf@.skip(pos + 4));
        Some((v, pos + 4))
    } else {
        None
    }
}

pub fn read_bytes(buf: &Vec<u8>, pos: usize) -> (r: Option<(Vec<u8>, usize)>)
    requires
        pos <= buf.len(),
    ensures
        match r {
            Some((v, p)) => pos < p <= buf.len() && spec_take_bytes(buf@.skip(pos as int))
                == Some((v@, buf@.skip(p as int))),
            None => spec_take_bytes(buf@.skip(pos as int)) is None,
        },
{
    match read_u32_le(buf, pos) {
        Some((n, body)) => {
            let n = n as usize;
            if buf.len() - body >= n {
                let mut v: Vec<u8> = Vec::new();
                let mut i: usize = 0;
                while i < n
                    invariant
                        i <= n,
                        body + n <= buf.len(),
                        v@ == buf@.skip(body as int).take(i as int),
                    decreases n - i,
                {
                    v.push(buf[body + i]);
                    assert(buf@.skip(body as int).take(i as int) + seq![buf@[body + i]]
                        =~= buf@.skip(body as int).take(i + 1));
                    i = i + 1;
                }
                assert(buf@.skip(body as int).skip(n as int) =~= buf@.skip(body + n));
                Some((v, body + n))
            } else {
                None
            }
        },
        None => None,
    }
}

pub fn read_exact(buf: &Vec<u8>, pos: usize, n: usize) -> (r: Option<(Vec<u8>, usize)>)
    requires
        pos <= buf.len(),
    ensures
        match r {
            Some((v, p)) => pos <= p <= buf.len() && spec_take_n(buf@.skip(pos as int), n as int)
                == Some((v@, buf@.skip(p as int))),
            None => spec_take_n(buf@.skip(pos as int), n as int) is None,
        },
{
    if buf.len() - pos >= n {
        let mut v: Vec<u8> = Vec::new();
        let mut i: usize = 0;
        while i < n
            invariant
                i <= n,
                pos + n <= buf.len(),
                v@ == buf@.skip(pos as int).take(i as int),
            decreases n - i,
        {
            v.push(buf[pos + i]);
            assert(buf@.skip(pos as int).take(i as int) + seq![buf@[pos + i]]
                =~= buf@.skip(pos as int).take(i + 1));
            i = i + 1;
        }
        assert(buf@.skip(pos as int).skip(n as int) =~= buf@.skip(pos + n));
        Some((v, pos + n))
    } else {
        None
    }
}

pub fn read_bool(buf: &Vec<u8>, pos: usize) -> (r: Option<(bool, usize)>)
    requires
        pos <= buf.len(),
    ensures
        match r {
            Some((v, p)) => pos < p <= buf.len() && spec_take_bool(buf@.skip(pos as int))
                == Some((v, buf@.skip(p as int))),
            None => spec_take_bool(buf@.skip(pos as int)) is None,
        },
{
    match read_u8(buf, pos) {
        Some((t, p)) => {
            if t == 0 {
                Some((false, p))
            } else if t == 1 {
                Some((true, p))
            } else {
                None
            }
        },
        None => None,
    }
}

} // verus!
