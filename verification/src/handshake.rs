//! The application handshake.
//!
//! Immediately after the transport is up, both sides send one framed
//! handshake record and read one.  The record carries, in order: the
//! protocol version as three 32-bit components, the network name, the
//! advertised public address, an optional consensus-key attestation, and
//! the peer-is-syncing flag.  This module holds the record codec and the
//! rules that accept or reject what the peer sent.

use vstd::prelude::*;

use crate::context::NetworkContext;
use crate::digest::{spec_signature_valid, verify_signature};
use crate::error::ConnectionError;
use crate::framing::{read_frame, spec_frame_too_large, spec_take_frame, FrameError};
use crate::types::{
    spec_version_le, vecs_equal, ConnectionId, PeerAddr, PeerAddrView, ProtocolVersion,
};
use crate::wire::{
    read_bool, read_bytes, read_exact, read_u16_le, read_u32_le, spec_bool, spec_bytes,
    spec_take_bool, spec_take_bytes, spec_take_n, spec_take_u16_le, spec_take_u32_le, spec_u16_le,
    spec_u32_le, write_bool, write_bytes, write_raw, write_u16_le, write_u32_le,
};
use crate::MAX_HANDSHAKE_FRAME_LEN;

verus! {

/// The mathematical value of a consensus-key attestation.
pub struct AttestationView {
    pub public_key: Seq<u8>,
    pub signature: Seq<u8>,
}

/// A signed claim that the peer controls a consensus key: the public key
/// and a signature over the connection identifier.
#[derive(Clone, PartialEq, Eq, Debug)]
pub struct Attestation {
    pub public_key: Vec<u8>,
    pub signature: Vec<u8>,
}

impl View for Attestation {
    type V = AttestationView;

    open spec fn view(&self) -> AttestationView {
        AttestationView { public_key: self.public_key@, signature: self.signature@ }
    }
}

/// The mathematical value of a handshake record.
pub struct HandshakeView {
    pub version: ProtocolVersion,
    pub network_name: Seq<u8>,
    pub public_addr: PeerAddrView,
    pub attestation: Option<AttestationView>,
    pub is_syncing: bool,
}

/// One handshake record.
#[derive(Clone, PartialEq, Eq, Debug)]
pub struct HandshakeRecord {
    /// The sender's protocol version.
    pub version: ProtocolVersion,
    /// The name of the network the sender belongs to, as UTF-8 bytes.
    pub network_name: Vec<u8>,
    /// The public address the sender advertises for incoming dials.
    pub public_addr: PeerAddr,
    /// The sender's consensus-key attestation, if it is a validator.
    pub attestation: Option<Attestation>,
    /// Whether the sender is still syncing its chain.
    pub is_syncing: bool,
}

impl View for HandshakeRecord {
    type V = HandshakeView;

    open spec fn view(&self) -> HandshakeView {
        HandshakeView {
            version: self.version,
            network_name: self.network_name@,
            public_addr: self.public_addr@,
            attestation: match self.attestation {
                Some(a) => Some(a@),
                None => None,
            },
            is_syncing: self.is_syncing,
        }
    }
}

/// The bounds under which a record can be put on the wire.
pub open spec fn spec_handshake_wf(h: HandshakeView) -> bool {
    &&& h.network_name.len() <= u32::MAX
    &&& h.public_addr.ip.len() == (if h.public_addr.is_v6 {
        16int
    } else {
        4int
    })
    &&& match h.attestation {
        Some(a) => a.public_key.len() <= u32::MAX && a.signature.len() <= u32::MAX,
        None => true,
    }
}

// ---------------------------------------------------------------------------
// Record encoding
// ---------------------------------------------------------------------------

/// The encoding of an address: family tag, raw octets, port.
pub open spec fn spec_addr(a: PeerAddrView) -> Seq<u8> {
    spec_bool(a.is_v6) + a.ip + spec_u16_le(a.port)
}

/// The encoding of the optional attestation: presence tag, then the
/// length-prefixed public key and signature when present.
pub open spec fn spec_attestation_part(att: Option<AttestationView>) -> Seq<u8> {
    match att {
        Some(a) => spec_bool(true) + spec_bytes(a.public_key) + spec_bytes(a.signature),
        None => spec_bool(false),
    }
}

/// The encoding of a whole handshake record.
pub open spec fn spec_handshake(h: HandshakeView) -> Seq<u8> {
    spec_u32_le(h.version.major) + spec_u32_le(h.version.minor) + spec_u32_le(h.version.patch)
        + spec_bytes(h.network_name) + spec_addr(h.public_addr) + spec_attestation_part(
        h.attestation,
    ) + spec_bool(h.is_syncing)
}

// ---------------------------------------------------------------------------
// Record decoding
// ---------------------------------------------------------------------------

pub open spec fn spec_take_addr(b: Seq<u8>) -> Option<(PeerAddrView, Seq<u8>)> {
    match spec_take_bool(b) {
        Some((is_v6, r1)) => match spec_take_n(
            r1,
            if is_v6 {
                16int
            } else {
                4int
            },
        ) {
            Some((ip, r2)) => match spec_take_u16_le(r2) {
                Some((port, r3)) => Some((PeerAddrView { is_v6, ip, port }, r3)),
                None => None,
            },
            None => None,
        },
        None => None,
    }
}

pub open spec fn spec_take_attestation(b: Seq<u8>) -> Option<(Option<AttestationView>, Seq<u8>)> {
    match spec_take_bool(b) {
        Some((present, r1)) => if present {
            match spec_take_bytes(r1) {
                Some((pk, r2)) => match spec_take_bytes(r2) {
                    Some((sig, r3)) => Some(
                        (Some(AttestationView { public_key: pk, signature: sig }), r3),
                    ),
                    None => None,
                },
                None => None,
            }
        } else {
            Some((None, r1))
        },
        None => None,
    }
}

pub open spec fn spec_take_handshake(b: Seq<u8>) -> Option<(HandshakeView, Seq<u8>)> {
    match spec_take_u32_le(b) {
        Some((major, r1)) => match spec_take_u32_le(r1) {
            Some((minor, r2)) => match spec_take_u32_le(r2) {
                Some((patch, r3)) => match spec_take_bytes(r3) {
                    Some((network_name, r4)) => match spec_take_addr(r4) {
                        Some((public_addr, r5)) => match spec_take_attestation(r5) {
                            Some((attestation, r6)) => match spec_take_bool(r6) {
                                Some((is_syncing, r7)) => Some(
                                    (
                                        HandshakeView {
                                            version: ProtocolVersion { major, minor, patch },
                                            network_name,
                                            public_addr,
                                            attestation,
                                            is_syncing,
                                        },
                                        r7,
                                    ),
                                ),
                                None => None,
                            },
                            None => None,
                        },
                        None => None,
                    },
                    None => None,
                },
                None => None,
            },
            None => None,
        },
        None => None,
    }
}

/// A whole buffer as one record; trailing bytes are not tolerated.
pub open spec fn spec_decode_handshake(b: Seq<u8>) -> Option<HandshakeView> {
    match spec_take_handshake(b) {
        Some((h, rest)) => if rest.len() == 0 {
            Some(h)
        } else {
            None
        },
        None => None,
    }
}

// ---------------------------------------------------------------------------
// Round trip: decoding an encoded record yields the record
// ---------------------------------------------------------------------------

pub proof fn lemma_addr_round_trip(a: PeerAddrView, rest: Seq<u8>)
    requires
        a.ip.len() == (if a.is_v6 {
            16int
        } else {
            4int
        }),
    ensures
        spec_take_addr(spec_addr(a) + rest) == Some((a, rest)),
{
    let t1 = a.ip + (spec_u16_le(a.port) + rest);
    crate::wire::lemma_bool_round_trip(a.is_v6, t1);
    assert(spec_addr(a) + rest =~= spec_bool(a.is_v6) + t1);
    crate::wire::lemma_take_n_round_trip(a.ip, spec_u16_le(a.port) + rest);
    crate::wire::lemma_u16_le_round_trip(a.port, rest);
}

pub proof fn lemma_attestation_round_trip(att: Option<AttestationView>, rest: Seq<u8>)
    requires
        match att {
            Some(a) => a.public_key.len() <= u32::MAX && a.signature.len() <= u32::MAX,
            None => true,
        },
    ensures
        spec_take_attestation(spec_attestation_part(att) + rest) == Some((att, rest)),
{
    match att {
        Some(a) => {
            let t1 = spec_bytes(a.public_key) + (spec_bytes(a.signature) + rest);
            crate::wire::lemma_bool_round_trip(true, t1);
            assert(spec_attestation_part(att) + rest =~= spec_bool(true) + t1);
            crate::wire::lemma_bytes_round_trip(a.public_key, spec_bytes(a.signature) + rest);
            crate::wire::lemma_bytes_round_trip(a.signature, rest);
        },
        None => {
            crate::wire::lemma_bool_round_trip(false, rest);
        },
    }
}

/// Any record within the wire bounds decodes, from its own encoding, back
/// to itself, whatever follows it on the stream.
#[verifier::rlimit(100)]
pub proof fn lemma_handshake_round_trip(h: HandshakeView, rest: Seq<u8>)
    requires
        spec_handshake_wf(h),
    ensures
        spec_take_handshake(spec_handshake(h) + rest) == Some((h, rest)),
{
    let c1 = spec_u32_le(h.version.major);
    let c2 = spec_u32_le(h.version.minor);
    let c3 = spec_u32_le(h.version.patch);
    let c4 = spec_bytes(h.network_name);
    let c5 = spec_addr(h.public_addr);
    let c6 = spec_attestation_part(h.attestation);
    let c7 = spec_bool(h.is_syncing);
    let t7 = rest;
    let t6 = c7 + t7;
    let t5 = c6 + t6;
    let t4 = c5 + t5;
    let t3 = c4 + t4;
    let t2 = c3 + t3;
    let t1 = c2 + t2;
    crate::wire::lemma_u32_le_round_trip(h.version.major, t1);
    assert(spec_handshake(h) + rest =~= c1 + t1);
    crate::wire::lemma_u32_le_round_trip(h.version.minor, t2);
    crate::wire::lemma_u32_le_round_trip(h.version.patch, t3);
    crate::wire::lemma_bytes_round_trip(h.network_name, t4);
    lemma_addr_round_trip(h.public_addr, t5);
    lemma_attestation_round_trip(h.attestation, t6);
    crate::wire::lemma_bool_round_trip(h.is_syncing, t7);
}

/// Decoding the bare encoding of a record yields exactly that record.
pub proof fn lemma_handshake_decode_round_trip(h: HandshakeView)
    requires
        spec_handshake_wf(h),
    ensures
        spec_decode_handshake(spec_handshake(h)) == Some(h),
{
    lemma_handshake_round_trip(h, Seq::<u8>::empty());
    assert(spec_handshake(h) + Seq::<u8>::empty() =~= spec_handshake(h));
}

// ---------------------------------------------------------------------------
// Executable codec
// ---------------------------------------------------------------------------

impl HandshakeRecord {
    /// The bounds under which the record can be put on the wire.
    pub open spec fn wf(&self) -> bool {
        spec_handshake_wf(self@)
    }

    /// Encodes the record.
    pub fn encode(&self) -> (r: Vec<u8>)
        requires
            self.wf(),
        ensures
            r@ == spec_handshake(self@),
    {
        let mut out: Vec<u8> = Vec::new();
        write_u32_le(&mut out, self.version.major);
        write_u32_le(&mut out, self.version.minor);
        write_u32_le(&mut out, self.version.patch);
        write_bytes(&mut out, &self.network_name);
        write_bool(&mut out, self.public_addr.is_v6);
        write_raw(&mut out, &self.public_addr.ip);
        write_u16_le(&mut out, self.public_addr.port);
        match &self.attestation {
            Some(a) => {
                write_bool(&mut out, true);
                write_bytes(&mut out, &a.public_key);
                write_bytes(&mut out, &a.signature);
            },
            None => {
                write_bool(&mut out, false);
            },
        }
        write_bool(&mut out, self.is_syncing);
        proof {
            assert(out@ =~= spec_handshake(self@));
        }
        out
    }

    /// Decodes a whole buffer as one record; trailing bytes are refused.
    pub fn decode(buf: &Vec<u8>) -> (r: Option<HandshakeRecord>)
        ensures
            match r {
                Some(h) => spec_decode_handshake(buf@) == Some(h@) && h.wf(),
                None => spec_decode_handshake(buf@) is None,
            },
    {
        proof {
            assert(buf@.skip(0) =~= buf@);
        }
        let pos: usize = 0;
        let (major, pos) = match read_u32_le(buf, pos) {
            Some(v) => v,
            None => {
                return None;
            },
        };
        let (minor, pos) = match read_u32_le(buf, pos) {
            Some(v) => v,
            None => {
                return None;
            },
        };
        let (patch, pos) = match read_u32_le(buf, pos) {
            Some(v) => v,
            None => {
                return None;
            },
        };
        let (network_name, pos) = match read_bytes(buf, pos) {
            Some(v) => v,
            None => {
                return None;
            },
        };
        let (public_addr, pos) = match read_addr(buf, pos) {
            Some(v) => v,
            None => {
                return None;
            },
        };
        let (attestation, pos) = match read_attestation(buf, pos) {
            Some(v) => v,
            None => {
                return None;
            },
        };
        let (is_syncing, pos) = match read_bool(buf, pos) {
            Some(v) => v,
            None => {
                return None;
            },
        };
        if pos != buf.len() {
            return None;
        }
        let record = HandshakeRecord {
            version: ProtocolVersion { major, minor, patch },
            network_name,
            public_addr,
            attestation,
            is_syncing,
        };
        proof {
            assert(buf@.skip(pos as int) =~= Seq::<u8>::empty());
        }
        Some(record)
    }
}

// ---------------------------------------------------------------------------
// Framed records
// ---------------------------------------------------------------------------

/// Reads one framed handshake record payload from a buffered stream.
///
/// A frame announcing more than `MAX_HANDSHAKE_FRAME_LEN` bytes is a
/// protocol violation; an incomplete frame asks for more bytes.
pub fn read_handshake_frame(buf: &Vec<u8>, pos: usize) -> (r: Result<
    Option<(Vec<u8>, usize)>,
    ConnectionError,
>)
    requires
        pos <= buf.len(),
    ensures
        r is Err <==> spec_frame_too_large(buf@.skip(pos as int), MAX_HANDSHAKE_FRAME_LEN as u32),
        match r {
            Ok(Some((payload, p))) => pos < p <= buf.len() && spec_take_frame(
                buf@.skip(pos as int),
                MAX_HANDSHAKE_FRAME_LEN as u32,
            ) == Some((payload@, buf@.skip(p as int))),
            Ok(None) => spec_take_frame(buf@.skip(pos as int), MAX_HANDSHAKE_FRAME_LEN as u32)
                is None,
            Err(e) => e == ConnectionError::ProtocolViolation,
        },
{
    match read_frame(buf, pos, MAX_HANDSHAKE_FRAME_LEN as u32) {
        Ok(step) => Ok(step),
        Err(FrameError::TooLarge) => Err(ConnectionError::ProtocolViolation),
    }
}

/// Decodes a handshake frame payload; a payload that is not exactly one
/// record is a protocol violation.
pub fn parse_handshake(payload: &Vec<u8>) -> (r: Result<HandshakeRecord, ConnectionError>)
    ensures
        match r {
            Ok(h) => spec_decode_handshake(payload@) == Some(h@) && h.wf(),
            Err(e) => e == ConnectionError::ProtocolViolation && spec_decode_handshake(payload@)
                is None,
        },
{
    match HandshakeRecord::decode(payload) {
        Some(h) => Ok(h),
        None => Err(ConnectionError::ProtocolViolation),
    }
}

// ---------------------------------------------------------------------------
// Negotiation
// ---------------------------------------------------------------------------

/// What a successful handshake yields; the transport itself stays with the
/// caller.
#[derive(Clone, PartialEq, Eq, Debug)]
pub struct HandshakeOutcome {
    /// The public address the peer advertises.
    pub public_addr: PeerAddr,
    /// The peer's attested consensus public key, if it is a validator.
    pub peer_consensus_public_key: Option<Vec<u8>>,
    /// Whether the peer is still syncing its chain.
    pub is_peer_syncing: bool,
}

/// Builds the record this node sends on one connection.  The attestation,
/// if any, is a signature over the connection identifier made by the
/// caller with the node's consensus secret key.
pub fn build_handshake(ctx: &NetworkContext, attestation: Option<Attestation>) -> (r:
    HandshakeRecord)
    requires
        ctx.wf(),
        match attestation {
            Some(a) => a.public_key@.len() <= u32::MAX && a.signature@.len() <= u32::MAX,
            None => true,
        },
    ensures
        r.wf(),
        r@.version == ctx.protocol_version,
        r@.network_name == ctx.network_name@,
        r@.public_addr == ctx.public_addr@,
        r@.attestation == (match attestation {
            Some(a) => Some(a@),
            None => None::<AttestationView>,
        }),
        r@.is_syncing == ctx.is_syncing,
{
    HandshakeRecord {
        version: ctx.protocol_version,
        network_name: ctx.network_name.clone(),
        public_addr: ctx.public_addr.clone(),
        attestation,
        is_syncing: ctx.is_syncing,
    }
}

/// The peer's version is one this node cannot talk to.
pub open spec fn spec_version_rejected(ctx: NetworkContext, h: HandshakeView) -> bool {
    h.version.major != ctx.protocol_version.major
}

/// The peer belongs to a different network.
pub open spec fn spec_chain_rejected(ctx: NetworkContext, h: HandshakeView) -> bool {
    !spec_version_rejected(ctx, h) && h.network_name != ctx.network_name@
}

/// The peer presented an attestation that does not verify against the
/// connection identifier.
pub open spec fn spec_attestation_rejected(
    ctx: NetworkContext,
    h: HandshakeView,
    connection_id: Seq<u8>,
) -> bool {
    &&& !spec_version_rejected(ctx, h)
    &&& !spec_chain_rejected(ctx, h)
    &&& match h.attestation {
        Some(a) => !spec_signature_valid(a.public_key, connection_id, a.signature),
        None => false,
    }
}

/// Whether the tarpit catches this peer: a threshold is configured, the
/// peer's version is at or under it, and the caller's random trial with
/// probability `tarpit_chance_ppm` came out true.
pub open spec fn spec_tarpit_applies(
    threshold: Option<ProtocolVersion>,
    peer_version: ProtocolVersion,
    draw: bool,
) -> bool {
    match threshold {
        Some(t) => spec_version_le(peer_version, t) && draw,
        None => false,
    }
}

/// The peer is rejected because it ran into the tarpit.
pub open spec fn spec_tarpit_rejected(
    ctx: NetworkContext,
    h: HandshakeView,
    connection_id: Seq<u8>,
    draw: bool,
) -> bool {
    &&& !spec_version_rejected(ctx, h)
    &&& !spec_chain_rejected(ctx, h)
    &&& !spec_attestation_rejected(ctx, h, connection_id)
    &&& spec_tarpit_applies(ctx.tarpit_version_threshold, h.version, draw)
}

/// Accepts or rejects the record the peer sent.
///
/// `tarpit_draw` is the outcome of the caller's random trial with
/// probability `tarpit_chance_ppm`; the decision here holds whatever value
/// came out.  On a tarpit rejection the caller keeps the connection open
/// and idle for `tarpit_duration_ms` before dropping it.
pub fn evaluate_handshake(
    ctx: &NetworkContext,
    connection_id: &ConnectionId,
    record: &HandshakeRecord,
    tarpit_draw: bool,
) -> (r: Result<HandshakeOutcome, ConnectionError>)
    requires
        ctx.wf(),
    ensures
        (r == Err::<HandshakeOutcome, ConnectionError>(ConnectionError::IncompatibleVersion))
            <==> spec_version_rejected(*ctx, record@),
        (r == Err::<HandshakeOutcome, ConnectionError>(ConnectionError::ChainMismatch))
            <==> spec_chain_rejected(*ctx, record@),
        (r == Err::<HandshakeOutcome, ConnectionError>(ConnectionError::InvalidAttestation))
            <==> spec_attestation_rejected(*ctx, record@, connection_id@),
        (r == Err::<HandshakeOutcome, ConnectionError>(ConnectionError::Tarpitted))
            <==> spec_tarpit_rejected(*ctx, record@, connection_id@, tarpit_draw),
        r is Ok <==> {
            &&& !spec_version_rejected(*ctx, record@)
            &&& !spec_chain_rejected(*ctx, record@)
            &&& !spec_attestation_rejected(*ctx, record@, connection_id@)
            &&& !spec_tarpit_rejected(*ctx, record@, connection_id@, tarpit_draw)
        },
        match r {
            Ok(o) => {
                &&& o.public_addr@ == record@.public_addr
                &&& (match (o.peer_consensus_public_key, record@.attestation) {
                    (Some(k), Some(a)) => k@ == a.public_key,
                    (None, None) => true,
                    _ => false,
                })
                &&& o.is_peer_syncing == record@.is_syncing
            },
            Err(_) => true,
        },
{
    if !record.version.is_compatible_with(&ctx.protocol_version) {
        return Err(ConnectionError::IncompatibleVersion);
    }
    if !vecs_equal(&record.network_name, &ctx.network_name) {
        return Err(ConnectionError::ChainMismatch);
    }
    let peer_consensus_public_key: Option<Vec<u8>> = match &record.attestation {
        Some(a) => {
            if !verify_signature(&a.public_key, connection_id.as_bytes(), &a.signature) {
                return Err(ConnectionError::InvalidAttestation);
            }
            Some(a.public_key.clone())
        },
        None => None,
    };
    let tarpitted = match &ctx.tarpit_version_threshold {
        Some(threshold) => record.version.le(threshold) && tarpit_draw,
        None => false,
    };
    if tarpitted {
        return Err(ConnectionError::Tarpitted);
    }
    Ok(
        HandshakeOutcome {
            public_addr: record.public_addr.clone(),
            peer_consensus_public_key,
            is_peer_syncing: record.is_syncing,
        },
    )
}

/// Reads one encoded address.
fn read_addr(buf: &Vec<u8>, pos: usize) -> (r: Option<(PeerAddr, usize)>)
    requires
        pos <= buf.len(),
    ensures
        match r {
            Some((a, p)) => pos < p <= buf.len() && a.wf() && spec_take_addr(
                buf@.skip(pos as int),
            ) == Some((a@, buf@.skip(p as int))),
            None => spec_take_addr(buf@.skip(pos as int)) is None,
        },
{
    let (is_v6, pos) = match read_bool(buf, pos) {
        Some(v) => v,
        None => {
            return None;
        },
    };
    let ip_len: usize = if is_v6 {
        16
    } else {
        4
    };
    let (ip, pos) = match read_exact(buf, pos, ip_len) {
        Some(v) => v,
        None => {
            return None;
        },
    };
    let (port, pos) = match read_u16_le(buf, pos) {
        Some(v) => v,
        None => {
            return None;
        },
    };
    Some((PeerAddr { is_v6, ip, port }, pos))
}

/// Reads the optional-attestation part.
fn read_attestation(buf: &Vec<u8>, pos: usize) -> (r: Option<(Option<Attestation>, usize)>)
    requires
        pos <= buf.len(),
    ensures
        match r {
            Some((att, p)) => pos < p <= buf.len() && spec_take_attestation(
                buf@.skip(pos as int),
            ) == Some(
                (
                    match att {
                        Some(a) => Some(a@),
                        None => None,
                    },
                    buf@.skip(p as int),
                ),
            ) && (match att {
                Some(a) => a.public_key@.len() <= u32::MAX && a.signature@.len() <= u32::MAX,
                None => true,
            }),
            None => spec_take_attestation(buf@.skip(pos as int)) is None,
        },
{
    match read_bool(buf, pos) {
        Some((true, pos)) => {
            let (public_key, pos) = match read_bytes(buf, pos) {
                Some(v) => v,
                None => {
                    return None;
                },
            };
            let (signature, pos) = match read_bytes(buf, pos) {
                Some(v) => v,
                None => {
                    return None;
                },
            };
            Some((Some(Attestation { public_key, signature }), pos))
        },
        Some((false, pos)) => Some((None, pos)),
        None => None,
    }
}

} // verus!
