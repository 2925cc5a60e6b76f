//! Identities, versions and addresses.

use vstd::prelude::*;

use crate::digest::{sha256, sha256_of};
use crate::wire::spec_bytes;

verus! {

/// An identifier for a specific kind of item exchanged between nodes.
/// Each kind of item carries a distinct variant.
#[derive(Clone, Copy, PartialEq, Eq, Structural, Hash, Debug)]
pub enum Tag {
    /// A deploy.
    Deploy,
    /// Finalized approvals for a deploy.
    FinalizedApprovals,
    /// A block.
    Block,
    /// A gossiped public listening address.
    GossipedAddress,
    /// A block requested by its height in the linear chain.
    BlockAndMetadataByHeight,
    /// A block header requested by its hash.
    BlockHeaderByHash,
    /// A block header and its finality signatures requested by its height
    /// in the linear chain.
    BlockHeaderAndFinalitySignaturesByHeight,
    /// A trie or chunk from the global state Merkle tree.
    TrieOrChunk,
    /// A full block and its deploys.
    BlockAndDeploysByHash,
    /// A batch of block headers requested by their height indices.
    BlockHeaderBatch,
    /// Finality signatures for a block requested by the block's hash.
    FinalitySignaturesByHash,
}

/// A peer identity: the 32-byte fingerprint of the public key of the leaf
/// certificate the peer presented during the transport handshake.
#[derive(Debug)]
pub struct NodeId {
    bytes: Vec<u8>,
}

impl View for NodeId {
    type V = Seq<u8>;

    closed spec fn view(&self) -> Seq<u8> {
        self.bytes@
    }
}

impl NodeId {
    /// A valid identity is exactly 32 bytes long.
    pub open spec fn wf(&self) -> bool {
        self@.len() == 32
    }

    /// The identity of the holder of a public key, given the key's DER
    /// encoding: its 32-byte fingerprint.
    pub fn from_public_key_der(der: &Vec<u8>) -> (r: NodeId)
        ensures
            r.wf(),
            r@ == sha256_of(der@),
    {
        NodeId { bytes: sha256(der) }
    }

    /// An identity from its raw fingerprint bytes.
    pub fn from_fingerprint(bytes: Vec<u8>) -> (r: NodeId)
        requires
            bytes@.len() == 32,
        ensures
            r.wf(),
            r@ == bytes@,
    {
        NodeId { bytes }
    }

    /// The raw fingerprint bytes.
    pub fn as_bytes(&self) -> (r: &Vec<u8>)
        ensures
            r@ == self@,
    {
        &self.bytes
    }
}

impl Clone for NodeId {
    fn clone(&self) -> (r: Self)
        ensures
            r@ == self@,
            self.wf() ==> r.wf(),
    {
        NodeId { bytes: self.bytes.clone() }
    }
}

impl PartialEq for NodeId {
    fn eq(&self, other: &Self) -> (r: bool) {
        vecs_equal(&self.bytes, &other.bytes)
    }
}

impl vstd::std_specs::cmp::PartialEqSpecImpl for NodeId {
    open spec fn obeys_eq_spec() -> bool {
        true
    }

    open spec fn eq_spec(&self, other: &Self) -> bool {
        self@ == other@
    }
}

/// Whether two byte vectors hold the same bytes.
pub fn vecs_equal(a: &Vec<u8>, b: &Vec<u8>) -> (r: bool)
    ensures
        r == (a@ == b@),
{
    if a.len() != b.len() {
        return false;
    }
    let mut i: usize = 0;
    while i < a.len()
        invariant
            i <= a.len(),
            a.len() == b.len(),
            forall|j: int| 0 <= j < i ==> a@[j] == b@[j],
        decreases a.len() - i,
    {
        if a[i] != b[i] {
            return false;
        }
        i = i + 1;
    }
    proof {
        assert(a@ =~= b@);
    }
    true
}

/// A protocol version, as three dot-separated numeric components.
#[derive(Clone, Copy, PartialEq, Eq, Structural, Debug)]
pub struct ProtocolVersion {
    pub major: u32,
    pub minor: u32,
    pub patch: u32,
}

/// Lexicographic order on protocol versions.
pub open spec fn spec_version_le(a: ProtocolVersion, b: ProtocolVersion) -> bool {
    if a.major != b.major {
        a.major < b.major
    } else if a.minor != b.minor {
        a.minor < b.minor
    } else {
        a.patch <= b.patch
    }
}

impl ProtocolVersion {
    pub fn new(major: u32, minor: u32, patch: u32) -> (r: ProtocolVersion)
        ensures
            r == (ProtocolVersion { major, minor, patch }),
    {
        ProtocolVersion { major, minor, patch }
    }

    /// Whether `self` is at or below `other` in lexicographic order.
    pub fn le(&self, other: &ProtocolVersion) -> (r: bool)
        ensures
            r == spec_version_le(*self, *other),
    {
        if self.major != other.major {
            self.major < other.major
        } else if self.minor != other.minor {
            self.minor < other.minor
        } else {
            self.patch <= other.patch
        }
    }

    /// Whether two peers can talk to each other: they agree on the major
    /// version component.
    pub fn is_compatible_with(&self, other: &ProtocolVersion) -> (r: bool)
        ensures
            r == (self.major == other.major),
    {
        self.major == other.major
    }
}

/// The mathematical value of a socket address.
pub struct PeerAddrView {
    pub is_v6: bool,
    pub ip: Seq<u8>,
    pub port: u16,
}

/// A socket address a peer advertises: an IPv4 or IPv6 address with a port.
#[derive(PartialEq, Eq, Debug)]
pub struct PeerAddr {
    /// Whether `ip` is a 16-byte IPv6 address rather than a 4-byte IPv4 one.
    pub is_v6: bool,
    /// The address octets: 4 for IPv4, 16 for IPv6.
    pub ip: Vec<u8>,
    /// The port number.
    pub port: u16,
}

impl View for PeerAddr {
    type V = PeerAddrView;

    open spec fn view(&self) -> PeerAddrView {
        PeerAddrView { is_v6: self.is_v6, ip: self.ip@, port: self.port }
    }
}

impl Clone for PeerAddr {
    fn clone(&self) -> (r: Self)
        ensures
            r@ == self@,
            self.wf() ==> r.wf(),
    {
        let r = PeerAddr { is_v6: self.is_v6, ip: self.ip.clone(), port: self.port };
        proof {
            assert(r@ == self@);
        }
        r
    }
}

impl PeerAddr {
    /// A valid address holds exactly as many octets as its family needs.
    pub open spec fn wf(&self) -> bool {
        self.ip@.len() == (if self.is_v6 {
            16int
        } else {
            4int
        })
    }

    pub fn new_v4(a: u8, b: u8, c: u8, d: u8, port: u16) -> (r: PeerAddr)
        ensures
            r.wf(),
            !r@.is_v6,
            r@.ip == seq![a, b, c, d],
            r@.port == port,
    {
        let mut ip: Vec<u8> = Vec::new();
        ip.push(a);
        ip.push(b);
        ip.push(c);
        ip.push(d);
        proof {
            assert(ip@ =~= seq![a, b, c, d]);
        }
        PeerAddr { is_v6: false, ip, port }
    }

    pub fn new_v6(octets: Vec<u8>, port: u16) -> (r: PeerAddr)
        requires
            octets@.len() == 16,
        ensures
            r.wf(),
            r@.is_v6,
            r@.ip == octets@,
            r@.port == port,
    {
        PeerAddr { is_v6: true, ip: octets, port }
    }
}

/// A deterministic identifier for one established connection, derived from
/// the transport session and the two endpoint identities.
#[derive(Debug)]
pub struct ConnectionId {
    bytes: Vec<u8>,
}

impl View for ConnectionId {
    type V = Seq<u8>;

    closed spec fn view(&self) -> Seq<u8> {
        self.bytes@
    }
}

/// The bytes a connection identifier digests: the transport session's
/// channel-binding bytes and the two identities, each length-prefixed so
/// that distinct triples never collide before hashing.
pub open spec fn spec_connection_id_input(
    channel_binding: Seq<u8>,
    our_id: Seq<u8>,
    peer_id: Seq<u8>,
) -> Seq<u8> {
    spec_bytes(channel_binding) + spec_bytes(our_id) + spec_bytes(peer_id)
}

impl ConnectionId {
    pub open spec fn wf(&self) -> bool {
        self@.len() == 32
    }

    /// Derives the identifier of a connection from the transport session's
    /// channel-binding bytes and both endpoint identities.
    pub fn from_connection(channel_binding: &Vec<u8>, our_id: &NodeId, peer_id: &NodeId) -> (r:
        ConnectionId)
        requires
            channel_binding@.len() <= u32::MAX,
            our_id.wf(),
            peer_id.wf(),
        ensures
            r.wf(),
            r@ == sha256_of(spec_connection_id_input(channel_binding@, our_id@, peer_id@)),
    {
        let mut input: Vec<u8> = Vec::new();
        crate::wire::write_bytes(&mut input, channel_binding);
        crate::wire::write_bytes(&mut input, our_id.as_bytes());
        crate::wire::write_bytes(&mut input, peer_id.as_bytes());
        proof {
            assert(input@ =~= spec_connection_id_input(channel_binding@, our_id@, peer_id@));
        }
        ConnectionId { bytes: sha256(&input) }
    }

    /// The raw identifier bytes.
    pub fn as_bytes(&self) -> (r: &Vec<u8>)
        ensures
            r@ == self@,
    {
        &self.bytes
    }
}

impl Clone for ConnectionId {
    fn clone(&self) -> (r: Self)
        ensures
            r@ == self@,
            self.wf() ==> r.wf(),
    {
        ConnectionId { bytes: self.bytes.clone() }
    }
}

/// Two sessions between the same pair of honest endpoints that present
/// identical channel-binding transcripts yield identical connection
/// identifiers.
pub proof fn lemma_connection_id_deterministic(
    channel_binding_a: Seq<u8>,
    our_a: Seq<u8>,
    peer_a: Seq<u8>,
    channel_binding_b: Seq<u8>,
    our_b: Seq<u8>,
    peer_b: Seq<u8>,
)
    requires
        channel_binding_a == channel_binding_b,
        our_a == our_b,
        peer_a == peer_b,
    ensures
        sha256_of(spec_connection_id_input(channel_binding_a, our_a, peer_a)) == sha256_of(
            spec_connection_id_input(channel_binding_b, our_b, peer_b),
        ),
{
}

} // verus!
