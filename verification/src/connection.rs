//! Connection classification.
//!
//! A dial or accept task reports exactly one value describing how the
//! connection ended up; failures are values, never unwinds, so the caller
//! can emit a single event for each connection attempt.

use vstd::prelude::*;

use crate::error::ConnectionError;
use crate::handshake::HandshakeOutcome;
use crate::types::{vecs_equal, NodeId, PeerAddr};

verus! {

/// How an outgoing connection attempt ended.  The established transport
/// itself stays with the task that owns the socket.
#[derive(Debug)]
pub enum OutgoingConnection {
    /// The dial reached this node itself; nothing is delivered onward.
    Loopback { peer_addr: PeerAddr },
    /// The connection failed before the peer's identity was known.
    FailedEarly { peer_addr: PeerAddr, error: ConnectionError },
    /// The connection failed after the peer's identity was known.
    Failed { peer_addr: PeerAddr, peer_id: NodeId, error: ConnectionError },
    /// The handshake succeeded and the writer may be installed.
    Established {
        peer_addr: PeerAddr,
        peer_id: NodeId,
        peer_consensus_public_key: Option<Vec<u8>>,
        is_syncing: bool,
    },
}

/// How an incoming connection ended.
#[derive(Debug)]
pub enum IncomingConnection {
    /// The peer is this node itself; nothing is delivered onward.
    Loopback,
    /// The connection failed before the peer's identity was known.
    FailedEarly { peer_addr: PeerAddr, error: ConnectionError },
    /// The connection failed after the peer's identity was known.
    Failed { peer_addr: PeerAddr, peer_id: NodeId, error: ConnectionError },
    /// The handshake succeeded and the reader may be installed.
    Established {
        peer_addr: PeerAddr,
        public_addr: PeerAddr,
        peer_id: NodeId,
        peer_consensus_public_key: Option<Vec<u8>>,
    },
}

/// Whether a freshly authenticated connection is this node talking to
/// itself.  A loopback connection is rejected before the handshake
/// negotiator ever runs, so it delivers no event to the payload path.
pub fn is_loopback(our_id: &NodeId, peer_id: &NodeId) -> (r: bool)
    ensures
        r == (our_id@ == peer_id@),
{
    vecs_equal(our_id.as_bytes(), peer_id.as_bytes())
}

impl OutgoingConnection {
    /// The report for a dial whose handshake ran to a verdict.
    pub fn from_handshake(
        peer_addr: PeerAddr,
        peer_id: NodeId,
        handshake: Result<HandshakeOutcome, ConnectionError>,
    ) -> (r: OutgoingConnection)
        ensures
            match handshake {
                Ok(o) => r == (OutgoingConnection::Established {
                    peer_addr,
                    peer_id,
                    peer_consensus_public_key: o.peer_consensus_public_key,
                    is_syncing: o.is_peer_syncing,
                }),
                Err(e) => r == (OutgoingConnection::Failed { peer_addr, peer_id, error: e }),
            },
    {
        match handshake {
            Ok(outcome) => OutgoingConnection::Established {
                peer_addr,
                peer_id,
                peer_consensus_public_key: outcome.peer_consensus_public_key,
                is_syncing: outcome.is_peer_syncing,
            },
            Err(error) => OutgoingConnection::Failed { peer_addr, peer_id, error },
        }
    }
}

impl IncomingConnection {
    /// The report for an accepted connection whose handshake ran to a
    /// verdict.
    pub fn from_handshake(
        peer_addr: PeerAddr,
        peer_id: NodeId,
        handshake: Result<HandshakeOutcome, ConnectionError>,
    ) -> (r: IncomingConnection)
        ensures
            match handshake {
                Ok(o) => r == (IncomingConnection::Established {
                    peer_addr,
                    public_addr: o.public_addr,
                    peer_id,
                    peer_consensus_public_key: o.peer_consensus_public_key,
                }),
                Err(e) => r == (IncomingConnection::Failed { peer_addr, peer_id, error: e }),
            },
    {
        match handshake {
            Ok(outcome) => IncomingConnection::Established {
                peer_addr,
                public_addr: outcome.public_addr,
                peer_id,
                peer_consensus_public_key: outcome.peer_consensus_public_key,
            },
            Err(error) => IncomingConnection::Failed { peer_addr, peer_id, error },
        }
    }
}

} // verus!
