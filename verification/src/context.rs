//! The shared networking context.
//!
//! One value of this type is built at startup and carried, read-only, by
//! every per-connection task.  The one mutable bit, the syncing flag, is
//! owned by higher-level orchestration and read into outgoing handshake
//! records; the library models it as a plain field whose current value the
//! caller passes in.

use vstd::prelude::*;

use crate::types::{NodeId, PeerAddr, ProtocolVersion};

verus! {

/// Chance expressed in parts per million; the whole scale is certainty.
pub const CHANCE_SCALE_PPM: u32 = 1000000;

/// Weights for estimating the resource cost of incoming payloads: how
/// many rate-limiter units a payload of each class costs, plus a charge
/// per payload byte.
#[derive(Clone, Copy, PartialEq, Eq, Structural, Debug)]
pub struct EstimatorWeights {
    /// The base charge for an ordinary payload.
    pub regular: u32,
    /// The base charge for a low-priority payload.
    pub low_priority: u32,
    /// The charge per payload byte, on top of the base.
    pub per_byte: u32,
}

impl EstimatorWeights {
    /// The exact estimate before saturation: the class base plus the
    /// per-byte charge.
    pub open spec fn spec_estimate(&self, payload_len: nat, low_priority: bool) -> int {
        (if low_priority {
            self.low_priority
        } else {
            self.regular
        }) + self.per_byte * payload_len
    }

    /// The resource estimate for an incoming payload of `payload_len`
    /// bytes, saturating at the largest expressible charge.
    pub fn estimate_incoming(&self, payload_len: usize, low_priority: bool) -> (r: u32)
        ensures
            r == (if self.spec_estimate(payload_len as nat, low_priority) >= u32::MAX {
                u32::MAX as int
            } else {
                self.spec_estimate(payload_len as nat, low_priority)
            }),
    {
        let base: u32 = if low_priority {
            self.low_priority
        } else {
            self.regular
        };
        proof {
            assert((self.per_byte as int) * (payload_len as int) <= (u32::MAX as int) * (usize::MAX
                as int)) by (nonlinear_arith)
                requires
                    self.per_byte <= u32::MAX,
                    payload_len <= usize::MAX,
            ;
        }
        let total: u128 = (base as u128) + (self.per_byte as u128) * (payload_len as u128);
        if total >= u32::MAX as u128 {
            u32::MAX
        } else {
            total as u32
        }
    }
}

/// Everything a networking task needs to know about its own node.
pub struct NetworkContext {
    /// This node's identity.
    pub our_id: NodeId,
    /// The name of the network this node belongs to, as UTF-8 bytes.
    pub network_name: Vec<u8>,
    /// The protocol version this node speaks.
    pub protocol_version: ProtocolVersion,
    /// The public address this node advertises for incoming dials.
    pub public_addr: PeerAddr,
    /// How long the application handshake may take, in milliseconds.
    pub handshake_timeout_ms: u64,
    /// The protocol version at or under which tarpitting applies, if any.
    pub tarpit_version_threshold: Option<ProtocolVersion>,
    /// How long a tarpitted connection is held idle, in milliseconds.
    pub tarpit_duration_ms: u64,
    /// The chance of tarpitting an eligible peer, in parts per million.
    pub tarpit_chance_ppm: u32,
    /// Weights for estimating what incoming payloads cost.
    pub payload_weights: EstimatorWeights,
    /// How many demands may be in flight per connection; zero means no limit.
    pub max_in_flight_demands: usize,
    /// Whether this node is still syncing its chain.
    pub is_syncing: bool,
}

impl NetworkContext {
    pub open spec fn wf(&self) -> bool {
        &&& self.our_id.wf()
        &&& self.public_addr.wf()
        &&& self.network_name@.len() <= u32::MAX
        &&& self.tarpit_chance_ppm <= CHANCE_SCALE_PPM
    }
}

} // verus!
