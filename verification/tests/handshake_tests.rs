//! Handshake record codec and negotiation rules.

use small_network::connection::{is_loopback, IncomingConnection, OutgoingConnection};
use small_network::context::{EstimatorWeights, NetworkContext};
use small_network::error::ConnectionError;
use small_network::handshake::{
    build_handshake, evaluate_handshake, parse_handshake, Attestation, HandshakeRecord,
};
use small_network::types::{ConnectionId, NodeId, PeerAddr, ProtocolVersion};

fn test_context() -> NetworkContext {
    NetworkContext {
        our_id: NodeId::from_fingerprint(vec![0xaa; 32]),
        network_name: b"testnet".to_vec(),
        protocol_version: ProtocolVersion::new(1, 4, 2),
        public_addr: PeerAddr::new_v4(10, 0, 0, 1, 34553),
        handshake_timeout_ms: 20_000,
        tarpit_version_threshold: None,
        tarpit_duration_ms: 500,
        tarpit_chance_ppm: 0,
        payload_weights: EstimatorWeights { regular: 1, low_priority: 1, per_byte: 1 },
        max_in_flight_demands: 25,
        is_syncing: false,
    }
}

fn test_record() -> HandshakeRecord {
    HandshakeRecord {
        version: ProtocolVersion::new(1, 4, 2),
        network_name: b"testnet".to_vec(),
        public_addr: PeerAddr::new_v4(10, 0, 0, 2, 34553),
        attestation: None,
        is_syncing: false,
    }
}

fn test_connection_id() -> ConnectionId {
    ConnectionId::from_connection(
        &vec![0x11; 12],
        &NodeId::from_fingerprint(vec![0xaa; 32]),
        &NodeId::from_fingerprint(vec![0xbb; 32]),
    )
}

#[test]
fn record_encodes_to_exact_bytes() {
    let record = HandshakeRecord {
        version: ProtocolVersion::new(1, 0, 0),
        network_name: b"net".to_vec(),
        public_addr: PeerAddr::new_v4(127, 0, 0, 1, 256),
        attestation: None,
        is_syncing: true,
    };
    let encoded = record.encode();
    let expected: Vec<u8> = vec![
        1, 0, 0, 0, // major
        0, 0, 0, 0, // minor
        0, 0, 0, 0, // patch
        3, 0, 0, 0, b'n', b'e', b't', // network name
        0, // address family: v4
        127, 0, 0, 1, // octets
        0, 1, // port 256 little-endian
        0, // no attestation
        1, // syncing
    ];
    assert_eq!(encoded, expected);
}

#[test]
fn record_round_trips() {
    let record = test_record();
    let decoded = HandshakeRecord::decode(&record.encode()).unwrap();
    assert_eq!(decoded, record);
}

#[test]
fn record_with_attestation_round_trips() {
    let mut record = test_record();
    record.attestation = Some(Attestation {
        public_key: vec![1, 2, 3, 4],
        signature: vec![5, 6, 7, 8, 9],
    });
    record.is_syncing = true;
    let decoded = HandshakeRecord::decode(&record.encode()).unwrap();
    assert_eq!(decoded, record);
}

#[test]
fn v6_record_round_trips() {
    let mut record = test_record();
    record.public_addr = PeerAddr::new_v6((1u8..=16).collect(), 9999);
    let decoded = HandshakeRecord::decode(&record.encode()).unwrap();
    assert_eq!(decoded, record);
}

#[test]
fn trailing_bytes_are_refused() {
    let mut encoded = test_record().encode();
    encoded.push(0);
    assert!(HandshakeRecord::decode(&encoded).is_none());
    assert_eq!(
        parse_handshake(&encoded).unwrap_err(),
        ConnectionError::ProtocolViolation
    );
}

#[test]
fn truncated_record_is_refused() {
    let mut encoded = test_record().encode();
    encoded.pop();
    assert!(HandshakeRecord::decode(&encoded).is_none());
}

#[test]
fn matching_handshake_is_accepted() {
    let ctx = test_context();
    let outcome =
        evaluate_handshake(&ctx, &test_connection_id(), &test_record(), false).unwrap();
    assert_eq!(outcome.public_addr, PeerAddr::new_v4(10, 0, 0, 2, 34553));
    assert!(outcome.peer_consensus_public_key.is_none());
    assert!(!outcome.is_peer_syncing);
}

#[test]
fn incompatible_version_is_rejected() {
    let ctx = test_context();
    let mut record = test_record();
    record.version = ProtocolVersion::new(2, 0, 0);
    assert_eq!(
        evaluate_handshake(&ctx, &test_connection_id(), &record, false).unwrap_err(),
        ConnectionError::IncompatibleVersion
    );
}

#[test]
fn chain_mismatch_is_rejected() {
    let ctx = test_context();
    let mut record = test_record();
    record.network_name = b"mainnet".to_vec();
    assert_eq!(
        evaluate_handshake(&ctx, &test_connection_id(), &record, false).unwrap_err(),
        ConnectionError::ChainMismatch
    );
}

#[test]
fn garbage_attestation_is_rejected() {
    let ctx = test_context();
    let mut record = test_record();
    record.attestation = Some(Attestation {
        public_key: vec![0; 16],
        signature: vec![0; 64],
    });
    assert_eq!(
        evaluate_handshake(&ctx, &test_connection_id(), &record, false).unwrap_err(),
        ConnectionError::InvalidAttestation
    );
}

#[test]
fn genuine_attestation_is_accepted() {
    let ctx = test_context();
    let connection_id = test_connection_id();

    let key = openssl::pkey::PKey::generate_ed25519().unwrap();
    let mut signer = openssl::sign::Signer::new_without_digest(&key).unwrap();
    let signature = signer
        .sign_oneshot_to_vec(connection_id.as_bytes())
        .unwrap();
    let public_key = key.public_key_to_der().unwrap();

    let mut record = test_record();
    record.attestation = Some(Attestation {
        public_key: public_key.clone(),
        signature: signature.clone(),
    });
    let outcome = evaluate_handshake(&ctx, &connection_id, &record, false).unwrap();
    assert_eq!(outcome.peer_consensus_public_key, Some(public_key.clone()));

    // The same signature over a different connection does not verify.
    let other_id = ConnectionId::from_connection(
        &vec![0x22; 12],
        &NodeId::from_fingerprint(vec![0xaa; 32]),
        &NodeId::from_fingerprint(vec![0xbb; 32]),
    );
    let mut bad = test_record();
    bad.attestation = Some(Attestation { public_key, signature });
    assert_eq!(
        evaluate_handshake(&ctx, &other_id, &bad, false).unwrap_err(),
        ConnectionError::InvalidAttestation
    );
}

#[test]
fn tarpit_catches_old_version_on_positive_draw() {
    let mut ctx = test_context();
    ctx.tarpit_version_threshold = Some(ProtocolVersion::new(1, 0, 0));
    ctx.tarpit_chance_ppm = 1_000_000;
    ctx.tarpit_duration_ms = 500;
    let mut record = test_record();
    record.version = ProtocolVersion::new(1, 0, 0);

    // The peer's version is at the threshold and the trial came out true.
    assert_eq!(
        evaluate_handshake(&ctx, &test_connection_id(), &record, true).unwrap_err(),
        ConnectionError::Tarpitted
    );
    // A negative trial lets the same peer through.
    assert!(evaluate_handshake(&ctx, &test_connection_id(), &record, false).is_ok());
    // A version above the threshold is never tarpitted.
    let newer = test_record();
    assert!(evaluate_handshake(&ctx, &test_connection_id(), &newer, true).is_ok());
}

#[test]
fn build_handshake_carries_context_fields() {
    let mut ctx = test_context();
    ctx.is_syncing = true;
    let record = build_handshake(&ctx, None);
    assert_eq!(record.version, ctx.protocol_version);
    assert_eq!(record.network_name, ctx.network_name);
    assert_eq!(record.public_addr, ctx.public_addr);
    assert!(record.attestation.is_none());
    assert!(record.is_syncing);
}

#[test]
fn loopback_is_detected_before_negotiation() {
    let ours = NodeId::from_fingerprint(vec![0xaa; 32]);
    let same = NodeId::from_fingerprint(vec![0xaa; 32]);
    let other = NodeId::from_fingerprint(vec![0xbb; 32]);
    assert!(is_loopback(&ours, &same));
    assert!(!is_loopback(&ours, &other));
}

#[test]
fn failed_handshake_becomes_failed_variant() {
    let peer_addr = PeerAddr::new_v4(10, 0, 0, 2, 1000);
    let peer_id = NodeId::from_fingerprint(vec![0xbb; 32]);
    let out = OutgoingConnection::from_handshake(
        peer_addr,
        peer_id,
        Err(ConnectionError::HandshakeTimeout),
    );
    assert!(matches!(
        out,
        OutgoingConnection::Failed { error: ConnectionError::HandshakeTimeout, .. }
    ));

    let peer_addr = PeerAddr::new_v4(10, 0, 0, 2, 1000);
    let peer_id = NodeId::from_fingerprint(vec![0xbb; 32]);
    let inc = IncomingConnection::from_handshake(
        peer_addr,
        peer_id,
        Err(ConnectionError::ChainMismatch),
    );
    assert!(matches!(
        inc,
        IncomingConnection::Failed { error: ConnectionError::ChainMismatch, .. }
    ));
}
