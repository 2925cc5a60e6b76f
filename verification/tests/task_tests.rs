//! Reader, writer and acceptor behaviour.

use small_network::error::MessageReaderError;
use small_network::framing::write_frame;
use small_network::handshake::HandshakeRecord;
use small_network::reader::{
    reader_step, on_demand_helper_done, DemandSemaphore, QueueKind, ReaderAction, ReaderEvent,
};
use small_network::server::{AcceptorState, ACCEPT_BACKOFF_MAX_MS};
use small_network::types::{ConnectionId, NodeId, PeerAddr, ProtocolVersion};
use small_network::writer::{plan_send, run_sender, ItemFate, QueueItem};

fn message_event(is_demand: bool, low_priority: bool, resource_estimate: u32) -> ReaderEvent {
    ReaderEvent::Message { is_demand, low_priority, resource_estimate }
}

#[test]
fn clean_ping_reaches_the_incoming_queue() {
    // One node frames a 17-byte ping payload; the other decodes exactly
    // one message and its reader schedules exactly one incoming event.
    let ping: Vec<u8> = (0..17u8).collect();
    let mut stream: Vec<u8> = Vec::new();
    write_frame(&mut stream, &ping);

    let received = small_network::framing::decode_frame_stream(&stream, 4096).unwrap();
    assert_eq!(received, vec![ping]);

    let mut semaphore = DemandSemaphore::new(25);
    let action = reader_step(&mut semaphore, &message_event(false, false, 17));
    assert_eq!(
        action,
        ReaderAction::ScheduleMessage { queue: QueueKind::NetworkIncoming, allowance: 17 }
    );

    // Both sides' handshake records carry a false syncing flag.
    let record = HandshakeRecord {
        version: ProtocolVersion::new(1, 4, 2),
        network_name: b"testnet".to_vec(),
        public_addr: PeerAddr::new_v4(10, 0, 0, 1, 1000),
        attestation: None,
        is_syncing: false,
    };
    let echoed = HandshakeRecord::decode(&record.encode()).unwrap();
    assert!(!echoed.is_syncing);
}

#[test]
fn low_priority_messages_take_the_low_priority_queue() {
    let mut semaphore = DemandSemaphore::new(4);
    let action = reader_step(&mut semaphore, &message_event(false, true, 3));
    assert_eq!(
        action,
        ReaderAction::ScheduleMessage { queue: QueueKind::NetworkLowPriority, allowance: 3 }
    );
}

#[test]
fn demand_backpressure_blocks_the_third_demand() {
    // With two permits, five arriving demands yield exactly two demand
    // events before the reader suspends on the third.
    let mut semaphore = DemandSemaphore::new(2);
    let mut scheduled: u32 = 0;
    let mut blocked: u32 = 0;
    for _ in 0..5 {
        match reader_step(&mut semaphore, &message_event(true, false, 0)) {
            ReaderAction::ScheduleDemand { .. } => scheduled += 1,
            ReaderAction::WaitForPermit => blocked += 1,
            other => panic!("unexpected action {:?}", other),
        }
    }
    assert_eq!(scheduled, 2);
    assert_eq!(blocked, 3);

    // Once one helper finishes and its response is flushed, the next
    // demand proceeds.
    on_demand_helper_done(&mut semaphore);
    assert_eq!(
        reader_step(&mut semaphore, &message_event(true, false, 0)),
        ReaderAction::ScheduleDemand { queue: QueueKind::NetworkDemand }
    );
    assert_eq!(
        reader_step(&mut semaphore, &message_event(true, false, 0)),
        ReaderAction::WaitForPermit
    );
}

#[test]
fn unlimited_semaphore_never_blocks() {
    let mut semaphore = DemandSemaphore::new(0);
    for _ in 0..100 {
        assert_eq!(
            reader_step(&mut semaphore, &message_event(true, false, 0)),
            ReaderAction::ScheduleDemand { queue: QueueKind::NetworkDemand }
        );
    }
}

#[test]
fn shutdown_stops_the_reader_cleanly() {
    let mut semaphore = DemandSemaphore::new(2);
    assert_eq!(reader_step(&mut semaphore, &ReaderEvent::Shutdown), ReaderAction::Stop);
    assert_eq!(reader_step(&mut semaphore, &ReaderEvent::StreamClosed), ReaderAction::Stop);
}

#[test]
fn reader_errors_are_reported() {
    let mut semaphore = DemandSemaphore::new(2);
    assert_eq!(
        reader_step(&mut semaphore, &ReaderEvent::ReceiveFailed),
        ReaderAction::Fail { error: MessageReaderError::ReceiveError }
    );
    assert_eq!(
        reader_step(&mut semaphore, &ReaderEvent::SemaphoreClosed),
        ReaderAction::Fail { error: MessageReaderError::UnexpectedSemaphoreClose }
    );
}

#[test]
fn accept_errors_back_off_geometrically() {
    let mut acceptor = AcceptorState::new();
    let mut delays: Vec<u64> = Vec::new();
    for _ in 0..5 {
        delays.push(acceptor.on_accept_error());
    }
    assert_eq!(delays, vec![10, 20, 40, 80, 160]);
    for _ in 0..10 {
        assert!(acceptor.on_accept_error() <= ACCEPT_BACKOFF_MAX_MS);
    }
    assert_eq!(acceptor.on_accept_error(), ACCEPT_BACKOFF_MAX_MS);
    acceptor.on_accept_ok();
    assert_eq!(acceptor.on_accept_error(), 10);
}

#[test]
fn send_plan_charges_the_exact_wire_size() {
    let item = QueueItem { payload: (0..17u8).collect(), has_ack: false };
    let plan = plan_send(&item).unwrap();
    assert_eq!(plan.wire_size, 21);
    assert!(!plan.flush_and_ack);

    let acked = QueueItem { payload: vec![1], has_ack: true };
    let plan = plan_send(&acked).unwrap();
    assert_eq!(plan.wire_size, 5);
    assert!(plan.flush_and_ack);
}

#[test]
fn writer_acks_after_flush_and_drains_after_failure() {
    let items = vec![
        QueueItem { payload: vec![1], has_ack: true },
        QueueItem { payload: vec![2], has_ack: false },
        QueueItem { payload: vec![3], has_ack: true },
        QueueItem { payload: vec![4], has_ack: true },
        QueueItem { payload: vec![5], has_ack: false },
    ];
    // The third item's flush fails: it and everything after it drain.
    let send_ok = vec![true, true, true, true, true];
    let flush_ok = vec![true, true, false, true, true];
    let mut gauge: u64 = 7;
    let fates = run_sender(&items, &send_ok, &flush_ok, &mut gauge);
    assert_eq!(
        fates,
        vec![ItemFate::Acked, ItemFate::Sent, ItemFate::Drained, ItemFate::Drained, ItemFate::Drained]
    );
    // The pending gauge was decremented once per item, drained included.
    assert_eq!(gauge, 2);
}

#[test]
fn writer_sends_everything_when_the_sink_stays_up() {
    let items = vec![
        QueueItem { payload: vec![1], has_ack: false },
        QueueItem { payload: vec![2], has_ack: true },
    ];
    let mut gauge: u64 = 2;
    let fates = run_sender(&items, &vec![true, true], &vec![true, true], &mut gauge);
    assert_eq!(fates, vec![ItemFate::Sent, ItemFate::Acked]);
    assert_eq!(gauge, 0);
}

#[test]
fn connection_ids_are_deterministic() {
    let ours = NodeId::from_fingerprint(vec![0xaa; 32]);
    let theirs = NodeId::from_fingerprint(vec![0xbb; 32]);
    let first = ConnectionId::from_connection(&vec![1, 2, 3], &ours, &theirs);
    let second = ConnectionId::from_connection(&vec![1, 2, 3], &ours, &theirs);
    assert_eq!(first.as_bytes(), second.as_bytes());
    assert_eq!(first.as_bytes().len(), 32);

    // A different transcript yields a different identifier.
    let third = ConnectionId::from_connection(&vec![1, 2, 4], &ours, &theirs);
    assert_ne!(first.as_bytes(), third.as_bytes());
}

#[test]
fn fingerprints_digest_the_key() {
    let der = vec![0x30, 0x05, 0x01, 0x02, 0x03];
    let id = NodeId::from_fingerprint(vec![0; 32]);
    assert_eq!(id.as_bytes().len(), 32);
    let fingerprinted = NodeId::from_public_key_der(&der);
    assert_eq!(fingerprinted.as_bytes().len(), 32);
    // The fingerprint is a digest, not the key bytes themselves.
    assert_ne!(fingerprinted.as_bytes()[..5], der[..]);
    assert_eq!(
        fingerprinted.as_bytes(),
        NodeId::from_public_key_der(&der).as_bytes()
    );
}
