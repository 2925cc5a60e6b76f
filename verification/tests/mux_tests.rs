//! Multiplexer discipline: one frame per channel, fair interleaving.

use small_network::mux::{prefix_frame, Multiplexer};

#[test]
fn prefix_prepends_channel_byte() {
    let framed = prefix_frame(7, &vec![1, 2, 3]);
    assert_eq!(framed, vec![7, 1, 2, 3]);
}

#[test]
fn single_channel_frames_pass_in_order() {
    let mut mux = Multiplexer::new();
    let handle = mux.get_channel_handle(3);
    for i in 0..5u8 {
        assert!(mux.poll_ready(&handle));
        mux.start_send(&handle, vec![i]);
        mux.poll_flush(&handle);
    }
    let frames = mux.sink_frames().clone();
    assert_eq!(frames.len(), 5);
    for (i, frame) in frames.iter().enumerate() {
        assert_eq!(frame, &vec![3, i as u8]);
    }
}

#[test]
fn contending_channel_waits_for_flush() {
    let mut mux = Multiplexer::new();
    let first = mux.get_channel_handle(0);
    let second = mux.get_channel_handle(1);

    assert!(mux.poll_ready(&first));
    // While the first handle holds the lock the second is pending.
    assert!(!mux.poll_ready(&second));
    mux.start_send(&first, vec![10]);
    // Still pending: the lock is held until the flush.
    assert!(!mux.poll_ready(&second));
    mux.poll_flush(&first);
    // The flush released the lock.
    assert!(mux.poll_ready(&second));
    mux.start_send(&second, vec![20]);
    mux.poll_flush(&second);

    assert_eq!(mux.sink_frames(), &vec![vec![0, 10], vec![1, 20]]);
}

#[test]
fn three_channels_interleave_without_starvation() {
    let mut mux = Multiplexer::new();
    let handles = [
        mux.get_channel_handle(0),
        mux.get_channel_handle(1),
        mux.get_channel_handle(2),
    ];

    // Three contending channels take turns at the lock: each submits its
    // next frame as soon as the previous holder flushes.
    for round in 0..100u32 {
        for handle in &handles {
            assert!(mux.poll_ready(handle));
            let payload = vec![(round % 256) as u8, (round / 256) as u8];
            mux.start_send(handle, payload);
            mux.poll_flush(handle);
        }
    }

    // The shared sink saw every frame exactly once.
    let frames = mux.sink_frames().clone();
    assert_eq!(frames.len(), 300);

    // Projecting by leading byte yields each channel's 100 frames in
    // submission order, and under round-robin contention no channel ever
    // waits for more than one frame of each other channel.
    for ch in 0..3u8 {
        let per_channel: Vec<Vec<u8>> = frames
            .iter()
            .filter(|f| f[0] == ch)
            .map(|f| f[1..].to_vec())
            .collect();
        assert_eq!(per_channel.len(), 100);
        for (round, frame) in per_channel.iter().enumerate() {
            assert_eq!(frame, &vec![(round % 256) as u8, (round / 256) as u8]);
        }
    }
    for (i, frame) in frames.iter().enumerate() {
        assert_eq!(frame[0] as usize, i % 3);
    }
}

#[test]
fn close_marks_the_shared_sink_closed() {
    let mut mux = Multiplexer::new();
    let handle = mux.get_channel_handle(0);
    assert!(mux.poll_ready(&handle));
    mux.start_send(&handle, vec![1]);
    mux.poll_flush(&handle);
    mux.poll_close(&handle);
    assert_eq!(mux.sink_len(), 1);
}
