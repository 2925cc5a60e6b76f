//! Token-bucket limiter and payload weight estimates.

use small_network::context::EstimatorWeights;
use small_network::limiter::{Admission, Limiter, TokenBucket};

#[test]
fn bucket_grants_until_empty() {
    let mut bucket = TokenBucket::new(100, 1, 0);
    assert_eq!(bucket.request_allowance(60, 0), Admission::Granted);
    assert_eq!(bucket.request_allowance(40, 0), Admission::Granted);
    // The bucket is empty: fifty units at one token per millisecond need
    // fifty milliseconds.
    assert_eq!(bucket.request_allowance(50, 0), Admission::WaitMs(50));
    // After the wait the tokens are there.
    assert_eq!(bucket.request_allowance(50, 50), Admission::Granted);
}

#[test]
fn bucket_refills_up_to_capacity_only() {
    let mut bucket = TokenBucket::new(10, 2, 0);
    assert_eq!(bucket.request_allowance(10, 0), Admission::Granted);
    // A long idle period refills to the burst capacity, no further.
    assert_eq!(bucket.request_allowance(10, 1_000_000), Admission::Granted);
    assert_eq!(bucket.request_allowance(1, 1_000_000), Admission::WaitMs(1));
}

#[test]
fn wait_time_rounds_up() {
    let mut bucket = TokenBucket::new(10, 3, 0);
    assert_eq!(bucket.request_allowance(10, 0), Admission::Granted);
    // Seven missing tokens at three per millisecond: three milliseconds.
    assert_eq!(bucket.request_allowance(7, 0), Admission::WaitMs(3));
}

#[test]
fn frozen_bucket_stalls() {
    let mut bucket = TokenBucket::new(5, 0, 0);
    assert_eq!(bucket.request_allowance(5, 0), Admission::Granted);
    assert_eq!(bucket.request_allowance(1, 10), Admission::Stalled);
}

#[test]
fn unlimited_limiter_always_grants() {
    let mut limiter = Limiter::Unlimited;
    for i in 0..10u64 {
        assert_eq!(limiter.request_allowance(u64::MAX, i), Admission::Granted);
    }
}

#[test]
fn validator_class_picks_its_parameters() {
    // The validator class here is unlimited; the regular class is a
    // bucket.
    let mut validator = Limiter::for_peer(true, 0, 1000, 1, 0);
    assert_eq!(validator.request_allowance(1_000_000, 0), Admission::Granted);

    let mut regular = Limiter::for_peer(false, 0, 1000, 1, 0);
    assert_eq!(regular.request_allowance(1_000_000, 0), Admission::WaitMs(999_000));
    assert_eq!(regular.request_allowance(1000, 0), Admission::Granted);
}

#[test]
fn estimate_charges_base_plus_bytes() {
    let weights = EstimatorWeights { regular: 10, low_priority: 2, per_byte: 3 };
    assert_eq!(weights.estimate_incoming(17, false), 10 + 3 * 17);
    assert_eq!(weights.estimate_incoming(17, true), 2 + 3 * 17);
    assert_eq!(weights.estimate_incoming(0, false), 10);
}

#[test]
fn estimate_saturates() {
    let weights = EstimatorWeights { regular: 1, low_priority: 1, per_byte: u32::MAX };
    assert_eq!(weights.estimate_incoming(usize::MAX, false), u32::MAX);
}
