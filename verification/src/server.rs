//! The acceptor loop's decisions.
//!
//! The loop itself lives with the listening socket: accept a stream, hand
//! it to a fresh task, repeat until shutdown.  What is decided here is the
//! delay discipline: accepting again immediately after an accept error
//! (say, running out of file descriptors) would spin the loop at full
//! speed, so each consecutive error doubles a delay that a successful
//! accept resets.

use vstd::prelude::*;

verus! {

/// The delay before the retry after a first accept error, in milliseconds.
pub const ACCEPT_BACKOFF_INITIAL_MS: u64 = 10;

/// The longest delay between accept retries, in milliseconds.
pub const ACCEPT_BACKOFF_MAX_MS: u64 = 1000;

/// The delay, in milliseconds, before the next accept after the
/// `errors`-th consecutive accept error: geometric growth from the
/// initial delay, capped.
pub open spec fn spec_accept_backoff_ms(errors: nat) -> int
    decreases errors,
{
    if errors <= 1 {
        ACCEPT_BACKOFF_INITIAL_MS as int
    } else if spec_accept_backoff_ms((errors - 1) as nat) >= ACCEPT_BACKOFF_MAX_MS / 2 {
        ACCEPT_BACKOFF_MAX_MS as int
    } else {
        2 * spec_accept_backoff_ms((errors - 1) as nat)
    }
}

/// The acceptor's delay state between iterations.
pub struct AcceptorState {
    /// How many accept errors came in a row; zero after a success.
    pub consecutive_errors: u64,
}

impl AcceptorState {
    /// A fresh acceptor has seen no errors.
    pub fn new() -> (r: AcceptorState)
        ensures
            r.consecutive_errors == 0,
    {
        AcceptorState { consecutive_errors: 0 }
    }

    /// A successful accept resets the backoff; the stream is handed to a
    /// task of its own and the next accept follows with no delay.
    pub fn on_accept_ok(&mut self)
        ensures
            final(self).consecutive_errors == 0,
    {
        self.consecutive_errors = 0;
    }

    /// An accept error: returns how long to wait, in milliseconds, before
    /// the next accept.  Delays grow geometrically from
    /// `ACCEPT_BACKOFF_INITIAL_MS`, doubling with each consecutive error,
    /// and never exceed `ACCEPT_BACKOFF_MAX_MS`.
    pub fn on_accept_error(&mut self) -> (delay_ms: u64)
        requires
            old(self).consecutive_errors < u64::MAX,
        ensures
            final(self).consecutive_errors == old(self).consecutive_errors + 1,
            delay_ms == spec_accept_backoff_ms(final(self).consecutive_errors as nat),
            ACCEPT_BACKOFF_INITIAL_MS <= delay_ms <= ACCEPT_BACKOFF_MAX_MS,
    {
        self.consecutive_errors = self.consecutive_errors + 1;
        let mut delay_ms: u64 = ACCEPT_BACKOFF_INITIAL_MS;
        let mut i: u64 = 1;
        while i < self.consecutive_errors
            invariant
                1 <= i <= self.consecutive_errors,
                delay_ms == spec_accept_backoff_ms(i as nat),
                ACCEPT_BACKOFF_INITIAL_MS <= delay_ms <= ACCEPT_BACKOFF_MAX_MS,
            decreases self.consecutive_errors - i,
    {
            if delay_ms >= ACCEPT_BACKOFF_MAX_MS / 2 {
                delay_ms = ACCEPT_BACKOFF_MAX_MS;
            } else {
                delay_ms = 2 * delay_ms;
            }
            i = i + 1;
        }
        delay_ms
    }
}

/// Consecutive error delays grow: the next delay is twice the previous
/// one until the cap, and never shrinks below it.
pub proof fn lemma_accept_backoff_geometric(errors: nat)
    requires
        errors >= 1,
    ensures
        spec_accept_backoff_ms(errors + 1) == (if spec_accept_backoff_ms(errors)
            >= ACCEPT_BACKOFF_MAX_MS / 2 {
            ACCEPT_BACKOFF_MAX_MS as int
        } else {
            2 * spec_accept_backoff_ms(errors)
        }),
        ACCEPT_BACKOFF_INITIAL_MS <= spec_accept_backoff_ms(errors) <= ACCEPT_BACKOFF_MAX_MS,
    decreases errors,
{
    if errors > 1 {
        lemma_accept_backoff_geometric((errors - 1) as nat);
    }
}

} // verus!
