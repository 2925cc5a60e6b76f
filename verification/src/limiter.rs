//! Rate limiting for incoming and outgoing traffic.
//!
//! A caller must be granted an allowance of resource units before
//! proceeding, which backpressures fast producers against slow consumers.
//! The limiter here is a token bucket: tokens refill at a steady rate up
//! to a burst capacity, a request either takes its tokens now or tells
//! the caller how long to suspend.  An unlimited limiter grants
//! everything; a validator-aware one is a bucket whose parameters were
//! chosen by the peer's class at connection setup.

use vstd::prelude::*;

verus! {

/// The answer to an allowance request.
#[derive(Clone, Copy, PartialEq, Eq, Structural, Debug)]
pub enum Admission {
    /// The units were granted and taken; the caller proceeds.
    Granted,
    /// Not enough tokens yet: suspend this many milliseconds, then ask
    /// again.
    WaitMs(u64),
    /// The bucket never refills and can never cover this request; the
    /// caller suspends until cancelled.
    Stalled,
}

/// A token bucket.
pub struct TokenBucket {
    capacity: u64,
    available: u64,
    refill_per_ms: u64,
    last_refill_ms: u64,
}

impl TokenBucket {
    /// The burst capacity: the most tokens the bucket ever holds.
    pub closed spec fn capacity(&self) -> u64 {
        self.capacity
    }

    /// The tokens available at the last refill instant.
    pub closed spec fn available(&self) -> u64 {
        self.available
    }

    /// How many tokens drip in per millisecond.
    pub closed spec fn refill_per_ms(&self) -> u64 {
        self.refill_per_ms
    }

    /// The instant of the last refill, in milliseconds.
    pub closed spec fn last_refill_ms(&self) -> u64 {
        self.last_refill_ms
    }

    /// The bucket never holds more than its capacity.
    pub open spec fn wf(&self) -> bool {
        self.available() <= self.capacity()
    }

    /// What a refill at `now_ms` leaves available: the elapsed drip,
    /// capped at the capacity.
    pub open spec fn spec_refilled(&self, now_ms: u64) -> int {
        let grown = self.available() + (now_ms - self.last_refill_ms()) * self.refill_per_ms();
        if grown >= self.capacity() {
            self.capacity() as int
        } else {
            grown
        }
    }

    /// A full bucket.
    pub fn new(capacity: u64, refill_per_ms: u64, now_ms: u64) -> (r: TokenBucket)
        ensures
            r.wf(),
            r.capacity() == capacity,
            r.available() == capacity,
            r.refill_per_ms() == refill_per_ms,
            r.last_refill_ms() == now_ms,
    {
        TokenBucket { capacity, available: capacity, refill_per_ms, last_refill_ms: now_ms }
    }

    /// Brings the bucket up to date with the clock.
    pub fn refill(&mut self, now_ms: u64)
        requires
            old(self).wf(),
            now_ms >= old(self).last_refill_ms(),
        ensures
            final(self).wf(),
            final(self).capacity() == old(self).capacity(),
            final(self).refill_per_ms() == old(self).refill_per_ms(),
            final(self).last_refill_ms() == now_ms,
            final(self).available() == old(self).spec_refilled(now_ms),
    {
        let elapsed = now_ms - self.last_refill_ms;
        proof {
            assert((elapsed as int) * (self.refill_per_ms as int) <= (u64::MAX as int) * (u64::MAX
                as int)) by (nonlinear_arith)
                requires
                    elapsed <= u64::MAX,
                    self.refill_per_ms <= u64::MAX,
            ;
        }
        let grown: u128 = (self.available as u128) + (elapsed as u128) * (self.refill_per_ms
            as u128);
        self.available = if grown >= self.capacity as u128 {
            self.capacity
        } else {
            grown as u64
        };
        self.last_refill_ms = now_ms;
    }

    /// Asks for `amount` units at instant `now_ms`.
    ///
    /// Refills first.  When the tokens are there they are taken and the
    /// request is granted; otherwise nothing is taken and the caller is
    /// told how long the missing tokens take to drip in, or that they
    /// never will.
    pub fn request_allowance(&mut self, amount: u64, now_ms: u64) -> (r: Admission)
        requires
            old(self).wf(),
            now_ms >= old(self).last_refill_ms(),
        ensures
            final(self).wf(),
            final(self).capacity() == old(self).capacity(),
            final(self).refill_per_ms() == old(self).refill_per_ms(),
            final(self).last_refill_ms() == now_ms,
            r == Admission::Granted <==> old(self).spec_refilled(now_ms) >= amount,
            r == Admission::Granted ==> final(self).available() == old(self).spec_refilled(now_ms)
                - amount,
            r != Admission::Granted ==> final(self).available() == old(self).spec_refilled(now_ms),
            r == Admission::Stalled <==> old(self).spec_refilled(now_ms) < amount && old(
                self,
            ).refill_per_ms() == 0,
            forall|w: u64|
                r == Admission::WaitMs(w) ==> old(self).refill_per_ms() > 0 && w == ((amount
                    as int) - old(self).spec_refilled(now_ms) + (old(self).refill_per_ms() as int)
                    - 1) / (old(self).refill_per_ms() as int),
    {
        self.refill(now_ms);
        if self.available >= amount {
            self.available = self.available - amount;
            Admission::Granted
        } else if self.refill_per_ms == 0 {
            Admission::Stalled
        } else {
            let needed = amount - self.available;
            let wait: u128 = ((needed as u128) + (self.refill_per_ms as u128) - 1) / (
            self.refill_per_ms as u128);
            proof {
                assert(wait <= needed as u128) by (nonlinear_arith)
                    requires
                        needed >= 1,
                        self.refill_per_ms >= 1,
                        wait as int == ((needed as int) + (self.refill_per_ms as int) - 1) / (
                        self.refill_per_ms as int),
                ;
            }
            Admission::WaitMs(wait as u64)
        }
    }
}

/// A connection's rate limiter.
pub enum Limiter {
    /// Grants every request immediately.
    Unlimited,
    /// A static-rate token bucket.
    Bucket(TokenBucket),
}

impl Limiter {
    pub open spec fn wf(&self) -> bool {
        match self {
            Limiter::Unlimited => true,
            Limiter::Bucket(bucket) => bucket.wf(),
        }
    }

    /// The instant this limiter last advanced to.
    pub open spec fn last_ms(&self) -> u64 {
        match self {
            Limiter::Unlimited => 0,
            Limiter::Bucket(bucket) => bucket.last_refill_ms(),
        }
    }

    /// A validator-aware limiter: peers that attested a validator key at
    /// the handshake get the generous class, everyone else the regular
    /// one.  A zero capacity means the class is not limited at all.
    pub fn for_peer(
        is_validator: bool,
        validator_capacity: u64,
        regular_capacity: u64,
        refill_per_ms: u64,
        now_ms: u64,
    ) -> (r: Limiter)
        ensures
            r.wf(),
            r.last_ms() == 0 || r.last_ms() == now_ms,
            (if is_validator {
                validator_capacity
            } else {
                regular_capacity
            }) == 0 ==> r is Unlimited,
            (if is_validator {
                validator_capacity
            } else {
                regular_capacity
            }) > 0 ==> (r matches Limiter::Bucket(bucket) && bucket.capacity() == (if is_validator {
                validator_capacity
            } else {
                regular_capacity
            }) && bucket.refill_per_ms() == refill_per_ms),
    {
        let capacity = if is_validator {
            validator_capacity
        } else {
            regular_capacity
        };
        if capacity == 0 {
            Limiter::Unlimited
        } else {
            Limiter::Bucket(TokenBucket::new(capacity, refill_per_ms, now_ms))
        }
    }

    /// Asks for `amount` units at instant `now_ms`.
    pub fn request_allowance(&mut self, amount: u64, now_ms: u64) -> (r: Admission)
        requires
            old(self).wf(),
            now_ms >= old(self).last_ms(),
        ensures
            final(self).wf(),
            match *old(self) {
                Limiter::Unlimited => (*final(self)) is Unlimited && r == Admission::Granted,
                Limiter::Bucket(b0) => match *final(self) {
                    Limiter::Bucket(b1) => {
                        &&& b1.capacity() == b0.capacity()
                        &&& b1.refill_per_ms() == b0.refill_per_ms()
                        &&& b1.last_refill_ms() == now_ms
                        &&& (r == Admission::Granted <==> b0.spec_refilled(now_ms) >= amount)
                        &&& (r == Admission::Granted ==> b1.available() == b0.spec_refilled(now_ms)
                            - amount)
                        &&& (r != Admission::Granted ==> b1.available() == b0.spec_refilled(
                            now_ms,
                        ))
                        &&& (r == Admission::Stalled <==> b0.spec_refilled(now_ms) < amount
                            && b0.refill_per_ms() == 0)
                    },
                    Limiter::Unlimited => false,
                },
            },
    {
        match self {
            Limiter::Unlimited => Admission::Granted,
            Limiter::Bucket(bucket) => bucket.request_allowance(amount, now_ms),
        }
    }
}

} // verus!
