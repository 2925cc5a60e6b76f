//! The message reader's decisions.
//!
//! The reader task decodes one message at a time from its half of the
//! transport and decides what to do with it: a demand first takes a permit
//! from the per-connection demand semaphore and goes on the high-priority
//! queue; any other message is charged to the rate limiter and goes on the
//! incoming or low-priority queue.  The asynchronous loop around these
//! decisions lives with the socket.

use vstd::prelude::*;

use crate::error::MessageReaderError;

verus! {

/// A counting semaphore bounding how many demand helpers may exist at
/// once on one connection.  A bound of zero means no limit is enforced.
pub struct DemandSemaphore {
    max: usize,
    in_flight: usize,
}

impl DemandSemaphore {
    /// How many permits may be out at once; zero means unlimited.
    pub closed spec fn max(&self) -> usize {
        self.max
    }

    /// How many permits are out now: one per live demand helper.
    pub closed spec fn in_flight(&self) -> usize {
        self.in_flight
    }

    /// At no instant are more permits out than the bound allows.
    pub open spec fn wf(&self) -> bool {
        self.max() > 0 ==> self.in_flight() <= self.max()
    }

    /// A semaphore for one fresh connection: all permits available.
    pub fn new(max_in_flight_demands: usize) -> (r: DemandSemaphore)
        ensures
            r.max() == max_in_flight_demands,
            r.in_flight() == 0,
            r.wf(),
    {
        DemandSemaphore { max: max_in_flight_demands, in_flight: 0 }
    }

    /// Takes a permit if one is free.  Returns whether it was taken; when
    /// every permit is out the caller suspends and the reader stops
    /// pulling messages, which is the backpressure on demand traffic.
    pub fn try_acquire(&mut self) -> (granted: bool)
        requires
            old(self).wf(),
            old(self).in_flight() < usize::MAX,
        ensures
            final(self).wf(),
            final(self).max() == old(self).max(),
            granted == (old(self).max() == 0 || old(self).in_flight() < old(self).max()),
            granted ==> final(self).in_flight() == old(self).in_flight() + 1,
            !granted ==> final(self).in_flight() == old(self).in_flight(),
    {
        if self.max == 0 || self.in_flight < self.max {
            self.in_flight = self.in_flight + 1;
            true
        } else {
            false
        }
    }

    /// Returns the permit a finished demand helper held.  The helper
    /// holds its permit until it completes, whatever its outcome.
    pub fn release(&mut self)
        requires
            old(self).wf(),
            old(self).in_flight() > 0,
        ensures
            final(self).wf(),
            final(self).max() == old(self).max(),
            final(self).in_flight() == old(self).in_flight() - 1,
    {
        self.in_flight = self.in_flight - 1;
    }
}

/// The queues the reader schedules onto.
#[derive(Clone, Copy, PartialEq, Eq, Structural, Debug)]
pub enum QueueKind {
    /// Ordinary incoming messages.
    NetworkIncoming,
    /// Messages the payload marks as low priority.
    NetworkLowPriority,
    /// Demands, which expect a response.
    NetworkDemand,
}

/// What the race between the shutdown watch and the read loop yielded.
pub enum ReaderEvent {
    /// The shutdown channel fired.
    Shutdown,
    /// The stream ended cleanly.
    StreamClosed,
    /// Receiving or decoding a message failed.
    ReceiveFailed,
    /// The demand semaphore reported itself closed, which no correct run
    /// ever does.
    SemaphoreClosed,
    /// One message was decoded.
    Message {
        /// Whether the payload expects a response.
        is_demand: bool,
        /// Whether the payload asks for the low-priority queue.
        low_priority: bool,
        /// The payload's resource estimate under the weight table.
        resource_estimate: u32,
    },
}

/// What the reader does next.
#[derive(Clone, Copy, PartialEq, Eq, Structural, Debug)]
pub enum ReaderAction {
    /// Return cleanly.
    Stop,
    /// Return with an error; the connection closes.
    Fail { error: MessageReaderError },
    /// A permit is held: spawn the demand helper and schedule the demand
    /// on the given queue.  Demands bypass the rate limiter; the
    /// semaphore is their backpressure.
    ScheduleDemand { queue: QueueKind },
    /// Every permit is out: suspend until a helper finishes, then take
    /// the permit and proceed with this demand.
    WaitForPermit,
    /// Charge the rate limiter this many units, then schedule the message
    /// on the given queue.
    ScheduleMessage { queue: QueueKind, allowance: u32 },
}

/// One turn of the reader: reacts to what the race between shutdown and
/// the stream produced.
///
/// Shutdown and end-of-stream return cleanly; a receive failure and a
/// closed semaphore return their errors; a demand takes a permit when one
/// is free and otherwise suspends; every other message is charged its
/// resource estimate and queued by priority.
pub fn reader_step(semaphore: &mut DemandSemaphore, event: &ReaderEvent) -> (action: ReaderAction)
    requires
        old(semaphore).wf(),
        old(semaphore).in_flight() < usize::MAX,
    ensures
        final(semaphore).wf(),
        final(semaphore).max() == old(semaphore).max(),
        match *event {
            ReaderEvent::Shutdown => action == ReaderAction::Stop,
            ReaderEvent::StreamClosed => action == ReaderAction::Stop,
            ReaderEvent::ReceiveFailed => action == (ReaderAction::Fail {
                error: MessageReaderError::ReceiveError,
            }),
            ReaderEvent::SemaphoreClosed => action == (ReaderAction::Fail {
                error: MessageReaderError::UnexpectedSemaphoreClose,
            }),
            ReaderEvent::Message { is_demand, low_priority, resource_estimate } => {
                if is_demand {
                    if old(semaphore).max() == 0 || old(semaphore).in_flight() < old(semaphore).max() {
                        action == (ReaderAction::ScheduleDemand {
                            queue: QueueKind::NetworkDemand,
                        }) && final(semaphore).in_flight() == old(semaphore).in_flight() + 1
                    } else {
                        action == ReaderAction::WaitForPermit && final(semaphore).in_flight()
                            == old(semaphore).in_flight()
                    }
                } else {
                    action == (ReaderAction::ScheduleMessage {
                        queue: if low_priority {
                            QueueKind::NetworkLowPriority
                        } else {
                            QueueKind::NetworkIncoming
                        },
                        allowance: resource_estimate,
                    }) && final(semaphore).in_flight() == old(semaphore).in_flight()
                }
            },
        },
        !(*event matches ReaderEvent::Message { is_demand: true, .. }) ==> final(semaphore).in_flight() == old(semaphore).in_flight(),
{
    match event {
        ReaderEvent::Shutdown => ReaderAction::Stop,
        ReaderEvent::StreamClosed => ReaderAction::Stop,
        ReaderEvent::ReceiveFailed => ReaderAction::Fail {
            error: MessageReaderError::ReceiveError,
        },
        ReaderEvent::SemaphoreClosed => ReaderAction::Fail {
            error: MessageReaderError::UnexpectedSemaphoreClose,
        },
        ReaderEvent::Message { is_demand, low_priority, resource_estimate } => {
            if *is_demand {
                if semaphore.try_acquire() {
                    ReaderAction::ScheduleDemand { queue: QueueKind::NetworkDemand }
                } else {
                    ReaderAction::WaitForPermit
                }
            } else {
                ReaderAction::ScheduleMessage {
                    queue: if *low_priority {
                        QueueKind::NetworkLowPriority
                    } else {
                        QueueKind::NetworkIncoming
                    },
                    allowance: *resource_estimate,
                }
            }
        },
    }
}

/// A finished demand helper gives its permit back, whatever its outcome.
pub fn on_demand_helper_done(semaphore: &mut DemandSemaphore)
    requires
        old(semaphore).wf(),
        old(semaphore).in_flight() > 0,
    ensures
        final(semaphore).wf(),
        final(semaphore).max() == old(semaphore).max(),
        final(semaphore).in_flight() == old(semaphore).in_flight() - 1,
{
    semaphore.release();
}

} // verus!
