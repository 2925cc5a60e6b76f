//! The message writer's decisions.
//!
//! The writer task pulls queued items, charges the rate limiter the exact
//! wire size of each, sends it into the sink, and flushes before firing
//! the item's acknowledgement when one is attached.  On a sink error it
//! closes the queue, drains it so the pending gauge stays exact, and
//! exits.  The channel and the sink live with the caller; what is decided
//! here takes the sink's reports as inputs and holds whatever they were.

use vstd::prelude::*;

use crate::framing::spec_frame;

verus! {

/// One item on the outbound queue: the encoded payload and whether the
/// producer attached an acknowledgement handle.
pub struct QueueItem {
    /// The payload bytes to be framed onto the wire.
    pub payload: Vec<u8>,
    /// Whether the producer waits for a definite "left the process"
    /// signal.
    pub has_ack: bool,
}

/// What the writer settles before any I/O on one item.
#[derive(Clone, Copy, PartialEq, Eq, Structural, Debug)]
pub struct SendPlan {
    /// How many units to request from the rate limiter: the exact number
    /// of bytes the item occupies on the wire, frame header included.
    pub wire_size: u32,
    /// Whether to flush the sink after the send and then fire the
    /// acknowledgement.  Bulk traffic relies on buffering; only a caller
    /// holding an acknowledgement needs the flush.
    pub flush_and_ack: bool,
}

/// Computes the plan for one item: its wire size under the same encoding
/// the sink applies, and whether to flush.  `None` when the payload is
/// too long to frame at all.
pub fn plan_send(item: &QueueItem) -> (r: Option<SendPlan>)
    ensures
        match r {
            Some(plan) => item.payload@.len() + 4 <= u32::MAX && plan.wire_size == spec_frame(
                item.payload@,
            ).len() && plan.flush_and_ack == item.has_ack,
            None => item.payload@.len() + 4 > u32::MAX,
        },
{
    if item.payload.len() <= (u32::MAX - 4) as usize {
        Some(
            SendPlan {
                wire_size: (item.payload.len() as u32) + 4,
                flush_and_ack: item.has_ack,
            },
        )
    } else {
        None
    }
}

/// What became of one queue item by the time the writer exited.
#[derive(Clone, Copy, PartialEq, Eq, Structural, Debug)]
pub enum ItemFate {
    /// Handed to the sink; no acknowledgement was attached.
    Sent,
    /// Handed to the sink, the sink reported flush-complete, and the
    /// acknowledgement fired.
    Acked,
    /// The sink had failed: the item was drained during teardown, its
    /// acknowledgement handle (if any) dropped unfired.
    Drained,
}

/// Whether one item goes out, given the sink's reports: the send must
/// succeed, and an item with an acknowledgement also needs the flush to
/// succeed.
pub open spec fn spec_item_delivered(has_ack: bool, send_ok: bool, flush_ok: bool) -> bool {
    send_ok && (!has_ack || flush_ok)
}

/// The fate of every queued item, in order, given the sink's report for
/// each send and flush.  The first item not delivered kills the sink;
/// everything after it is drained.
pub open spec fn spec_sender_fates(
    has_ack: Seq<bool>,
    send_ok: Seq<bool>,
    flush_ok: Seq<bool>,
) -> Seq<ItemFate>
    decreases has_ack.len(),
{
    if has_ack.len() == 0 {
        Seq::empty()
    } else {
        let first = if spec_item_delivered(has_ack[0], send_ok[0], flush_ok[0]) {
            if has_ack[0] {
                ItemFate::Acked
            } else {
                ItemFate::Sent
            }
        } else {
            ItemFate::Drained
        };
        if first == ItemFate::Drained {
            Seq::new(has_ack.len(), |i: int| ItemFate::Drained)
        } else {
            seq![first] + spec_sender_fates(has_ack.skip(1), send_ok.skip(1), flush_ok.skip(1))
        }
    }
}

/// Every item with an acknowledgement handle ends in exactly one of two
/// ways: its acknowledgement fires after the sink reports flush-complete,
/// or the connection has terminated and the handle is dropped with the
/// item drained.  No handle is left dangling and none fires without a
/// completed flush.
pub proof fn lemma_ack_fires_or_drains(
    has_ack: Seq<bool>,
    send_ok: Seq<bool>,
    flush_ok: Seq<bool>,
)
    requires
        send_ok.len() == has_ack.len(),
        flush_ok.len() == has_ack.len(),
    ensures
        spec_sender_fates(has_ack, send_ok, flush_ok).len() == has_ack.len(),
        forall|i: int|
            0 <= i < has_ack.len() && has_ack[i] ==> #[trigger] spec_sender_fates(
                has_ack,
                send_ok,
                flush_ok,
            )[i] == ItemFate::Acked || spec_sender_fates(has_ack, send_ok, flush_ok)[i]
                == ItemFate::Drained,
        forall|i: int|
            0 <= i < has_ack.len() && #[trigger] spec_sender_fates(has_ack, send_ok, flush_ok)[i]
                == ItemFate::Acked ==> flush_ok[i] && send_ok[i] && has_ack[i],
    decreases has_ack.len(),
{
    if has_ack.len() > 0 {
        let fates = spec_sender_fates(has_ack, send_ok, flush_ok);
        let first = if spec_item_delivered(has_ack[0], send_ok[0], flush_ok[0]) {
            if has_ack[0] {
                ItemFate::Acked
            } else {
                ItemFate::Sent
            }
        } else {
            ItemFate::Drained
        };
        if first != ItemFate::Drained {
            lemma_ack_fires_or_drains(has_ack.skip(1), send_ok.skip(1), flush_ok.skip(1));
            let tail = spec_sender_fates(has_ack.skip(1), send_ok.skip(1), flush_ok.skip(1));
            assert(fates == seq![first] + tail);
            assert forall|i: int| 1 <= i < has_ack.len() implies fates[i] == tail[i - 1] by {
                assert(fates[i] == (seq![first] + tail)[i]);
            }
        }
    }
}

/// Runs the writer discipline over a whole queue, with the sink's report
/// for each send and flush given as inputs; the decisions hold whatever
/// the sink reported.  Decrements the pending gauge once per item,
/// including the items drained after a sink failure, so the gauge ends
/// exactly `items.len()` lower.
pub fn run_sender(
    items: &Vec<QueueItem>,
    send_ok: &Vec<bool>,
    flush_ok: &Vec<bool>,
    pending_gauge: &mut u64,
) -> (fates: Vec<ItemFate>)
    requires
        send_ok.len() == items.len(),
        flush_ok.len() == items.len(),
        old(pending_gauge) >= items.len(),
    ensures
        fates@ == spec_sender_fates(
            items@.map_values(|it: QueueItem| it.has_ack),
            send_ok@,
            flush_ok@,
        ),
        *final(pending_gauge) == *old(pending_gauge) - items.len(),
{
    let ghost all_acks = items@.map_values(|it: QueueItem| it.has_ack);
    let mut fates: Vec<ItemFate> = Vec::new();
    let mut i: usize = 0;
    let mut alive = true;
    proof {
        assert(all_acks.skip(0) =~= all_acks);
        assert(send_ok@.skip(0) =~= send_ok@);
        assert(flush_ok@.skip(0) =~= flush_ok@);
        assert(fates@ + spec_sender_fates(all_acks, send_ok@, flush_ok@) =~= spec_sender_fates(
            all_acks,
            send_ok@,
            flush_ok@,
        ));
    }
    while i < items.len()
        invariant
            i <= items.len(),
            send_ok.len() == items.len(),
            flush_ok.len() == items.len(),
            *pending_gauge == *old(pending_gauge) - i,
            *old(pending_gauge) >= items.len(),
            fates@.len() == i,
            all_acks == items@.map_values(|it: QueueItem| it.has_ack),
            spec_sender_fates(all_acks, send_ok@, flush_ok@) == (if alive {
                fates@ + spec_sender_fates(
                    all_acks.skip(i as int),
                    send_ok@.skip(i as int),
                    flush_ok@.skip(i as int),
                )
            } else {
                fates@ + Seq::new((items.len() - i) as nat, |j: int| ItemFate::Drained)
            }),
        decreases items.len() - i,
    {
        *pending_gauge = *pending_gauge - 1;
        let fate: ItemFate = if alive {
            if send_ok[i] && (!items[i].has_ack || flush_ok[i]) {
                if items[i].has_ack {
                    ItemFate::Acked
                } else {
                    ItemFate::Sent
                }
            } else {
                alive = false;
                ItemFate::Drained
            }
        } else {
            ItemFate::Drained
        };
        proof {
            sender_fates_step(all_acks, send_ok@, flush_ok@, i as int);
        }
        fates.push(fate);
        i = i + 1;
    }
    fates
}

/// Unfolds one step of `spec_sender_fates` on the suffixes at `i`.
proof fn sender_fates_step(has_ack: Seq<bool>, send_ok: Seq<bool>, flush_ok: Seq<bool>, i: int)
    requires
        send_ok.len() == has_ack.len(),
        flush_ok.len() == has_ack.len(),
        0 <= i < has_ack.len(),
    ensures
        has_ack.skip(i).len() > 0,
        has_ack.skip(i)[0] == has_ack[i],
        send_ok.skip(i)[0] == send_ok[i],
        flush_ok.skip(i)[0] == flush_ok[i],
        has_ack.skip(i).skip(1) == has_ack.skip(i + 1),
        send_ok.skip(i).skip(1) == send_ok.skip(i + 1),
        flush_ok.skip(i).skip(1) == flush_ok.skip(i + 1),
{
    assert(has_ack.skip(i).skip(1) =~= has_ack.skip(i + 1));
    assert(send_ok.skip(i).skip(1) =~= send_ok.skip(i + 1));
    assert(flush_ok.skip(i).skip(1) =~= flush_ok.skip(i + 1));
}

} // verus!
