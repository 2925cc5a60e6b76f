//! Stream multiplexing.
//!
//! Several logical channels share one underlying frame sink.  A handle
//! must hold the sink lock to submit, prepends its one-byte channel
//! identifier to the frame, and gives the lock back when its frame is
//! flushed, so the sink never buffers more than one frame per channel and
//! contended channels take turns in lock-acquisition order.
//!
//! The multiplexer here carries the shared sink as the sequence of frames
//! handed to it; the task that owns the socket writes them out.

use vstd::prelude::*;

verus! {

/// The frames of `stream` that belong to channel `ch`, in order, each
/// with its channel byte stripped.
pub open spec fn spec_project(stream: Seq<Seq<u8>>, ch: u8) -> Seq<Seq<u8>>
    decreases stream.len(),
{
    if stream.len() == 0 {
        Seq::empty()
    } else {
        let head = stream[0];
        let rest = spec_project(stream.skip(1), ch);
        if head.len() > 0 && head[0] == ch {
            seq![head.skip(1)] + rest
        } else {
            rest
        }
    }
}

/// Appending one frame to the stream extends exactly the projection of
/// the channel named by its leading byte, and no other.
pub proof fn lemma_project_push(stream: Seq<Seq<u8>>, f: Seq<u8>, ch: u8)
    ensures
        spec_project(stream.push(f), ch) == (if f.len() > 0 && f[0] == ch {
            spec_project(stream, ch).push(f.skip(1))
        } else {
            spec_project(stream, ch)
        }),
    decreases stream.len(),
{
    if stream.len() == 0 {
        assert(stream.push(f).skip(1) =~= stream);
        assert(stream.push(f)[0] == f);
        assert(spec_project(stream, ch) == Seq::<Seq<u8>>::empty());
        if f.len() > 0 && f[0] == ch {
            assert(spec_project(stream.push(f), ch) == seq![f.skip(1)] + spec_project(
                stream.push(f).skip(1),
                ch,
            ));
            assert(seq![f.skip(1)] + spec_project(stream, ch) =~= spec_project(stream, ch).push(
                f.skip(1),
            ));
        } else {
            assert(spec_project(stream.push(f), ch) == spec_project(stream.push(f).skip(1), ch));
        }
    } else {
        assert(stream.push(f)[0] == stream[0]);
        assert(stream.push(f).skip(1) =~= stream.skip(1).push(f));
        lemma_project_push(stream.skip(1), f, ch);
        let head = stream[0];
        let rest = spec_project(stream.skip(1), ch);
        let tail = spec_project(stream.skip(1).push(f), ch);
        if head.len() > 0 && head[0] == ch {
            assert(spec_project(stream, ch) == seq![head.skip(1)] + rest);
            assert(spec_project(stream.push(f), ch) == seq![head.skip(1)] + tail);
            if f.len() > 0 && f[0] == ch {
                assert(seq![head.skip(1)] + rest.push(f.skip(1)) =~= (seq![head.skip(1)]
                    + rest).push(f.skip(1)));
            }
        } else {
            assert(spec_project(stream, ch) == rest);
            assert(spec_project(stream.push(f), ch) == tail);
        }
    }
}

/// Prepends the channel byte to a user frame.
pub fn prefix_frame(channel: u8, frame: &Vec<u8>) -> (r: Vec<u8>)
    ensures
        r@ == seq![channel] + frame@,
{
    let mut r: Vec<u8> = Vec::new();
    r.push(channel);
    crate::wire::write_raw(&mut r, frame);
    proof {
        assert(r@ =~= seq![channel] + frame@);
    }
    r
}

/// A handle for one logical channel of a multiplexer.
#[derive(Clone, Copy, PartialEq, Eq, Structural, Debug)]
pub struct MultiplexerHandle {
    /// Which multiplexer slot this handle submits to.
    pub channel: u8,
    /// Distinguishes handles, so the lock knows its holder.
    pub id: u64,
}

/// A frame multiplexer: one shared sink, many channel handles.
pub struct Multiplexer {
    sink: Vec<Vec<u8>>,
    locked_by: Option<u64>,
    closed: bool,
    next_handle_id: u64,
    submitted: Ghost<Map<u8, Seq<Seq<u8>>>>,
}

impl Multiplexer {
    /// The frames handed to the shared underlying sink, in order.
    pub closed spec fn stream(&self) -> Seq<Seq<u8>> {
        self.sink@.map_values(|f: Vec<u8>| f@)
    }

    /// The user frames channel `ch` has submitted, in order.
    pub closed spec fn submitted_on(&self, ch: u8) -> Seq<Seq<u8>> {
        self.submitted@[ch]
    }

    /// The handle holding the sink lock, if any.
    pub closed spec fn lock_holder(&self) -> Option<u64> {
        self.locked_by
    }

    /// Whether the underlying sink was closed.
    pub closed spec fn is_closed(&self) -> bool {
        self.closed
    }

    /// The one-frame-per-channel discipline in a sentence: every frame on
    /// the shared sink carries its channel byte, and the stream projected
    /// by leading byte is exactly each channel's submissions in
    /// submission order.
    pub open spec fn wf(&self) -> bool {
        &&& forall|ch: u8| spec_project(self.stream(), ch) == self.submitted_on(ch)
        &&& forall|i: int| 0 <= i < self.stream().len() ==> #[trigger] self.stream()[i].len() >= 1
    }

    /// The frames submitted on every channel numbered `lo` or above.
    pub open spec fn spec_submitted_count_from(&self, lo: int) -> nat
        decreases 256 - lo,
    {
        if lo >= 256 {
            0
        } else {
            self.submitted_on(lo as u8).len() + self.spec_submitted_count_from(lo + 1)
        }
    }

    /// The frames submitted across all channels together.
    pub open spec fn spec_submitted_count(&self) -> nat {
        self.spec_submitted_count_from(0)
    }

    /// A fresh multiplexer around an empty sink: unlocked, nothing
    /// submitted.
    pub fn new() -> (r: Multiplexer)
        ensures
            r.wf(),
            r.stream() == Seq::<Seq<u8>>::empty(),
            r.lock_holder() is None,
            !r.is_closed(),
            r.next_handle_id() == 0,
            forall|ch: u8| r.submitted_on(ch) == Seq::<Seq<u8>>::empty(),
    {
        let r = Multiplexer {
            sink: Vec::new(),
            locked_by: None,
            closed: false,
            next_handle_id: 0,
            submitted: Ghost(Map::total(|ch: u8| Seq::empty())),
        };
        proof {
            assert(r.sink@.map_values(|f: Vec<u8>| f@) =~= Seq::<Seq<u8>>::empty());
        }
        r
    }

    /// Creates a handle for one channel of this multiplexer.
    pub fn get_channel_handle(&mut self, channel: u8) -> (r: MultiplexerHandle)
        requires
            old(self).next_handle_id() < u64::MAX,
        ensures
            r.channel == channel,
            r.id == old(self).next_handle_id(),
            final(self).next_handle_id() == old(self).next_handle_id() + 1,
            final(self).stream() == old(self).stream(),
            final(self).lock_holder() == old(self).lock_holder(),
            final(self).is_closed() == old(self).is_closed(),
            forall|ch: u8| final(self).submitted_on(ch) == old(self).submitted_on(ch),
            old(self).wf() ==> final(self).wf(),
    {
        let id = self.next_handle_id;
        self.next_handle_id = self.next_handle_id + 1;
        proof {
            if old(self).wf() {
                carry_wf(old(self), self);
            }
        }
        MultiplexerHandle { channel, id }
    }

    /// How many handles were given out so far.
    pub closed spec fn next_handle_id(&self) -> u64 {
        self.next_handle_id
    }

    /// Tries to make the sink ready for `handle`: takes the free lock, or
    /// keeps it when `handle` already holds it.  Returns whether the
    /// handle may now submit; with another holder the submission is
    /// pending until that holder's flush releases the lock.
    pub fn poll_ready(&mut self, handle: &MultiplexerHandle) -> (ready: bool)
        ensures
            ready == (old(self).lock_holder() is None || old(self).lock_holder() == Some(
                handle.id,
            )),
            ready ==> final(self).lock_holder() == Some(handle.id),
            !ready ==> final(self).lock_holder() == old(self).lock_holder(),
            final(self).stream() == old(self).stream(),
            final(self).is_closed() == old(self).is_closed(),
            final(self).next_handle_id() == old(self).next_handle_id(),
            forall|ch: u8| final(self).submitted_on(ch) == old(self).submitted_on(ch),
            old(self).wf() ==> final(self).wf(),
    {
        let ready = match self.locked_by {
            None => {
                self.locked_by = Some(handle.id);
                true
            },
            Some(holder) => holder == handle.id,
        };
        proof {
            if old(self).wf() {
                carry_wf(old(self), self);
            }
        }
        ready
    }

    /// Submits one user frame for `handle`'s channel: the channel byte is
    /// prepended and the result goes to the shared sink.  Only the lock
    /// holder may submit, and it holds the lock for exactly this one
    /// frame, until `poll_flush`.
    pub fn start_send(&mut self, handle: &MultiplexerHandle, frame: Vec<u8>)
        requires
            old(self).wf(),
            old(self).lock_holder() == Some(handle.id),
        ensures
            final(self).wf(),
            final(self).stream() == old(self).stream().push(seq![handle.channel] + frame@),
            final(self).submitted_on(handle.channel) == old(self).submitted_on(
                handle.channel,
            ).push(frame@),
            forall|ch: u8|
                ch != handle.channel ==> final(self).submitted_on(ch) == old(self).submitted_on(
                    ch,
                ),
            final(self).lock_holder() == old(self).lock_holder(),
            final(self).is_closed() == old(self).is_closed(),
            final(self).next_handle_id() == old(self).next_handle_id(),
    {
        let prefixed = prefix_frame(handle.channel, &frame);
        let ghost old_stream = self.stream();
        let ghost pushed = prefixed@;
        self.sink.push(prefixed);
        proof {
            self.submitted@ = self.submitted@.insert(
                handle.channel,
                self.submitted@[handle.channel].push(frame@),
            );
            assert(self.sink@.map_values(|f: Vec<u8>| f@) =~= old_stream.push(pushed));
            assert(pushed[0] == handle.channel);
            assert(pushed.skip(1) =~= frame@);
            assert forall|ch: u8|
                spec_project(self.stream(), ch) == self.submitted_on(ch) by {
                assert(spec_project(old(self).stream(), ch) == old(self).submitted_on(ch));
                lemma_project_push(old_stream, pushed, ch);
            }
            assert forall|i: int| 0 <= i < self.stream().len() implies #[trigger] self.stream()[
                i
            ].len() >= 1 by {
                if i < old_stream.len() {
                    assert(old(self).stream()[i].len() >= 1);
                } else {
                    assert(self.stream()[i] == pushed);
                }
            }
        }
    }

    /// Flushes the shared sink for the lock holder and releases the lock,
    /// so the next channel in lock order may submit.
    pub fn poll_flush(&mut self, handle: &MultiplexerHandle)
        requires
            old(self).lock_holder() == Some(handle.id),
        ensures
            final(self).lock_holder() is None,
            final(self).stream() == old(self).stream(),
            final(self).is_closed() == old(self).is_closed(),
            final(self).next_handle_id() == old(self).next_handle_id(),
            forall|ch: u8| final(self).submitted_on(ch) == old(self).submitted_on(ch),
            old(self).wf() ==> final(self).wf(),
    {
        self.locked_by = None;
        proof {
            if old(self).wf() {
                carry_wf(old(self), self);
            }
        }
    }

    /// Closes the underlying sink.  Closing through any handle closes the
    /// sink for every channel at once, eagerly.
    pub fn poll_close(&mut self, _handle: &MultiplexerHandle)
        ensures
            final(self).is_closed(),
            final(self).stream() == old(self).stream(),
            final(self).lock_holder() == old(self).lock_holder(),
            final(self).next_handle_id() == old(self).next_handle_id(),
            forall|ch: u8| final(self).submitted_on(ch) == old(self).submitted_on(ch),
            old(self).wf() ==> final(self).wf(),
    {
        self.closed = true;
        proof {
            if old(self).wf() {
                carry_wf(old(self), self);
            }
        }
    }

    /// The frames for the task that drains the shared sink.
    pub fn sink_frames(&self) -> (r: &Vec<Vec<u8>>)
        ensures
            r@.map_values(|f: Vec<u8>| f@) == self.stream(),
    {
        &self.sink
    }

    /// How many frames the shared sink was handed in all.
    pub fn sink_len(&self) -> (r: usize)
        ensures
            r == self.stream().len(),
    {
        self.sink.len()
    }
}

/// Carries well-formedness across a step that left the sink stream and
/// every channel history unchanged.
proof fn carry_wf(before: &Multiplexer, after: &Multiplexer)
    requires
        after.stream() == before.stream(),
        forall|ch: u8| after.submitted_on(ch) == before.submitted_on(ch),
        before.wf(),
    ensures
        after.wf(),
{
    assert forall|ch: u8| spec_project(after.stream(), ch) == after.submitted_on(ch) by {
        assert(spec_project(before.stream(), ch) == before.submitted_on(ch));
    }
    assert forall|i: int| 0 <= i < after.stream().len() implies #[trigger] after.stream()[i].len()
        >= 1 by {
        assert(before.stream()[i].len() >= 1);
    }
}

/// The frames of every channel numbered `lo` or above, counted through
/// the stream's projections.
pub open spec fn spec_projected_count_from(stream: Seq<Seq<u8>>, lo: int) -> nat
    decreases 256 - lo,
{
    if lo >= 256 {
        0
    } else {
        spec_project(stream, lo as u8).len() + spec_projected_count_from(stream, lo + 1)
    }
}

proof fn lemma_projected_count_empty(stream: Seq<Seq<u8>>, lo: int)
    requires
        stream.len() == 0,
        0 <= lo,
    ensures
        spec_projected_count_from(stream, lo) == 0,
    decreases 256 - lo,
{
    if lo < 256 {
        lemma_projected_count_empty(stream, lo + 1);
    }
}

/// Dropping the first frame of the stream lowers the count by one,
/// exactly when that frame's channel is within the counted range.
proof fn lemma_projected_count_step(stream: Seq<Seq<u8>>, lo: int)
    requires
        stream.len() > 0,
        stream[0].len() >= 1,
        0 <= lo,
    ensures
        spec_projected_count_from(stream, lo) == spec_projected_count_from(stream.skip(1), lo) + (
        if lo <= stream[0][0] {
            1int
        } else {
            0int
        }),
    decreases 256 - lo,
{
    if lo < 256 {
        lemma_projected_count_step(stream, lo + 1);
        let head = stream[0];
        let ch = lo as u8;
        if head[0] == ch {
            assert(spec_project(stream, ch) == seq![head.skip(1)] + spec_project(
                stream.skip(1),
                ch,
            ));
            assert(spec_project(stream, ch).len() == spec_project(stream.skip(1), ch).len() + 1);
        } else {
            assert(spec_project(stream, ch) == spec_project(stream.skip(1), ch));
        }
        assert(ch == lo);
    }
}

/// A stream of channel-prefixed frames holds exactly as many frames as
/// all its projections together.
proof fn lemma_projected_count_total(stream: Seq<Seq<u8>>)
    requires
        forall|i: int| 0 <= i < stream.len() ==> #[trigger] stream[i].len() >= 1,
    ensures
        spec_projected_count_from(stream, 0) == stream.len(),
    decreases stream.len(),
{
    if stream.len() == 0 {
        lemma_projected_count_empty(stream, 0);
    } else {
        assert(forall|i: int|
            0 <= i < stream.skip(1).len() ==> #[trigger] stream.skip(1)[i].len() >= 1);
        lemma_projected_count_total(stream.skip(1));
        lemma_projected_count_step(stream, 0);
    }
}

proof fn lemma_counts_agree(mux: &Multiplexer, lo: int)
    requires
        mux.wf(),
        0 <= lo,
    ensures
        mux.spec_submitted_count_from(lo) == spec_projected_count_from(mux.stream(), lo),
    decreases 256 - lo,
{
    if lo < 256 {
        lemma_counts_agree(mux, lo + 1);
        assert(spec_project(mux.stream(), lo as u8) == mux.submitted_on(lo as u8));
    }
}

/// No frame is duplicated or dropped on the way to the shared sink: the
/// sink saw exactly as many frames as all channels submitted together.
/// With some number of channels each submitting the same number of
/// frames, the stream's length is exactly their product.
pub proof fn lemma_mux_frame_count(mux: &Multiplexer)
    requires
        mux.wf(),
    ensures
        mux.spec_submitted_count() == mux.stream().len(),
{
    lemma_counts_agree(mux, 0);
    lemma_projected_count_total(mux.stream());
}

/// Whatever interleaving the lock admitted, no frame is lost, invented or
/// reordered within its channel: projecting the shared sink's stream by
/// leading byte yields, for every channel, exactly the frames that
/// channel submitted, in submission order.
pub proof fn lemma_mux_projection(mux: &Multiplexer)
    requires
        mux.wf(),
    ensures
        forall|ch: u8| spec_project(mux.stream(), ch) == mux.submitted_on(ch),
{
}

} // verus!
