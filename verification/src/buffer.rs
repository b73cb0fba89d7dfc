//! The buffered writer: an ordered queue of pending samples and the drain
//! state machine that empties it into single write attempts.
//!
//! `send` appends and never blocks; backpressure is applied only by the
//! drain operations. `ready` drains while the queue holds at least
//! [`HIGH_WATER_MARK`] samples, `flush` drains until the queue is empty,
//! and `close` is a flush followed by the transition to the closed state,
//! after which `send` is rejected. A producer that never drains can grow
//! the queue without bound; bounding it is a caller obligation.
//!
//! The drain loop's interaction with the device is captured by a script of
//! [`DeviceStep`]s, one per readiness wakeup, and its whole behaviour is
//! pinned by the spec-level interpreter [`drain_model`]: samples leave the
//! queue only from the front, only after the device confirmed them, and in
//! the order they were enqueued.

use vstd::prelude::*;
use crate::writer::WriteAttemptResult;

verus! {

/// Queue length at which `ready` starts draining into the device.
pub const HIGH_WATER_MARK: usize = 65536;

/// An error of the buffered writer.
#[derive(Clone, Copy, Debug, PartialEq, Eq, Structural)]
pub enum StreamError {
    /// A sample was sent after `close` completed.
    Closed,
    /// The driver rejected a write; unrecoverable in this design.
    WriteFault,
}

/// What the device did at one readiness wakeup of the drain loop.
#[derive(Clone, Copy, Debug, PartialEq, Eq, Structural)]
pub enum DeviceStep {
    /// The remapped readiness did not include output: no write is issued
    /// and the loop waits again.
    NotReady,
    /// The stream was output-ready with this many frames of room; the
    /// planned write succeeded in full. Zero room is legal and consumes
    /// nothing.
    Accept(usize),
    /// The driver rejected the write: the drain stops at once.
    Fault,
}

/// The exit condition of a drain: `ready` stops below the high-water mark,
/// `flush` (and `close`) stop on an empty queue.
#[derive(Clone, Copy, Debug, PartialEq, Eq, Structural)]
pub enum DrainGoal {
    BelowHighWater,
    Empty,
}

/// How a drain ended.
#[derive(Clone, Copy, Debug, PartialEq, Eq, Structural)]
pub enum DrainStatus {
    /// The goal holds: the drain is done.
    Completed,
    /// The script of wakeups ran out before the goal held; the real loop
    /// would keep waiting.
    Exhausted,
    /// The driver rejected a write.
    Faulted,
}

/// What a drain did: how it ended, how many write cycles it took, and the
/// samples of each issued write call, in order.
pub struct DriveResult<S> {
    pub status: DrainStatus,
    pub cycles: usize,
    pub writes: Vec<Vec<S>>,
}

/// The mathematical outcome of a drain: the write calls it issues, the
/// queue it leaves, how it ends, and how many cycles it takes.
pub ghost struct DrainModel<S> {
    pub writes: Seq<Seq<S>>,
    pub queue: Seq<S>,
    pub status: DrainStatus,
    pub cycles: nat,
}

/// Whether a drain's exit condition holds of a queue.
pub open spec fn goal_met<S>(goal: DrainGoal, q: Seq<S>) -> bool {
    match goal {
        DrainGoal::BelowHighWater => q.len() < HIGH_WATER_MARK,
        DrainGoal::Empty => q.len() == 0,
    }
}

/// The drain loop, as a function of the queue, the exit condition, and the
/// device's behaviour at each wakeup. Each cycle waits once; a wakeup that
/// is not output-ready writes nothing, an output-ready wakeup writes
/// exactly as much as the device has room for (capped by the queue), and a
/// rejected write ends the drain with the queue as it stood.
pub open spec fn drain_model<S>(q: Seq<S>, goal: DrainGoal, script: Seq<DeviceStep>) -> DrainModel<S>
    decreases script.len(),
{
    if goal_met(goal, q) {
        DrainModel { writes: Seq::empty(), queue: q, status: DrainStatus::Completed, cycles: 0 }
    } else if script.len() == 0 {
        DrainModel { writes: Seq::empty(), queue: q, status: DrainStatus::Exhausted, cycles: 0 }
    } else {
        match script[0] {
            DeviceStep::NotReady => {
                let rest = drain_model(q, goal, script.drop_first());
                DrainModel {
                    writes: rest.writes,
                    queue: rest.queue,
                    status: rest.status,
                    cycles: rest.cycles + 1,
                }
            },
            DeviceStep::Fault => DrainModel {
                writes: Seq::empty(),
                queue: q,
                status: DrainStatus::Faulted,
                cycles: 1,
            },
            DeviceStep::Accept(avail) => {
                let n = crate::writer::write_quota(avail as int, q.len() as int);
                let rest = drain_model(q.skip(n), goal, script.drop_first());
                DrainModel {
                    writes: seq![q.take(n)] + rest.writes,
                    queue: rest.queue,
                    status: rest.status,
                    cycles: rest.cycles + 1,
                }
            },
        }
    }
}

/// The samples of a list of write calls, concatenated in order.
pub open spec fn concat_all<S>(chunks: Seq<Seq<S>>) -> Seq<S>
    decreases chunks.len(),
{
    if chunks.len() == 0 {
        Seq::empty()
    } else {
        chunks[0] + concat_all(chunks.drop_first())
    }
}

/// The summed sizes of a list of write calls.
pub open spec fn total_len<S>(chunks: Seq<Seq<S>>) -> int
    decreases chunks.len(),
{
    if chunks.len() == 0 {
        0
    } else {
        chunks[0].len() + total_len(chunks.drop_first())
    }
}

/// The abstract contents of a list of concrete write calls.
pub open spec fn views_of<S>(chunks: Seq<Vec<S>>) -> Seq<Seq<S>>
    decreases chunks.len(),
{
    if chunks.len() == 0 {
        Seq::empty()
    } else {
        seq![chunks[0]@] + views_of(chunks.drop_first())
    }
}

/// A concrete drain outcome agrees with the mathematical one in every
/// component: the writes issued, the queue left behind, the status, and
/// the cycle count.
pub open spec fn matches_model<S>(
    pre: Seq<S>,
    goal: DrainGoal,
    script: Seq<DeviceStep>,
    post: Seq<S>,
    r: DriveResult<S>,
) -> bool {
    let m = drain_model(pre, goal, script);
    &&& views_of(r.writes@) == m.writes
    &&& post == m.queue
    &&& r.status == m.status
    &&& r.cycles == m.cycles
}

/// An unbounded ordered queue of pending samples in front of the device,
/// with the closed flag that `close` sets.
pub struct BufferedWriter<S> {
    queue: Vec<S>,
    closed: bool,
}

impl<S> View for BufferedWriter<S> {
    type V = Seq<S>;

    closed spec fn view(&self) -> Seq<S> {
        self.queue@
    }
}

impl<S: Copy> BufferedWriter<S> {
    /// Whether `close` has completed; a closed writer rejects `send`.
    pub closed spec fn is_closed(self) -> bool {
        self.closed
    }

    /// A fresh writer: empty queue, open.
    pub fn new() -> (r: BufferedWriter<S>)
        ensures
            r@ == Seq::<S>::empty(),
            !r.is_closed(),
    {
        BufferedWriter { queue: Vec::new(), closed: false }
    }

    /// The number of queued samples.
    pub fn len(&self) -> (n: usize)
        ensures
            n == self@.len(),
    {
        self.queue.len()
    }

    /// Whether the queue is empty.
    pub fn is_empty(&self) -> (b: bool)
        ensures
            b == (self@.len() == 0),
    {
        self.queue.len() == 0
    }

    /// Whether the queue has reached the high-water mark, so that `ready`
    /// would drain.
    pub fn needs_drain(&self) -> (b: bool)
        ensures
            b == (self@.len() >= HIGH_WATER_MARK),
    {
        self.queue.len() >= HIGH_WATER_MARK
    }

    /// Whether `close` has completed.
    pub fn closed(&self) -> (b: bool)
        ensures
            b == self.is_closed(),
    {
        self.closed
    }

    /// Appends a sample to the back of the queue. Never blocks; fails
    /// exactly when the writer is closed, and then changes nothing.
    pub fn send(&mut self, sample: S) -> (r: Result<(), StreamError>)
        ensures
            old(self).is_closed() ==> {
                &&& r == Err::<(), StreamError>(StreamError::Closed)
                &&& final(self)@ == old(self)@
                &&& final(self).is_closed()
            },
            !old(self).is_closed() ==> {
                &&& r == Ok::<(), StreamError>(())
                &&& final(self)@ == old(self)@.push(sample)
                &&& !final(self).is_closed()
            },
    {
        if self.closed {
            Err(StreamError::Closed)
        } else {
            self.queue.push(sample);
            Ok(())
        }
    }

    /// Copies the first `n` queued samples, in order, as the candidates of
    /// one write call. The queue itself is untouched.
    pub fn take_prefix(&self, n: usize) -> (r: Vec<S>)
        requires
            n <= self@.len(),
        ensures
            r@ == self@.take(n as int),
    {
        let mut out: Vec<S> = Vec::new();
        let mut j: usize = 0;
        while j < n
            invariant
                j <= n,
                n <= self@.len(),
                out@ == self@.take(j as int),
            decreases n - j,
        {
            out.push(self.queue[j]);
            proof {
                assert(self@.take(j as int).push(self@[j as int]) =~= self@.take(j + 1 as int));
            }
            j = j + 1;
        }
        out
    }

    /// Removes the first `n` samples from the queue, the ones the device
    /// has confirmed consuming. Samples are removed only from the front,
    /// so the order of the rest is kept.
    pub fn consume(&mut self, n: usize)
        requires
            n <= old(self)@.len(),
        ensures
            final(self)@ == old(self)@.skip(n as int),
            final(self).is_closed() == old(self).is_closed(),
    {
        let len = self.queue.len();
        let mut rest: Vec<S> = Vec::new();
        let mut j: usize = n;
        while j < len
            invariant
                n <= j <= len,
                self@ == old(self)@,
                self.is_closed() == old(self).is_closed(),
                len == self@.len(),
                rest@ == self@.subrange(n as int, j as int),
            decreases len - j,
        {
            rest.push(self.queue[j]);
            proof {
                assert(self@.subrange(n as int, j as int).push(self@[j as int])
                    =~= self@.subrange(n as int, j + 1 as int));
            }
            j = j + 1;
        }
        proof {
            assert(rest@ =~= old(self)@.skip(n as int));
        }
        self.queue = rest;
    }

    /// Applies the outcome of one write attempt to the queue: a consumed
    /// count removes exactly that many samples from the front, a stream
    /// that was not ready removes nothing and is no error, and a fatal
    /// write leaves the queue untouched and propagates.
    pub fn record_write(&mut self, outcome: WriteAttemptResult) -> (r: Result<(), StreamError>)
        requires
            outcome matches WriteAttemptResult::Consumed(n) ==> n <= old(self)@.len(),
        ensures
            final(self).is_closed() == old(self).is_closed(),
            match outcome {
                WriteAttemptResult::Consumed(n) => {
                    &&& r == Ok::<(), StreamError>(())
                    &&& final(self)@ == old(self)@.skip(n as int)
                },
                WriteAttemptResult::NotReady => {
                    &&& r == Ok::<(), StreamError>(())
                    &&& final(self)@ == old(self)@
                },
                WriteAttemptResult::Fatal => {
                    &&& r == Err::<(), StreamError>(StreamError::WriteFault)
                    &&& final(self)@ == old(self)@
                },
            },
    {
        match outcome {
            WriteAttemptResult::Consumed(n) => {
                self.consume(n);
                Ok(())
            },
            WriteAttemptResult::NotReady => Ok(()),
            WriteAttemptResult::Fatal => Err(StreamError::WriteFault),
        }
    }

    /// Marks the writer closed once a flush has emptied the queue; from
    /// then on `send` is rejected.
    pub fn finish_close(&mut self)
        requires
            old(self)@.len() == 0,
        ensures
            final(self)@ == old(self)@,
            final(self).is_closed(),
    {
        self.closed = true;
    }

    /// Whether the drain's exit condition holds right now.
    fn goal_reached(&self, goal: DrainGoal) -> (b: bool)
        ensures
            b == goal_met(goal, self@),
    {
        match goal {
            DrainGoal::BelowHighWater => self.queue.len() < HIGH_WATER_MARK,
            DrainGoal::Empty => self.queue.len() == 0,
        }
    }

    /// The drain loop from script position `i` on: while the exit
    /// condition fails and wakeups remain, spend one write cycle per
    /// wakeup and remove from the queue exactly what the device consumed.
    fn drive(&mut self, goal: DrainGoal, script: &Vec<DeviceStep>, i: usize) -> (r: DriveResult<S>)
        requires
            i <= script@.len(),
        ensures
            final(self).is_closed() == old(self).is_closed(),
            matches_model(old(self)@, goal, script@.skip(i as int), final(self)@, r),
        decreases script@.len() - i,
    {
        let slen = script.len();
        if self.goal_reached(goal) {
            let r = DriveResult { status: DrainStatus::Completed, cycles: 0, writes: Vec::new() };
            proof {
                assert(views_of(r.writes@) == Seq::<Seq<S>>::empty());
            }
            return r;
        }
        if i == slen {
            let r = DriveResult { status: DrainStatus::Exhausted, cycles: 0, writes: Vec::new() };
            proof {
                assert(script@.skip(i as int).len() == 0);
                assert(views_of(r.writes@) == Seq::<Seq<S>>::empty());
            }
            return r;
        }
        proof {
            assert(script@.skip(i as int)[0] == script@[i as int]);
            assert(script@.skip(i as int).drop_first() =~= script@.skip(i + 1 as int));
        }
        match script[i] {
            DeviceStep::NotReady => {
                let mut r = self.drive(goal, script, i + 1);
                proof {
                    lemma_model_cycles_bound(old(self)@, goal, script@.skip(i + 1 as int));
                }
                r.cycles = r.cycles + 1;
                r
            },
            DeviceStep::Fault => {
                let r = DriveResult { status: DrainStatus::Faulted, cycles: 1, writes: Vec::new() };
                proof {
                    assert(views_of(r.writes@) == Seq::<Seq<S>>::empty());
                }
                r
            },
            DeviceStep::Accept(avail) => {
                let pending = self.queue.len();
                let n = if avail <= pending {
                    avail
                } else {
                    pending
                };
                let chunk = self.take_prefix(n);
                self.consume(n);
                let mut r = self.drive(goal, script, i + 1);
                proof {
                    lemma_model_cycles_bound(old(self)@.skip(n as int), goal, script@.skip(i + 1 as int));
                }
                let ghost w0 = r.writes@;
                r.writes.insert(0, chunk);
                r.cycles = r.cycles + 1;
                proof {
                    assert(r.writes@ =~= seq![chunk] + w0);
                    assert(r.writes@[0] == chunk);
                    assert(r.writes@.drop_first() =~= w0);
                    assert(views_of(r.writes@) == seq![chunk@] + views_of(w0));
                }
                r
            },
        }
    }

    /// Drains while the queue holds at least [`HIGH_WATER_MARK`] samples,
    /// one write cycle per scripted wakeup: this is where backpressure is
    /// applied. The outcome is pinned by [`drain_model`]; in particular a
    /// completed `ready` always leaves the queue below the high-water mark.
    pub fn ready(&mut self, script: &Vec<DeviceStep>) -> (r: DriveResult<S>)
        ensures
            final(self).is_closed() == old(self).is_closed(),
            matches_model(old(self)@, DrainGoal::BelowHighWater, script@, final(self)@, r),
            r.status == DrainStatus::Completed ==> final(self)@.len() < HIGH_WATER_MARK,
    {
        let r = self.drive(DrainGoal::BelowHighWater, script, 0);
        proof {
            assert(script@.skip(0) =~= script@);
            lemma_drain_status(old(self)@, DrainGoal::BelowHighWater, script@);
        }
        r
    }

    /// Drains until the queue is empty, one write cycle per scripted
    /// wakeup, so that no queued sample is dropped at shutdown. The
    /// outcome is pinned by [`drain_model`].
    pub fn flush(&mut self, script: &Vec<DeviceStep>) -> (r: DriveResult<S>)
        ensures
            final(self).is_closed() == old(self).is_closed(),
            matches_model(old(self)@, DrainGoal::Empty, script@, final(self)@, r),
            r.status == DrainStatus::Completed ==> {
                &&& final(self)@.len() == 0
                &&& concat_all(views_of(r.writes@)) == old(self)@
                &&& total_len(views_of(r.writes@)) == old(self)@.len()
            },
    {
        let r = self.drive(DrainGoal::Empty, script, 0);
        proof {
            assert(script@.skip(0) =~= script@);
            if drain_model(old(self)@, DrainGoal::Empty, script@).status == DrainStatus::Completed {
                lemma_flush_delivers_all(old(self)@, script@);
            }
        }
        r
    }

    /// A flush followed, if it completed, by the transition to the closed
    /// state; a closed writer rejects further `send` calls. The device
    /// stream itself is not torn down, and its internal buffer is not
    /// drained here.
    pub fn close(&mut self, script: &Vec<DeviceStep>) -> (r: DriveResult<S>)
        ensures
            matches_model(old(self)@, DrainGoal::Empty, script@, final(self)@, r),
            final(self).is_closed() == (old(self).is_closed() || r.status == DrainStatus::Completed),
            r.status == DrainStatus::Completed ==> {
                &&& final(self)@.len() == 0
                &&& concat_all(views_of(r.writes@)) == old(self)@
            },
    {
        let r = self.drive(DrainGoal::Empty, script, 0);
        proof {
            assert(script@.skip(0) =~= script@);
            if drain_model(old(self)@, DrainGoal::Empty, script@).status == DrainStatus::Completed {
                lemma_flush_delivers_all(old(self)@, script@);
            }
        }
        if r.status == DrainStatus::Completed {
            self.closed = true;
        }
        r
    }
}

/// The drain spends at most one write cycle per scripted wakeup.
pub proof fn lemma_model_cycles_bound<S>(q: Seq<S>, goal: DrainGoal, script: Seq<DeviceStep>)
    ensures
        drain_model(q, goal, script).cycles <= script.len(),
    decreases script.len(),
{
    if goal_met(goal, q) {
    } else if script.len() == 0 {
    } else {
        match script[0] {
            DeviceStep::NotReady => {
                lemma_model_cycles_bound(q, goal, script.drop_first());
            },
            DeviceStep::Fault => {
            },
            DeviceStep::Accept(avail) => {
                let n = crate::writer::write_quota(avail as int, q.len() as int);
                lemma_model_cycles_bound(q.skip(n), goal, script.drop_first());
            },
        }
    }
}

/// Law: a drain removes samples only from the front of the queue. The
/// write calls it issues, concatenated in order and followed by what
/// remains queued, are exactly the samples that were queued, in their
/// original order: nothing is dropped, duplicated or reordered, and a
/// sample leaves the queue only by being written.
pub proof fn lemma_drain_preserves_order<S>(q: Seq<S>, goal: DrainGoal, script: Seq<DeviceStep>)
    ensures
        concat_all(drain_model(q, goal, script).writes) + drain_model(q, goal, script).queue == q,
    decreases script.len(),
{
    let m = drain_model(q, goal, script);
    if goal_met(goal, q) {
        assert(concat_all(m.writes) + m.queue =~= q);
    } else if script.len() == 0 {
        assert(concat_all(m.writes) + m.queue =~= q);
    } else {
        match script[0] {
            DeviceStep::NotReady => {
                lemma_drain_preserves_order(q, goal, script.drop_first());
            },
            DeviceStep::Fault => {
                assert(concat_all(m.writes) + m.queue =~= q);
            },
            DeviceStep::Accept(avail) => {
                let n = crate::writer::write_quota(avail as int, q.len() as int);
                let rest = drain_model(q.skip(n), goal, script.drop_first());
                lemma_drain_preserves_order(q.skip(n), goal, script.drop_first());
                assert(m.writes[0] == q.take(n));
                assert(m.writes.drop_first() =~= rest.writes);
                assert(concat_all(m.writes) == q.take(n) + concat_all(rest.writes));
                assert((q.take(n) + concat_all(rest.writes)) + rest.queue =~= q.take(n) + (
                concat_all(rest.writes) + rest.queue));
                assert(q.take(n) + q.skip(n) =~= q);
            },
        }
    }
}

/// Law: a drain reports completion only when its exit condition holds of
/// the queue it leaves, and reports an exhausted script only while the
/// condition still fails. In particular `ready` never returns completed
/// while the queue holds at least the high-water mark, and `flush` never
/// returns completed while a sample is still queued.
pub proof fn lemma_drain_status<S>(q: Seq<S>, goal: DrainGoal, script: Seq<DeviceStep>)
    ensures
        drain_model(q, goal, script).status == DrainStatus::Completed ==> goal_met(
            goal,
            drain_model(q, goal, script).queue,
        ),
        drain_model(q, goal, script).status == DrainStatus::Exhausted ==> !goal_met(
            goal,
            drain_model(q, goal, script).queue,
        ),
    decreases script.len(),
{
    if goal_met(goal, q) {
    } else if script.len() == 0 {
    } else {
        match script[0] {
            DeviceStep::NotReady => {
                lemma_drain_status(q, goal, script.drop_first());
            },
            DeviceStep::Fault => {
            },
            DeviceStep::Accept(avail) => {
                let n = crate::writer::write_quota(avail as int, q.len() as int);
                lemma_drain_status(q.skip(n), goal, script.drop_first());
            },
        }
    }
}

/// The write calls of a drain hold as many samples together as their
/// sizes sum to.
pub proof fn lemma_concat_all_len<S>(chunks: Seq<Seq<S>>)
    ensures
        concat_all(chunks).len() == total_len(chunks),
    decreases chunks.len(),
{
    if chunks.len() == 0 {
    } else {
        lemma_concat_all_len(chunks.drop_first());
    }
}

/// Law: when a flush completes, the device has received exactly the
/// samples that were queued, in the order they were enqueued, partitioned
/// into write calls whose sizes sum to the queued count, and the queue is
/// empty.
pub proof fn lemma_flush_delivers_all<S>(q: Seq<S>, script: Seq<DeviceStep>)
    requires
        drain_model(q, DrainGoal::Empty, script).status == DrainStatus::Completed,
    ensures
        concat_all(drain_model(q, DrainGoal::Empty, script).writes) == q,
        total_len(drain_model(q, DrainGoal::Empty, script).writes) == q.len(),
        drain_model(q, DrainGoal::Empty, script).queue == Seq::<S>::empty(),
{
    let m = drain_model(q, DrainGoal::Empty, script);
    lemma_drain_status(q, DrainGoal::Empty, script);
    lemma_drain_preserves_order(q, DrainGoal::Empty, script);
    lemma_concat_all_len(m.writes);
    assert(m.queue =~= Seq::<S>::empty());
    assert(concat_all(m.writes) =~= q);
}

/// Law: `ready` never reports completion while the queue still holds at
/// least the high-water mark of samples.
pub proof fn lemma_ready_respects_high_water<S>(q: Seq<S>, script: Seq<DeviceStep>)
    requires
        drain_model(q, DrainGoal::BelowHighWater, script).status == DrainStatus::Completed,
    ensures
        drain_model(q, DrainGoal::BelowHighWater, script).queue.len() < HIGH_WATER_MARK,
{
    lemma_drain_status(q, DrainGoal::BelowHighWater, script);
}

/// Law: a write cycle that consumes zero samples — an output-ready wakeup
/// on a device with no room — removes nothing from the queue and is not
/// treated as an error: the rest of the drain proceeds exactly as if the
/// cycle had not happened, apart from the empty write call and the cycle
/// spent waiting.
pub proof fn lemma_zero_write_cycle_harmless<S>(q: Seq<S>, goal: DrainGoal, script: Seq<DeviceStep>)
    requires
        script.len() > 0,
        script[0] == DeviceStep::Accept(0),
        !goal_met(goal, q),
    ensures
        drain_model(q, goal, script).queue == drain_model(q, goal, script.drop_first()).queue,
        drain_model(q, goal, script).status == drain_model(q, goal, script.drop_first()).status,
        drain_model(q, goal, script).writes == seq![Seq::<S>::empty()] + drain_model(
            q,
            goal,
            script.drop_first(),
        ).writes,
        drain_model(q, goal, script).cycles == drain_model(q, goal, script.drop_first()).cycles + 1,
{
    assert(q.skip(0) =~= q);
    assert(q.take(0) =~= Seq::<S>::empty());
}

/// Law: a drain whose exit condition already holds issues no write call,
/// spends no write cycle, and leaves the queue untouched — in particular
/// a `close` on an empty queue returns immediately.
pub proof fn lemma_drain_immediate<S>(q: Seq<S>, goal: DrainGoal, script: Seq<DeviceStep>)
    requires
        goal_met(goal, q),
    ensures
        drain_model(q, goal, script).writes == Seq::<Seq<S>>::empty(),
        drain_model(q, goal, script).queue == q,
        drain_model(q, goal, script).status == DrainStatus::Completed,
        drain_model(q, goal, script).cycles == 0,
{
}

} // verus!
