//! Inter-task communication primitives: bounded FIFO queues and latest-value
//! signals, plus the process-wide event bus built from them.
//!
//! A bounded queue never drops a message silently: a write to a full queue is
//! refused and the writer is expected to suspend and retry once a reader has
//! drained an entry (cooperative backpressure). A latest-value signal holds at
//! most one unread value; a new write overwrites an unread prior value, so a
//! consumer observes only the most recent write, never a history.

use vstd::prelude::*;

use crate::led::LedCmd;
use crate::protocol::{MoveCmd, SensorCmd, SystemError, Telemetry};

verus! {

/// Capacity of every bounded queue on the event bus.
pub const QUEUE_CAPACITY: usize = 10;

/// What a bounded queue holds after one attempted write: the value is appended
/// when there is room, and the queue is left intact when it is full.
pub open spec fn send_model<T>(q: Seq<T>, cap: nat, v: T) -> Seq<T> {
    if q.len() < cap {
        q.push(v)
    } else {
        q
    }
}

/// Whether one attempted write to a bounded queue is accepted.
pub open spec fn send_accepted<T>(q: Seq<T>, cap: nat) -> bool {
    q.len() < cap
}

/// What a bounded queue holds after one read: the front entry leaves first.
pub open spec fn receive_model<T>(q: Seq<T>) -> Seq<T> {
    q.drop_first()
}

/// A fixed-capacity FIFO queue.
pub struct BoundedQueue<T> {
    items: Vec<T>,
    cap: usize,
}

impl<T> BoundedQueue<T> {
    /// The sequence of queued values, front first.
    pub closed spec fn view(&self) -> Seq<T> {
        self.items@
    }

    /// The capacity the queue was created with.
    pub closed spec fn cap(&self) -> nat {
        self.cap as nat
    }

    /// The queue never holds more than its capacity.
    pub closed spec fn wf(&self) -> bool {
        self.items@.len() <= self.cap
    }

    /// Creates an empty queue of the given capacity.
    pub fn new(cap: usize) -> (q: BoundedQueue<T>)
        requires
            cap >= 1,
        ensures
            q.wf(),
            q@ == Seq::<T>::empty(),
            q.cap() == cap,
    {
        BoundedQueue { items: Vec::new(), cap }
    }

    /// How many values are queued.
    pub fn len(&self) -> (n: usize)
        ensures
            n == self@.len(),
    {
        self.items.len()
    }

    /// Whether a write would be refused right now.
    pub fn is_full(&self) -> (r: bool)
        ensures
            r == !send_accepted(self@, self.cap()),
    {
        self.items.len() >= self.cap
    }

    /// Whether a read would find nothing right now.
    pub fn is_empty(&self) -> (r: bool)
        ensures
            r == (self@.len() == 0),
    {
        self.items.len() == 0
    }

    /// Attempts one write. The value is appended at the back when there is
    /// room; a full queue refuses the write and keeps its contents, so the
    /// writer can suspend and retry — nothing is ever dropped silently.
    pub fn try_send(&mut self, v: T) -> (accepted: bool)
        requires
            old(self).wf(),
        ensures
            final(self).wf(),
            final(self).cap() == old(self).cap(),
            accepted == send_accepted(old(self)@, old(self).cap()),
            final(self)@ == send_model(old(self)@, old(self).cap(), v),
    {
        if self.items.len() < self.cap {
            self.items.push(v);
            true
        } else {
            false
        }
    }

    /// Attempts one read: takes the front entry, oldest first, or reports an
    /// empty queue.
    pub fn try_receive(&mut self) -> (r: Option<T>)
        requires
            old(self).wf(),
        ensures
            final(self).wf(),
            final(self).cap() == old(self).cap(),
            old(self)@.len() == 0 ==> r is None && final(self)@ == old(self)@,
            old(self)@.len() > 0 ==> r == Some(old(self)@.first()) && final(self)@
                == receive_model(old(self)@),
    {
        if self.items.len() == 0 {
            None
        } else {
            let v = self.items.remove(0);
            proof {
                assert(final(self)@ =~= old(self)@.drop_first());
            }
            Some(v)
        }
    }
}

/// A latest-value signal: a single-slot mailbox whose writes overwrite any
/// unread prior value.
pub struct LatestSignal<T> {
    slot: Option<T>,
}

/// What the slot holds after one write: exactly the new value, whatever was
/// there before.
pub open spec fn signal_model<T>(s: Option<T>, v: T) -> Option<T> {
    Some(v)
}

impl<T> LatestSignal<T> {
    /// The unread value, if any.
    pub closed spec fn view(&self) -> Option<T> {
        self.slot
    }

    /// Creates an empty signal.
    pub fn new() -> (s: LatestSignal<T>)
        ensures
            s@ is None,
    {
        LatestSignal { slot: None }
    }

    /// Writes a value, overwriting any unread prior value. Never suspends.
    pub fn signal(&mut self, v: T)
        ensures
            final(self)@ == signal_model(old(self)@, v),
    {
        self.slot = Some(v);
    }

    /// Whether an unread value is pending.
    pub fn signaled(&self) -> (r: bool)
        ensures
            r == (self@ is Some),
    {
        self.slot.is_some()
    }

    /// Takes the unread value, leaving the slot empty; reports when no write
    /// has arrived since the last take.
    pub fn try_take(&mut self) -> (r: Option<T>)
        ensures
            r == old(self)@,
            final(self)@ is None,
    {
        self.slot.take()
    }
}

/// Law: writes to a latest-value signal coalesce. After writing `v1`, `v2`,
/// `v3` with no take in between, the slot holds exactly `v3`; a consumer that
/// then waits observes only the most recent write, never a history.
pub proof fn lemma_signal_coalescing<T>(s0: Option<T>, v1: T, v2: T, v3: T)
    ensures
        signal_model(signal_model(signal_model(s0, v1), v2), v3) == Some(v3),
{
}

/// Law: a full bounded queue exerts backpressure instead of dropping. A write
/// to a full queue is refused and leaves every queued value in place; after a
/// reader drains one entry there is room again, and the retried write appends
/// the value — so no message is ever silently lost.
pub proof fn lemma_queue_backpressure<T>(q: Seq<T>, cap: nat, v: T)
    requires
        q.len() == cap,
        cap >= 1,
    ensures
        !send_accepted(q, cap),
        send_model(q, cap, v) == q,
        send_accepted(receive_model(q), cap),
        send_model(receive_model(q), cap, v) == receive_model(q).push(v),
        send_model(receive_model(q), cap, v).last() == v,
{
}

/// Law: a bounded queue is FIFO. Whatever is already queued, two accepted
/// writes land at the back in the order written, reads take everything that
/// was queued ahead of them first, and once those are drained the two values
/// come out in the order they went in.
pub proof fn lemma_queue_fifo<T>(q: Seq<T>, cap: nat, v1: T, v2: T)
    requires
        q.len() + 2 <= cap,
    ensures
        send_model(send_model(q, cap, v1), cap, v2) == q.push(v1).push(v2),
        q.push(v1).push(v2)[q.len() as int] == v1,
        q.push(v1).push(v2)[q.len() as int + 1] == v2,
        q.len() > 0 ==> receive_model(q.push(v1).push(v2)) == q.drop_first().push(v1).push(v2),
        q.len() == 0 ==> q.push(v1).push(v2).first() == v1 && receive_model(q.push(v1).push(v2))
            == seq![v2] && receive_model(seq![v2]).len() == 0,
{
    assert(q.push(v1).len() < cap);
    if q.len() > 0 {
        assert(receive_model(q.push(v1).push(v2)) =~= q.drop_first().push(v1).push(v2));
    } else {
        assert(q.push(v1).push(v2)[0] == v1);
        assert(receive_model(q.push(v1).push(v2)) =~= seq![v2]);
    }
}

/// The process-wide event bus: every queue and signal connecting the tasks,
/// created once at startup and passed to each task.
pub struct EventBus {
    /// Error reporting channel for inner system status updates.
    pub error_ch: BoundedQueue<SystemError>,
    /// Sensor subscription commands for the sensor polling task.
    pub sensor_cmd_ch: BoundedQueue<SensorCmd>,
    /// Telemetry readings on their way to the host.
    pub telemetry_ch: BoundedQueue<Telemetry>,
    /// LED control signal; the latest command wins.
    pub led_signal: LatestSignal<LedCmd>,
    /// Movement command signal; the latest command wins.
    pub move_signal: LatestSignal<MoveCmd>,
}

impl EventBus {
    /// All queues within capacity and of the configured capacity.
    pub open spec fn wf(&self) -> bool {
        &&& self.error_ch.wf() && self.error_ch.cap() == QUEUE_CAPACITY
        &&& self.sensor_cmd_ch.wf() && self.sensor_cmd_ch.cap() == QUEUE_CAPACITY
        &&& self.telemetry_ch.wf() && self.telemetry_ch.cap() == QUEUE_CAPACITY
    }

    /// Creates the bus with every queue empty and every signal clear.
    pub fn new() -> (bus: EventBus)
        ensures
            bus.wf(),
            bus.error_ch@ == Seq::<SystemError>::empty(),
            bus.sensor_cmd_ch@ == Seq::<SensorCmd>::empty(),
            bus.telemetry_ch@ == Seq::<Telemetry>::empty(),
            bus.led_signal@ is None,
            bus.move_signal@ is None,
    {
        EventBus {
            error_ch: BoundedQueue::new(QUEUE_CAPACITY),
            sensor_cmd_ch: BoundedQueue::new(QUEUE_CAPACITY),
            telemetry_ch: BoundedQueue::new(QUEUE_CAPACITY),
            led_signal: LatestSignal::new(),
            move_signal: LatestSignal::new(),
        }
    }
}

} // verus!
