//! The broadcast hub: one producer side, many independent subscribers.
//!
//! The hub keeps a monotonically growing log of published events and a
//! per-subscriber capacity. Each subscription is an independent cursor into
//! the log, starting at the moment of subscription, so no subscriber sees
//! events published before it subscribed. A read delivers the event at the
//! cursor, in publish order; a subscriber that has fallen more than the
//! capacity behind is told exactly how many events it missed — once — and
//! resumes normal delivery from the oldest event still within capacity. A
//! read past the end of the log reports that the hub was closed, or that
//! the subscriber must wait; publication itself can never fail observably.
//!
//! The hub is a value; callers that share it across tasks put it behind
//! their own lock and wake blocked readers themselves. Every contract here
//! is about one hub state at a time, which is what such a lock provides.

use vstd::prelude::*;
use crate::event::{Event, EventView};

verus! {

/// The hub: the event log, the per-subscriber capacity, and whether the hub
/// has been shut down.
pub struct Hub {
    events: Vec<Event>,
    capacity: usize,
    closed: bool,
}

/// A subscriber's handle: its independent cursor into the hub's log.
pub struct Subscription {
    next_index: usize,
}

/// What one read gives a subscriber.
#[derive(Debug)]
pub enum RecvOutcome {
    /// The next event, in publish order.
    Received { event: Event },
    /// The subscriber overflowed: exactly this many events were dropped for
    /// it, and delivery resumes with the next read.
    Lagged { missed: usize },
    /// Nothing is pending and the hub is still open: the caller must wait.
    Pending,
    /// Nothing is pending and the hub has been shut down.
    Closed,
}

impl Subscription {
    /// The index into the hub's log of the next event this subscriber is
    /// due.
    pub closed spec fn cursor(&self) -> nat {
        self.next_index as nat
    }

    /// A cursor never points past the log it reads.
    pub open spec fn valid_for(&self, hub: &Hub) -> bool {
        self.cursor() <= hub.log().len()
    }
}

impl Hub {
    /// The log of every event published so far, in publish order.
    pub closed spec fn log(&self) -> Seq<EventView> {
        self.events@.map_values(|e: Event| e@)
    }

    /// How far behind a subscriber may fall before events are dropped for
    /// it.
    pub closed spec fn cap(&self) -> nat {
        self.capacity as nat
    }

    /// Whether the hub has been shut down.
    pub closed spec fn is_closed(&self) -> bool {
        self.closed
    }

    /// A hub buffers at least one event per subscriber.
    pub open spec fn wf(&self) -> bool {
        self.cap() >= 1
    }

    /// The subscriber at `cursor` has fallen more than the capacity behind:
    /// events have been dropped for it.
    pub open spec fn lag_behind(&self, cursor: nat) -> bool {
        cursor + self.cap() < self.log().len()
    }

    /// How many events such a subscriber has missed for good.
    pub open spec fn missed_count(&self, cursor: nat) -> nat {
        (self.log().len() - self.cap() - cursor) as nat
    }

    /// Where its cursor stands once the gap has been reported: the oldest
    /// event still within capacity.
    pub open spec fn resume_cursor(&self) -> nat {
        (self.log().len() - self.cap()) as nat
    }

    /// Everything the subscriber at `cursor` is still due, absent overflow:
    /// the whole suffix of the log from its cursor on, in publish order.
    pub open spec fn due(&self, cursor: nat) -> Seq<EventView> {
        self.log().subrange(cursor as int, self.log().len() as int)
    }

    /// An open hub with an empty log and the given per-subscriber capacity.
    pub fn new(capacity: usize) -> (hub: Hub)
        requires
            capacity >= 1,
        ensures
            hub.wf(),
            hub.log() == Seq::<EventView>::empty(),
            hub.cap() == capacity,
            !hub.is_closed(),
    {
        let hub = Hub { events: Vec::new(), capacity, closed: false };
        proof {
            assert(hub.log() =~= Seq::<EventView>::empty());
        }
        hub
    }

    /// Publish an event: it is appended to the log, becoming due for every
    /// current subscriber and for no later one. Publication never fails and
    /// never blocks on any subscriber.
    pub fn publish(&mut self, event: Event)
        requires
            !old(self).is_closed(),
        ensures
            final(self).log() == old(self).log().push(event@),
            final(self).cap() == old(self).cap(),
            !final(self).is_closed(),
    {
        self.events.push(event);
        proof {
            assert(final(self).log() =~= old(self).log().push(event@));
        }
    }

    /// A new, independent subscription: its reads start from this moment,
    /// so nothing already published is ever due for it.
    pub fn subscribe(&self) -> (sub: Subscription)
        ensures
            sub.cursor() == self.log().len(),
            sub.valid_for(self),
    {
        Subscription { next_index: self.events.len() }
    }

    /// Shut the hub down: the log stops growing and every subscriber that
    /// has drained its suffix is told so instead of being left waiting.
    pub fn close(&mut self)
        ensures
            final(self).log() == old(self).log(),
            final(self).cap() == old(self).cap(),
            final(self).is_closed(),
    {
        self.closed = true;
    }

    /// One read for one subscriber. In order of precedence: a subscriber
    /// that overflowed is told exactly how many events it missed and its
    /// cursor jumps to the oldest event still within capacity; a subscriber
    /// with events due receives the one at its cursor, exactly once, in
    /// publish order; a drained subscriber learns that the hub is closed,
    /// or that it must wait. The cursor never moves backwards, so no event
    /// is ever delivered twice and nothing published before the
    /// subscription is ever delivered.
    pub fn next(&self, sub: &mut Subscription) -> (r: RecvOutcome)
        requires
            self.wf(),
            old(sub).valid_for(self),
        ensures
            final(sub).valid_for(self),
            final(sub).cursor() >= old(sub).cursor(),
            self.lag_behind(old(sub).cursor()) ==> (r matches RecvOutcome::Lagged { missed }
                && missed == self.missed_count(old(sub).cursor()) && final(sub).cursor()
                == self.resume_cursor()),
            !self.lag_behind(old(sub).cursor()) && old(sub).cursor() < self.log().len() ==> (
            r matches RecvOutcome::Received { event } && event@ == self.log()[old(
                sub,
            ).cursor() as int] && final(sub).cursor() == old(sub).cursor() + 1),
            old(sub).cursor() == self.log().len() ==> final(sub).cursor() == old(sub).cursor()
                && (if self.is_closed() {
                r is Closed
            } else {
                r is Pending
            }),
    {
        let len = self.events.len();
        if sub.next_index < len {
            let behind = len - sub.next_index;
            if behind > self.capacity {
                let resume = len - self.capacity;
                let missed = resume - sub.next_index;
                sub.next_index = resume;
                RecvOutcome::Lagged { missed }
            } else {
                let event = self.events[sub.next_index].duplicate();
                sub.next_index = sub.next_index + 1;
                RecvOutcome::Received { event }
            }
        } else {
            if self.closed {
                RecvOutcome::Closed
            } else {
                RecvOutcome::Pending
            }
        }
    }
}

/// Law: a publish reaches every subscriber present before it, exactly once
/// and in order. For any cursor standing at or before the end of the log at
/// publish time, what is due afterwards is exactly what was due before with
/// the published event appended — so each such subscriber receives it once,
/// after every event it was already due, and in the order published
/// relative to every other event.
pub proof fn lemma_publish_reaches_existing_subscribers(
    before: Hub,
    after: Hub,
    event: EventView,
    cursor: nat,
)
    requires
        after.log() == before.log().push(event),
        cursor <= before.log().len(),
    ensures
        after.due(cursor) == before.due(cursor).push(event),
        after.due(cursor)[after.due(cursor).len() - 1] == event,
{
    assert(after.due(cursor) =~= before.due(cursor).push(event));
}

/// Law: a subscriber created after a publish never receives that event. A
/// fresh subscription's cursor is the length of the log, so nothing already
/// published is due for it; and since the cursor never moves backwards, no
/// later read can reach an earlier index either.
pub proof fn lemma_late_subscriber_receives_nothing_prior(hub: Hub, cursor: nat)
    requires
        cursor == hub.log().len(),
    ensures
        hub.due(cursor) == Seq::<EventView>::empty(),
{
    assert(hub.due(cursor) =~= Seq::<EventView>::empty());
}

/// Law: delivery is in publish order, one event at a time. A subscriber
/// within capacity with events due receives the head of its due suffix, and
/// what remains due afterwards is exactly the tail: no event is skipped,
/// reordered, or repeated.
pub proof fn lemma_in_order_delivery(hub: Hub, cursor: nat)
    requires
        cursor < hub.log().len(),
    ensures
        hub.due(cursor).len() > 0,
        hub.due(cursor)[0] == hub.log()[cursor as int],
        hub.due(cursor + 1) == hub.due(cursor).drop_first(),
{
    assert(hub.due(cursor + 1) =~= hub.due(cursor).drop_first());
}

/// Law: an overflow is reported exactly once, and the gap is never silent.
/// An overflowed subscriber misses a positive number of events; at the
/// resumed cursor it is no longer behind, so the very next read delivers
/// normally; and the missed count plus what is still due accounts for every
/// event since its cursor — the subscriber can always tell exactly how much
/// it lost.
pub proof fn lemma_gap_reported_exactly_once(hub: Hub, cursor: nat)
    requires
        hub.wf(),
        hub.lag_behind(cursor),
    ensures
        hub.missed_count(cursor) > 0,
        !hub.lag_behind(hub.resume_cursor()),
        hub.resume_cursor() < hub.log().len(),
        hub.missed_count(cursor) + hub.due(hub.resume_cursor()).len() == hub.log().len() - cursor,
{
}

} // verus!
