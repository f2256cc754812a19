//! A room: one bounded publication log shared by all of its subscribers.
//!
//! Every published event gets the next position in the room's history. The
//! room keeps only the newest `capacity` events; a subscriber is a cursor into
//! the history. A subscriber whose cursor has fallen behind the oldest kept
//! event is told how many events it lost and then resumes at that event.
//!
//! The log is plain data behind `&mut`: publishing never waits for anybody,
//! and what each subscriber is handed, in which order and after which loss,
//! is proved here rather than taken on trust from a channel. Waking the
//! tasks that wait for news is the surrounding program's part.

use crate::schemas::{Delivery, DeliveryView, MessagePayload, PayloadView};
use vstd::prelude::*;

verus! {

/// The mathematical model of a room.
pub struct RoomView {
    /// How many events the room keeps for slow subscribers.
    pub capacity: nat,
    /// Every event published so far, oldest first.
    pub history: Seq<PayloadView>,
    /// One entry per subscriber slot: the history position the subscriber
    /// reads next, or `None` for a free slot.
    pub cursors: Seq<Option<u64>>,
}

/// The number of occupied slots.
pub open spec fn live(cursors: Seq<Option<u64>>) -> nat
    decreases cursors.len(),
{
    if cursors.len() == 0 {
        0
    } else {
        live(cursors.drop_last()) + if cursors.last() is Some {
            1nat
        } else {
            0nat
        }
    }
}

/// `slot` is the lowest free slot of `cursors`, or its length if none is free.
pub open spec fn first_free(cursors: Seq<Option<u64>>, slot: int) -> bool {
    &&& 0 <= slot <= cursors.len()
    &&& forall|j: int| 0 <= j < slot ==> (#[trigger] cursors[j]) is Some
    &&& slot < cursors.len() ==> cursors[slot] is None
}

impl RoomView {
    /// Position of the oldest event that is still kept.
    pub open spec fn oldest(self) -> int {
        if self.history.len() > self.capacity {
            self.history.len() - self.capacity
        } else {
            0
        }
    }

    /// Whether `slot` holds a subscriber.
    pub open spec fn subscribed(self, slot: int) -> bool {
        0 <= slot < self.cursors.len() && self.cursors[slot] is Some
    }

    /// The position that the subscriber in `slot` reads next.
    pub open spec fn cursor(self, slot: int) -> int
        recommends
            self.subscribed(slot),
    {
        self.cursors[slot]->0 as int
    }

    /// How many events the subscriber in `slot` has lost unseen.
    pub open spec fn lag(self, slot: int) -> int
        recommends
            self.subscribed(slot),
    {
        if self.cursor(slot) < self.oldest() {
            self.oldest() - self.cursor(slot)
        } else {
            0
        }
    }

    /// The events that the subscriber in `slot` can still receive, in order.
    pub open spec fn pending(self, slot: int) -> Seq<PayloadView>
        recommends
            self.subscribed(slot),
    {
        if self.cursor(slot) < self.oldest() {
            self.history.subrange(self.oldest(), self.history.len() as int)
        } else {
            self.history.subrange(self.cursor(slot), self.history.len() as int)
        }
    }

    /// The number of subscribers.
    pub open spec fn subscribers(self) -> nat {
        live(self.cursors)
    }

    /// Cursors never run ahead of the history, and positions fit in 64 bits.
    pub open spec fn wf(self) -> bool {
        &&& self.history.len() <= u64::MAX
        &&& forall|slot: int|
            0 <= slot < self.cursors.len() && (#[trigger] self.cursors[slot]) is Some
                ==> self.cursors[slot]->0 <= self.history.len()
    }

    /// The room after `event` was published.
    pub open spec fn publish(self, event: PayloadView) -> RoomView {
        RoomView { history: self.history.push(event), ..self }
    }

    /// The room after a new subscriber took `slot`: it starts at the end of
    /// the history, so it sees exactly what is published from now on.
    pub open spec fn subscribe(self, slot: int) -> RoomView {
        let start = Some(self.history.len() as u64);
        RoomView {
            cursors: if slot == self.cursors.len() {
                self.cursors.push(start)
            } else {
                self.cursors.update(slot, start)
            },
            ..self
        }
    }

    /// The room after the subscriber in `slot` left.
    pub open spec fn unsubscribe(self, slot: int) -> RoomView {
        RoomView { cursors: self.cursors.update(slot, None), ..self }
    }

    /// What the subscriber in `slot` is handed next.
    pub open spec fn next(self, slot: int) -> DeliveryView {
        if !self.subscribed(slot) {
            DeliveryView::Closed
        } else if self.cursor(slot) < self.oldest() {
            DeliveryView::Lagged((self.oldest() - self.cursor(slot)) as u64)
        } else if self.cursor(slot) < self.history.len() {
            DeliveryView::Message(self.history[self.cursor(slot)])
        } else {
            DeliveryView::Empty
        }
    }

    /// The room after the subscriber in `slot` was handed `self.next(slot)`.
    pub open spec fn advance(self, slot: int) -> RoomView {
        if !self.subscribed(slot) {
            self
        } else if self.cursor(slot) < self.oldest() {
            RoomView { cursors: self.cursors.update(slot, Some(self.oldest() as u64)), ..self }
        } else if self.cursor(slot) < self.history.len() {
            RoomView {
                cursors: self.cursors.update(slot, Some((self.cursor(slot) + 1) as u64)),
                ..self
            }
        } else {
            self
        }
    }
}

impl RoomView {
    /// The room after the subscriber in `slot` took `count` deliveries.
    pub open spec fn after(self, slot: int, count: nat) -> RoomView
        decreases count,
    {
        if count == 0 {
            self
        } else {
            self.advance(slot).after(slot, (count - 1) as nat)
        }
    }

    /// The next `count` deliveries of the subscriber in `slot`, in order.
    pub open spec fn drain(self, slot: int, count: nat) -> Seq<DeliveryView>
        decreases count,
    {
        if count == 0 {
            Seq::empty()
        } else {
            seq![self.next(slot)] + self.advance(slot).drain(slot, (count - 1) as nat)
        }
    }
}

impl RoomView {
    /// The room after `events` were published, one after the other.
    pub open spec fn publish_all(self, events: Seq<PayloadView>) -> RoomView
        decreases events.len(),
    {
        if events.len() == 0 {
            self
        } else {
            self.publish_all(events.drop_last()).publish(events.last())
        }
    }
}

/// The lowest free slot of `cursors`, or its length if none is free.
pub open spec fn lowest_free(cursors: Seq<Option<u64>>) -> int
    decreases cursors.len(),
{
    if cursors.len() == 0 {
        0
    } else if cursors[0] is None {
        0
    } else {
        1 + lowest_free(cursors.drop_first())
    }
}

/// The deliveries that hand over `events` one by one.
pub open spec fn as_messages(events: Seq<PayloadView>) -> Seq<DeliveryView> {
    Seq::new(events.len(), |i: int| DeliveryView::Message(events[i]))
}

/// Changing one slot changes the number of occupied slots by what the slot
/// held before and holds after.
pub proof fn lemma_live_update(cursors: Seq<Option<u64>>, slot: int, entry: Option<u64>)
    requires
        0 <= slot < cursors.len(),
    ensures
        live(cursors.update(slot, entry)) + (if cursors[slot] is Some {
            1nat
        } else {
            0nat
        }) == live(cursors) + (if entry is Some {
            1nat
        } else {
            0nat
        }),
    decreases cursors.len(),
{
    if slot == cursors.len() - 1 {
        assert(cursors.update(slot, entry).drop_last() =~= cursors.drop_last());
    } else {
        lemma_live_update(cursors.drop_last(), slot, entry);
        assert(cursors.update(slot, entry).drop_last() =~= cursors.drop_last().update(
            slot,
            entry,
        ));
    }
}

/// A new slot at the end counts if it is occupied.
pub proof fn lemma_live_push(cursors: Seq<Option<u64>>, entry: Option<u64>)
    ensures
        live(cursors.push(entry)) == live(cursors) + (if entry is Some {
            1nat
        } else {
            0nat
        }),
{
    assert(cursors.push(entry).drop_last() =~= cursors);
}

/// There are no more subscribers than slots.
pub proof fn lemma_live_bound(cursors: Seq<Option<u64>>)
    ensures
        live(cursors) <= cursors.len(),
    decreases cursors.len(),
{
    if cursors.len() > 0 {
        lemma_live_bound(cursors.drop_last());
    }
}

/// Taking a delivery neither adds nor removes a subscriber.
pub proof fn lemma_advance_keeps_subscribers(room: RoomView, slot: int)
    ensures
        room.advance(slot).subscribers() == room.subscribers(),
{
    if room.subscribed(slot) {
        if room.cursor(slot) < room.oldest() {
            lemma_live_update(room.cursors, slot, Some(room.oldest() as u64));
        } else if room.cursor(slot) < room.history.len() {
            lemma_live_update(room.cursors, slot, Some((room.cursor(slot) + 1) as u64));
        }
    }
}

/// `lowest_free` is the lowest free slot.
pub proof fn lemma_lowest_free(cursors: Seq<Option<u64>>)
    ensures
        first_free(cursors, lowest_free(cursors)),
    decreases cursors.len(),
{
    if cursors.len() > 0 && cursors[0] is Some {
        let rest = cursors.drop_first();
        lemma_lowest_free(rest);
        assert forall|j: int| 0 <= j < lowest_free(cursors) implies (#[trigger] cursors[j])
            is Some by {
            if j > 0 {
                assert(cursors[j] == rest[j - 1]);
            }
        }
        if lowest_free(rest) < rest.len() {
            assert(cursors[lowest_free(cursors)] == rest[lowest_free(rest)]);
        }
    }
}

/// There is only one lowest free slot.
pub proof fn lemma_first_free_unique(cursors: Seq<Option<u64>>, one: int, other: int)
    requires
        first_free(cursors, one),
        first_free(cursors, other),
    ensures
        one == other,
{
    if one < other {
        assert(cursors[one] is Some);
    }
    if other < one {
        assert(cursors[other] is Some);
    }
}

/// A consistent room stays consistent when a subscriber takes the lowest
/// free slot, and has one subscriber more.
pub proof fn lemma_subscribe_keeps_wf(room: RoomView, slot: int)
    requires
        room.wf(),
        first_free(room.cursors, slot),
    ensures
        room.subscribe(slot).wf(),
        room.subscribe(slot).subscribers() == room.subscribers() + 1,
        room.subscribe(slot).subscribed(slot),
{
    let start = Some(room.history.len() as u64);
    if slot == room.cursors.len() {
        lemma_live_push(room.cursors, start);
    } else {
        lemma_live_update(room.cursors, slot, start);
    }
}

/// A consistent room stays consistent when a subscriber leaves, and has one
/// subscriber less.
pub proof fn lemma_unsubscribe_keeps_wf(room: RoomView, slot: int)
    requires
        room.wf(),
        room.subscribed(slot),
    ensures
        room.unsubscribe(slot).wf(),
        room.unsubscribe(slot).subscribers() + 1 == room.subscribers(),
{
    lemma_live_update(room.cursors, slot, None);
}

/// A consistent room with positions to spare stays consistent when an event
/// is published, and keeps its subscribers.
pub proof fn lemma_publish_keeps_wf(room: RoomView, event: PayloadView)
    requires
        room.wf(),
        room.history.len() < u64::MAX,
    ensures
        room.publish(event).wf(),
        room.publish(event).subscribers() == room.subscribers(),
{
}

/// A consistent room stays consistent when a subscriber takes a delivery.
pub proof fn lemma_advance_keeps_wf(room: RoomView, slot: int)
    requires
        room.wf(),
    ensures
        room.advance(slot).wf(),
        room.advance(slot).subscribers() == room.subscribers(),
{
    lemma_advance_keeps_subscribers(room, slot);
}

/// Publishing events one after the other appends them to the history and
/// changes nothing else.
pub proof fn lemma_publish_all(room: RoomView, events: Seq<PayloadView>)
    ensures
        room.publish_all(events).history == room.history + events,
        room.publish_all(events).cursors == room.cursors,
        room.publish_all(events).capacity == room.capacity,
    decreases events.len(),
{
    if events.len() == 0 {
        assert(room.history + events =~= room.history);
    } else {
        lemma_publish_all(room, events.drop_last());
        assert(room.history + events =~= (room.history + events.drop_last()).push(events.last()));
    }
}

/// One fan-out channel with a bounded log and any number of subscribers.
pub struct Room {
    capacity: usize,
    retained: Vec<MessagePayload>,
    published: u64,
    cursors: Vec<Option<u64>>,
    active: usize,
    history: Ghost<Seq<PayloadView>>,
}

impl View for Room {
    type V = RoomView;

    closed spec fn view(&self) -> RoomView {
        RoomView {
            capacity: self.capacity as nat,
            history: self.history@,
            cursors: self.cursors@,
        }
    }
}

impl Room {
    /// The representation agrees with the model: the room holds exactly the
    /// newest `capacity` events of its history and counts its subscribers.
    pub closed spec fn wf(&self) -> bool {
        &&& self@.wf()
        &&& self.published as nat == self.history@.len()
        &&& self.retained@.len() == self.history@.len() - self@.oldest()
        &&& forall|i: int|
            0 <= i < self.retained@.len() ==> (#[trigger] self.retained@[i])@
                == self.history@[self@.oldest() + i]
        &&& self.active as nat == live(self.cursors@)
    }

    /// The model of a consistent room is consistent.
    pub proof fn lemma_view_wf(&self)
        requires
            self.wf(),
        ensures
            self@.wf(),
    {
    }

    /// An empty room that keeps at most `capacity` events for slow subscribers.
    pub fn new(capacity: usize) -> (room: Room)
        ensures
            room.wf(),
            room@.capacity == capacity,
            room@.history == Seq::<PayloadView>::empty(),
            room@.cursors == Seq::<Option<u64>>::empty(),
    {
        let room = Room {
            capacity,
            retained: Vec::new(),
            published: 0,
            cursors: Vec::new(),
            active: 0,
            history: Ghost(Seq::empty()),
        };
        room
    }

    /// How many events the room keeps.
    pub fn capacity(&self) -> (capacity: usize)
        ensures
            capacity == self@.capacity,
    {
        self.capacity
    }

    /// The number of live subscribers.
    pub fn subscriber_count(&self) -> (count: usize)
        requires
            self.wf(),
        ensures
            count == self@.subscribers(),
    {
        self.active
    }

    /// How many events were published since the room was created.
    pub fn published(&self) -> (count: u64)
        requires
            self.wf(),
        ensures
            count == self@.history.len(),
    {
        self.published
    }

    /// Adds a subscriber in the lowest free slot and returns that slot. The
    /// subscriber will be handed every event published after this call.
    pub fn subscribe(&mut self) -> (slot: usize)
        requires
            old(self).wf(),
        ensures
            final(self).wf(),
            first_free(old(self)@.cursors, slot as int),
            final(self)@ == old(self)@.subscribe(slot as int),
            final(self)@.subscribers() == old(self)@.subscribers() + 1,
    {
        let mut slot: usize = 0;
        while slot < self.cursors.len() && self.cursors[slot].is_some()
            invariant
                slot <= self.cursors.len(),
                forall|j: int| 0 <= j < slot ==> (#[trigger] self.cursors@[j]) is Some,
            decreases self.cursors.len() - slot,
        {
            slot += 1;
        }
        let start = Some(self.published);
        proof {
            lemma_live_bound(self.cursors@);
        }
        if slot < self.cursors.len() {
            proof {
                lemma_live_update(self.cursors@, slot as int, start);
            }
            self.cursors.set(slot, start);
        } else {
            proof {
                lemma_live_push(self.cursors@, start);
            }
            self.cursors.push(start);
        }
        let slots = self.cursors.len();
        proof {
            lemma_live_bound(self.cursors@);
        }
        self.active = self.active + 1;
        slot
    }

    /// Removes the subscriber in `slot`. Returns whether there was one.
    pub fn unsubscribe(&mut self, slot: usize) -> (left: bool)
        requires
            old(self).wf(),
        ensures
            final(self).wf(),
            left == old(self)@.subscribed(slot as int),
            left ==> final(self)@ == old(self)@.unsubscribe(slot as int),
            left ==> final(self)@.subscribers() + 1 == old(self)@.subscribers(),
            !left ==> final(self)@ == old(self)@,
    {
        if slot < self.cursors.len() && self.cursors[slot].is_some() {
            proof {
                lemma_live_update(self.cursors@, slot as int, None);
            }
            self.cursors.set(slot, None);
            self.active = self.active - 1;
            true
        } else {
            false
        }
    }

    /// Publishes `event` to every subscriber. The call never waits for a
    /// subscriber: when the log is full, the oldest kept event is discarded.
    /// Returns `false`, and changes nothing, only when the room has used up
    /// all 64-bit positions.
    pub fn publish(&mut self, event: MessagePayload) -> (accepted: bool)
        requires
            old(self).wf(),
        ensures
            final(self).wf(),
            accepted == (old(self)@.history.len() < u64::MAX),
            accepted ==> final(self)@ == old(self)@.publish(event@),
            !accepted ==> final(self)@ == old(self)@,
    {
        if self.published == u64::MAX {
            return false;
        }
        let ghost before = self@;
        let ghost after = before.publish(event@);
        self.retained.push(event);
        if self.retained.len() > self.capacity {
            self.retained.remove(0);
        }
        self.published = self.published + 1;
        self.history = Ghost(after.history);
        assert(self@ == after);
        true
    }

    /// Hands the subscriber in `slot` its next delivery and moves its cursor:
    /// the oldest event it has not seen; or, if events it had not seen were
    /// discarded, their number, after which it resumes at the oldest kept
    /// event; or `Empty` when it has seen everything; or `Closed` when the
    /// slot holds no subscriber.
    pub fn receive(&mut self, slot: usize) -> (delivery: Delivery)
        requires
            old(self).wf(),
        ensures
            final(self).wf(),
            delivery@ == old(self)@.next(slot as int),
            final(self)@ == old(self)@.advance(slot as int),
    {
        if slot >= self.cursors.len() {
            return Delivery::Closed;
        }
        match self.cursors[slot] {
            None => Delivery::Closed,
            Some(cursor) => {
                let kept: u64 = self.retained.len() as u64;
                let oldest: u64 = self.published - kept;
                if cursor < oldest {
                    proof {
                        lemma_live_update(self.cursors@, slot as int, Some(oldest));
                    }
                    self.cursors.set(slot, Some(oldest));
                    Delivery::Lagged(oldest - cursor)
                } else if cursor < self.published {
                    let index: usize = (cursor - oldest) as usize;
                    let event = self.retained[index].clone();
                    proof {
                        lemma_live_update(self.cursors@, slot as int, Some((cursor + 1) as u64));
                    }
                    self.cursors.set(slot, Some(cursor + 1));
                    Delivery::Message(event)
                } else {
                    Delivery::Empty
                }
            },
        }
    }
}

/// A subscriber that has lost nothing receives exactly its pending events,
/// each once and in publication order, and then finds the room empty.
pub proof fn lemma_drain_delivers_pending(room: RoomView, slot: int)
    requires
        room.wf(),
        room.subscribed(slot),
        room.lag(slot) == 0,
    ensures
        room.drain(slot, room.pending(slot).len()) == as_messages(room.pending(slot)),
        room.after(slot, room.pending(slot).len()).next(slot) == DeliveryView::Empty,
        room.after(slot, room.pending(slot).len()).history == room.history,
    decreases room.pending(slot).len(),
{
    let pending = room.pending(slot);
    if pending.len() == 0 {
        assert(room.drain(slot, 0) =~= as_messages(pending));
    } else {
        let rest = room.advance(slot);
        assert(rest.pending(slot) =~= pending.drop_first());
        lemma_drain_delivers_pending(rest, slot);
        assert(room.drain(slot, pending.len()) =~= as_messages(pending));
    }
}

/// Fan-out completeness. An event published while a subscriber is connected
/// and has room for it is added to the end of what that subscriber will
/// receive: draining the subscriber then yields what was pending before,
/// followed by the new event exactly once, and nothing else.
pub proof fn lemma_fan_out_complete(room: RoomView, event: PayloadView, slot: int)
    requires
        room.wf(),
        room.history.len() < u64::MAX,
        room.subscribed(slot),
        room.lag(slot) == 0,
        room.pending(slot).len() < room.capacity,
    ensures
        room.publish(event).subscribed(slot),
        room.publish(event).lag(slot) == 0,
        room.publish(event).pending(slot) == room.pending(slot).push(event),
        room.publish(event).drain(slot, room.pending(slot).len() + 1) == as_messages(
            room.pending(slot).push(event),
        ),
        room.publish(event).after(slot, room.pending(slot).len() + 1).next(slot)
            == DeliveryView::Empty,
{
    let published = room.publish(event);
    assert(published.pending(slot) =~= room.pending(slot).push(event));
    lemma_drain_delivers_pending(published, slot);
}

/// Whatever state its subscribers are in, an event published to a room that
/// keeps at least one event is the last thing each of them has pending.
pub proof fn lemma_publish_reaches_every_subscriber(
    room: RoomView,
    event: PayloadView,
    slot: int,
)
    requires
        room.wf(),
        room.subscribed(slot),
        room.capacity > 0,
    ensures
        room.publish(event).subscribed(slot),
        room.publish(event).pending(slot).len() > 0,
        room.publish(event).pending(slot).last() == event,
{
}

/// Lag safety. A subscriber that fell behind is told exactly how many events
/// it lost, keeps its subscription, loses nothing further by being told, and
/// then resumes with the oldest event that the room still holds.
pub proof fn lemma_lag_reported_then_resumes(room: RoomView, slot: int)
    requires
        room.wf(),
        room.subscribed(slot),
        room.lag(slot) > 0,
    ensures
        room.next(slot) == DeliveryView::Lagged(room.lag(slot) as u64),
        room.lag(slot) + room.pending(slot).len() == room.history.len() - room.cursor(slot),
        room.advance(slot).subscribed(slot),
        room.advance(slot).lag(slot) == 0,
        room.advance(slot).pending(slot) == room.pending(slot),
        room.pending(slot).len() > 0 ==> room.advance(slot).next(slot) == DeliveryView::Message(
            room.pending(slot)[0],
        ),
        room.advance(slot).wf(),
{
    assert(room.advance(slot).pending(slot) =~= room.pending(slot));
}

/// A new subscriber misses nothing that is published after it subscribed:
/// the next event published is the first thing it has pending.
pub proof fn lemma_subscriber_sees_later_events(room: RoomView, slot: int, event: PayloadView)
    requires
        room.wf(),
        room.history.len() < u64::MAX,
        first_free(room.cursors, slot),
        room.capacity > 0,
    ensures
        room.subscribe(slot).subscribed(slot),
        room.subscribe(slot).pending(slot) == Seq::<PayloadView>::empty(),
        room.subscribe(slot).publish(event).pending(slot) == seq![event],
        room.subscribe(slot).publish(event).lag(slot) == 0,
{
    let joined = room.subscribe(slot);
    assert(joined.pending(slot) =~= Seq::<PayloadView>::empty());
    assert(joined.publish(event).pending(slot) =~= seq![event]);
}

/// One order for all. What any two subscribers of a room have pending are
/// both ends of the same history: the shorter is the end of the longer, so
/// no two subscribers ever see two events in different orders.
pub proof fn lemma_subscribers_agree_on_order(room: RoomView, first: int, second: int)
    requires
        room.wf(),
        room.subscribed(first),
        room.subscribed(second),
        room.pending(first).len() <= room.pending(second).len(),
    ensures
        room.pending(first) == room.pending(second).skip(
            room.pending(second).len() - room.pending(first).len(),
        ),
{
    assert(room.pending(first) =~= room.pending(second).skip(
        room.pending(second).len() - room.pending(first).len(),
    ));
}

/// Nothing is missed while history is fetched. Whatever is published after
/// a subscriber joined, and before it takes its first delivery, is exactly
/// what it then has pending, in order, as long as the room can keep that
/// many events.
pub proof fn lemma_nothing_missed_after_subscribing(
    room: RoomView,
    slot: int,
    events: Seq<PayloadView>,
)
    requires
        room.wf(),
        first_free(room.cursors, slot),
        room.history.len() + events.len() <= u64::MAX,
        events.len() <= room.capacity,
    ensures
        room.subscribe(slot).publish_all(events).subscribed(slot),
        room.subscribe(slot).publish_all(events).lag(slot) == 0,
        room.subscribe(slot).publish_all(events).pending(slot) == events,
{
    let joined = room.subscribe(slot);
    lemma_publish_all(joined, events);
    let after = joined.publish_all(events);
    assert(after.cursor(slot) == room.history.len());
    assert(after.pending(slot) =~= events);
}

/// Taking a delivery changes only the cursor of the subscriber that took it.
pub proof fn lemma_receive_leaves_others(room: RoomView, slot: int, other: int)
    requires
        room.wf(),
        room.subscribed(other),
        other != slot,
    ensures
        room.advance(slot).subscribed(other),
        room.advance(slot).cursor(other) == room.cursor(other),
        room.advance(slot).pending(other) == room.pending(other),
        room.advance(slot).history == room.history,
{
}

} // verus!
