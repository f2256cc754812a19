//! The registry: the rooms that currently have subscribers, by name.
//!
//! A room is created by the first subscriber that joins it and removed by the
//! last one that leaves, so a name is in the registry exactly while somebody
//! is subscribed to it. Every operation runs on `&mut self`: one caller at a
//! time, which makes "create or join" and "decrement to zero, then remove"
//! single steps. The surrounding program shares one registry among its
//! connections behind a lock.
//!
//! The rooms are kept in a `DashMap`, which is reached through four small
//! functions whose contracts are believed, not proved.

use crate::room::{
    first_free, lemma_advance_keeps_wf, lemma_first_free_unique, lemma_lowest_free,
    lemma_publish_keeps_wf, lemma_subscribe_keeps_wf, lemma_unsubscribe_keeps_wf, lowest_free, Room,
    RoomView,
};
use crate::schemas::{Delivery, DeliveryView, MessagePayload, PayloadView};
use dashmap::DashMap;
use vstd::prelude::*;

verus! {

/// `dashmap::DashMap`: a hash map. Nothing of its inside is known here; what
/// it holds goes by the name `rooms_of`.
#[verifier::external_type_specification]
#[verifier::external_body]
#[verifier::reject_recursive_types(K)]
#[verifier::reject_recursive_types(V)]
#[verifier::reject_recursive_types(S)]
pub struct ExDashMap<K, V, S>(DashMap<K, V, S>);

/// The rooms that a map holds, by name.
pub uninterp spec fn rooms_of(map: DashMap<String, Room>) -> Map<Seq<char>, Room>;

/// `DashMap::new`: a map that holds nothing.
#[verifier::external_body]
fn rooms_new() -> (rooms: DashMap<String, Room>)
    ensures
        rooms_of(rooms) == (Map::<Seq<char>, Room>::empty()),
{
    DashMap::new()
}

/// `DashMap::remove`: takes the entry under `name` out of the map and returns
/// its room, or returns `None` and leaves the map alone if there is none.
#[verifier::external_body]
fn rooms_take(map: &mut DashMap<String, Room>, name: &str) -> (room: Option<Room>)
    ensures
        rooms_of(*final(map)) == rooms_of(*old(map)).remove(name@),
        room == if rooms_of(*old(map)).contains_key(name@) {
            Some(rooms_of(*old(map))[name@])
        } else {
            None
        },
{
    map.remove(name).map(|(_, room)| room)
}

/// `DashMap::insert`: puts `room` under `name`, in place of any room that was
/// there, and returns the room it replaced.
#[verifier::external_body]
fn rooms_put(map: &mut DashMap<String, Room>, name: String, room: Room) -> (previous: Option<Room>)
    ensures
        rooms_of(*final(map)) == rooms_of(*old(map)).insert(name@, room),
        previous == if rooms_of(*old(map)).contains_key(name@) {
            Some(rooms_of(*old(map))[name@])
        } else {
            None
        },
{
    map.insert(name, room)
}

/// `DashMap::contains_key`: whether the map has an entry under `name`.
#[verifier::external_body]
fn rooms_contains(map: &DashMap<String, Room>, name: &str) -> (present: bool)
    ensures
        present == rooms_of(*map).contains_key(name@),
{
    map.contains_key(name)
}

/// A subscriber's handle: the room it joined and its slot there.
#[derive(Debug)]
pub struct Subscription {
    room: String,
    slot: usize,
}

impl Subscription {
    /// The name of the room.
    pub closed spec fn room_name(&self) -> Seq<char> {
        self.room@
    }

    /// The subscriber's slot in the room.
    pub closed spec fn slot_index(&self) -> int {
        self.slot as int
    }

    /// The name of the room that was joined.
    pub fn room(&self) -> (name: &str)
        ensures
            name@ == self.room_name(),
    {
        self.room.as_str()
    }

    /// The subscriber's slot in the room.
    pub fn slot(&self) -> (slot: usize)
        ensures
            slot == self.slot_index(),
    {
        self.slot
    }
}

/// A room nobody has joined yet.
pub open spec fn fresh_room(capacity: nat) -> RoomView {
    RoomView { capacity, history: Seq::empty(), cursors: Seq::empty() }
}

/// The room under `name`, or a fresh one if the name is not registered.
pub open spec fn room_or_fresh(rooms: Map<Seq<char>, RoomView>, capacity: nat, name: Seq<char>)
    -> RoomView {
    if rooms.contains_key(name) {
        rooms[name]
    } else {
        fresh_room(capacity)
    }
}

/// The number of subscribers of `name`: none where the name is not registered.
pub open spec fn subscribers_of(rooms: Map<Seq<char>, RoomView>, name: Seq<char>) -> nat {
    if rooms.contains_key(name) {
        rooms[name].subscribers()
    } else {
        0
    }
}

/// The rooms after a subscriber joined `name` in `slot`.
pub open spec fn joined(
    rooms: Map<Seq<char>, RoomView>,
    capacity: nat,
    name: Seq<char>,
    slot: int,
) -> Map<Seq<char>, RoomView> {
    rooms.insert(name, room_or_fresh(rooms, capacity, name).subscribe(slot))
}

/// The rooms after the subscriber in `slot` of `name` left: the room goes
/// with its last subscriber.
pub open spec fn left(rooms: Map<Seq<char>, RoomView>, name: Seq<char>, slot: int) -> Map<
    Seq<char>,
    RoomView,
> {
    if !rooms.contains_key(name) || !rooms[name].subscribed(slot) {
        rooms
    } else if rooms[name].unsubscribe(slot).subscribers() == 0 {
        rooms.remove(name)
    } else {
        rooms.insert(name, rooms[name].unsubscribe(slot))
    }
}

/// The rooms after `event` was published to `name`.
pub open spec fn published(
    rooms: Map<Seq<char>, RoomView>,
    name: Seq<char>,
    event: PayloadView,
) -> Map<Seq<char>, RoomView> {
    if rooms.contains_key(name) && rooms[name].history.len() < u64::MAX {
        rooms.insert(name, rooms[name].publish(event))
    } else {
        rooms
    }
}

/// The rooms after the subscriber in `slot` of `name` took a delivery.
pub open spec fn received(rooms: Map<Seq<char>, RoomView>, name: Seq<char>, slot: int) -> Map<
    Seq<char>,
    RoomView,
> {
    if rooms.contains_key(name) {
        rooms.insert(name, rooms[name].advance(slot))
    } else {
        rooms
    }
}

/// One operation on the rooms.
pub enum Step {
    /// A subscriber joins `name` and takes the lowest free slot.
    Join { name: Seq<char> },
    /// The subscriber in `slot` of `name` leaves.
    Leave { name: Seq<char>, slot: int },
    /// `event` is published to `name`.
    Publish { name: Seq<char>, event: PayloadView },
    /// The subscriber in `slot` of `name` takes a delivery.
    Receive { name: Seq<char>, slot: int },
}

/// The rooms after one operation.
pub open spec fn step(rooms: Map<Seq<char>, RoomView>, capacity: nat, operation: Step) -> Map<
    Seq<char>,
    RoomView,
> {
    match operation {
        Step::Join { name } => joined(
            rooms,
            capacity,
            name,
            lowest_free(room_or_fresh(rooms, capacity, name).cursors),
        ),
        Step::Leave { name, slot } => left(rooms, name, slot),
        Step::Publish { name, event } => published(rooms, name, event),
        Step::Receive { name, slot } => received(rooms, name, slot),
    }
}

/// The rooms after a run of operations, in the order in which they took
/// effect.
pub open spec fn run(rooms: Map<Seq<char>, RoomView>, capacity: nat, operations: Seq<Step>) -> Map<
    Seq<char>,
    RoomView,
>
    decreases operations.len(),
{
    if operations.len() == 0 {
        rooms
    } else {
        step(run(rooms, capacity, operations.drop_last()), capacity, operations.last())
    }
}

/// Every registered room is consistent and has at least one subscriber.
pub open spec fn consistent(rooms: Map<Seq<char>, RoomView>) -> bool {
    forall|name: Seq<char>| #[trigger]
        rooms.contains_key(name) ==> rooms[name].wf() && rooms[name].subscribers() > 0
}

/// The rooms of one process.
pub struct Registry {
    rooms: DashMap<String, Room>,
    capacity: usize,
}

impl View for Registry {
    type V = Map<Seq<char>, RoomView>;

    closed spec fn view(&self) -> Map<Seq<char>, RoomView> {
        Map::new(
            |name: Seq<char>| rooms_of(self.rooms).contains_key(name),
            |name: Seq<char>| rooms_of(self.rooms)[name]@,
        )
    }
}

impl Registry {
    /// The number of events that each room keeps for slow subscribers.
    pub closed spec fn queue_depth(&self) -> nat {
        self.capacity as nat
    }

    /// Every registered room is consistent, has the registry's queue depth
    /// and has at least one subscriber.
    pub closed spec fn wf(&self) -> bool {
        forall|name: Seq<char>| #[trigger]
            rooms_of(self.rooms).contains_key(name) ==> {
                &&& rooms_of(self.rooms)[name].wf()
                &&& rooms_of(self.rooms)[name]@.capacity == self.capacity
                &&& rooms_of(self.rooms)[name]@.subscribers() > 0
            }
    }

    /// A registry without rooms, whose rooms will keep `capacity` events each.
    pub fn new(capacity: usize) -> (registry: Registry)
        ensures
            registry.wf(),
            registry.queue_depth() == capacity,
            registry@ == Map::<Seq<char>, RoomView>::empty(),
    {
        let registry = Registry { rooms: rooms_new(), capacity };
        assert(registry@ =~= Map::<Seq<char>, RoomView>::empty());
        registry
    }

    /// The number of events that each room keeps for slow subscribers.
    pub fn capacity(&self) -> (capacity: usize)
        ensures
            capacity == self.queue_depth(),
    {
        self.capacity
    }

    /// Whether `name` is registered.
    pub fn contains(&self, name: &str) -> (present: bool)
        ensures
            present == self@.contains_key(name@),
    {
        rooms_contains(&self.rooms, name)
    }

    /// The number of subscribers of `name`: none where it is not registered.
    pub fn subscriber_count(&mut self, name: &str) -> (count: usize)
        requires
            old(self).wf(),
        ensures
            final(self).wf(),
            final(self)@ == old(self)@,
            final(self).queue_depth() == old(self).queue_depth(),
            count == subscribers_of(old(self)@, name@),
    {
        match rooms_take(&mut self.rooms, name) {
            None => {
                assert(self@ =~= old(self)@);
                0
            },
            Some(room) => {
                let count = room.subscriber_count();
                rooms_put(&mut self.rooms, name.to_owned(), room);
                assert(rooms_of(self.rooms) =~= rooms_of(old(self).rooms));
                count
            },
        }
    }

    /// Joins `name`, creating the room if this is its first subscriber. This
    /// always succeeds. The new subscriber is handed every event published to
    /// the room from now on.
    pub fn join(&mut self, name: &str) -> (subscription: Subscription)
        requires
            old(self).wf(),
        ensures
            final(self).wf(),
            final(self).queue_depth() == old(self).queue_depth(),
            subscription.room_name() == name@,
            first_free(
                room_or_fresh(old(self)@, old(self).queue_depth(), name@).cursors,
                subscription.slot_index(),
            ),
            final(self)@ == joined(
                old(self)@,
                old(self).queue_depth(),
                name@,
                subscription.slot_index(),
            ),
            subscribers_of(final(self)@, name@) == subscribers_of(old(self)@, name@) + 1,
    {
        let mut room = match rooms_take(&mut self.rooms, name) {
            Some(room) => room,
            None => Room::new(self.capacity),
        };
        let slot = room.subscribe();
        rooms_put(&mut self.rooms, name.to_owned(), room);
        assert(self@ =~= joined(old(self)@, old(self).queue_depth(), name@, slot as int));
        Subscription { room: name.to_owned(), slot }
    }

    /// Ends `subscription`. The room is removed together with its last
    /// subscriber, in the same step. Returns whether the room was removed.
    pub fn leave(&mut self, subscription: Subscription) -> (removed: bool)
        requires
            old(self).wf(),
        ensures
            final(self).wf(),
            final(self).queue_depth() == old(self).queue_depth(),
            final(self)@ == left(
                old(self)@,
                subscription.room_name(),
                subscription.slot_index(),
            ),
            removed == (old(self)@.contains_key(subscription.room_name())
                && !final(self)@.contains_key(subscription.room_name())),
    {
        let name = subscription.room;
        match rooms_take(&mut self.rooms, name.as_str()) {
            None => {
                assert(self@ =~= old(self)@);
                false
            },
            Some(room) => {
                let mut room = room;
                let was_subscribed = room.unsubscribe(subscription.slot);
                if room.subscriber_count() == 0 {
                    assert(self@ =~= old(self)@.remove(name@));
                    true
                } else {
                    rooms_put(&mut self.rooms, name, room);
                    if was_subscribed {
                        assert(self@ =~= old(self)@.insert(
                            name@,
                            old(self)@[name@].unsubscribe(subscription.slot as int),
                        ));
                    } else {
                        assert(self@ =~= old(self)@);
                    }
                    false
                }
            },
        }
    }

    /// Publishes `event` to the room `name`. Where the room does not exist
    /// there is nobody to tell, and the event is dropped: that is no error.
    /// Returns whether the event entered a room.
    pub fn publish(&mut self, name: &str, event: MessagePayload) -> (delivered: bool)
        requires
            old(self).wf(),
        ensures
            final(self).wf(),
            final(self).queue_depth() == old(self).queue_depth(),
            final(self)@ == published(old(self)@, name@, event@),
            delivered == (old(self)@.contains_key(name@) && old(self)@[name@].history.len()
                < u64::MAX),
    {
        match rooms_take(&mut self.rooms, name) {
            None => {
                assert(self@ =~= old(self)@);
                false
            },
            Some(room) => {
                let mut room = room;
                let accepted = room.publish(event);
                rooms_put(&mut self.rooms, name.to_owned(), room);
                if accepted {
                    assert(self@ =~= old(self)@.insert(name@, old(self)@[name@].publish(event@)));
                } else {
                    assert(self@ =~= old(self)@);
                }
                accepted
            },
        }
    }

    /// Hands `subscription` its next delivery from its room; `Closed` where
    /// the room or the subscription is gone.
    pub fn receive(&mut self, subscription: &Subscription) -> (delivery: Delivery)
        requires
            old(self).wf(),
        ensures
            final(self).wf(),
            final(self).queue_depth() == old(self).queue_depth(),
            final(self)@ == received(
                old(self)@,
                subscription.room_name(),
                subscription.slot_index(),
            ),
            delivery@ == if old(self)@.contains_key(subscription.room_name()) {
                old(self)@[subscription.room_name()].next(subscription.slot_index())
            } else {
                DeliveryView::Closed
            },
    {
        match rooms_take(&mut self.rooms, subscription.room.as_str()) {
            None => {
                assert(self@ =~= old(self)@);
                Delivery::Closed
            },
            Some(room) => {
                let mut room = room;
                let delivery = room.receive(subscription.slot);
                proof {
                    crate::room::lemma_advance_keeps_subscribers(
                        old(self)@[subscription.room@],
                        subscription.slot as int,
                    );
                }
                rooms_put(&mut self.rooms, subscription.room.clone(), room);
                assert(self@ =~= old(self)@.insert(
                    subscription.room@,
                    old(self)@[subscription.room@].advance(subscription.slot as int),
                ));
                delivery
            },
        }
    }
}

/// Room lifecycle. In a consistent registry a name is registered exactly while
/// it has at least one subscriber: there is no room without subscribers, and
/// no subscriber without its room.
pub proof fn lemma_room_present_iff_subscribed(registry: &Registry, name: Seq<char>)
    requires
        registry.wf(),
    ensures
        registry@.contains_key(name) <==> subscribers_of(registry@, name) > 0,
{
}

/// The rooms of a consistent registry are consistent.
pub proof fn lemma_registry_is_consistent(registry: &Registry)
    requires
        registry.wf(),
    ensures
        consistent(registry@),
{
    assert forall|name: Seq<char>| #[trigger] registry@.contains_key(name) implies registry@[name].wf()
        && registry@[name].subscribers() > 0 by {
        assert(rooms_of(registry.rooms).contains_key(name));
        rooms_of(registry.rooms)[name].lemma_view_wf();
    }
}

/// One operation keeps the rooms consistent.
pub proof fn lemma_step_keeps_consistent(
    rooms: Map<Seq<char>, RoomView>,
    capacity: nat,
    operation: Step,
)
    requires
        consistent(rooms),
    ensures
        consistent(step(rooms, capacity, operation)),
{
    match operation {
        Step::Join { name } => {
            let room = room_or_fresh(rooms, capacity, name);
            lemma_lowest_free(room.cursors);
            lemma_subscribe_keeps_wf(room, lowest_free(room.cursors));
        },
        Step::Leave { name, slot } => {
            if rooms.contains_key(name) && rooms[name].subscribed(slot) {
                lemma_unsubscribe_keeps_wf(rooms[name], slot);
            }
        },
        Step::Publish { name, event } => {
            if rooms.contains_key(name) && rooms[name].history.len() < u64::MAX {
                lemma_publish_keeps_wf(rooms[name], event);
            }
        },
        Step::Receive { name, slot } => {
            if rooms.contains_key(name) {
                lemma_advance_keeps_wf(rooms[name], slot);
            }
        },
    }
}

/// Room lifecycle under any interleaving. However joins, leaves, publishes
/// and receives of any number of sessions on any rooms follow one another,
/// the registry never holds a room without subscribers, and never lacks a
/// room that has one: after every run of operations a name is registered
/// exactly if it has at least one subscriber.
pub proof fn lemma_lifecycle_holds_in_any_order(
    rooms: Map<Seq<char>, RoomView>,
    capacity: nat,
    operations: Seq<Step>,
    name: Seq<char>,
)
    requires
        consistent(rooms),
    ensures
        consistent(run(rooms, capacity, operations)),
        run(rooms, capacity, operations).contains_key(name) <==> subscribers_of(
            run(rooms, capacity, operations),
            name,
        ) > 0,
    decreases operations.len(),
{
    if operations.len() > 0 {
        lemma_lifecycle_holds_in_any_order(rooms, capacity, operations.drop_last(), name);
        lemma_step_keeps_consistent(
            run(rooms, capacity, operations.drop_last()),
            capacity,
            operations.last(),
        );
    }
}

/// What `Registry::join` does is the join operation: the slot that it hands
/// out is the lowest free one.
pub proof fn lemma_join_is_a_step(
    rooms: Map<Seq<char>, RoomView>,
    capacity: nat,
    name: Seq<char>,
    slot: int,
)
    requires
        first_free(room_or_fresh(rooms, capacity, name).cursors, slot),
    ensures
        joined(rooms, capacity, name, slot) == step(rooms, capacity, Step::Join { name }),
{
    let cursors = room_or_fresh(rooms, capacity, name).cursors;
    lemma_lowest_free(cursors);
    lemma_first_free_unique(cursors, slot, lowest_free(cursors));
}

/// Joining a name that is not registered and leaving it again removes the
/// room: no entry is left behind for a room without subscribers.
pub proof fn lemma_join_then_leave_removes_room(
    rooms: Map<Seq<char>, RoomView>,
    capacity: nat,
    name: Seq<char>,
)
    requires
        !rooms.contains_key(name),
    ensures
        joined(rooms, capacity, name, 0).contains_key(name),
        subscribers_of(joined(rooms, capacity, name, 0), name) == 1,
        left(joined(rooms, capacity, name, 0), name, 0) == rooms,
{
    let start = Some(0u64);
    let cursors = Seq::<Option<u64>>::empty().push(start);
    crate::room::lemma_live_push(Seq::<Option<u64>>::empty(), start);
    crate::room::lemma_live_update(cursors, 0, None);
    assert(cursors.update(0, None).drop_last() =~= Seq::<Option<u64>>::empty());
    assert(left(joined(rooms, capacity, name, 0), name, 0) =~= rooms);
}

/// A room that still has another subscriber stays registered when one leaves.
pub proof fn lemma_leave_keeps_room_with_subscribers(
    rooms: Map<Seq<char>, RoomView>,
    name: Seq<char>,
    slot: int,
)
    requires
        rooms.contains_key(name),
        rooms[name].subscribed(slot),
        rooms[name].subscribers() > 1,
    ensures
        left(rooms, name, slot).contains_key(name),
        subscribers_of(left(rooms, name, slot), name) + 1 == subscribers_of(rooms, name),
{
    crate::room::lemma_live_update(rooms[name].cursors, slot, None);
}

} // verus!
