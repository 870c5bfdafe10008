//! The broadcast hub: every published event is offered to every subscription
//! that is open at that moment. Each subscription has a queue of its own with
//! a fixed capacity, so a slow observer holds back neither the publisher nor
//! the other observers: where its queue is full, its oldest event makes room
//! and is counted as missed.

use std::collections::VecDeque;
use vstd::prelude::*;
use crate::model::RegistrationEvent;
use crate::model::UserView;

verus! {

/// The state of one subscription.
pub struct SubscriptionView {
    /// The events that await the observer, oldest first.
    pub pending: Seq<UserView>,
    /// How many events were dropped since the observer was last told.
    pub missed: u64,
}

/// The mathematical value of a [`Delivery`].
pub enum DeliveryView {
    Event(UserView),
    Lagged(u64),
    Empty,
    Closed,
}

impl SubscriptionView {
    /// A subscription that was just opened.
    pub open spec fn fresh() -> SubscriptionView {
        SubscriptionView { pending: Seq::empty(), missed: 0 }
    }

    /// The count of missed events after one more was dropped. It stops at
    /// the largest value it can hold.
    pub open spec fn one_more_missed(self) -> u64 {
        if self.missed < u64::MAX {
            (self.missed + 1) as u64
        } else {
            u64::MAX
        }
    }

    /// The subscription after `event` was offered to it: the event joins the
    /// queue at its end, and where that makes the queue longer than
    /// `capacity`, the oldest event leaves and is counted as missed.
    pub open spec fn offer(self, event: UserView, capacity: nat) -> SubscriptionView {
        let queue = self.pending.push(event);
        if queue.len() <= capacity {
            SubscriptionView { pending: queue, missed: self.missed }
        } else {
            SubscriptionView { pending: queue.drop_first(), missed: self.one_more_missed() }
        }
    }

    /// What the observer receives next, and the subscription after that:
    /// first the news of missed events, if there are any, then the oldest
    /// event that awaits it.
    pub open spec fn take(self) -> (SubscriptionView, DeliveryView) {
        if self.missed > 0 {
            (SubscriptionView { pending: self.pending, missed: 0 }, DeliveryView::Lagged(self.missed))
        } else if self.pending.len() > 0 {
            (
                SubscriptionView { pending: self.pending.drop_first(), missed: 0 },
                DeliveryView::Event(self.pending[0]),
            )
        } else {
            (self, DeliveryView::Empty)
        }
    }
}

/// The mathematical value of a [`BroadcastHub`].
pub struct HubView {
    /// How many events the queue of a subscription holds at most.
    pub capacity: nat,
    /// The handle that the next subscription receives.
    pub next_id: u64,
    /// The open subscriptions by their handles.
    pub subs: Map<u64, SubscriptionView>,
}

impl HubView {
    /// A hub without subscriptions.
    pub open spec fn start(capacity: nat) -> HubView {
        HubView { capacity, next_id: 0, subs: Map::empty() }
    }

    /// Every open subscription has a handle that was handed out, and a queue
    /// within the capacity.
    pub open spec fn wf(self) -> bool {
        forall|id: u64| #[trigger]
            self.subs.contains_key(id) ==> id < self.next_id && self.subs[id].pending.len()
                <= self.capacity
    }

    /// The subscription `id` is open.
    pub open spec fn is_open(self, id: u64) -> bool {
        self.subs.contains_key(id)
    }

    /// Some subscription is open.
    pub open spec fn has_subscribers(self) -> bool {
        exists|id: u64| self.subs.contains_key(id)
    }

    /// The hub can hand out another handle.
    pub open spec fn can_subscribe(self) -> bool {
        self.next_id < u64::MAX
    }

    /// The hub after a subscription was opened under the handle `next_id`.
    pub open spec fn subscribe(self) -> HubView {
        HubView {
            capacity: self.capacity,
            next_id: (self.next_id + 1) as u64,
            subs: self.subs.insert(self.next_id, SubscriptionView::fresh()),
        }
    }

    /// The hub after the subscription `id` was closed.
    pub open spec fn unsubscribe(self, id: u64) -> HubView {
        HubView { capacity: self.capacity, next_id: self.next_id, subs: self.subs.remove(id) }
    }

    /// The hub after `event` was published: it was offered to every open
    /// subscription.
    pub open spec fn publish(self, event: UserView) -> HubView {
        HubView {
            capacity: self.capacity,
            next_id: self.next_id,
            subs: self.subs.map_values(|sub: SubscriptionView| sub.offer(event, self.capacity)),
        }
    }

    /// What the subscription `id` receives next, and the hub after that.
    pub open spec fn receive(self, id: u64) -> (HubView, DeliveryView) {
        if self.subs.contains_key(id) {
            let (sub, delivery) = self.subs[id].take();
            (
                HubView {
                    capacity: self.capacity,
                    next_id: self.next_id,
                    subs: self.subs.insert(id, sub),
                },
                delivery,
            )
        } else {
            (self, DeliveryView::Closed)
        }
    }
}

/// What a subscription receives when it asks for its next event.
#[derive(Debug, PartialEq, Eq)]
pub enum Delivery {
    /// The oldest event that awaited the subscription.
    Event(RegistrationEvent),
    /// The subscription fell behind: this many events were dropped. The
    /// events that follow are the oldest that were kept.
    Lagged(u64),
    /// No event awaits the subscription.
    Empty,
    /// The subscription is not open.
    Closed,
}

impl View for Delivery {
    type V = DeliveryView;

    open spec fn view(&self) -> DeliveryView {
        match *self {
            Delivery::Event(event) => DeliveryView::Event(event@),
            Delivery::Lagged(count) => DeliveryView::Lagged(count),
            Delivery::Empty => DeliveryView::Empty,
            Delivery::Closed => DeliveryView::Closed,
        }
    }
}

/// One open subscription.
struct Subscriber {
    id: u64,
    queue: VecDeque<RegistrationEvent>,
    missed: u64,
}

impl Subscriber {
    spec fn state(self) -> SubscriptionView {
        SubscriptionView {
            pending: self.queue@.map_values(|event: RegistrationEvent| event@),
            missed: self.missed,
        }
    }
}

/// The subscriber at `slot` has the handle `id`.
spec fn slot_holds(subs: Seq<Subscriber>, id: u64, slot: int) -> bool {
    0 <= slot < subs.len() && subs[slot].id == id
}

/// The handles grow along the sequence, so no two subscribers share one.
spec fn ids_increase(subs: Seq<Subscriber>) -> bool {
    forall|i: int, j: int| 0 <= i < j < subs.len() ==> subs[i].id < subs[j].id
}

/// The subscriptions by their handles.
spec fn subs_map(subs: Seq<Subscriber>) -> Map<u64, SubscriptionView> {
    Map::new(
        |id: u64| exists|slot: int| slot_holds(subs, id, slot),
        |id: u64| subs[choose|slot: int| slot_holds(subs, id, slot)].state(),
    )
}

/// Two sequences hold the same handles at the same slots.
spec fn same_ids(before: Seq<Subscriber>, after: Seq<Subscriber>) -> bool {
    &&& before.len() == after.len()
    &&& forall|slot: int| 0 <= slot < before.len() ==> before[slot].id == after[slot].id
}

proof fn lemma_slot(subs: Seq<Subscriber>, slot: int)
    requires
        ids_increase(subs),
        0 <= slot < subs.len(),
    ensures
        subs_map(subs).contains_key(subs[slot].id),
        subs_map(subs)[subs[slot].id] == subs[slot].state(),
{
    let id = subs[slot].id;
    assert(slot_holds(subs, id, slot));
    let chosen = choose|k: int| slot_holds(subs, id, k);
    assert(slot_holds(subs, id, chosen));
    if chosen < slot {
        assert(subs[chosen].id < subs[slot].id);
    } else if slot < chosen {
        assert(subs[slot].id < subs[chosen].id);
    }
}

proof fn lemma_map_each(before: Seq<Subscriber>, after: Seq<Subscriber>, event: UserView, capacity: nat)
    requires
        ids_increase(before),
        same_ids(before, after),
        forall|slot: int|
            0 <= slot < before.len() ==> after[slot].state() == before[slot].state().offer(
                event,
                capacity,
            ),
    ensures
        subs_map(after) == subs_map(before).map_values(
            |sub: SubscriptionView| sub.offer(event, capacity),
        ),
{
    let offered = subs_map(before).map_values(|sub: SubscriptionView| sub.offer(event, capacity));
    assert forall|id: u64| subs_map(after).contains_key(id) == offered.contains_key(id) by {
        if subs_map(after).contains_key(id) {
            let slot = choose|k: int| slot_holds(after, id, k);
            assert(slot_holds(before, id, slot));
        }
        if offered.contains_key(id) {
            let slot = choose|k: int| slot_holds(before, id, k);
            assert(slot_holds(after, id, slot));
        }
    }
    assert forall|id: u64| subs_map(after).contains_key(id) implies subs_map(after)[id]
        == offered[id] by {
        let slot = choose|k: int| slot_holds(after, id, k);
        lemma_slot(before, slot);
        lemma_slot(after, slot);
    }
    assert(subs_map(after) =~= offered);
}

proof fn lemma_map_one(before: Seq<Subscriber>, after: Seq<Subscriber>, slot: int)
    requires
        ids_increase(before),
        same_ids(before, after),
        0 <= slot < before.len(),
        forall|k: int| 0 <= k < before.len() && k != slot ==> after[k].state() == before[k].state(),
    ensures
        subs_map(after) == subs_map(before).insert(before[slot].id, after[slot].state()),
{
    let changed = subs_map(before).insert(before[slot].id, after[slot].state());
    lemma_slot(before, slot);
    assert forall|id: u64| subs_map(after).contains_key(id) == changed.contains_key(id) by {
        if subs_map(after).contains_key(id) {
            let k = choose|k: int| slot_holds(after, id, k);
            assert(slot_holds(before, id, k));
        }
        if changed.contains_key(id) {
            let k = choose|k: int| slot_holds(before, id, k);
            assert(slot_holds(after, id, k));
        }
    }
    assert forall|id: u64| subs_map(after).contains_key(id) implies subs_map(after)[id]
        == changed[id] by {
        let k = choose|k: int| slot_holds(after, id, k);
        lemma_slot(before, k);
        lemma_slot(after, k);
        if k != slot {
            if k < slot {
                assert(before[k].id < before[slot].id);
            } else {
                assert(before[slot].id < before[k].id);
            }
        }
    }
    assert(subs_map(after) =~= changed);
}

proof fn lemma_map_push(before: Seq<Subscriber>, sub: Subscriber)
    requires
        ids_increase(before),
        forall|slot: int| 0 <= slot < before.len() ==> before[slot].id < sub.id,
    ensures
        ids_increase(before.push(sub)),
        subs_map(before.push(sub)) == subs_map(before).insert(sub.id, sub.state()),
{
    let after = before.push(sub);
    let grown = subs_map(before).insert(sub.id, sub.state());
    assert forall|id: u64| subs_map(after).contains_key(id) == grown.contains_key(id) by {
        if subs_map(after).contains_key(id) {
            let k = choose|k: int| slot_holds(after, id, k);
            if k < before.len() {
                assert(slot_holds(before, id, k));
            }
        }
        if grown.contains_key(id) {
            if id == sub.id {
                assert(slot_holds(after, id, before.len() as int));
            } else {
                let k = choose|k: int| slot_holds(before, id, k);
                assert(slot_holds(after, id, k));
            }
        }
    }
    assert forall|id: u64| subs_map(after).contains_key(id) implies subs_map(after)[id]
        == grown[id] by {
        let k = choose|k: int| slot_holds(after, id, k);
        lemma_slot(after, k);
        if k < before.len() {
            lemma_slot(before, k);
        }
    }
    assert(subs_map(after) =~= grown);
}

proof fn lemma_map_remove(before: Seq<Subscriber>, slot: int)
    requires
        ids_increase(before),
        0 <= slot < before.len(),
    ensures
        ids_increase(before.remove(slot)),
        subs_map(before.remove(slot)) == subs_map(before).remove(before[slot].id),
{
    let after = before.remove(slot);
    let shrunk = subs_map(before).remove(before[slot].id);
    assert forall|k: int| 0 <= k < after.len() implies after[k] == before[if k < slot {
        k
    } else {
        k + 1
    }] by {}
    assert forall|i: int, j: int| 0 <= i < j < after.len() implies after[i].id < after[j].id by {
        let a = if i < slot { i } else { i + 1 };
        let b = if j < slot { j } else { j + 1 };
        assert(before[a].id < before[b].id);
    }
    assert forall|id: u64| subs_map(after).contains_key(id) == shrunk.contains_key(id) by {
        if subs_map(after).contains_key(id) {
            let k = choose|k: int| slot_holds(after, id, k);
            let a = if k < slot { k } else { k + 1 };
            assert(slot_holds(before, id, a));
            if a < slot {
                assert(before[a].id < before[slot].id);
            } else {
                assert(before[slot].id < before[a].id);
            }
        }
        if shrunk.contains_key(id) {
            let a = choose|k: int| slot_holds(before, id, k);
            let k = if a < slot { a } else { a - 1 };
            assert(slot_holds(after, id, k));
        }
    }
    assert forall|id: u64| subs_map(after).contains_key(id) implies subs_map(after)[id]
        == shrunk[id] by {
        let k = choose|k: int| slot_holds(after, id, k);
        let a = if k < slot { k } else { k + 1 };
        lemma_slot(after, k);
        lemma_slot(before, a);
    }
    assert(subs_map(after) =~= shrunk);
}

/// The hub that registrations publish to and live connections subscribe to.
pub struct BroadcastHub {
    capacity: usize,
    next_id: u64,
    subscribers: Vec<Subscriber>,
}

impl View for BroadcastHub {
    type V = HubView;

    closed spec fn view(&self) -> HubView {
        HubView {
            capacity: self.capacity as nat,
            next_id: self.next_id,
            subs: subs_map(self.subscribers@),
        }
    }
}

impl BroadcastHub {
    /// The hub is in order: no two subscriptions share a handle, every
    /// handle was handed out, and every queue is within the capacity.
    pub closed spec fn wf(&self) -> bool {
        &&& ids_increase(self.subscribers@)
        &&& forall|slot: int|
            0 <= slot < self.subscribers@.len() ==> {
                &&& (#[trigger] self.subscribers@[slot]).id < self.next_id
                &&& self.subscribers@[slot].queue@.len() <= self.capacity
            }
    }

    /// A hub that is in order has a value that is in order.
    pub proof fn lemma_view_wf(&self)
        requires
            self.wf(),
        ensures
            self@.wf(),
    {
        assert forall|id: u64| #[trigger] self@.subs.contains_key(id) implies id < self@.next_id
            && self@.subs[id].pending.len() <= self@.capacity by {
            let slot = choose|k: int| slot_holds(self.subscribers@, id, k);
            lemma_slot(self.subscribers@, slot);
        }
    }

    /// A hub without subscriptions, whose subscriptions will hold up to
    /// `capacity` events each.
    pub fn new(capacity: usize) -> (hub: BroadcastHub)
        ensures
            hub.wf(),
            hub@ == HubView::start(capacity as nat),
    {
        let hub = BroadcastHub { capacity, next_id: 0, subscribers: Vec::new() };
        assert(hub@.subs =~= Map::empty());
        hub
    }

    /// How many events the queue of a subscription holds at most.
    pub fn capacity(&self) -> (capacity: usize)
        ensures
            capacity == self@.capacity,
    {
        self.capacity
    }

    /// Where the subscriber with the handle `id` stands.
    fn slot_of(&self, id: u64) -> (slot: Option<usize>)
        requires
            self.wf(),
        ensures
            match slot {
                Some(at) => slot_holds(self.subscribers@, id, at as int),
                None => !self@.subs.contains_key(id),
            },
    {
        let mut at: usize = 0;
        while at < self.subscribers.len()
            invariant
                at <= self.subscribers.len(),
                forall|k: int| 0 <= k < at ==> !slot_holds(self.subscribers@, id, k),
            decreases self.subscribers.len() - at,
        {
            if self.subscribers[at].id == id {
                return Some(at);
            }
            at += 1;
        }
        assert forall|k: int| !slot_holds(self.subscribers@, id, k) by {}
        None
    }

    /// Whether the subscription `id` is open.
    pub fn is_open(&self, id: u64) -> (open: bool)
        requires
            self.wf(),
        ensures
            open == self@.is_open(id),
    {
        match self.slot_of(id) {
            Some(at) => {
                proof {
                    lemma_slot(self.subscribers@, at as int);
                }
                true
            },
            None => false,
        }
    }

    /// Opens a subscription and hands back its handle. The subscription
    /// receives the events that are published from now on. `None`, and
    /// nothing changes, where the hub has no handle left to hand out.
    pub fn subscribe(&mut self) -> (handle: Option<u64>)
        requires
            old(self).wf(),
        ensures
            final(self).wf(),
            match handle {
                Some(id) => {
                    &&& old(self)@.can_subscribe()
                    &&& id == old(self)@.next_id
                    &&& !old(self)@.is_open(id)
                    &&& final(self)@ == old(self)@.subscribe()
                },
                None => !old(self)@.can_subscribe() && final(self)@ == old(self)@,
            },
    {
        if self.next_id == u64::MAX {
            return None;
        }
        let id = self.next_id;
        let sub = Subscriber { id, queue: VecDeque::new(), missed: 0 };
        proof {
            assert(sub.state().pending =~= Seq::empty());
            lemma_map_push(self.subscribers@, sub);
            if self@.subs.contains_key(id) {
                let slot = choose|k: int| slot_holds(self.subscribers@, id, k);
                assert(slot_holds(self.subscribers@, id, slot));
            }
        }
        self.subscribers.push(sub);
        self.next_id = id + 1;
        Some(id)
    }

    /// Closes the subscription `id` and drops what awaited it. Says whether
    /// it was open.
    pub fn unsubscribe(&mut self, id: u64) -> (was_open: bool)
        requires
            old(self).wf(),
        ensures
            final(self).wf(),
            was_open == old(self)@.is_open(id),
            final(self)@ == old(self)@.unsubscribe(id),
    {
        match self.slot_of(id) {
            Some(at) => {
                proof {
                    lemma_slot(self.subscribers@, at as int);
                    lemma_map_remove(self.subscribers@, at as int);
                }
                let _ = self.subscribers.remove(at);
                true
            },
            None => {
                assert(self@.subs.remove(id) =~= self@.subs);
                false
            },
        }
    }

    /// Publishes `event`: offers it to every open subscription, and never
    /// waits for an observer. Says whether any subscription was open; with
    /// none the event is dropped, which is no failure.
    pub fn publish(&mut self, event: &RegistrationEvent) -> (offered: bool)
        requires
            old(self).wf(),
        ensures
            final(self).wf(),
            offered == old(self)@.has_subscribers(),
            final(self)@ == old(self)@.publish(event@),
    {
        let mut at: usize = 0;
        while at < self.subscribers.len()
            invariant
                at <= self.subscribers.len(),
                self.capacity == old(self).capacity,
                self.next_id == old(self).next_id,
                same_ids(old(self).subscribers@, self.subscribers@),
                forall|k: int|
                    0 <= k < self.subscribers@.len() ==> (#[trigger] self.subscribers@[k]).queue@.len()
                        <= self.capacity,
                forall|k: int|
                    0 <= k < at ==> self.subscribers@[k].state() == old(
                        self,
                    ).subscribers@[k].state().offer(event@, self.capacity as nat),
                forall|k: int|
                    at <= k < self.subscribers@.len() ==> self.subscribers@[k].state() == old(
                        self,
                    ).subscribers@[k].state(),
            decreases self.subscribers.len() - at,
        {
            let capacity = self.capacity;
            let ghost before = self.subscribers@;
            let sub = &mut self.subscribers[at];
            let ghost was = sub.state();
            sub.queue.push_back(event.clone());
            if sub.queue.len() > capacity {
                let _ = sub.queue.pop_front();
                sub.missed = if sub.missed < u64::MAX {
                    sub.missed + 1
                } else {
                    u64::MAX
                };
            }
            proof {
                let offered = was.offer(event@, capacity as nat);
                assert(sub.state().pending =~= offered.pending);
                assert(sub.state() == offered);
            }
            at += 1;
        }
        proof {
            lemma_map_each(
                old(self).subscribers@,
                self.subscribers@,
                event@,
                self.capacity as nat,
            );
            if old(self)@.has_subscribers() {
                let id = choose|id: u64| old(self)@.subs.contains_key(id);
                let slot = choose|k: int| slot_holds(old(self).subscribers@, id, k);
                assert(slot_holds(old(self).subscribers@, id, slot));
            }
            if self.subscribers@.len() > 0 {
                lemma_slot(old(self).subscribers@, 0);
                assert(old(self)@.subs.contains_key(old(self).subscribers@[0].id));
            }
        }
        self.subscribers.len() > 0
    }

    /// Hands the subscription `id` what it receives next: the news that it
    /// fell behind, if it did, else the oldest event that awaits it, else
    /// word that nothing awaits it. Never waits.
    pub fn receive(&mut self, id: u64) -> (delivery: Delivery)
        requires
            old(self).wf(),
        ensures
            final(self).wf(),
            (final(self)@, delivery@) == old(self)@.receive(id),
    {
        let at = match self.slot_of(id) {
            Some(at) => at,
            None => {
                return Delivery::Closed;
            },
        };
        proof {
            lemma_slot(self.subscribers@, at as int);
        }
        let sub = &mut self.subscribers[at];
        let ghost was = sub.state();
        let delivery = if sub.missed > 0 {
            let count = sub.missed;
            sub.missed = 0;
            Delivery::Lagged(count)
        } else {
            match sub.queue.pop_front() {
                Some(event) => {
                    assert(sub.state().pending =~= was.pending.drop_first());
                    Delivery::Event(event)
                },
                None => Delivery::Empty,
            }
        };
        proof {
            assert(sub.state().pending =~= was.take().0.pending);
            assert((sub.state(), delivery@) == was.take());
            lemma_map_one(old(self).subscribers@, self.subscribers@, at as int);
            if delivery is Empty {
                assert(self@.subs =~= old(self)@.subs);
            }
        }
        delivery
    }
}

} // verus!
