//! A bounded broadcast bus: every published event reaches every live subscription,
//! and a subscription that falls too far behind learns how many events it lost.
//!
//! The bus keeps the most recent `capacity` events in a ring. A subscription is a
//! cursor into the stream of everything ever published. Publishing never waits for
//! a reader: when the ring is full the oldest event is overwritten, and a reader
//! whose cursor pointed at it is told so the next time it asks.

use vstd::prelude::*;

verus! {

/// Why a subscription could not be handed an event.
#[derive(Debug, Clone, Copy, PartialEq, Eq, Structural)]
pub enum RecvError {
    /// Everything published so far has been read; the caller waits for the next publish.
    Empty,
    /// The subscription fell behind and this many of its unread events were overwritten.
    Lagged(u64),
    /// No publish handle is left and everything published has been read.
    Closed,
}

/// Why an event could not be published.
#[derive(Debug, Clone, Copy, PartialEq, Eq, Structural)]
pub enum PublishError {
    /// Every publish handle and every subscription has been dropped.
    Closed,
}

/// What one call of `receive` yields, as a mathematical value.
pub enum Delivery<T> {
    /// The event at `position` of the stream.
    Event { value: T, position: nat },
    /// `missed` unread events were overwritten before they could be read.
    Lagged { missed: nat },
    /// Nothing unread, and a publisher is still there.
    Empty,
    /// Nothing unread, and no publisher is left.
    Closed,
}

/// The bus as a mathematical value.
pub struct BusView<T> {
    /// How many of the most recent events are kept.
    pub capacity: nat,
    /// Every event ever published, oldest first.
    pub log: Seq<T>,
    /// Live subscriptions.
    pub subscribers: nat,
    /// Whether the bus still has the publish handle it was created with.
    pub own_sender: bool,
    /// Live publish handles that `sender` handed out.
    pub handed_out: nat,
}

impl<T> BusView<T> {
    /// A freshly created bus: nothing published, nobody subscribed, one publish handle.
    pub open spec fn fresh(capacity: nat) -> Self {
        BusView { capacity, log: Seq::empty(), subscribers: 0, own_sender: true, handed_out: 0 }
    }

    /// Live publish handles, the bus's own included.
    pub open spec fn senders(self) -> nat {
        if self.own_sender {
            self.handed_out + 1
        } else {
            self.handed_out
        }
    }

    /// The position of the oldest event that is still kept.
    pub open spec fn oldest(self) -> nat {
        if self.log.len() > self.capacity {
            (self.log.len() - self.capacity) as nat
        } else {
            0
        }
    }

    /// The events that are still kept, oldest first.
    pub open spec fn retained(self) -> Seq<T> {
        self.log.subrange(self.oldest() as int, self.log.len() as int)
    }

    /// No handle of either kind is left.
    pub open spec fn fully_closed(self) -> bool {
        self.senders() == 0 && self.subscribers == 0
    }

    /// The bus after `event` was offered to it.
    pub open spec fn publish(self, event: T) -> Self {
        if self.fully_closed() {
            self
        } else {
            BusView { log: self.log.push(event), ..self }
        }
    }

    /// The bus after `events` were offered to it, one after the other.
    pub open spec fn publish_all(self, events: Seq<T>) -> Self {
        if self.fully_closed() {
            self
        } else {
            BusView { log: self.log + events, ..self }
        }
    }

    /// The bus with one subscription more.
    pub open spec fn subscribed(self) -> Self {
        BusView { subscribers: self.subscribers + 1, ..self }
    }

    /// The bus with one subscription less.
    pub open spec fn unsubscribed(self) -> Self {
        BusView {
            subscribers: if self.subscribers > 0 {
                (self.subscribers - 1) as nat
            } else {
                0
            },
            ..self
        }
    }

    /// The bus after a publish handle was asked of it: one more is handed out
    /// while any is left.
    pub open spec fn cloned_sender(self) -> Self {
        if self.senders() > 0 {
            BusView { handed_out: self.handed_out + 1, ..self }
        } else {
            self
        }
    }

    /// The bus with one handed-out publish handle less.
    pub open spec fn released(self) -> Self {
        BusView {
            handed_out: if self.handed_out > 0 {
                (self.handed_out - 1) as nat
            } else {
                0
            },
            ..self
        }
    }

    /// How many events a subscription at `cursor` has not been handed yet.
    pub open spec fn backlog(self, cursor: nat) -> nat {
        if cursor < self.log.len() {
            (self.log.len() - cursor) as nat
        } else {
            0
        }
    }

    /// What a subscription at `cursor` is handed next.
    pub open spec fn next(self, cursor: nat) -> Delivery<T> {
        if cursor >= self.log.len() {
            if self.senders() == 0 {
                Delivery::Closed
            } else {
                Delivery::Empty
            }
        } else if cursor < self.oldest() {
            Delivery::Lagged { missed: (self.oldest() - cursor) as nat }
        } else {
            Delivery::Event { value: self.log[cursor as int], position: cursor }
        }
    }

    /// Where a subscription at `cursor` stands after it was handed `next(cursor)`.
    pub open spec fn cursor_after(self, cursor: nat) -> nat {
        if cursor >= self.log.len() {
            cursor
        } else if cursor < self.oldest() {
            self.oldest()
        } else {
            cursor + 1
        }
    }
}

/// If `k` lies less than `c` below `n`, the two fall into different slots of a ring of `c`.
proof fn lemma_distinct_slots(k: int, n: int, c: int)
    requires
        0 <= k < n,
        n - k < c,
    ensures
        k % c != n % c,
{
    if k % c == n % c {
        vstd::arithmetic::div_mod::lemma_mod_equivalence(n, k, c);
        vstd::arithmetic::div_mod::lemma_small_mod((n - k) as nat, c as nat);
    }
}

/// The ring that holds the most recent events.
struct Ring<T> {
    capacity: usize,
    slots: Vec<T>,
    published: u64,
    log: Ghost<Seq<T>>,
}

impl<T> Ring<T> {
    /// The slots hold exactly the last `capacity` events of the log, each at its
    /// position modulo `capacity`.
    spec fn wf(self) -> bool {
        &&& self.published as nat == self.log@.len()
        &&& self.slots@.len() == if self.log@.len() < self.capacity {
            self.log@.len()
        } else {
            self.capacity as nat
        }
        &&& forall|k: int|
            #![trigger self.log@[k]]
            self.log@.len() - self.slots@.len() <= k < self.log@.len() ==> self.slots@[k % (
            self.capacity as int)] == self.log@[k]
    }

    fn empty(capacity: usize) -> (ring: Self)
        ensures
            ring.wf(),
            ring.capacity == capacity,
            ring.log@ == Seq::<T>::empty(),
    {
        Ring { capacity, slots: Vec::new(), published: 0, log: Ghost(Seq::empty()) }
    }

    fn push(&mut self, event: T)
        requires
            old(self).wf(),
            old(self).published < u64::MAX,
        ensures
            final(self).wf(),
            final(self).capacity == old(self).capacity,
            final(self).log@ == old(self).log@.push(event),
    {
        let ghost pushed = event;
        let ghost before = *self;
        if self.capacity == 0 {
        } else if self.slots.len() < self.capacity {
            proof {
                vstd::arithmetic::div_mod::lemma_small_mod(
                    self.published as nat,
                    self.capacity as nat,
                );
            }
            self.slots.push(event);
        } else {
            let slot = (self.published % (self.capacity as u64)) as usize;
            self.slots.set(slot, event);
        }
        self.published = self.published + 1;
        self.log = Ghost(self.log@.push(pushed));
        proof {
            let c = self.capacity as int;
            let n = before.log@.len() as int;
            assert forall|k: int|
                #![trigger self.log@[k]]
                self.log@.len() - self.slots@.len() <= k < self.log@.len() implies self.slots@[k
                % c] == self.log@[k] by {
                if k < n {
                    assert(before.log@[k] == self.log@[k]);
                    if before.slots@.len() < c {
                        vstd::arithmetic::div_mod::lemma_small_mod(k as nat, c as nat);
                    } else {
                        lemma_distinct_slots(k, n, c);
                    }
                }
            }
        }
    }

    fn get(&self, position: u64) -> (event: &T)
        requires
            self.wf(),
            self.log@.len() - self.slots@.len() <= position < self.log@.len(),
        ensures
            *event == self.log@[position as int],
    {
        proof {
            if self.slots@.len() < self.capacity {
                vstd::arithmetic::div_mod::lemma_small_mod(position as nat, self.capacity as nat);
            }
        }
        let slot = (position % (self.capacity as u64)) as usize;
        &self.slots[slot]
    }
}

/// A publish handle handed out by a bus. Only a bus makes one.
pub struct EventSender {
    made_by_bus: (),
}

impl EventSender {
    /// Publishes `event` on `bus`, as `EventBus::publish` does.
    pub fn publish<T>(&self, bus: &mut EventBus<T>, event: T) -> (delivered: Result<
        usize,
        PublishError,
    >)
        requires
            old(bus)@.log.len() < u64::MAX,
        ensures
            final(bus)@ == old(bus)@.publish(event),
            delivered == if old(bus)@.fully_closed() {
                Err::<usize, PublishError>(PublishError::Closed)
            } else {
                Ok::<usize, PublishError>(old(bus)@.subscribers as usize)
            },
    {
        bus.publish(event)
    }
}

/// A subscription: a cursor into the stream of everything published on a bus.
pub struct Subscription {
    cursor: u64,
}

/// The bus: the single owner of the event stream and of the counts of its handles.
pub struct EventBus<T> {
    ring: Ring<T>,
    subscribers: usize,
    own_sender: bool,
    sender_clones: usize,
}

impl<T> View for EventBus<T> {
    type V = BusView<T>;

    closed spec fn view(&self) -> BusView<T> {
        BusView {
            capacity: self.ring.capacity as nat,
            log: self.ring.log@,
            subscribers: self.subscribers as nat,
            own_sender: self.own_sender,
            handed_out: self.sender_clones as nat,
        }
    }
}

impl<T> EventBus<T> {
    #[verifier::type_invariant]
    spec fn inv(self) -> bool {
        self.ring.wf()
    }

    /// A bus that keeps the `capacity` most recent events. It starts with no
    /// subscription and with its own publish handle.
    pub fn create(capacity: usize) -> (bus: Self)
        ensures
            bus@ == BusView::<T>::fresh(capacity as nat),
    {
        EventBus { ring: Ring::empty(capacity), subscribers: 0, own_sender: true, sender_clones: 0 }
    }

    /// How many events are kept.
    pub fn capacity(&self) -> (capacity: usize)
        ensures
            capacity == self@.capacity,
    {
        self.ring.capacity
    }

    /// How many events were published since the bus was created.
    pub fn published(&self) -> (count: u64)
        ensures
            count == self@.log.len(),
    {
        proof {
            use_type_invariant(self);
        }
        self.ring.published
    }

    /// How many subscriptions are live.
    pub fn subscriber_count(&self) -> (count: usize)
        ensures
            count == self@.subscribers,
    {
        self.subscribers
    }

    /// How many publish handles that `sender` handed out are live.
    pub fn handed_out(&self) -> (count: usize)
        ensures
            count == self@.handed_out,
    {
        self.sender_clones
    }

    /// Whether every handle of either kind has been dropped.
    pub fn is_closed(&self) -> (closed: bool)
        ensures
            closed == self@.fully_closed(),
    {
        !self.own_sender && self.sender_clones == 0 && self.subscribers == 0
    }

    /// A new subscription. It starts behind everything published so far, so it is
    /// handed only what is published after this call. No other subscription and
    /// nothing already published is touched.
    pub fn subscribe(&mut self) -> (subscription: Subscription)
        requires
            old(self)@.subscribers < usize::MAX,
        ensures
            subscription.position() == old(self)@.log.len(),
            final(self)@ == old(self)@.subscribed(),
    {
        proof {
            use_type_invariant(&*self);
        }
        self.subscribers = self.subscribers + 1;
        Subscription { cursor: self.ring.published }
    }

    /// Drops a subscription. The stream and the other subscriptions stay as they are.
    pub fn unsubscribe(&mut self, subscription: Subscription)
        ensures
            final(self)@ == old(self)@.unsubscribed(),
    {
        proof {
            use_type_invariant(&*self);
        }
        if self.subscribers > 0 {
            self.subscribers = self.subscribers - 1;
        }
    }

    /// A clone of a live publish handle, or `None` when none is left to clone: a
    /// bus without publishers stays without them.
    pub fn sender(&mut self) -> (handle: Option<EventSender>)
        requires
            old(self)@.handed_out < usize::MAX,
        ensures
            handle is Some == (old(self)@.senders() > 0),
            final(self)@ == old(self)@.cloned_sender(),
    {
        proof {
            use_type_invariant(&*self);
        }
        if !self.own_sender && self.sender_clones == 0 {
            return None;
        }
        self.sender_clones = self.sender_clones + 1;
        Some(EventSender { made_by_bus: () })
    }

    /// Drops a publish handle that `sender` handed out.
    pub fn release(&mut self, handle: EventSender)
        ensures
            final(self)@ == old(self)@.released(),
    {
        proof {
            use_type_invariant(&*self);
        }
        if self.sender_clones > 0 {
            self.sender_clones = self.sender_clones - 1;
        }
    }

    /// Drops the publish handle that the bus was created with. Once the handles
    /// handed out by `sender` are released too, subscriptions that have read
    /// everything are told that the bus is closed.
    pub fn close(&mut self)
        ensures
            final(self)@ == (BusView { own_sender: false, ..old(self)@ }),
    {
        proof {
            use_type_invariant(&*self);
        }
        self.own_sender = false;
    }

    /// Appends `event` to the stream and returns the number of live subscriptions,
    /// each of which will be handed it. Zero subscriptions is no error. When the
    /// ring is full the oldest event is overwritten; no subscription is waited for.
    /// The only failure is a bus whose handles have all been dropped, which is left
    /// as it was.
    pub fn publish(&mut self, event: T) -> (delivered: Result<usize, PublishError>)
        requires
            old(self)@.log.len() < u64::MAX,
        ensures
            final(self)@ == old(self)@.publish(event),
            delivered == if old(self)@.fully_closed() {
                Err::<usize, PublishError>(PublishError::Closed)
            } else {
                Ok::<usize, PublishError>(old(self)@.subscribers as usize)
            },
    {
        proof {
            use_type_invariant(&*self);
        }
        if self.is_closed() {
            return Err(PublishError::Closed);
        }
        let capacity = self.ring.capacity;
        let mut ring = Ring::empty(capacity);
        std::mem::swap(&mut ring, &mut self.ring);
        ring.push(event);
        self.ring = ring;
        Ok(self.subscribers)
    }
}

impl<T> EventBus<T> {
    /// Publishes `events` in their order, as one `publish` after the other does,
    /// and returns the number of live subscriptions. A bus whose handles have all
    /// been dropped takes none of them.
    pub fn publish_all(&mut self, events: Vec<T>) -> (delivered: Result<usize, PublishError>)
        requires
            old(self)@.log.len() + events@.len() <= u64::MAX,
        ensures
            final(self)@ == old(self)@.publish_all(events@),
            delivered == if old(self)@.fully_closed() {
                Err::<usize, PublishError>(PublishError::Closed)
            } else {
                Ok::<usize, PublishError>(old(self)@.subscribers as usize)
            },
    {
        if self.is_closed() {
            return Err(PublishError::Closed);
        }
        let ghost all = events@;
        let ghost before = self@;
        let mut events = events;
        let mut stack: Vec<T> = Vec::new();
        while events.len() > 0
            invariant
                events@.len() + stack@.len() == all.len(),
                forall|j: int| 0 <= j < events@.len() ==> events@[j] == all[j],
                forall|j: int| 0 <= j < stack@.len() ==> stack@[j] == all[all.len() - 1 - j],
            decreases events@.len(),
        {
            match events.pop() {
                Some(event) => {
                    stack.push(event);
                },
                None => {},
            }
        }
        let subscribers = self.subscribers;
        while stack.len() > 0
            invariant
                stack@.len() <= all.len(),
                forall|j: int| 0 <= j < stack@.len() ==> stack@[j] == all[all.len() - 1 - j],
                !before.fully_closed(),
                before.log.len() + all.len() <= u64::MAX,
                subscribers == before.subscribers,
                self@ == (BusView {
                    log: before.log + all.take(all.len() - stack@.len()),
                    ..before
                }),
            decreases stack@.len(),
        {
            let ghost done = all.len() - stack@.len();
            match stack.pop() {
                Some(event) => {
                    let _ = self.publish(event);
                    assert(before.log + all.take(done + 1) =~= (before.log + all.take(done)).push(
                        all[done],
                    ));
                },
                None => {},
            }
        }
        assert(all.take(all.len() as int) =~= all);
        Ok(subscribers)
    }
}

impl Subscription {
    /// The position in the stream of the next event this subscription is owed.
    pub closed spec fn position(&self) -> nat {
        self.cursor as nat
    }

    /// How many events this subscription has not been handed yet.
    pub fn backlog<T>(&self, bus: &EventBus<T>) -> (unread: u64)
        ensures
            unread == bus@.backlog(self.position()),
    {
        let published = bus.published();
        if self.cursor < published {
            published - self.cursor
        } else {
            0
        }
    }

    /// The next event of this subscription, in the order of publication.
    ///
    /// With nothing unread this is `Empty`, or `Closed` once no publish handle is
    /// left. When more events are unread than the bus keeps, the ones already
    /// overwritten are skipped: the call reports `Lagged` with their number and the
    /// next call resumes at the oldest event still kept. The bus and every other
    /// subscription are left as they were.
    pub fn receive<'a, T>(&mut self, bus: &'a EventBus<T>) -> (received: Result<&'a T, RecvError>)
        ensures
            final(self).position() == bus@.cursor_after(old(self).position()),
            match bus@.next(old(self).position()) {
                Delivery::Event { value, position } => received matches Ok(event) && *event
                    == value,
                Delivery::Lagged { missed } => received matches Err(RecvError::Lagged(n)) && n
                    == missed,
                Delivery::Empty => received matches Err(RecvError::Empty),
                Delivery::Closed => received matches Err(RecvError::Closed),
            },
    {
        proof {
            use_type_invariant(bus);
        }
        let published = bus.ring.published;
        let kept = bus.ring.slots.len() as u64;
        let oldest = published - kept;
        if self.cursor >= published {
            if !bus.own_sender && bus.sender_clones == 0 {
                Err(RecvError::Closed)
            } else {
                Err(RecvError::Empty)
            }
        } else if self.cursor < oldest {
            let missed = oldest - self.cursor;
            self.cursor = oldest;
            Err(RecvError::Lagged(missed))
        } else {
            let event = bus.ring.get(self.cursor);
            self.cursor = self.cursor + 1;
            Ok(event)
        }
    }
}

} // verus!
