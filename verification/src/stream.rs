//! What a subscription observes over a whole run of publishes and receives.
//!
//! The statements here are about the bus as a mathematical value; the contracts of
//! `EventBus::publish` and `Subscription::receive` tie the running code to it.

use crate::bus::{BusView, Delivery};
use vstd::prelude::*;

verus! {

/// One step of a run, as seen from one subscription.
pub enum Step<T> {
    /// Somebody publishes an event.
    Publish(T),
    /// The subscription asks for its next event.
    Receive,
}

/// The bus after the publishes among `steps`.
pub open spec fn bus_after<T>(bus: BusView<T>, steps: Seq<Step<T>>) -> BusView<T>
    decreases steps.len(),
{
    if steps.len() == 0 {
        bus
    } else {
        match steps[0] {
            Step::Publish(event) => bus_after(bus.publish(event), steps.drop_first()),
            Step::Receive => bus_after(bus, steps.drop_first()),
        }
    }
}

/// Where a subscription that started at `cursor` stands after `steps`.
pub open spec fn cursor_after<T>(bus: BusView<T>, cursor: nat, steps: Seq<Step<T>>) -> nat
    decreases steps.len(),
{
    if steps.len() == 0 {
        cursor
    } else {
        match steps[0] {
            Step::Publish(event) => cursor_after(bus.publish(event), cursor, steps.drop_first()),
            Step::Receive => cursor_after(bus, bus.cursor_after(cursor), steps.drop_first()),
        }
    }
}

/// The positions of the events that a subscription starting at `cursor` is handed
/// during `steps`, in the order in which it is handed them.
pub open spec fn observed<T>(bus: BusView<T>, cursor: nat, steps: Seq<Step<T>>) -> Seq<nat>
    decreases steps.len(),
{
    if steps.len() == 0 {
        Seq::empty()
    } else {
        match steps[0] {
            Step::Publish(event) => observed(bus.publish(event), cursor, steps.drop_first()),
            Step::Receive => {
                let rest = observed(bus, bus.cursor_after(cursor), steps.drop_first());
                match bus.next(cursor) {
                    Delivery::Event { value, position } => seq![position] + rest,
                    _ => rest,
                }
            },
        }
    }
}

/// The number of events that the subscription is told it has lost during `steps`:
/// the sum of its `Lagged` reports.
pub open spec fn reported_lost<T>(bus: BusView<T>, cursor: nat, steps: Seq<Step<T>>) -> nat
    decreases steps.len(),
{
    if steps.len() == 0 {
        0
    } else {
        match steps[0] {
            Step::Publish(event) => reported_lost(bus.publish(event), cursor, steps.drop_first()),
            Step::Receive => {
                let rest = reported_lost(bus, bus.cursor_after(cursor), steps.drop_first());
                match bus.next(cursor) {
                    Delivery::Lagged { missed } => missed + rest,
                    _ => rest,
                }
            },
        }
    }
}

/// Publishing only ever appends: what was published stays where it was.
pub proof fn lemma_log_grows<T>(bus: BusView<T>, steps: Seq<Step<T>>)
    ensures
        bus_after(bus, steps).capacity == bus.capacity,
        bus.log.len() <= bus_after(bus, steps).log.len(),
        forall|k: int| 0 <= k < bus.log.len() ==> bus_after(bus, steps).log[k] == bus.log[k],
    decreases steps.len(),
{
    if steps.len() > 0 {
        let rest = steps.drop_first();
        match steps[0] {
            Step::Publish(event) => {
                lemma_log_grows(bus.publish(event), rest);
                assert(bus_after(bus, steps) == bus_after(bus.publish(event), rest));
                assert forall|k: int| 0 <= k < bus.log.len() implies bus_after(bus, steps).log[k]
                    == bus.log[k] by {
                    assert(bus.publish(event).log[k] == bus.log[k]);
                }
            },
            Step::Receive => {
                lemma_log_grows(bus, rest);
                assert(bus_after(bus, steps) == bus_after(bus, rest));
            },
        }
    }
}

/// A subscription is handed events in the order of their publication, each at most
/// once, and never one that was published before it was created.
///
/// Whatever the interleaving of publishes and receives, the positions handed out are
/// strictly increasing, none lies before the position at which the subscription
/// started, all lie in the stream as it stands at the end, and the cursor ends
/// behind the last of them.
pub proof fn lemma_observed_in_order<T>(bus: BusView<T>, cursor: nat, steps: Seq<Step<T>>)
    requires
        cursor <= bus.log.len(),
    ensures
        cursor <= cursor_after(bus, cursor, steps) <= bus_after(bus, steps).log.len(),
        forall|i: int|
            0 <= i < observed(bus, cursor, steps).len() ==> cursor <= #[trigger] observed(
                bus,
                cursor,
                steps,
            )[i] < cursor_after(bus, cursor, steps),
        forall|i: int, j: int|
            0 <= i < j < observed(bus, cursor, steps).len() ==> observed(bus, cursor, steps)[i]
                < observed(bus, cursor, steps)[j],
    decreases steps.len(),
{
    if steps.len() > 0 {
        let rest = steps.drop_first();
        match steps[0] {
            Step::Publish(event) => {
                lemma_observed_in_order(bus.publish(event), cursor, rest);
                assert(observed(bus, cursor, steps) == observed(bus.publish(event), cursor, rest));
                assert(cursor_after(bus, cursor, steps) == cursor_after(
                    bus.publish(event),
                    cursor,
                    rest,
                ));
                assert(bus_after(bus, steps) == bus_after(bus.publish(event), rest));
            },
            Step::Receive => {
                let moved = bus.cursor_after(cursor);
                lemma_observed_in_order(bus, moved, rest);
                let tail = observed(bus, moved, rest);
                assert(cursor_after(bus, cursor, steps) == cursor_after(bus, moved, rest));
                assert(bus_after(bus, steps) == bus_after(bus, rest));
                match bus.next(cursor) {
                    Delivery::Event { value, position } => {
                        let all = observed(bus, cursor, steps);
                        assert(all == seq![position] + tail);
                        assert forall|i: int| 0 <= i < all.len() implies cursor <= #[trigger] all[i]
                            < cursor_after(bus, cursor, steps) by {
                            if i > 0 {
                                assert(all[i] == tail[i - 1]);
                            }
                        }
                        assert forall|i: int, j: int| 0 <= i < j < all.len() implies all[i]
                            < all[j] by {
                            assert(all[j] == tail[j - 1]);
                            if i > 0 {
                                assert(all[i] == tail[i - 1]);
                            }
                        }
                    },
                    _ => {
                        assert(observed(bus, cursor, steps) == tail);
                    },
                }
            },
        }
    }
}

/// A subscription created after some events were published is never handed one of
/// them: every position it observes lies at or behind the length of the stream at
/// the moment of its creation.
pub proof fn lemma_no_replay<T>(bus: BusView<T>, steps: Seq<Step<T>>, i: int)
    requires
        0 <= i < observed(bus, bus.log.len(), steps).len(),
    ensures
        observed(bus, bus.log.len(), steps)[i] >= bus.log.len(),
{
    lemma_observed_in_order(bus, bus.log.len(), steps);
}

/// Nothing is skipped in silence: every position that the cursor passed was either
/// handed out or counted in a `Lagged` report.
pub proof fn lemma_every_event_accounted<T>(bus: BusView<T>, cursor: nat, steps: Seq<Step<T>>)
    requires
        cursor <= bus.log.len(),
    ensures
        cursor_after(bus, cursor, steps) == cursor + observed(bus, cursor, steps).len()
            + reported_lost(bus, cursor, steps),
    decreases steps.len(),
{
    if steps.len() > 0 {
        let rest = steps.drop_first();
        match steps[0] {
            Step::Publish(event) => {
                lemma_every_event_accounted(bus.publish(event), cursor, rest);
            },
            Step::Receive => {
                lemma_every_event_accounted(bus, bus.cursor_after(cursor), rest);
            },
        }
    }
}

/// What is handed out at a position is the event that was published at it.
pub proof fn lemma_delivery_is_published<T>(bus: BusView<T>, cursor: nat)
    requires
        bus.next(cursor) is Event,
    ensures
        bus.next(cursor)->position == cursor,
        cursor < bus.log.len(),
        bus.next(cursor)->value == bus.log[cursor as int],
        bus.cursor_after(cursor) == cursor + 1,
{
}

/// A subscription that keeps up loses nothing: while its backlog never exceeds the
/// capacity when it asks, each receive with something unread hands out exactly the
/// event at the cursor.
pub proof fn lemma_no_loss_within_capacity<T>(bus: BusView<T>, cursor: nat)
    requires
        cursor < bus.log.len(),
        bus.backlog(cursor) <= bus.capacity,
    ensures
        bus.next(cursor) == (Delivery::Event { value: bus.log[cursor as int], position: cursor }),
{
}

/// `count` receives in a row.
pub open spec fn receives<T>(count: nat) -> Seq<Step<T>> {
    Seq::new(count, |i: int| Step::Receive)
}

/// A subscription that was there before a run of publishes and has not fallen
/// behind by more than the capacity is handed every one of them, in the order of
/// publication and without a gap: reading as often as it has unread events, it
/// observes exactly the positions from its cursor to the end of the stream.
pub proof fn lemma_reads_all_in_order<T>(bus: BusView<T>, cursor: nat)
    requires
        cursor <= bus.log.len(),
        bus.backlog(cursor) <= bus.capacity,
    ensures
        observed(bus, cursor, receives(bus.backlog(cursor))) == Seq::new(
            bus.backlog(cursor),
            |i: int| (cursor + i) as nat,
        ),
        reported_lost(bus, cursor, receives(bus.backlog(cursor))) == 0,
        cursor_after(bus, cursor, receives(bus.backlog(cursor))) == bus.log.len(),
    decreases bus.log.len() - cursor,
{
    let count = bus.backlog(cursor);
    let steps = receives::<T>(count);
    if count > 0 {
        let rest = steps.drop_first();
        assert(rest =~= receives::<T>((count - 1) as nat));
        assert(bus.cursor_after(cursor) == cursor + 1);
        lemma_reads_all_in_order(bus, cursor + 1);
        assert(observed(bus, cursor, steps) == seq![cursor] + observed(bus, cursor + 1, rest));
        assert(observed(bus, cursor, steps) =~= Seq::new(count, |i: int| (cursor + i) as nat));
    } else {
        assert(observed(bus, cursor, steps) =~= Seq::new(count, |i: int| (cursor + i) as nat));
    }
}

/// A subscription that is created before a run of publishes is handed every one
/// of them, in the order in which they were published: if no more are published
/// than the bus keeps, as many receives as there were publishes observe exactly
/// the published events, the first first, and nothing that was published before
/// the subscription was created.
pub proof fn lemma_subscribed_before_publishes<T>(bus: BusView<T>, events: Seq<T>)
    requires
        events.len() <= bus.capacity,
    ensures
        bus.subscribed().publish_all(events).log == bus.log + events,
        observed(
            bus.subscribed().publish_all(events),
            bus.log.len(),
            receives(events.len()),
        ) == Seq::new(events.len(), |i: int| (bus.log.len() + i) as nat),
        forall|i: int|
            0 <= i < events.len() ==> bus.subscribed().publish_all(events).log[bus.log.len() + i]
                == #[trigger] events[i],
{
    let after = bus.subscribed().publish_all(events);
    assert(!bus.subscribed().fully_closed());
    assert(after.backlog(bus.log.len()) == events.len());
    lemma_reads_all_in_order(after, bus.log.len());
}

/// A subscription whose backlog exceeds the capacity is told exactly how many
/// events it lost, and is then handed the oldest event still kept instead of a
/// second error.
pub proof fn lemma_lag_then_resume<T>(bus: BusView<T>, cursor: nat)
    requires
        bus.backlog(cursor) > bus.capacity,
    ensures
        bus.next(cursor) == (Delivery::<T>::Lagged {
            missed: (bus.backlog(cursor) - bus.capacity) as nat,
        }),
        bus.cursor_after(cursor) == bus.oldest(),
        bus.capacity > 0 ==> bus.next(bus.cursor_after(cursor)) == (Delivery::Event {
            value: bus.log[bus.oldest() as int],
            position: bus.oldest(),
        }),
        bus.capacity > 0 ==> bus.backlog(bus.cursor_after(cursor)) == bus.capacity,
{
}

/// A subscription that fell behind by more than the capacity is told so once, and
/// is then handed exactly the events that are still kept, oldest first: after the
/// report of the gap, as many receives as the bus keeps events observe the
/// positions from the oldest kept event to the end of the stream.
pub proof fn lemma_lag_then_all_that_is_kept<T>(bus: BusView<T>, cursor: nat)
    requires
        bus.backlog(cursor) > bus.capacity,
    ensures
        observed(bus, cursor, receives(1 + bus.capacity)) == Seq::new(
            bus.capacity,
            |i: int| (bus.oldest() + i) as nat,
        ),
        reported_lost(bus, cursor, receives(1 + bus.capacity)) == bus.backlog(cursor)
            - bus.capacity,
        bus.retained() == Seq::new(bus.capacity, |i: int| bus.log[bus.oldest() + i]),
{
    let steps = receives::<T>(1 + bus.capacity);
    let rest = steps.drop_first();
    assert(rest =~= receives::<T>(bus.capacity));
    let resumed = bus.cursor_after(cursor);
    assert(resumed == bus.oldest());
    assert(bus.backlog(resumed) == bus.capacity);
    lemma_reads_all_in_order(bus, resumed);
    assert(observed(bus, cursor, steps) == observed(bus, resumed, rest));
    assert(bus.retained() =~= Seq::new(bus.capacity, |i: int| bus.log[bus.oldest() + i]));
}

/// Two subscriptions agree on the order of events: when both are handed the events
/// at two positions, both are handed the earlier one first, because each is handed
/// positions in increasing order and a position names one event.
pub proof fn lemma_same_order_for_all<T>(
    bus: BusView<T>,
    first: nat,
    second: nat,
    first_steps: Seq<Step<T>>,
    second_steps: Seq<Step<T>>,
    i: int,
    j: int,
    k: int,
    l: int,
)
    requires
        first <= bus.log.len(),
        second <= bus.log.len(),
        0 <= i < observed(bus, first, first_steps).len(),
        0 <= j < observed(bus, first, first_steps).len(),
        0 <= k < observed(bus, second, second_steps).len(),
        0 <= l < observed(bus, second, second_steps).len(),
        observed(bus, first, first_steps)[i] == observed(bus, second, second_steps)[k],
        observed(bus, first, first_steps)[j] == observed(bus, second, second_steps)[l],
    ensures
        i < j <==> k < l,
{
    lemma_observed_in_order(bus, first, first_steps);
    lemma_observed_in_order(bus, second, second_steps);
}

/// Publishing waits for nobody. Whatever a subscription has read or left unread,
/// a run of publishes on a bus that is not closed goes through as it stands: the
/// stream it leaves is the old one with the events behind it, in their order, and
/// it is the same for every cursor; no cursor is moved, and nothing is handed
/// out.
pub proof fn lemma_publishing_waits_for_nobody<T>(bus: BusView<T>, cursor: nat, events: Seq<T>)
    requires
        !bus.fully_closed(),
    ensures
        bus_after(bus, publishes(events)).log == bus.log + events,
        bus_after(bus, publishes(events)) == bus.publish_all(events),
        cursor_after(bus, cursor, publishes(events)) == cursor,
        observed(bus, cursor, publishes(events)).len() == 0,
        reported_lost(bus, cursor, publishes(events)) == 0,
    decreases events.len(),
{
    lemma_publish_all_is_a_run(bus, events);
    let steps = publishes(events);
    if events.len() > 0 {
        let rest = events.skip(1);
        assert(steps.drop_first() =~= publishes(rest));
        lemma_publishing_waits_for_nobody(bus.publish(events[0]), cursor, rest);
    }
}

/// The publishes of `events`, in order, as steps of a run.
pub open spec fn publishes<T>(events: Seq<T>) -> Seq<Step<T>> {
    Seq::new(events.len(), |i: int| Step::Publish(events[i]))
}

/// Publishing several events at once is publishing them one after the other.
pub proof fn lemma_publish_all_is_a_run<T>(bus: BusView<T>, events: Seq<T>)
    ensures
        bus_after(bus, publishes(events)) == bus.publish_all(events),
    decreases events.len(),
{
    let steps = publishes(events);
    if events.len() > 0 {
        let rest = events.skip(1);
        assert(steps.drop_first() =~= publishes(rest));
        lemma_publish_all_is_a_run(bus.publish(events[0]), rest);
        if !bus.fully_closed() {
            assert(bus.log.push(events[0]) + rest =~= bus.log + events);
        }
    } else {
        assert(bus.log + events =~= bus.log);
    }
}

} // verus!
