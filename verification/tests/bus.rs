use stream_bus::bus::{EventBus, PublishError, RecvError};

#[test]
fn publish_without_subscribers_is_no_error() {
    let mut bus: EventBus<u32> = EventBus::create(4);
    assert_eq!(bus.publish(7), Ok(0));
    assert_eq!(bus.published(), 1);
}

#[test]
fn publish_reports_the_number_of_subscriptions() {
    let mut bus: EventBus<u32> = EventBus::create(4);
    let _a = bus.subscribe();
    let _b = bus.subscribe();
    assert_eq!(bus.publish(1), Ok(2));
}

#[test]
fn events_arrive_in_order_of_publication() {
    let mut bus: EventBus<u32> = EventBus::create(8);
    let mut a = bus.subscribe();
    let mut b = bus.subscribe();
    for n in 1..=5u32 {
        assert_eq!(bus.publish(n), Ok(2));
    }
    for n in 1..=5u32 {
        assert_eq!(a.receive(&bus), Ok(&n));
    }
    assert_eq!(a.receive(&bus), Err(RecvError::Empty));
    for n in 1..=5u32 {
        assert_eq!(b.receive(&bus), Ok(&n));
    }
    assert_eq!(b.receive(&bus), Err(RecvError::Empty));
}

#[test]
fn late_subscription_sees_nothing_earlier() {
    let mut bus: EventBus<u32> = EventBus::create(8);
    bus.publish(1).unwrap();
    bus.publish(2).unwrap();
    let mut late = bus.subscribe();
    assert_eq!(late.receive(&bus), Err(RecvError::Empty));
    bus.publish(3).unwrap();
    assert_eq!(late.receive(&bus), Ok(&3));
    assert_eq!(late.receive(&bus), Err(RecvError::Empty));
}

#[test]
fn lagged_reports_the_number_missed_and_then_resumes() {
    let mut bus: EventBus<u32> = EventBus::create(4);
    let mut slow = bus.subscribe();
    for n in 0..7u32 {
        bus.publish(n).unwrap();
    }
    assert_eq!(slow.backlog(&bus), 7);
    assert_eq!(slow.receive(&bus), Err(RecvError::Lagged(3)));
    assert_eq!(slow.receive(&bus), Ok(&3));
    assert_eq!(slow.receive(&bus), Ok(&4));
    assert_eq!(slow.receive(&bus), Ok(&5));
    assert_eq!(slow.receive(&bus), Ok(&6));
    assert_eq!(slow.receive(&bus), Err(RecvError::Empty));
}

#[test]
fn backlog_equal_to_capacity_is_not_lagged() {
    let mut bus: EventBus<u32> = EventBus::create(4);
    let mut sub = bus.subscribe();
    for n in 0..4u32 {
        bus.publish(n).unwrap();
    }
    assert_eq!(sub.receive(&bus), Ok(&0));
}

#[test]
fn ten_thousand_publishes_with_a_subscriber_that_never_reads() {
    let mut bus: EventBus<u64> = EventBus::create(16);
    let mut idle = bus.subscribe();
    for n in 0..10_000u64 {
        assert_eq!(bus.publish(n), Ok(1));
    }
    assert_eq!(bus.published(), 10_000);
    assert_eq!(idle.receive(&bus), Err(RecvError::Lagged(10_000 - 16)));
    assert_eq!(idle.receive(&bus), Ok(&(10_000 - 16)));
}

#[test]
fn capacity_zero_keeps_nothing() {
    let mut bus: EventBus<u32> = EventBus::create(0);
    let mut sub = bus.subscribe();
    bus.publish(1).unwrap();
    bus.publish(2).unwrap();
    assert_eq!(sub.receive(&bus), Err(RecvError::Lagged(2)));
    assert_eq!(sub.receive(&bus), Err(RecvError::Empty));
}

#[test]
fn closed_once_no_publish_handle_is_left() {
    let mut bus: EventBus<u32> = EventBus::create(4);
    let mut sub = bus.subscribe();
    let handle = bus.sender().unwrap();
    bus.publish(9).unwrap();
    bus.close();
    assert_eq!(sub.receive(&bus), Ok(&9));
    assert_eq!(sub.receive(&bus), Err(RecvError::Empty));
    bus.release(handle);
    assert_eq!(sub.receive(&bus), Err(RecvError::Closed));
    assert!(bus.sender().is_none());
    assert!(!bus.is_closed());
    assert_eq!(bus.publish(1), Ok(1));
    bus.unsubscribe(sub);
    assert!(bus.is_closed());
    assert_eq!(bus.publish(2), Err(PublishError::Closed));
    assert_eq!(bus.published(), 2);
}

#[test]
fn sender_publishes_like_the_bus() {
    let mut bus: EventBus<u32> = EventBus::create(2);
    let mut sub = bus.subscribe();
    let handle = bus.sender().unwrap();
    assert_eq!(handle.publish(&mut bus, 5), Ok(1));
    assert_eq!(sub.receive(&bus), Ok(&5));
    assert_eq!(bus.capacity(), 2);
    assert_eq!(bus.subscriber_count(), 1);
}

#[test]
fn several_events_are_published_in_their_order() {
    let mut bus: EventBus<u32> = EventBus::create(8);
    let mut sub = bus.subscribe();
    assert_eq!(bus.publish_all(vec![1, 2, 3]), Ok(1));
    assert_eq!(bus.publish_all(vec![]), Ok(1));
    assert_eq!(bus.published(), 3);
    assert_eq!(sub.receive(&bus), Ok(&1));
    assert_eq!(sub.receive(&bus), Ok(&2));
    assert_eq!(sub.receive(&bus), Ok(&3));
    assert_eq!(sub.receive(&bus), Err(RecvError::Empty));
    bus.unsubscribe(sub);
    bus.close();
    assert_eq!(bus.publish_all(vec![4, 5]), Err(PublishError::Closed));
    assert_eq!(bus.published(), 3);
    assert_eq!(bus.handed_out(), 0);
}
