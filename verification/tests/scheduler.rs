use stream_bus::bus::{EventBus, RecvError};
use stream_bus::scheduler::{
    EventHandler, HandlerError, PollError, Scheduler, SchedulerError, Supervision, TaskExit,
    TaskStatus, Turn,
};

#[derive(Debug, Clone, PartialEq)]
enum Msg {
    X(u32),
    Y(u32),
}

#[test]
fn register_before_start_only() {
    let mut bus: EventBus<Msg> = EventBus::create(4);
    let mut scheduler = Scheduler::new();
    assert_eq!(scheduler.register("a".to_string()), Ok(0));
    assert_eq!(scheduler.register("b".to_string()), Ok(1));
    assert_eq!(scheduler.len(), 2);
    assert_eq!(scheduler.status(0), Some(TaskStatus::Spawned));
    assert_eq!(scheduler.status(2), None);
    assert_eq!(scheduler.name(1).map(|n| n.as_str()), Some("b"));
    assert_eq!(scheduler.supervision(), Supervision::KeepWaiting);
    scheduler.start(&mut bus);
    assert_eq!(scheduler.register("c".to_string()), Err(SchedulerError::AlreadyStarted));
    assert_eq!(scheduler.len(), 2);
    assert_eq!(scheduler.status(0), Some(TaskStatus::Running));
    assert_eq!(scheduler.status(1), Some(TaskStatus::Running));
    assert_eq!(bus.subscriber_count(), 2);
}

#[test]
fn poll_before_start_is_not_running() {
    let bus: EventBus<Msg> = EventBus::create(4);
    let mut scheduler = Scheduler::new();
    scheduler.register("a".to_string()).unwrap();
    assert_eq!(scheduler.poll(0, &bus), Err(PollError::NotRunning));
    assert_eq!(scheduler.poll(7, &bus), Err(PollError::NotRunning));
}

#[test]
fn handlers_see_only_what_is_published_after_the_start() {
    let mut bus: EventBus<Msg> = EventBus::create(4);
    bus.publish(Msg::X(0)).unwrap();
    let mut scheduler = Scheduler::new();
    scheduler.register("a".to_string()).unwrap();
    scheduler.start(&mut bus);
    assert_eq!(scheduler.poll(0, &bus), Err(PollError::Empty));
    bus.publish(Msg::X(1)).unwrap();
    assert_eq!(scheduler.poll(0, &bus), Ok(&Msg::X(1)));
    assert_eq!(scheduler.poll(0, &bus), Err(PollError::Empty));
}

#[test]
fn a_returned_handler_is_completed_and_gives_back_its_handles() {
    let mut bus: EventBus<Msg> = EventBus::create(4);
    let mut scheduler = Scheduler::new();
    scheduler.register("a".to_string()).unwrap();
    scheduler.register("b".to_string()).unwrap();
    scheduler.start(&mut bus);
    assert_eq!(bus.publish(Msg::X(1)), Ok(2));
    assert_eq!(scheduler.record_exit(0, TaskExit::Returned, &mut bus), Supervision::KeepWaiting);
    assert_eq!(scheduler.status(0), Some(TaskStatus::Completed));
    assert_eq!(scheduler.exit_of(0), Some(TaskExit::Returned));
    assert_eq!(bus.publish(Msg::X(2)), Ok(1));
    assert_eq!(scheduler.record_exit(1, TaskExit::Returned, &mut bus), Supervision::Return);
    assert_eq!(scheduler.supervision(), Supervision::Return);
    assert_eq!(bus.subscriber_count(), 0);
}

#[test]
fn an_ended_handler_stays_ended() {
    let mut bus: EventBus<Msg> = EventBus::create(4);
    let mut scheduler = Scheduler::new();
    scheduler.register("a".to_string()).unwrap();
    scheduler.start(&mut bus);
    scheduler.record_exit(0, TaskExit::Errored, &mut bus);
    assert_eq!(scheduler.status(0), Some(TaskStatus::Failed));
    scheduler.record_exit(0, TaskExit::Returned, &mut bus);
    assert_eq!(scheduler.status(0), Some(TaskStatus::Failed));
    assert_eq!(scheduler.exit_of(0), Some(TaskExit::Errored));
    scheduler.start(&mut bus);
    assert_eq!(scheduler.status(0), Some(TaskStatus::Failed));
    scheduler.cancel();
    assert_eq!(scheduler.status(0), Some(TaskStatus::Failed));
    assert_eq!(scheduler.poll(0, &bus), Err(PollError::NotRunning));
}

#[test]
fn cancel_ends_the_waiting() {
    let mut bus: EventBus<Msg> = EventBus::create(4);
    let mut scheduler = Scheduler::new();
    scheduler.register("a".to_string()).unwrap();
    scheduler.register("b".to_string()).unwrap();
    scheduler.start(&mut bus);
    scheduler.record_exit(0, TaskExit::Returned, &mut bus);
    assert_eq!(scheduler.supervision(), Supervision::KeepWaiting);
    assert_eq!(scheduler.cancel(), Supervision::Return);
    assert_eq!(scheduler.status(0), Some(TaskStatus::Completed));
    assert_eq!(scheduler.status(1), Some(TaskStatus::Cancelled));
    assert_eq!(scheduler.supervision(), Supervision::Return);
    assert_eq!(scheduler.register("c".to_string()), Err(SchedulerError::AlreadyStarted));
}

#[test]
fn lag_is_reported_to_the_handler_and_it_goes_on() {
    let mut bus: EventBus<Msg> = EventBus::create(2);
    let mut scheduler = Scheduler::new();
    scheduler.register("slow".to_string()).unwrap();
    scheduler.start(&mut bus);
    for n in 0..5 {
        bus.publish(Msg::X(n)).unwrap();
    }
    assert_eq!(scheduler.poll(0, &bus), Err(PollError::Lagged(3)));
    assert_eq!(scheduler.poll(0, &bus), Ok(&Msg::X(3)));
    assert_eq!(scheduler.poll(0, &bus), Ok(&Msg::X(4)));
    assert_eq!(scheduler.poll(0, &bus), Err(PollError::Empty));
    assert_eq!(scheduler.status(0), Some(TaskStatus::Running));
}

#[test]
fn closed_is_reported_when_no_publisher_is_left() {
    let mut bus: EventBus<Msg> = EventBus::create(2);
    bus.close();
    let mut scheduler = Scheduler::new();
    scheduler.register("a".to_string()).unwrap();
    scheduler.start(&mut bus);
    assert_eq!(scheduler.poll(0, &bus), Err(PollError::Closed));
}

/// Fails on the second event it is handed.
struct FailsOnSecond {
    seen: u32,
}

impl EventHandler<Msg> for FailsOnSecond {
    fn handle(&mut self, _event: &Msg) -> Result<Vec<Msg>, HandlerError> {
        self.seen += 1;
        if self.seen == 2 {
            Err(HandlerError { message: "second event".to_string() })
        } else {
            Ok(vec![])
        }
    }
}

/// Keeps the numbers of the `X` events it is handed.
struct CountsX {
    counted: Vec<u32>,
}

impl EventHandler<Msg> for CountsX {
    fn handle(&mut self, event: &Msg) -> Result<Vec<Msg>, HandlerError> {
        if let Msg::X(n) = event {
            self.counted.push(*n);
        }
        Ok(vec![])
    }
}

/// Answers every `X` with a `Y` of the same number.
struct AnswersXWithY;

impl EventHandler<Msg> for AnswersXWithY {
    fn handle(&mut self, event: &Msg) -> Result<Vec<Msg>, HandlerError> {
        match event {
            Msg::X(n) => Ok(vec![Msg::Y(*n)]),
            _ => Ok(vec![]),
        }
    }
}

/// One turn of a handler's loop, with what it publishes.
fn turn<H: EventHandler<Msg>>(
    scheduler: &mut Scheduler,
    index: usize,
    handler: &mut H,
    bus: &mut EventBus<Msg>,
) -> &'static str {
    match scheduler.step(index, handler, bus) {
        Turn::Reacted(events) => {
            bus.publish_all(events).unwrap();
            "reacted"
        }
        Turn::Failed(_) => "failed",
        Turn::Idle => "idle",
        Turn::Lagged(_) => "lagged",
        Turn::Finished => "finished",
        Turn::NotRunning => "not running",
    }
}

#[test]
fn a_failing_handler_does_not_stop_another() {
    let mut bus: EventBus<Msg> = EventBus::create(16);
    let mut scheduler = Scheduler::new();
    let failing = scheduler.register("failing".to_string()).unwrap();
    let counting = scheduler.register("counting".to_string()).unwrap();
    scheduler.start(&mut bus);
    let mut fails = FailsOnSecond { seen: 0 };
    let mut counts = CountsX { counted: Vec::new() };

    let mut turns_of_failing = Vec::new();
    for n in 1..=10u32 {
        bus.publish(Msg::X(n)).unwrap();
        turns_of_failing.push(turn(&mut scheduler, failing, &mut fails, &mut bus));
        assert_eq!(turn(&mut scheduler, counting, &mut counts, &mut bus), "reacted");
    }
    assert_eq!(&turns_of_failing[..3], ["reacted", "failed", "not running"]);
    assert_eq!(fails.seen, 2);
    assert_eq!(scheduler.status(failing), Some(TaskStatus::Failed));
    assert_eq!(scheduler.exit_of(failing), Some(TaskExit::Errored));
    assert_eq!(scheduler.status(counting), Some(TaskStatus::Running));
    assert_eq!(scheduler.supervision(), Supervision::KeepWaiting);
    assert_eq!(counts.counted, vec![1, 2, 3, 4, 5, 6, 7, 8, 9, 10]);
    assert_eq!(bus.subscriber_count(), 1);
}

#[test]
fn a_panicking_handler_is_caught_and_the_others_go_on() {
    let mut bus: EventBus<Msg> = EventBus::create(16);
    let mut scheduler = Scheduler::new();
    let panicking = scheduler.register("panicking".to_string()).unwrap();
    let counting = scheduler.register("counting".to_string()).unwrap();
    scheduler.start(&mut bus);
    bus.publish(Msg::X(1)).unwrap();

    let first = scheduler.poll(panicking, &bus).unwrap().clone();
    let runtime = tokio::runtime::Builder::new_current_thread().build().unwrap();
    let joined = runtime.block_on(async move {
        tokio::spawn(async move {
            if first == Msg::X(1) {
                panic!("a defect in one handler");
            }
        })
        .await
    });
    let exit = match joined {
        Ok(()) => TaskExit::Returned,
        Err(error) if error.is_panic() => TaskExit::Panicked,
        Err(_) => TaskExit::Errored,
    };
    assert_eq!(exit, TaskExit::Panicked);
    assert_eq!(scheduler.record_exit(panicking, exit, &mut bus), Supervision::KeepWaiting);
    assert_eq!(scheduler.status(panicking), Some(TaskStatus::Failed));
    assert_eq!(scheduler.exit_of(panicking), Some(TaskExit::Panicked));

    let mut counts = CountsX { counted: Vec::new() };
    for n in 2..=6u32 {
        bus.publish(Msg::X(n)).unwrap();
    }
    while turn(&mut scheduler, counting, &mut counts, &mut bus) == "reacted" {}
    assert_eq!(counts.counted, vec![1, 2, 3, 4, 5, 6]);
    assert_eq!(scheduler.status(counting), Some(TaskStatus::Running));
    assert_eq!(turn(&mut scheduler, panicking, &mut counts, &mut bus), "not running");
}

#[test]
fn end_to_end_counting_and_republishing() {
    let mut bus: EventBus<Msg> = EventBus::create(4);
    let mut probe = bus.subscribe();
    let mut scheduler = Scheduler::new();
    let a = scheduler.register("counts X".to_string()).unwrap();
    let b = scheduler.register("answers X with Y".to_string()).unwrap();
    scheduler.start(&mut bus);
    let mut handler_a = CountsX { counted: Vec::new() };
    let mut handler_b = AnswersXWithY;
    let mut probed: Vec<Msg> = Vec::new();

    for n in 1..=5u32 {
        bus.publish(Msg::X(n)).unwrap();
        for _ in 0..2 {
            turn(&mut scheduler, a, &mut handler_a, &mut bus);
            turn(&mut scheduler, b, &mut handler_b, &mut bus);
        }
        loop {
            match probe.receive(&bus) {
                Ok(event) => probed.push(event.clone()),
                Err(RecvError::Empty) => break,
                Err(other) => panic!("the probe kept up, yet: {:?}", other),
            }
        }
    }
    assert_eq!(handler_a.counted.len(), 5);
    let ys: Vec<&Msg> = probed.iter().filter(|m| matches!(m, Msg::Y(_))).collect();
    assert_eq!(ys, vec![&Msg::Y(1), &Msg::Y(2), &Msg::Y(3), &Msg::Y(4), &Msg::Y(5)]);
    assert_eq!(
        probed,
        vec![
            Msg::X(1),
            Msg::Y(1),
            Msg::X(2),
            Msg::Y(2),
            Msg::X(3),
            Msg::Y(3),
            Msg::X(4),
            Msg::Y(4),
            Msg::X(5),
            Msg::Y(5),
        ]
    );
}

#[test]
fn a_turn_for_every_state_of_the_stream() {
    let mut bus: EventBus<Msg> = EventBus::create(2);
    let mut scheduler = Scheduler::new();
    let only = scheduler.register("only".to_string()).unwrap();
    let mut counts = CountsX { counted: Vec::new() };
    assert_eq!(turn(&mut scheduler, only, &mut counts, &mut bus), "not running");
    scheduler.start(&mut bus);
    assert_eq!(turn(&mut scheduler, only, &mut counts, &mut bus), "idle");
    for n in 0..5 {
        bus.publish(Msg::X(n)).unwrap();
    }
    assert_eq!(turn(&mut scheduler, only, &mut counts, &mut bus), "lagged");
    assert_eq!(turn(&mut scheduler, only, &mut counts, &mut bus), "reacted");
    assert_eq!(turn(&mut scheduler, only, &mut counts, &mut bus), "reacted");
    assert_eq!(counts.counted, vec![3, 4]);
    bus.close();
    assert_eq!(turn(&mut scheduler, only, &mut counts, &mut bus), "idle");
    let mut other = Scheduler::new();
    other.register("x".to_string()).unwrap();
    let mut closed: EventBus<Msg> = EventBus::create(2);
    closed.close();
    other.start(&mut closed);
    assert_eq!(turn(&mut other, 0, &mut counts, &mut closed), "finished");
    assert_eq!(other.status(0), Some(TaskStatus::Completed));
    assert_eq!(other.supervision(), Supervision::Return);
    assert_eq!(closed.subscriber_count(), 0);
}

#[test]
fn what_a_handler_answers_is_taken_note_of() {
    let mut bus: EventBus<Msg> = EventBus::create(2);
    let mut scheduler = Scheduler::new();
    scheduler.register("a".to_string()).unwrap();
    scheduler.register("b".to_string()).unwrap();
    scheduler.start(&mut bus);
    match scheduler.conclude(0, Ok(vec![Msg::Y(1)]), &mut bus) {
        Turn::Reacted(events) => assert_eq!(events, vec![Msg::Y(1)]),
        other => panic!("{:?}", other),
    }
    assert_eq!(scheduler.status(0), Some(TaskStatus::Running));
    assert_eq!(bus.published(), 0);
    let error = HandlerError { message: "gave up".to_string() };
    match scheduler.conclude(0, Err(error.clone()), &mut bus) {
        Turn::Failed(e) => assert_eq!(e, error),
        other => panic!("{:?}", other),
    }
    assert_eq!(scheduler.status(0), Some(TaskStatus::Failed));
    assert_eq!(scheduler.status(1), Some(TaskStatus::Running));
    assert_eq!(bus.subscriber_count(), 1);
}
