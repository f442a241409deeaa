//! The scheduler's bookkeeping: which handlers are registered, which of them run,
//! and how each of them ended.
//!
//! A handler is a loop that somebody else runs: it asks for its next event with
//! `poll`, reacts to it, publishes what follows from it on the bus, and asks again.
//! When the loop ends, for whatever reason, the runner reports it with `record_exit`.
//! The scheduler never waits for a handler and never lets the end of one handler
//! touch another.
//!
//! A handler moves from `Spawned` to `Running` and from there to exactly one of
//! `Completed`, `Failed` and `Cancelled`. Nothing leads back.

use crate::bus::{BusView, Delivery, EventBus, EventSender, RecvError, Subscription};
use vstd::prelude::*;

verus! {

/// Where a handler stands in its life.
#[derive(Debug, Clone, Copy, PartialEq, Eq, Structural)]
pub enum TaskStatus {
    /// Registered, not started yet.
    Spawned,
    /// Started, and not known to have ended.
    Running,
    /// Ended by returning without an error.
    Completed,
    /// Ended by returning an error or by panicking.
    Failed,
    /// Was still registered or running when the scheduler was told to shut down.
    Cancelled,
}

impl TaskStatus {
    /// A status that a handler never leaves.
    pub open spec fn is_terminal(self) -> bool {
        self is Completed || self is Failed || self is Cancelled
    }
}

/// How a handler's loop ended.
#[derive(Debug, Clone, Copy, PartialEq, Eq, Structural)]
pub enum TaskExit {
    /// It returned without an error.
    Returned,
    /// It returned an error.
    Errored,
    /// It panicked and the runner caught the panic.
    Panicked,
}

impl TaskExit {
    /// The status in which a running handler is left by this exit.
    pub open spec fn status(self) -> TaskStatus {
        match self {
            TaskExit::Returned => TaskStatus::Completed,
            TaskExit::Errored => TaskStatus::Failed,
            TaskExit::Panicked => TaskStatus::Failed,
        }
    }
}

/// Why a handler could not be registered.
#[derive(Debug, Clone, Copy, PartialEq, Eq, Structural)]
pub enum SchedulerError {
    /// The handlers have been started already, or the scheduler was shut down.
    AlreadyStarted,
}

/// Why a handler was handed no event.
#[derive(Debug, Clone, Copy, PartialEq, Eq, Structural)]
pub enum PollError {
    /// There is no such handler, or it is not running.
    NotRunning,
    /// Everything published so far has been read.
    Empty,
    /// This many unread events were overwritten; the next poll resumes behind them.
    Lagged(u64),
    /// No publish handle is left and everything published has been read.
    Closed,
}

/// What the scheduler tells its runner after a change.
#[derive(Debug, Clone, Copy, PartialEq, Eq, Structural)]
pub enum Supervision {
    /// Some handler has not ended: keep waiting.
    KeepWaiting,
    /// Every handler has ended, or a shutdown was asked for: stop waiting.
    Return,
}

/// The error with which a handler gives up.
#[derive(Debug, Clone, PartialEq, Eq)]
pub struct HandlerError {
    /// What went wrong, in words.
    pub message: String,
}

/// A handler: one feature that reacts to the events it knows and passes over the
/// others. It is handed every event of its subscription, one at a time, and
/// answers with the events that follow from it, or with the error that ends it.
/// Nothing is promised about what a handler answers.
pub trait EventHandler<E> {
    fn handle(&mut self, event: &E) -> Result<Vec<E>, HandlerError>;
}

/// What one turn of a handler's loop came to.
#[derive(Debug)]
pub enum Turn<E> {
    /// There is no such handler, or it is not running.
    NotRunning,
    /// Nothing was unread: the handler waits for the next publish.
    Idle,
    /// This many unread events were overwritten; the handler goes on behind them.
    Lagged(u64),
    /// No publisher is left and everything was read: the handler returned.
    Finished,
    /// The handler reacted to an event with these events, which are to be published.
    Reacted(Vec<E>),
    /// The handler gave up on an event with this error, and is ended.
    Failed(HandlerError),
}

/// One handler's record as a mathematical value.
pub struct TaskView {
    /// The name the handler was registered under.
    pub name: Seq<char>,
    pub status: TaskStatus,
    /// The position of the handler's subscription, while it holds one.
    pub cursor: Option<nat>,
    /// Whether the handler holds a publish handle.
    pub holds_sender: bool,
    /// How the handler's loop ended, once it has.
    pub exit: Option<TaskExit>,
}

/// The scheduler as a mathematical value.
pub struct SchedulerView {
    /// The handlers in the order of their registration.
    pub tasks: Seq<TaskView>,
    pub started: bool,
    pub cancelled: bool,
}

impl SchedulerView {
    /// A scheduler without handlers.
    pub open spec fn fresh() -> Self {
        SchedulerView { tasks: Seq::empty(), started: false, cancelled: false }
    }

    /// Whether handlers can still be registered.
    pub open spec fn accepts(self) -> bool {
        !self.started && !self.cancelled
    }

    /// The scheduler after `name` was offered for registration.
    pub open spec fn register(self, name: Seq<char>) -> Self {
        if self.accepts() {
            SchedulerView {
                tasks: self.tasks.push(
                    TaskView {
                        name,
                        status: TaskStatus::Spawned,
                        cursor: None,
                        holds_sender: false,
                        exit: None,
                    },
                ),
                ..self
            }
        } else {
            self
        }
    }

    /// The scheduler after its handlers were started on a bus on which `position`
    /// events had been published and which could hand out publish handles or not.
    pub open spec fn start(self, position: nat, with_sender: bool) -> Self {
        if self.accepts() {
            SchedulerView {
                tasks: Seq::new(
                    self.tasks.len(),
                    |i: int|
                        if self.tasks[i].status is Spawned {
                            TaskView {
                                status: TaskStatus::Running,
                                cursor: Some(position),
                                holds_sender: with_sender,
                                ..self.tasks[i]
                            }
                        } else {
                            self.tasks[i]
                        },
                ),
                started: true,
                ..self
            }
        } else {
            self
        }
    }

    /// Whether `index` names a running handler.
    pub open spec fn runs(self, index: int) -> bool {
        0 <= index < self.tasks.len() && self.tasks[index].status is Running
    }

    /// The scheduler after the handler at `index` polled a bus.
    pub open spec fn poll<T>(self, index: int, bus: BusView<T>) -> Self {
        if self.runs(index) && self.tasks[index].cursor is Some {
            SchedulerView {
                tasks: self.tasks.update(
                    index,
                    TaskView {
                        cursor: Some(bus.cursor_after(self.tasks[index].cursor->0)),
                        ..self.tasks[index]
                    },
                ),
                ..self
            }
        } else {
            self
        }
    }

    /// The scheduler after the runner reported how the handler at `index` ended.
    pub open spec fn exit(self, index: int, exit: TaskExit) -> Self {
        if self.runs(index) {
            SchedulerView {
                tasks: self.tasks.update(
                    index,
                    TaskView {
                        status: exit.status(),
                        cursor: None,
                        holds_sender: false,
                        exit: Some(exit),
                        ..self.tasks[index]
                    },
                ),
                ..self
            }
        } else {
            self
        }
    }

    /// The bus after the handler at `index` ended and gave back its handles.
    pub open spec fn bus_after_exit<T>(self, index: int, bus: BusView<T>) -> BusView<T> {
        if self.runs(index) {
            let unsubscribed = if self.tasks[index].cursor is Some {
                bus.unsubscribed()
            } else {
                bus
            };
            if self.tasks[index].holds_sender {
                unsubscribed.released()
            } else {
                unsubscribed
            }
        } else {
            bus
        }
    }

    /// The scheduler after a shutdown was asked for.
    pub open spec fn cancel(self) -> Self {
        SchedulerView {
            tasks: Seq::new(
                self.tasks.len(),
                |i: int|
                    if self.tasks[i].status.is_terminal() {
                        self.tasks[i]
                    } else {
                        TaskView { status: TaskStatus::Cancelled, ..self.tasks[i] }
                    },
            ),
            cancelled: true,
            ..self
        }
    }

    /// Whether every handler has ended.
    pub open spec fn all_ended(self) -> bool {
        forall|i: int| 0 <= i < self.tasks.len() ==> (#[trigger] self.tasks[i]).status.is_terminal()
    }

    /// Whether the runner may stop waiting: a shutdown was asked for, or the
    /// handlers were started and every one of them has ended.
    pub open spec fn finished(self) -> bool {
        self.cancelled || (self.started && self.all_ended())
    }

    /// What the runner is told.
    pub open spec fn supervision(self) -> Supervision {
        if self.finished() {
            Supervision::Return
        } else {
            Supervision::KeepWaiting
        }
    }
}

/// One handler's record.
struct Task {
    name: String,
    status: TaskStatus,
    subscription: Option<Subscription>,
    sender: Option<EventSender>,
    exit: Option<TaskExit>,
}

impl Task {
    spec fn view(self) -> TaskView {
        TaskView {
            name: self.name@,
            status: self.status,
            cursor: match self.subscription {
                Some(subscription) => Some(subscription.position()),
                None => None,
            },
            holds_sender: self.sender is Some,
            exit: self.exit,
        }
    }

    /// A running handler holds a subscription, and only a handler that was started
    /// and has not reported its end holds handles.
    spec fn wf(self) -> bool {
        &&& self.status is Running ==> self.subscription is Some
        &&& self.subscription is Some ==> self.status is Running || self.status is Cancelled
        &&& self.sender is Some ==> self.status is Running || self.status is Cancelled
    }
}

/// The handlers of one process and the state of each.
pub struct Scheduler {
    tasks: Vec<Task>,
    started: bool,
    cancelled: bool,
}

impl View for Scheduler {
    type V = SchedulerView;

    closed spec fn view(&self) -> SchedulerView {
        SchedulerView {
            tasks: Seq::new(self.tasks@.len(), |i: int| self.tasks@[i].view()),
            started: self.started,
            cancelled: self.cancelled,
        }
    }
}

impl Scheduler {
    #[verifier::type_invariant]
    spec fn inv(self) -> bool {
        &&& forall|i: int| 0 <= i < self.tasks@.len() ==> (#[trigger] self.tasks@[i]).wf()
        &&& !self.started && !self.cancelled ==> forall|i: int|
            0 <= i < self.tasks@.len() ==> (#[trigger] self.tasks@[i]).status is Spawned
    }

    /// A scheduler without handlers.
    pub fn new() -> (scheduler: Self)
        ensures
            scheduler@ == SchedulerView::fresh(),
    {
        let scheduler = Scheduler { tasks: Vec::new(), started: false, cancelled: false };
        assert(scheduler@.tasks =~= Seq::empty());
        scheduler
    }

    /// How many handlers are registered.
    pub fn len(&self) -> (count: usize)
        ensures
            count == self@.tasks.len(),
    {
        self.tasks.len()
    }

    /// Adds a handler under `name` and returns its index. Handlers are registered
    /// before they are started: afterwards, and after a shutdown, the scheduler
    /// refuses and stays as it was.
    pub fn register(&mut self, name: String) -> (index: Result<usize, SchedulerError>)
        ensures
            final(self)@ == old(self)@.register(name@),
            match index {
                Ok(i) => old(self)@.accepts() && i == old(self)@.tasks.len(),
                Err(SchedulerError::AlreadyStarted) => !old(self)@.accepts(),
            },
    {
        proof {
            use_type_invariant(&*self);
        }
        if self.started || self.cancelled {
            return Err(SchedulerError::AlreadyStarted);
        }
        let mut tasks = self.take_tasks();
        let index = tasks.len();
        tasks.push(
            Task { name, status: TaskStatus::Spawned, subscription: None, sender: None, exit: None },
        );
        self.tasks = tasks;
        assert(self@.tasks =~= old(self)@.register(name@).tasks);
        Ok(index)
    }

    /// The status of the handler at `index`, if there is one.
    pub fn status(&self, index: usize) -> (status: Option<TaskStatus>)
        ensures
            status == if index < self@.tasks.len() {
                Some(self@.tasks[index as int].status)
            } else {
                None
            },
    {
        if index < self.tasks.len() {
            Some(self.tasks[index].status)
        } else {
            None
        }
    }

    /// How the handler at `index` ended, if it has.
    pub fn exit_of(&self, index: usize) -> (exit: Option<TaskExit>)
        ensures
            exit == if index < self@.tasks.len() {
                self@.tasks[index as int].exit
            } else {
                None
            },
    {
        if index < self.tasks.len() {
            self.tasks[index].exit
        } else {
            None
        }
    }

    /// The name under which the handler at `index` was registered.
    pub fn name(&self, index: usize) -> (name: Option<&String>)
        ensures
            match name {
                Some(n) => index < self@.tasks.len() && n@ == self@.tasks[index as int].name,
                None => index >= self@.tasks.len(),
            },
    {
        if index < self.tasks.len() {
            Some(&self.tasks[index].name)
        } else {
            None
        }
    }

    /// Starts every registered handler: each gets a fresh subscription, which
    /// begins behind everything published so far, and a publish handle if the bus
    /// has any left. Every handler is then `Running`. A scheduler that was started
    /// or shut down before is left as it was, and so is the bus.
    pub fn start<T>(&mut self, bus: &mut EventBus<T>)
        requires
            old(bus)@.subscribers + old(self)@.tasks.len() <= usize::MAX,
            old(bus)@.handed_out + old(self)@.tasks.len() <= usize::MAX,
        ensures
            final(self)@ == old(self)@.start(old(bus)@.log.len(), old(bus)@.senders() > 0),
            final(bus)@ == if old(self)@.accepts() {
                BusView {
                    subscribers: old(bus)@.subscribers + old(self)@.tasks.len(),
                    handed_out: if old(bus)@.senders() > 0 {
                        old(bus)@.handed_out + old(self)@.tasks.len()
                    } else {
                        old(bus)@.handed_out
                    },
                    ..old(bus)@
                }
            } else {
                old(bus)@
            },
    {
        proof {
            use_type_invariant(&*self);
        }
        if self.started || self.cancelled {
            return ;
        }
        self.started = true;
        let mut tasks = self.take_tasks();
        let count = tasks.len();
        let ghost before = old(self)@;
        let ghost position = old(bus)@.log.len();
        let ghost with_sender = old(bus)@.senders() > 0;
        let mut i: usize = 0;
        while i < count
            invariant
                i <= count,
                count == tasks@.len(),
                count == before.tasks.len(),
                old(bus)@.subscribers + count <= usize::MAX,
                old(bus)@.handed_out + count <= usize::MAX,
                position == old(bus)@.log.len(),
                with_sender == (old(bus)@.senders() > 0),
                bus@ == (BusView {
                    subscribers: old(bus)@.subscribers + i as nat,
                    handed_out: if with_sender {
                        old(bus)@.handed_out + i as nat
                    } else {
                        old(bus)@.handed_out
                    },
                    ..old(bus)@
                }),
                forall|k: int| 0 <= k < count ==> (#[trigger] tasks@[k]).wf(),
                forall|k: int|
                    0 <= k < i ==> (#[trigger] tasks@[k]).view() == (TaskView {
                        status: TaskStatus::Running,
                        cursor: Some(position),
                        holds_sender: with_sender,
                        ..before.tasks[k]
                    }),
                forall|k: int| i <= k < count ==> (#[trigger] tasks@[k]).view() == before.tasks[k],
                forall|k: int| i <= k < count ==> (#[trigger] tasks@[k]).status is Spawned,
            decreases count - i,
        {
            let subscription = bus.subscribe();
            let sender = bus.sender();
            let mut task = Task {
                name: String::new(),
                status: TaskStatus::Cancelled,
                subscription: None,
                sender: None,
                exit: None,
            };
            tasks.set_and_swap(i, &mut task);
            let started = Task {
                name: task.name,
                status: TaskStatus::Running,
                subscription: Some(subscription),
                sender,
                exit: task.exit,
            };
            tasks.set(i, started);
            i = i + 1;
        }
        self.tasks = tasks;
        assert(self@.tasks =~= before.start(position, with_sender).tasks);
    }

    /// The next event of the handler at `index`, in the order of publication.
    ///
    /// A handler that is not running is handed nothing and nothing changes.
    /// Otherwise this is one `receive` on the handler's subscription: the event at
    /// its cursor, or `Empty`, `Lagged` with the number of events lost, or
    /// `Closed`. Only this handler's cursor moves; the bus is only read.
    pub fn poll<'a, T>(&mut self, index: usize, bus: &'a EventBus<T>) -> (polled: Result<
        &'a T,
        PollError,
    >)
        ensures
            final(self)@ == old(self)@.poll(index as int, bus@),
            !old(self)@.runs(index as int) ==> polled matches Err(PollError::NotRunning),
            old(self)@.runs(index as int) ==> old(self)@.tasks[index as int].cursor is Some
                && match bus@.next(old(self)@.tasks[index as int].cursor->0) {
                Delivery::Event { value, position } => polled matches Ok(event) && *event
                    == value,
                Delivery::Lagged { missed } => polled matches Err(PollError::Lagged(n)) && n
                    == missed,
                Delivery::Empty => polled matches Err(PollError::Empty),
                Delivery::Closed => polled matches Err(PollError::Closed),
            },
    {
        proof {
            use_type_invariant(&*self);
        }
        if index >= self.tasks.len() || !self.is_running(index) {
            return Err(PollError::NotRunning);
        }
        let mut task = Task {
            name: String::new(),
            status: TaskStatus::Cancelled,
            subscription: None,
            sender: None,
            exit: None,
        };
        let mut tasks = self.take_tasks();
        tasks.set_and_swap(index, &mut task);
        let Task { name, status, subscription, sender, exit } = task;
        let (subscription, polled) = match subscription {
            Some(mut subscription) => {
                let received = subscription.receive(bus);
                let polled = match received {
                    Ok(event) => Ok(event),
                    Err(RecvError::Empty) => Err(PollError::Empty),
                    Err(RecvError::Lagged(n)) => Err(PollError::Lagged(n)),
                    Err(RecvError::Closed) => Err(PollError::Closed),
                };
                (Some(subscription), polled)
            },
            None => (None, Err(PollError::NotRunning)),
        };
        tasks.set(index, Task { name, status, subscription, sender, exit });
        self.tasks = tasks;
        assert(self@.tasks =~= old(self)@.poll(index as int, bus@).tasks);
        polled
    }

    /// Records how the loop of the handler at `index` ended and gives its handles
    /// back to the bus. A loop that returned leaves the handler `Completed`; one
    /// that returned an error or panicked leaves it `Failed`. No other handler is
    /// touched, and nothing that was published is. A report about a handler that
    /// is not running changes nothing. Returns whether the runner may stop waiting.
    pub fn record_exit<T>(&mut self, index: usize, exit: TaskExit, bus: &mut EventBus<T>) -> (next:
        Supervision)
        ensures
            final(self)@ == old(self)@.exit(index as int, exit),
            final(bus)@ == old(self)@.bus_after_exit(index as int, old(bus)@),
            next == final(self)@.supervision(),
    {
        proof {
            use_type_invariant(&*self);
        }
        if index < self.tasks.len() && self.is_running(index) {
            let mut task = Task {
                name: String::new(),
                status: TaskStatus::Cancelled,
                subscription: None,
                sender: None,
                exit: None,
            };
            let mut tasks = self.take_tasks();
            tasks.set_and_swap(index, &mut task);
            let Task { name, status, subscription, sender, exit: _ } = task;
            match subscription {
                Some(subscription) => {
                    bus.unsubscribe(subscription);
                },
                None => {},
            }
            match sender {
                Some(sender) => {
                    bus.release(sender);
                },
                None => {},
            }
            let ended = match exit {
                TaskExit::Returned => TaskStatus::Completed,
                TaskExit::Errored => TaskStatus::Failed,
                TaskExit::Panicked => TaskStatus::Failed,
            };
            tasks.set(
                index,
                Task { name, status: ended, subscription: None, sender: None, exit: Some(exit) },
            );
            self.tasks = tasks;
            assert(self@.tasks =~= old(self)@.exit(index as int, exit).tasks);
        }
        self.supervision()
    }

    /// Moves the records out, so that they can be changed one by one.
    fn take_tasks(&mut self) -> (tasks: Vec<Task>)
        ensures
            tasks == old(self).tasks,
            final(self).tasks@.len() == 0,
            final(self).started == old(self).started,
            final(self).cancelled == old(self).cancelled,
    {
        let mut tasks = Vec::new();
        std::mem::swap(&mut tasks, &mut self.tasks);
        tasks
    }

    /// Takes note of what the handler at `index` answered to an event. Events
    /// are handed on to be published, and the handler runs on. An error ends the
    /// handler as `record_exit` does for a loop that returned an error; no other
    /// handler is touched.
    pub fn conclude<T>(
        &mut self,
        index: usize,
        reaction: Result<Vec<T>, HandlerError>,
        bus: &mut EventBus<T>,
    ) -> (turn: Turn<T>)
        ensures
            match reaction {
                Ok(events) => {
                    &&& turn == Turn::Reacted(events)
                    &&& final(self)@ == old(self)@
                    &&& final(bus)@ == old(bus)@
                },
                Err(error) => {
                    &&& turn == Turn::<T>::Failed(error)
                    &&& final(self)@ == old(self)@.exit(index as int, TaskExit::Errored)
                    &&& final(bus)@ == old(self)@.bus_after_exit(index as int, old(bus)@)
                },
            },
    {
        match reaction {
            Ok(events) => Turn::Reacted(events),
            Err(error) => {
                let _ = self.record_exit(index, TaskExit::Errored, bus);
                Turn::Failed(error)
            },
        }
    }

    /// One turn of the loop of the handler at `index`: its next event, if it has
    /// one, is handed to `handler`, and what the handler answers is taken note of
    /// as `conclude` does.
    ///
    /// A handler that is not running gets no turn. With nothing unread the
    /// handler stays idle, or, once no publisher is left, returns and is
    /// `Completed`. A gap is reported and the cursor moves behind it. In every
    /// case only this handler's record changes, and nothing that was published
    /// does. What the handler answers is not known beforehand: the turn says
    /// whether it reacted or failed, and the states that follow from either.
    pub fn step<T, H: EventHandler<T>>(
        &mut self,
        index: usize,
        handler: &mut H,
        bus: &mut EventBus<T>,
    ) -> (turn: Turn<T>)
        ensures
            !old(self)@.runs(index as int) ==> turn is NotRunning && final(self)@ == old(self)@
                && final(bus)@ == old(bus)@,
            old(self)@.runs(index as int) ==> old(self)@.tasks[index as int].cursor is Some
                && match old(bus)@.next(old(self)@.tasks[index as int].cursor->0) {
                Delivery::Empty => {
                    &&& turn is Idle
                    &&& final(self)@ == old(self)@.poll(index as int, old(bus)@)
                    &&& final(bus)@ == old(bus)@
                },
                Delivery::Lagged { missed } => {
                    &&& turn matches Turn::Lagged(n) && n == missed
                    &&& final(self)@ == old(self)@.poll(index as int, old(bus)@)
                    &&& final(bus)@ == old(bus)@
                },
                Delivery::Closed => {
                    &&& turn is Finished
                    &&& final(self)@ == old(self)@.poll(index as int, old(bus)@).exit(
                        index as int,
                        TaskExit::Returned,
                    )
                    &&& final(bus)@ == old(self)@.bus_after_exit(index as int, old(bus)@)
                },
                Delivery::Event { value, position } => {
                    ||| {
                        &&& turn is Reacted
                        &&& final(self)@ == old(self)@.poll(index as int, old(bus)@)
                        &&& final(bus)@ == old(bus)@
                    }
                    ||| {
                        &&& turn is Failed
                        &&& final(self)@ == old(self)@.poll(index as int, old(bus)@).exit(
                            index as int,
                            TaskExit::Errored,
                        )
                        &&& final(bus)@ == old(self)@.bus_after_exit(index as int, old(bus)@)
                    }
                },
            },
    {
        let reaction = match self.poll(index, bus) {
            Ok(event) => handler.handle(event),
            Err(PollError::NotRunning) => {
                return Turn::NotRunning;
            },
            Err(PollError::Empty) => {
                return Turn::Idle;
            },
            Err(PollError::Lagged(missed)) => {
                return Turn::Lagged(missed);
            },
            Err(PollError::Closed) => {
                let _ = self.record_exit(index, TaskExit::Returned, bus);
                return Turn::Finished;
            },
        };
        self.conclude(index, reaction, bus)
    }

    fn is_running(&self, index: usize) -> (running: bool)
        requires
            index < self.tasks@.len(),
        ensures
            running == self.tasks@[index as int].status is Running,
    {
        match self.tasks[index].status {
            TaskStatus::Running => true,
            _ => false,
        }
    }

    /// Notes that a shutdown was asked for: every handler that has not ended is
    /// `Cancelled`, and the runner stops waiting. A handler that has ended keeps
    /// its status. What a cancelled handler was in the middle of is not undone, and
    /// the bus is not touched.
    pub fn cancel(&mut self) -> (next: Supervision)
        ensures
            final(self)@ == old(self)@.cancel(),
            next == Supervision::Return,
    {
        proof {
            use_type_invariant(&*self);
        }
        self.cancelled = true;
        let mut tasks = self.take_tasks();
        let count = tasks.len();
        let ghost before = old(self)@;
        let mut i: usize = 0;
        while i < count
            invariant
                i <= count,
                count == tasks@.len(),
                count == before.tasks.len(),
                forall|k: int| 0 <= k < count ==> (#[trigger] tasks@[k]).wf(),
                forall|k: int|
                    0 <= k < i ==> (#[trigger] tasks@[k]).view() == before.cancel().tasks[k],
                forall|k: int| i <= k < count ==> (#[trigger] tasks@[k]).view() == before.tasks[k],
            decreases count - i,
        {
            let mut task = Task {
                name: String::new(),
                status: TaskStatus::Cancelled,
                subscription: None,
                sender: None,
                exit: None,
            };
            tasks.set_and_swap(i, &mut task);
            let Task { name, status, subscription, sender, exit } = task;
            let ended = match status {
                TaskStatus::Spawned => TaskStatus::Cancelled,
                TaskStatus::Running => TaskStatus::Cancelled,
                other => other,
            };
            tasks.set(i, Task { name, status: ended, subscription, sender, exit });
            i = i + 1;
        }
        self.tasks = tasks;
        assert(self@.tasks =~= before.cancel().tasks);
        Supervision::Return
    }

    /// Whether the runner may stop waiting.
    pub fn supervision(&self) -> (next: Supervision)
        ensures
            next == self@.supervision(),
    {
        if self.cancelled {
            return Supervision::Return;
        }
        if !self.started {
            return Supervision::KeepWaiting;
        }
        let count = self.tasks.len();
        let mut i: usize = 0;
        while i < count
            invariant
                i <= count,
                count == self.tasks@.len(),
                self.started,
                !self.cancelled,
                forall|k: int| 0 <= k < i ==> (#[trigger] self@.tasks[k]).status.is_terminal(),
            decreases count - i,
        {
            match self.tasks[i].status {
                TaskStatus::Spawned => {
                    assert(!self@.tasks[i as int].status.is_terminal());
                    return Supervision::KeepWaiting;
                },
                TaskStatus::Running => {
                    assert(!self@.tasks[i as int].status.is_terminal());
                    return Supervision::KeepWaiting;
                },
                _ => {},
            }
            i = i + 1;
        }
        Supervision::Return
    }
}

} // verus!
