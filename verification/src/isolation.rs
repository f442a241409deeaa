//! What the end of one handler does to the others: nothing.
//!
//! The statements here are about the scheduler and the bus as mathematical values;
//! the contracts of `Scheduler` and `EventBus` tie the running code to them.

use crate::bus::BusView;
use crate::scheduler::{SchedulerView, Supervision, TaskExit, TaskStatus};
use vstd::prelude::*;

verus! {

/// A report about one handler changes that handler's record and no other.
pub proof fn lemma_exit_touches_one(scheduler: SchedulerView, index: int, exit: TaskExit, other: int)
    requires
        other != index,
        0 <= other < scheduler.tasks.len(),
    ensures
        scheduler.exit(index, exit).tasks.len() == scheduler.tasks.len(),
        scheduler.exit(index, exit).tasks[other] == scheduler.tasks[other],
        scheduler.exit(index, exit).started == scheduler.started,
        scheduler.exit(index, exit).cancelled == scheduler.cancelled,
{
}

/// A poll by one handler moves that handler's cursor and nothing else.
pub proof fn lemma_poll_touches_one<T>(
    scheduler: SchedulerView,
    index: int,
    bus: BusView<T>,
    other: int,
)
    requires
        other != index,
        0 <= other < scheduler.tasks.len(),
    ensures
        scheduler.poll(index, bus).tasks.len() == scheduler.tasks.len(),
        scheduler.poll(index, bus).tasks[other] == scheduler.tasks[other],
        0 <= index < scheduler.tasks.len() ==> scheduler.poll(index, bus).tasks[index].status
            == scheduler.tasks[index].status,
{
}

/// A handler that has ended stays as it ended: no registration, start, poll,
/// report or shutdown leads out of `Completed`, `Failed` or `Cancelled`.
pub proof fn lemma_ended_stays_ended<T>(
    scheduler: SchedulerView,
    task: int,
    name: Seq<char>,
    position: nat,
    with_sender: bool,
    index: int,
    bus: BusView<T>,
    exit: TaskExit,
)
    requires
        0 <= task < scheduler.tasks.len(),
        scheduler.tasks[task].status.is_terminal(),
    ensures
        scheduler.register(name).tasks[task].status == scheduler.tasks[task].status,
        scheduler.start(position, with_sender).tasks[task].status == scheduler.tasks[task].status,
        scheduler.poll(index, bus).tasks[task].status == scheduler.tasks[task].status,
        scheduler.exit(index, exit).tasks[task].status == scheduler.tasks[task].status,
        scheduler.cancel().tasks[task].status == scheduler.tasks[task].status,
{
}

/// Only a start makes a handler run, and only a handler that was registered and
/// has done nothing yet: no other step leads into `Running`.
pub proof fn lemma_running_only_by_start<T>(
    scheduler: SchedulerView,
    task: int,
    name: Seq<char>,
    index: int,
    bus: BusView<T>,
    exit: TaskExit,
)
    requires
        0 <= task < scheduler.tasks.len(),
        !(scheduler.tasks[task].status is Running),
    ensures
        !(scheduler.register(name).tasks[task].status is Running),
        !(scheduler.poll(index, bus).tasks[task].status is Running),
        !(scheduler.exit(index, exit).tasks[task].status is Running),
        !(scheduler.cancel().tasks[task].status is Running),
{
}

/// The failure of one handler is its own. When a running handler returns an
/// error or panics while another one runs:
/// the failed handler is `Failed`; the other is still `Running`, with its cursor
/// where it was; nothing that was published has changed, so the other handler is
/// owed exactly what it was owed before; the bus still takes events, and an event
/// published afterwards is appended to the stream and will be handed to the other
/// handler; and the runner is told to keep waiting.
pub proof fn lemma_failure_is_isolated<T>(
    scheduler: SchedulerView,
    bus: BusView<T>,
    failed: int,
    other: int,
    exit: TaskExit,
    later: T,
)
    requires
        failed != other,
        scheduler.runs(failed),
        scheduler.runs(other),
        scheduler.tasks[other].cursor is Some,
        scheduler.tasks[other].cursor->0 <= bus.log.len(),
        scheduler.started,
        !scheduler.cancelled,
        exit is Errored || exit is Panicked,
        // each of the two handlers holds a subscription of the bus
        bus.subscribers >= 2,
    ensures
        scheduler.exit(failed, exit).tasks[failed].status == TaskStatus::Failed,
        scheduler.exit(failed, exit).tasks[other] == scheduler.tasks[other],
        scheduler.exit(failed, exit).supervision() == Supervision::KeepWaiting,
        scheduler.bus_after_exit(failed, bus).log == bus.log,
        scheduler.bus_after_exit(failed, bus).capacity == bus.capacity,
        scheduler.tasks[other].cursor->0 < bus.log.len() ==> scheduler.bus_after_exit(
            failed,
            bus,
        ).next(scheduler.tasks[other].cursor->0) == bus.next(scheduler.tasks[other].cursor->0),
        !scheduler.bus_after_exit(failed, bus).fully_closed(),
        scheduler.bus_after_exit(failed, bus).publish(later).log == bus.log.push(later),
        scheduler.bus_after_exit(failed, bus).publish(later).backlog(
            scheduler.tasks[other].cursor->0,
        ) == bus.backlog(scheduler.tasks[other].cursor->0) + 1,
{
    let after = scheduler.exit(failed, exit);
    assert(!after.tasks[other].status.is_terminal());
}

/// A panic that the runner caught counts as a returned error: both leave the
/// handler `Failed`, and they leave the scheduler and the bus in the same state
/// but for the record of which of the two it was.
pub proof fn lemma_panic_is_a_failure<T>(scheduler: SchedulerView, bus: BusView<T>, index: int)
    requires
        scheduler.runs(index),
    ensures
        scheduler.exit(index, TaskExit::Panicked).tasks[index].status == TaskStatus::Failed,
        scheduler.exit(index, TaskExit::Errored).tasks[index].status == TaskStatus::Failed,
        scheduler.exit(index, TaskExit::Panicked).tasks[index].exit == Some(TaskExit::Panicked),
        scheduler.exit(index, TaskExit::Panicked).supervision() == scheduler.exit(
            index,
            TaskExit::Errored,
        ).supervision(),
        forall|other: int|
            0 <= other < scheduler.tasks.len() && other != index ==> #[trigger] scheduler.exit(
                index,
                TaskExit::Panicked,
            ).tasks[other] == scheduler.tasks[other],
{
    let panicked = scheduler.exit(index, TaskExit::Panicked);
    let errored = scheduler.exit(index, TaskExit::Errored);
    assert forall|i: int| 0 <= i < scheduler.tasks.len() implies (#[trigger] panicked.tasks[i]).status
        == errored.tasks[i].status by {}
    if panicked.all_ended() {
        assert forall|i: int| 0 <= i < errored.tasks.len() implies (#[trigger] errored.tasks[i])
            .status.is_terminal() by {
            assert(panicked.tasks[i].status.is_terminal());
        }
    }
    if errored.all_ended() {
        assert forall|i: int| 0 <= i < panicked.tasks.len() implies (#[trigger] panicked.tasks[i])
            .status.is_terminal() by {
            assert(errored.tasks[i].status.is_terminal());
        }
    }
}

/// The runner stops waiting exactly when a shutdown was asked for or, after the
/// start, the last handler has ended: while one handler runs and no shutdown was
/// asked for, it keeps waiting.
pub proof fn lemma_waits_while_one_runs(scheduler: SchedulerView, index: int)
    requires
        scheduler.runs(index),
        !scheduler.cancelled,
    ensures
        scheduler.supervision() == Supervision::KeepWaiting,
        scheduler.cancel().supervision() == Supervision::Return,
{
    assert(!scheduler.tasks[index].status.is_terminal());
}

} // verus!
