//! The decisions of a processor that only ever runs the latest task it was
//! handed: a dispatcher overwrites a single pending task, and the executor's
//! loop takes it, runs it (interrupted when a newer one arrives) and finishes
//! once the dispatcher is gone and nothing is left to run.
use vstd::prelude::*;

verus! {

#[derive(Debug)]
pub enum TaskDispatchError {
    TaskRunnerDropped,
}

/// A bound for task data that asks for nothing beyond being a type.
pub trait DebugBoundIfCompiled {

}

impl<T> DebugBoundIfCompiled for T {

}

/// What the executor's loop does next.
pub enum LoopAction<T> {
    /// Run the task, until it finishes or a newer task is announced.
    Run(T),
    /// The dispatcher is gone and no task is pending: leave the loop.
    Finalize,
    /// Woken without a task while the dispatcher is alive.
    Idle,
}

/// The pending task after a dispatch.
pub open spec fn pending_after_dispatch<T>(pending: Option<T>, executor_active: bool, task: T) -> Option<T> {
    if executor_active {
        Some(task)
    } else {
        pending
    }
}

/// The outcome of a dispatch.
pub open spec fn dispatch_outcome(executor_active: bool) -> Result<(), TaskDispatchError> {
    if executor_active {
        Ok(())
    } else {
        Err(TaskDispatchError::TaskRunnerDropped)
    }
}

/// The loop's action for the pending task and the dispatcher's liveness.
pub open spec fn loop_action<T>(pending: Option<T>, dispatcher_active: bool) -> LoopAction<T> {
    match pending {
        Some(task) => LoopAction::Run(task),
        None => if dispatcher_active {
            LoopAction::Idle
        } else {
            LoopAction::Finalize
        },
    }
}

/// The single task slot between the dispatcher and the executor.
pub struct TaskSlot<T> {
    pending: Option<T>,
}

impl<T> View for TaskSlot<T> {
    type V = Option<T>;

    closed spec fn view(&self) -> Option<T> {
        self.pending
    }
}

impl<T> TaskSlot<T> {
    /// A slot without a pending task.
    pub fn new() -> (r: Self)
        ensures
            r@ == Option::<T>::None,
    {
        TaskSlot { pending: None }
    }

    /// Hands `new_task` to the executor, replacing a task it has not started
    /// yet; fails, leaving the slot alone, once the executor is gone.
    pub fn dispatch_task(&mut self, executor_active: bool, new_task: T) -> (r: Result<(), TaskDispatchError>)
        ensures
            final(self)@ == pending_after_dispatch(old(self)@, executor_active, new_task),
            r == dispatch_outcome(executor_active),
    {
        if !executor_active {
            Err(TaskDispatchError::TaskRunnerDropped)
        } else {
            self.pending = Some(new_task);
            Ok(())
        }
    }

    /// Whether a task is waiting to be run.
    pub fn has_pending(&self) -> (r: bool)
        ensures
            r == self@ is Some,
    {
        self.pending.is_some()
    }

    /// Takes the pending task, if any, and decides what the loop does.
    pub fn next_action(&mut self, dispatcher_active: bool) -> (r: LoopAction<T>)
        ensures
            final(self)@ == Option::<T>::None,
            r == loop_action(old(self)@, dispatcher_active),
    {
        match self.pending.take() {
            Some(task) => LoopAction::Run(task),
            None => if !dispatcher_active {
                LoopAction::Finalize
            } else {
                LoopAction::Idle
            },
        }
    }
}

/// The executor's own state between turns of its loop: whether a new task
/// was announced while the previous one ran.
pub struct ProcessingLoop {
    pub recorded_notify: bool,
}

impl ProcessingLoop {
    /// A loop that has not seen any announcement yet.
    pub fn new() -> (r: Self)
        ensures
            !r.recorded_notify,
    {
        ProcessingLoop { recorded_notify: false }
    }

    /// Whether the loop must wait for an announcement before its next turn:
    /// only when none arrived while the last task ran, no task is pending
    /// and the dispatcher is still alive. A pending task is taken, and a
    /// dispatcher that is gone leads to finalizing, without waiting.
    pub fn must_wait<T>(&self, slot: &TaskSlot<T>, dispatcher_active: bool) -> (r: bool)
        ensures
            r == (!self.recorded_notify && slot@ is None && dispatcher_active),
    {
        !self.recorded_notify && !slot.has_pending() && dispatcher_active
    }

    /// Starts a turn: the announcement that led here is used up.
    pub fn begin_turn(&mut self)
        ensures
            !final(self).recorded_notify,
    {
        self.recorded_notify = false;
    }

    /// Ends the run of a task, which either finished or was cut short by the
    /// announcement of a newer task.
    pub fn end_run(&mut self, interrupted_by_new_task: bool)
        ensures
            final(self).recorded_notify == interrupted_by_new_task,
    {
        self.recorded_notify = interrupted_by_new_task;
    }
}

/// Only the latest of several dispatches is run.
pub proof fn lemma_latest_task_wins<T>(pending: Option<T>, first: T, second: T)
    ensures
        loop_action(
            pending_after_dispatch(pending_after_dispatch(pending, true, first), true, second),
            true,
        ) == LoopAction::<T>::Run(second),
{
}

/// A task dispatched before the dispatcher went away is still run, and only
/// then does the loop finalize.
pub proof fn lemma_pending_task_outlives_dispatcher<T>(task: T)
    ensures
        loop_action(Some(task), false) == LoopAction::<T>::Run(task),
        loop_action(Option::<T>::None, false) == LoopAction::<T>::Finalize,
{
}

/// Once the executor is gone, every dispatch fails and changes nothing.
pub proof fn lemma_dispatch_after_executor_dropped<T>(pending: Option<T>, task: T)
    ensures
        dispatch_outcome(false) == Err::<(), TaskDispatchError>(TaskDispatchError::TaskRunnerDropped),
        pending_after_dispatch(pending, false, task) == pending,
{
}

/// The loop never waits when there is something to do: a pending task to
/// run, or a gone dispatcher to finalize on.
pub proof fn lemma_no_wait_when_work_is_known<T>(pending: Option<T>, dispatcher_active: bool)
    ensures
        (pending is Some || !dispatcher_active) ==> loop_action(pending, dispatcher_active) !is Idle,
{
}

/// An event at the task slot, in the order in which the slot's lock orders
/// them: a dispatch of a task, or the loop taking what is pending.
pub enum SlotEvent<T> {
    Dispatch(T),
    Take,
}

/// The pending task and the tasks run, in order, after `events` were applied
/// to an empty slot while both ends are alive.
pub open spec fn slot_run<T>(events: Seq<SlotEvent<T>>) -> (Option<T>, Seq<T>)
    decreases events.len(),
{
    if events.len() == 0 {
        (None, Seq::empty())
    } else {
        let prev = slot_run(events.drop_last());
        match events.last() {
            SlotEvent::Dispatch(task) => (pending_after_dispatch(prev.0, true, task), prev.1),
            SlotEvent::Take => match loop_action(prev.0, true) {
                LoopAction::Run(task) => (None, prev.1.push(task)),
                _ => (None, prev.1),
            },
        }
    }
}

/// The positions in `events` of the dispatches that are followed at once by
/// a take.
pub open spec fn taken_positions<T>(events: Seq<SlotEvent<T>>) -> Seq<int>
    decreases events.len(),
{
    if events.len() < 2 {
        Seq::empty()
    } else {
        let n = events.len() as int;
        let prev = taken_positions(events.drop_last());
        if events[n - 2] is Dispatch && events[n - 1] is Take {
            prev.push(n - 2)
        } else {
            prev
        }
    }
}

/// Over a whole run of dispatches and takes, the loop runs exactly the
/// dispatched tasks that are taken before another dispatch replaces them,
/// each one once and in dispatch order; what is pending at the end is the
/// last task dispatched, if nothing took it.
pub proof fn lemma_slot_run<T>(events: Seq<SlotEvent<T>>)
    ensures
        ({
            let run = slot_run(events);
            let tp = taken_positions(events);
            &&& run.1.len() == tp.len()
            &&& forall|k: int| 0 <= k < tp.len() ==> {
                &&& 0 <= #[trigger] tp[k] && tp[k] + 1 < events.len()
                &&& events[tp[k]] is Dispatch
                &&& events[tp[k] + 1] is Take
                &&& run.1[k] == events[tp[k]]->Dispatch_0
            }
            &&& forall|k1: int, k2: int| 0 <= k1 < k2 < tp.len() ==> #[trigger] tp[k1] < #[trigger] tp[k2]
            &&& run.0 == if events.len() > 0 && events.last() is Dispatch {
                Some(events.last()->Dispatch_0)
            } else {
                None
            }
        }),
    decreases events.len(),
{
    if events.len() > 0 {
        let prev = events.drop_last();
        lemma_slot_run(prev);
        let n = events.len() as int;
        assert forall|i: int| 0 <= i < prev.len() implies prev[i] == events[i] by {}
        if n >= 2 {
            assert(prev.last() == events[n - 2]);
        }
        let tp = taken_positions(events);
        let ptp = taken_positions(prev);
        assert forall|k: int| 0 <= k < ptp.len() implies #[trigger] ptp[k] + 1 < prev.len() by {}
        if n >= 2 && events[n - 2] is Dispatch && events[n - 1] is Take {
            assert(tp == ptp.push(n - 2));
        } else {
            assert(n < 2 ==> tp == ptp);
        }
    }
}

/// A dispatched task that another dispatch follows before any take is never
/// run: the later dispatch replaced it in the slot.
pub proof fn lemma_overwritten_task_never_runs<T>(events: Seq<SlotEvent<T>>, i: int, j: int)
    requires
        0 <= i < j < events.len(),
        events[i] is Dispatch,
        events[j] is Dispatch,
        forall|m: int| i < m < j ==> !(#[trigger] events[m] is Take),
    ensures
        forall|k: int|
            0 <= k < taken_positions(events).len() ==> #[trigger] taken_positions(events)[k] != i,
{
    lemma_slot_run(events);
    if i + 1 < j {
        assert(!(events[i + 1] is Take));
    }
}

} // verus!
