//! The task that watches the bus. While the bus runs it waits for a
//! suspend; while the bus is suspended it waits for whichever comes first, a
//! resume by the host or a wakeup request from the scanner.

use vstd::prelude::*;

verus! {

/// Where the bus task stands.
#[derive(Copy, Clone, Debug, PartialEq, Eq)]
pub enum BusTask {
    /// The bus runs; the task waits for a suspend.
    Running,
    /// The bus is suspended; the task waits for a resume or a wakeup request.
    Suspended,
    /// A remote wakeup was asked of the host; the task waits for the resume.
    Waking,
}

/// What the bus task has seen.
#[derive(Copy, Clone, Debug, PartialEq, Eq)]
pub enum BusSignal {
    /// The host suspended the bus.
    Suspended,
    /// The bus runs again.
    Resumed,
    /// The scanner asked for a wakeup.
    WakeupRequested,
}

/// What the bus task does next.
#[derive(Copy, Clone, Debug, PartialEq, Eq)]
pub enum BusAction {
    /// Run the device until the host suspends the bus.
    RunUntilSuspend,
    /// Wait for the first of a resume and a wakeup request.
    AwaitResumeOrWakeup,
    /// Ask the host for a remote wakeup, and wait for the resume.
    RemoteWakeup,
}

/// What the task does while it stands at `task`.
pub open spec fn action_at(task: BusTask) -> BusAction {
    match task {
        BusTask::Running => BusAction::RunUntilSuspend,
        BusTask::Suspended => BusAction::AwaitResumeOrWakeup,
        BusTask::Waking => BusAction::RemoteWakeup,
    }
}

/// Where the task stands after it has seen `signal`. A signal that has no
/// meaning where the task stands leaves it there.
pub open spec fn task_after(task: BusTask, signal: BusSignal) -> BusTask {
    match (task, signal) {
        (BusTask::Running, BusSignal::Suspended) => BusTask::Suspended,
        (BusTask::Suspended, BusSignal::Resumed) => BusTask::Running,
        (BusTask::Suspended, BusSignal::WakeupRequested) => BusTask::Waking,
        (BusTask::Waking, BusSignal::Resumed) => BusTask::Running,
        _ => task,
    }
}

/// One step of the bus task: where it stands after `signal`, and what it
/// does there.
pub fn supervise(task: BusTask, signal: BusSignal) -> (next: (BusTask, BusAction))
    ensures
        next.0 == task_after(task, signal),
        next.1 == action_at(next.0),
{
    match task {
        BusTask::Running => match signal {
            BusSignal::Suspended => (BusTask::Suspended, BusAction::AwaitResumeOrWakeup),
            _ => (BusTask::Running, BusAction::RunUntilSuspend),
        },
        BusTask::Suspended => match signal {
            BusSignal::Resumed => (BusTask::Running, BusAction::RunUntilSuspend),
            BusSignal::WakeupRequested => (BusTask::Waking, BusAction::RemoteWakeup),
            BusSignal::Suspended => (BusTask::Suspended, BusAction::AwaitResumeOrWakeup),
        },
        BusTask::Waking => match signal {
            BusSignal::Resumed => (BusTask::Running, BusAction::RunUntilSuspend),
            _ => (BusTask::Waking, BusAction::RemoteWakeup),
        },
    }
}

/// Whichever of the two comes first after a suspend decides: a resume by the
/// host puts the task back to running at once; a wakeup request makes it
/// ask the host for a wakeup, and the resume that follows puts it back to
/// running. The one that came second changes nothing.
pub proof fn lemma_first_signal_wins()
    ensures
        task_after(BusTask::Suspended, BusSignal::Resumed) == BusTask::Running,
        task_after(BusTask::Running, BusSignal::WakeupRequested) == BusTask::Running,
        task_after(BusTask::Suspended, BusSignal::WakeupRequested) == BusTask::Waking,
        action_at(BusTask::Waking) == BusAction::RemoteWakeup,
        task_after(BusTask::Waking, BusSignal::WakeupRequested) == BusTask::Waking,
        task_after(BusTask::Waking, BusSignal::Resumed) == BusTask::Running,
{
}

} // verus!
