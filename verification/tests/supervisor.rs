use dactyl_rs::supervisor::{supervise, BusAction, BusSignal, BusTask};

#[test]
fn suspend_starts_the_race() {
    assert_eq!(
        supervise(BusTask::Running, BusSignal::Suspended),
        (BusTask::Suspended, BusAction::AwaitResumeOrWakeup)
    );
}

#[test]
fn resume_wins_the_race() {
    assert_eq!(
        supervise(BusTask::Suspended, BusSignal::Resumed),
        (BusTask::Running, BusAction::RunUntilSuspend)
    );
    assert_eq!(
        supervise(BusTask::Running, BusSignal::WakeupRequested),
        (BusTask::Running, BusAction::RunUntilSuspend)
    );
}

#[test]
fn wakeup_wins_the_race() {
    assert_eq!(
        supervise(BusTask::Suspended, BusSignal::WakeupRequested),
        (BusTask::Waking, BusAction::RemoteWakeup)
    );
    assert_eq!(
        supervise(BusTask::Waking, BusSignal::WakeupRequested),
        (BusTask::Waking, BusAction::RemoteWakeup)
    );
    assert_eq!(
        supervise(BusTask::Waking, BusSignal::Resumed),
        (BusTask::Running, BusAction::RunUntilSuspend)
    );
}

#[test]
fn signals_without_meaning_change_nothing() {
    assert_eq!(
        supervise(BusTask::Running, BusSignal::Resumed),
        (BusTask::Running, BusAction::RunUntilSuspend)
    );
    assert_eq!(
        supervise(BusTask::Suspended, BusSignal::Suspended),
        (BusTask::Suspended, BusAction::AwaitResumeOrWakeup)
    );
    assert_eq!(
        supervise(BusTask::Waking, BusSignal::Suspended),
        (BusTask::Waking, BusAction::RemoteWakeup)
    );
}
