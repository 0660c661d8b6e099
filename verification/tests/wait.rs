use rt_shm::coherence::{CacheOp, CacheSync, CoherenceMode};
use rt_shm::wait::{AwaitRun, ShmError, WaitAction, WakerSlot};

/// Runs a wait, answering its questions in order, and lists what it asked for.
fn run(mode: CoherenceMode, answers: &[bool]) -> Vec<WaitAction> {
    let mut wait = AwaitRun::start(mode, 0x1000, 0x100);
    let mut answers = answers.iter();
    let mut log = Vec::new();
    loop {
        let action = wait.action();
        log.push(action);
        match action {
            WaitAction::CheckSignal | WaitAction::Look => match answers.next() {
                Some(yes) => wait.resume(*yes),
                None => return log,
            },
            WaitAction::Return(_) => return log,
            _ => wait.resume(false),
        }
    }
}

fn sync(op: CacheOp) -> WaitAction {
    WaitAction::Sync(CacheSync { op, vaddr: 0x1000, size: 0x100 })
}

#[test]
fn a_message_that_is_there_returns_at_once() {
    assert_eq!(
        run(CoherenceMode::PbmtNc, &[false, true]),
        vec![WaitAction::CheckSignal, WaitAction::Look, WaitAction::Return(Ok(0))]
    );
    assert_eq!(
        run(CoherenceMode::Cbo, &[false, true]),
        vec![
            WaitAction::CheckSignal,
            sync(CacheOp::Invalidate),
            WaitAction::Look,
            sync(CacheOp::CleanInvalidate),
            WaitAction::Return(Ok(0)),
        ]
    );
}

#[test]
fn the_second_look_is_synchronised_under_the_lock() {
    assert_eq!(
        run(CoherenceMode::Cbo, &[false, false, true]),
        vec![
            WaitAction::CheckSignal,
            sync(CacheOp::Invalidate),
            WaitAction::Look,
            WaitAction::Lock,
            sync(CacheOp::Invalidate),
            WaitAction::Look,
            WaitAction::Unlock,
            sync(CacheOp::CleanInvalidate),
            WaitAction::Return(Ok(0)),
        ]
    );
}

#[test]
fn an_empty_doorbell_goes_back_to_sleep() {
    let poll = [
        WaitAction::CheckSignal,
        WaitAction::Look,
        WaitAction::Lock,
        WaitAction::Look,
        WaitAction::Register,
        WaitAction::Sleep,
    ];
    let log = run(CoherenceMode::PbmtNc, &[false, false, false, false, false, false]);
    assert_eq!(log[..6], poll);
    assert_eq!(log[6..12], poll);
    assert_eq!(log[12], WaitAction::CheckSignal);
}

#[test]
fn a_signal_interrupts_the_wait() {
    assert_eq!(
        run(CoherenceMode::Cbo, &[true]),
        vec![WaitAction::CheckSignal, WaitAction::Return(Err(ShmError::Interrupted))]
    );
    let log = run(CoherenceMode::PbmtNc, &[false, false, false, true]);
    assert_eq!(log.last(), Some(&WaitAction::Return(Err(ShmError::Interrupted))));
}

#[test]
fn a_finished_wait_stays_finished() {
    let mut wait = AwaitRun::start(CoherenceMode::PbmtNc, 0, 0);
    wait.resume(false);
    wait.resume(true);
    assert_eq!(wait.action(), WaitAction::Return(Ok(0)));
    wait.resume(true);
    assert_eq!(wait.action(), WaitAction::Return(Ok(0)));
}

#[test]
fn a_waker_is_taken_once() {
    let mut slot = WakerSlot::new();
    assert_eq!(slot.wake_ipc_waiter(), None::<u32>);
    slot.register(1);
    slot.register(2);
    assert_eq!(slot.wake_ipc_waiter(), Some(2));
    assert_eq!(slot.wake_ipc_waiter(), None);
}
