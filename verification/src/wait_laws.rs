//! What holds of every wait, step by step, in terms of what it asks for and what
//! it is told.

use vstd::prelude::*;

use crate::coherence::{CacheOp, CacheSync, CoherenceMode};
use crate::wait::{AwaitRun, ShmError, WaitAction, WaitPhase};
use crate::wait_model::walk;

verus! {

/// The wait holds the lock on the waker slot.
pub open spec fn holds_lock(run: AwaitRun) -> bool {
    run.phase is SyncSecond || run.phase is LookSecond || run.phase is Register || run.phase
        is Unlock
}

/// `action` drops the cached lines of the whole window.
pub open spec fn drops_window(run: AwaitRun, action: WaitAction) -> bool {
    action == WaitAction::Sync(
        CacheSync { op: CacheOp::Invalidate, vaddr: run.vaddr, size: run.size },
    )
}

/// `action` writes the cached lines of the whole window back and drops them.
pub open spec fn flushes_window(run: AwaitRun, action: WaitAction) -> bool {
    action == WaitAction::Sync(
        CacheSync { op: CacheOp::CleanInvalidate, vaddr: run.vaddr, size: run.size },
    )
}

/// A wait fails if a signal has come in, and for no other reason.
pub proof fn only_a_signal_fails_a_wait(run: AwaitRun, yes: bool)
    requires
        run.wf(),
        !(run.wanted() is Return),
    ensures
        (run.wanted() is CheckSignal && yes) ==> run.stepped(yes).wanted() == WaitAction::Return(
            Err(ShmError::Interrupted),
        ),
        !(run.wanted() is CheckSignal && yes) ==> !(run.stepped(yes).wanted()
            matches WaitAction::Return(outcome) && outcome is Err),
{
}

/// A wait succeeds, with zero, only right after a look that found a message, or
/// after the lock has been released or the window flushed on account of one.
pub proof fn only_a_message_ends_a_wait_well(run: AwaitRun, yes: bool, n: usize)
    requires
        run.wf(),
        !(run.wanted() is Return),
        run.stepped(yes).wanted() == WaitAction::Return(Ok(n)),
    ensures
        n == 0,
        run.mode == CoherenceMode::Cbo ==> flushes_window(run, run.wanted()),
        run.mode == CoherenceMode::PbmtNc ==> run.wanted() is Unlock || (run.wanted() is Look && yes
            && !holds_lock(run)),
{
}

/// What follows a look. A message ends the wait: the lock is released if it is
/// held, the window is flushed where it may be cached, and zero is returned. No
/// message leads to the lock, and under the lock to the registration.
pub proof fn a_look_decides(run: AwaitRun, yes: bool)
    requires
        run.wf(),
        run.wanted() is Look,
    ensures
        ({
            let next = run.stepped(yes).wanted();
            &&& yes && holds_lock(run) ==> next is Unlock
            &&& yes && !holds_lock(run) && run.mode == CoherenceMode::Cbo ==> flushes_window(
                run,
                next,
            )
            &&& yes && !holds_lock(run) && run.mode == CoherenceMode::PbmtNc ==> next
                == WaitAction::Return(Ok(0))
            &&& !yes && holds_lock(run) ==> next is Register
            &&& !yes && !holds_lock(run) ==> next is Lock
        }),
{
}

/// What follows every other action. The order is: see about signals, look, lock,
/// look again, register, sleep, and then all over. Where the window may be cached,
/// it is dropped before either look and flushed before the wait returns.
pub proof fn the_order_of_a_wait(run: AwaitRun, yes: bool)
    requires
        run.wf(),
    ensures
        ({
            let now = run.wanted();
            let next = run.stepped(yes).wanted();
            let cbo = run.mode == CoherenceMode::Cbo;
            &&& now is CheckSignal && !yes && cbo ==> drops_window(run, next)
            &&& now is CheckSignal && !yes && !cbo ==> next is Look
            &&& drops_window(run, now) ==> next is Look
            &&& now is Lock && cbo ==> drops_window(run, next)
            &&& now is Lock && !cbo ==> next is Look
            &&& now is Register ==> next is Sleep
            &&& now is Sleep ==> next is CheckSignal
            &&& now is Unlock && cbo ==> flushes_window(run, next)
            &&& now is Unlock && !cbo ==> next == WaitAction::Return(Ok(0))
            &&& flushes_window(run, now) ==> next == WaitAction::Return(Ok(0))
            &&& now is Return ==> next == now
        }),
{
}

/// Where the window may be cached, every look comes right after the window was
/// dropped; where accesses bypass the cache, nothing is ever synchronised.
pub proof fn every_look_is_fresh(run: AwaitRun, yes: bool)
    requires
        run.wf(),
        !(run.wanted() is Return),
    ensures
        run.mode == CoherenceMode::Cbo && run.stepped(yes).wanted() is Look ==> drops_window(
            run,
            run.wanted(),
        ),
        run.mode == CoherenceMode::PbmtNc ==> !(run.stepped(yes).wanted() is Sync),
        run.wanted() matches WaitAction::Sync(sync) ==> drops_window(run, run.wanted())
            || flushes_window(run, run.wanted()),
{
}

/// The lock is taken by locking, and given back by registering or unlocking and
/// by nothing else. Only who holds it registers, unlocks, or looks again; nobody
/// sleeps or returns with it.
pub proof fn the_lock_is_held_in_between(run: AwaitRun, yes: bool)
    requires
        run.wf(),
    ensures
        holds_lock(run.stepped(yes)) <==> (run.wanted() is Lock || (holds_lock(run) && !(
        run.wanted() is Register || run.wanted() is Unlock))),
        run.wanted() is Register || run.wanted() is Unlock ==> holds_lock(run),
        run.wanted() is Lock || run.wanted() is Sleep || run.wanted() is Return
            || run.wanted() is CheckSignal ==> !holds_lock(run),
        run.stepped(yes).mode == run.mode,
        run.stepped(yes).vaddr == run.vaddr,
        run.stepped(yes).size == run.size,
        run.stepped(yes).wf(),
{
}

/// A wait begins by seeing about signals, without the lock.
pub proof fn a_wait_begins_with_signals(run: AwaitRun)
    requires
        run.phase == WaitPhase::Begin,
    ensures
        run.wf(),
        run.wanted() is CheckSignal,
        !holds_lock(run),
{
}

/// A message that comes in between the two looks ends the wait well, in either
/// mode: no signal, an empty first look, a message under the lock. `rest` answers
/// the steps that ask nothing.
pub proof fn a_message_under_the_lock_ends_the_wait(mode: CoherenceMode, rest: Seq<bool>)
    requires
        rest.len() == 5,
    ensures
        walk(
            mode,
            WaitPhase::Begin,
            if mode == CoherenceMode::Cbo {
                seq![false, rest[0], false, rest[1], rest[2], true, rest[3], rest[4]]
            } else {
                seq![false, false, rest[0], true, rest[1]]
            },
        ) == WaitPhase::Finished(Ok(0)),
{
    reveal_with_fuel(walk, 9);
}

/// However a wait goes, if it ends in failure then the last question about a
/// signal was answered with yes: it failed right at that question.
pub proof fn a_failed_wait_was_signalled(mode: CoherenceMode, answers: Seq<bool>, e: ShmError)
    requires
        walk(mode, WaitPhase::Begin, answers) == WaitPhase::Finished(Err(e)),
    ensures
        e == ShmError::Interrupted,
        exists|k: int|
            0 <= k < answers.len() && answers[k] && #[trigger] walk(
                mode,
                WaitPhase::Begin,
                answers.take(k),
            ) == WaitPhase::Begin,
    decreases answers.len(),
{
    assert(answers.len() > 0);
    let before = answers.drop_last();
    lemma_walk_last(mode, WaitPhase::Begin, answers);
    let phase = walk(mode, WaitPhase::Begin, before);
    if phase == WaitPhase::Finished(Err(e)) {
        a_failed_wait_was_signalled(mode, before, e);
        let k = choose|k: int|
            0 <= k < before.len() && before[k] && #[trigger] walk(
                mode,
                WaitPhase::Begin,
                before.take(k),
            ) == WaitPhase::Begin;
        assert(answers.take(k) =~= before.take(k));
    } else {
        assert(phase == WaitPhase::Begin && answers.last());
        assert(answers.take(answers.len() - 1) =~= before);
    }
}

proof fn lemma_walk_last(mode: CoherenceMode, phase: WaitPhase, answers: Seq<bool>)
    requires
        answers.len() > 0,
    ensures
        walk(mode, phase, answers) == crate::wait::next_phase(
            mode,
            walk(mode, phase, answers.drop_last()),
            answers.last(),
        ),
    decreases answers.len(),
{
    if answers.len() == 1 {
        assert(answers.drop_last() =~= Seq::empty());
        assert(answers.drop_first() =~= Seq::empty());
        reveal_with_fuel(walk, 2);
    } else {
        lemma_walk_last(
            mode,
            crate::wait::next_phase(mode, phase, answers[0]),
            answers.drop_first(),
        );
        assert(answers.drop_first().drop_last() =~= answers.drop_last().drop_first());
        assert(answers.drop_first().last() == answers.last());
        assert(answers.drop_last()[0] == answers[0]);
    }
}

} // verus!
