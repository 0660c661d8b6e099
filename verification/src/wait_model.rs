//! A model of a waiting task, the peer and the interrupt, and why a waiting
//! task never sleeps through a message.

use vstd::prelude::*;

use crate::coherence::{sync_op, CoherenceMode, SyncPoint};
use crate::wait::{next_phase, WaitPhase};

verus! {

/// Everything that a wait depends on.
pub struct Scene {
    /// How the window is kept coherent.
    pub mode: CoherenceMode,
    /// Whether accesses bypass the cache.
    pub bypass: bool,
    /// Where the waiting task stands.
    pub phase: WaitPhase,
    /// Whether SRAM says that there is a message.
    pub message: bool,
    /// What this core's cached copy of the ring indices says, if it has one.
    pub cached: Option<bool>,
    /// The peer has written a message and has yet to ring.
    pub owes_ring: bool,
    /// The doorbell has rung and the interrupt has yet to be handled.
    pub ringing: bool,
    /// The waker is in its slot.
    pub registered: bool,
    /// The task has been woken and has yet to run.
    pub woken: bool,
}

impl Scene {
    /// The task holds the lock on the waker slot, which keeps interrupts out.
    pub open spec fn locked(self) -> bool {
        self.phase is SyncSecond || self.phase is LookSecond || self.phase is Register
            || self.phase is Unlock
    }

    /// What a look at the channel finds.
    pub open spec fn look(self) -> bool {
        match self.cached {
            Some(seen) if !self.bypass => seen,
            _ => self.message,
        }
    }

    /// A wait begins. Anything may still be around: old messages, doorbells,
    /// cached lines, even the waker of an earlier wait.
    pub open spec fn starts(self) -> bool {
        &&& self.phase is Begin
        &&& self.mode == CoherenceMode::PbmtNc ==> self.bypass
    }

    /// The task takes its next step, and `yes` answers its question. A sleeping
    /// task goes on when the doorbell has woken it, but a signal or a wake-up
    /// meant for something else may also have it poll again at any time.
    pub open spec fn task_step(self, after: Scene, yes: bool) -> bool {
        let moved = Scene { phase: next_phase(self.mode, self.phase, yes), ..self };
        match self.phase {
            WaitPhase::SyncFirst | WaitPhase::SyncSecond => {
                &&& sync_op(self.mode, SyncPoint::AwaitCheck) is Some
                &&& after == (Scene { cached: None, ..moved })
            },
            WaitPhase::SyncReturn => after == (Scene { cached: None, ..moved }),
            WaitPhase::LookFirst | WaitPhase::LookSecond => {
                &&& yes == self.look()
                &&& after == (Scene {
                    cached: if self.bypass {
                        self.cached
                    } else {
                        Some(yes)
                    },
                    ..moved
                })
            },
            WaitPhase::Register => after == (Scene { registered: true, ..moved }),
            WaitPhase::Sleep => after == (Scene { woken: false, ..moved }),
            _ => after == moved,
        }
    }

    /// The peer writes a message.
    pub open spec fn peer_writes(self, after: Scene) -> bool {
        after == (Scene { message: true, owes_ring: true, ..self })
    }

    /// The peer rings, with or without a message.
    pub open spec fn peer_rings(self, after: Scene) -> bool {
        after == (Scene { owes_ring: false, ringing: true, ..self })
    }

    /// The interrupt is handled: the waker is taken out and the task woken.
    pub open spec fn interrupt(self, after: Scene) -> bool {
        &&& self.ringing
        &&& !self.locked()
        &&& after == (Scene {
            ringing: false,
            registered: false,
            woken: self.woken || self.registered,
            ..self
        })
    }

    /// Anything that can happen next.
    pub open spec fn step(self, after: Scene) -> bool {
        ||| exists|yes: bool| self.task_step(after, yes)
        ||| self.peer_writes(after)
        ||| self.peer_rings(after)
        ||| self.interrupt(after)
    }

    /// Something will wake the task.
    pub open spec fn wake_is_coming(self) -> bool {
        self.woken || (self.registered && (self.owes_ring || self.ringing))
    }

    /// What holds at every moment of a wait.
    pub open spec fn inv(self) -> bool {
        &&& self.mode == CoherenceMode::PbmtNc ==> self.bypass
        // Either look finds what SRAM holds.
        &&& (self.phase is LookFirst || self.phase is LookSecond) && !self.bypass
            ==> self.cached is None
        // A message that the second look missed still has its doorbell ahead.
        &&& self.phase is Register && self.message ==> self.owes_ring || self.ringing
        &&& self.phase is Sleep ==> self.registered || self.woken
        &&& self.phase is Sleep && self.message ==> self.wake_is_coming()
        // A wait goes on to succeed only over a message.
        &&& (self.phase is Unlock || self.phase is SyncReturn || self.phase
            == WaitPhase::Finished(Ok(0))) ==> self.message
        &&& self.phase is SyncSecond ==> self.mode == CoherenceMode::Cbo
        &&& self.phase matches WaitPhase::Finished(Ok(n)) ==> n == 0
    }
}

/// The invariant of a wait holds when it begins.
pub proof fn wait_begins_well(scene: Scene)
    requires
        scene.starts(),
    ensures
        scene.inv(),
{
}

/// The invariant of a wait survives every step of the task, of the peer and of
/// the interrupt, in whatever order they come.
pub proof fn wait_stays_well(scene: Scene, after: Scene)
    requires
        scene.inv(),
        scene.step(after),
    ensures
        after.inv(),
{
}

/// A task never sleeps through a message: while it sleeps and there is a
/// message, something that will wake it is on its way.
pub proof fn no_wakeup_is_lost(scene: Scene)
    requires
        scene.inv(),
        scene.phase is Sleep,
        scene.message,
    ensures
        scene.wake_is_coming(),
{
}

/// A wait does not return over an empty doorbell: it ends well only if there is
/// a message.
pub proof fn no_wait_ends_without_a_message(scene: Scene)
    requires
        scene.inv(),
        scene.phase matches WaitPhase::Finished(outcome) && outcome is Ok,
    ensures
        scene.message,
{
}

/// Handling the interrupt of a sleeping, registered task wakes it, and its next
/// poll then looks at the channel again.
pub proof fn a_ring_wakes_the_sleeper(scene: Scene, after: Scene)
    requires
        scene.inv(),
        scene.phase is Sleep,
        scene.interrupt(after),
    ensures
        after.woken,
        after.task_step(
            (Scene { woken: false, phase: WaitPhase::Begin, ..after }),
            false,
        ),
{
}

/// The phase after one step for each of `answers`, from `phase` on.
pub open spec fn walk(mode: CoherenceMode, phase: WaitPhase, answers: Seq<bool>) -> WaitPhase
    decreases answers.len(),
{
    if answers.len() == 0 {
        phase
    } else {
        walk(mode, next_phase(mode, phase, answers[0]), answers.drop_first())
    }
}

/// A poll that no signal cuts short and whose first look finds a message ends
/// the wait: `rest` answers the steps that ask nothing.
pub proof fn a_message_ends_the_wait(mode: CoherenceMode, rest: Seq<bool>)
    requires
        rest.len() == 2,
    ensures
        walk(
            mode,
            WaitPhase::Begin,
            if mode == CoherenceMode::Cbo {
                seq![false, rest[0], true, rest[1]]
            } else {
                seq![false, true]
            },
        ) == WaitPhase::Finished(Ok(0)),
{
    reveal_with_fuel(walk, 5);
}

/// A poll that finds no message in either look goes back to sleep, whatever
/// woke it: an empty doorbell does not end a wait. `rest` answers the steps that
/// ask nothing.
pub proof fn an_empty_doorbell_goes_back_to_sleep(mode: CoherenceMode, rest: Seq<bool>)
    requires
        rest.len() == 4,
    ensures
        walk(
            mode,
            WaitPhase::Sleep,
            if mode == CoherenceMode::Cbo {
                seq![rest[0], false, rest[1], false, rest[2], rest[3], false, rest[0]]
            } else {
                seq![rest[0], false, false, rest[1], false, rest[2]]
            },
        ) == WaitPhase::Sleep,
{
    reveal_with_fuel(walk, 9);
}

} // verus!
