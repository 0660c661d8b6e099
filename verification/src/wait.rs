//! Waiting for the peer: the steps of a blocking wait, and why none is lost.

use vstd::prelude::*;

use crate::coherence::{
    flush_shm_window, invalidate_shm_window, sync_op, CacheOp, CacheSync, CoherenceMode, SyncPoint,
};

verus! {

/// Errors of the device's operations.
#[derive(Debug, Clone, Copy, PartialEq, Eq, Structural)]
pub enum ShmError {
    /// The operation is not one of this device's.
    Unsupported,
    /// The request is not known.
    InvalidInput,
    /// The hardware did not answer.
    Io,
    /// A signal came in while the caller waited.
    Interrupted,
}

/// Where a wait stands.
#[derive(Debug, Clone, Copy, PartialEq, Eq)]
pub enum WaitPhase {
    /// A poll begins: see whether a signal has come in.
    Begin,
    /// Synchronise before the first look.
    SyncFirst,
    /// Look for messages.
    LookFirst,
    /// Lock the waker slot, which keeps interrupts out.
    Lock,
    /// Synchronise again, with the lock held.
    SyncSecond,
    /// Look again, with the lock held.
    LookSecond,
    /// Put the waker into the slot and release the lock.
    Register,
    /// Release the lock: there is a message.
    Unlock,
    /// Sleep until woken.
    Sleep,
    /// Synchronise before returning to the process.
    SyncReturn,
    /// The wait is over.
    Finished(Result<usize, ShmError>),
}

/// What a wait wants done next.
#[derive(Debug, Clone, Copy, PartialEq, Eq)]
pub enum WaitAction {
    /// Say whether a signal has come in.
    CheckSignal,
    /// Carry out cache maintenance.
    Sync(CacheSync),
    /// Say whether the channel has messages.
    Look,
    /// Lock the waker slot.
    Lock,
    /// Put the waker into the slot, then release the lock.
    Register,
    /// Release the lock.
    Unlock,
    /// Sleep until woken.
    Sleep,
    /// Nothing: this is the outcome.
    Return(Result<usize, ShmError>),
}

/// The phase after `phase`, if it asked a question and the answer was `yes`.
pub open spec fn next_phase(mode: CoherenceMode, phase: WaitPhase, yes: bool) -> WaitPhase {
    let cbo = mode == CoherenceMode::Cbo;
    match phase {
        WaitPhase::Begin => if yes {
            WaitPhase::Finished(Err(ShmError::Interrupted))
        } else if cbo {
            WaitPhase::SyncFirst
        } else {
            WaitPhase::LookFirst
        },
        WaitPhase::SyncFirst => WaitPhase::LookFirst,
        WaitPhase::LookFirst => if !yes {
            WaitPhase::Lock
        } else if cbo {
            WaitPhase::SyncReturn
        } else {
            WaitPhase::Finished(Ok(0))
        },
        WaitPhase::Lock => if cbo {
            WaitPhase::SyncSecond
        } else {
            WaitPhase::LookSecond
        },
        WaitPhase::SyncSecond => WaitPhase::LookSecond,
        WaitPhase::LookSecond => if yes {
            WaitPhase::Unlock
        } else {
            WaitPhase::Register
        },
        WaitPhase::Register => WaitPhase::Sleep,
        WaitPhase::Unlock => if cbo {
            WaitPhase::SyncReturn
        } else {
            WaitPhase::Finished(Ok(0))
        },
        WaitPhase::Sleep => WaitPhase::Begin,
        WaitPhase::SyncReturn => WaitPhase::Finished(Ok(0)),
        WaitPhase::Finished(outcome) => WaitPhase::Finished(outcome),
    }
}

/// A wait for messages on the window `[vaddr, vaddr + size)`.
///
/// The caller carries out what [`AwaitRun::action`] says and reports back with
/// [`AwaitRun::resume`], until the action is [`WaitAction::Return`].
#[derive(Debug, Clone, Copy, PartialEq, Eq)]
pub struct AwaitRun {
    /// How the window is kept coherent.
    pub mode: CoherenceMode,
    /// First virtual address of the window.
    pub vaddr: usize,
    /// Size of the window.
    pub size: usize,
    /// Where the wait stands.
    pub phase: WaitPhase,
}

impl AwaitRun {
    /// A wait that is about to begin.
    pub fn start(mode: CoherenceMode, vaddr: usize, size: usize) -> (run: Self)
        ensures
            run == (AwaitRun { mode, vaddr, size, phase: WaitPhase::Begin }),
    {
        Self { mode, vaddr, size, phase: WaitPhase::Begin }
    }

    /// A phase that synchronises comes up only in the mode that needs it.
    pub open spec fn wf(self) -> bool {
        (self.phase is SyncFirst || self.phase is SyncSecond || self.phase is SyncReturn)
            ==> self.mode == CoherenceMode::Cbo
    }

    /// What the wait wants done next.
    pub open spec fn wanted(self) -> WaitAction {
        let whole = |op: CacheOp| CacheSync { op, vaddr: self.vaddr, size: self.size };
        match self.phase {
            WaitPhase::Begin => WaitAction::CheckSignal,
            WaitPhase::SyncFirst | WaitPhase::SyncSecond => WaitAction::Sync(
                whole(CacheOp::Invalidate),
            ),
            WaitPhase::LookFirst | WaitPhase::LookSecond => WaitAction::Look,
            WaitPhase::Lock => WaitAction::Lock,
            WaitPhase::Register => WaitAction::Register,
            WaitPhase::Unlock => WaitAction::Unlock,
            WaitPhase::Sleep => WaitAction::Sleep,
            WaitPhase::SyncReturn => WaitAction::Sync(whole(CacheOp::CleanInvalidate)),
            WaitPhase::Finished(outcome) => WaitAction::Return(outcome),
        }
    }

    /// The wait after the action that it wanted, with the answer `yes`.
    pub open spec fn stepped(self, yes: bool) -> AwaitRun {
        AwaitRun { phase: next_phase(self.mode, self.phase, yes), ..self }
    }

    /// What the wait wants done next.
    pub fn action(&self) -> (action: WaitAction)
        requires
            self.wf(),
        ensures
            action == self.wanted(),
            action == (match self.phase {
                WaitPhase::Begin => WaitAction::CheckSignal,
                WaitPhase::SyncFirst | WaitPhase::SyncSecond => WaitAction::Sync(
                    CacheSync {
                        op: sync_op(self.mode, SyncPoint::AwaitCheck)->0,
                        vaddr: self.vaddr,
                        size: self.size,
                    },
                ),
                WaitPhase::LookFirst | WaitPhase::LookSecond => WaitAction::Look,
                WaitPhase::Lock => WaitAction::Lock,
                WaitPhase::Register => WaitAction::Register,
                WaitPhase::Unlock => WaitAction::Unlock,
                WaitPhase::Sleep => WaitAction::Sleep,
                WaitPhase::SyncReturn => WaitAction::Sync(
                    CacheSync {
                        op: sync_op(self.mode, SyncPoint::AwaitReturn)->0,
                        vaddr: self.vaddr,
                        size: self.size,
                    },
                ),
                WaitPhase::Finished(outcome) => WaitAction::Return(outcome),
            }),
    {
        match self.phase {
            WaitPhase::Begin => WaitAction::CheckSignal,
            WaitPhase::SyncFirst | WaitPhase::SyncSecond => WaitAction::Sync(
                invalidate_shm_window(self.vaddr, self.size),
            ),
            WaitPhase::LookFirst | WaitPhase::LookSecond => WaitAction::Look,
            WaitPhase::Lock => WaitAction::Lock,
            WaitPhase::Register => WaitAction::Register,
            WaitPhase::Unlock => WaitAction::Unlock,
            WaitPhase::Sleep => WaitAction::Sleep,
            WaitPhase::SyncReturn => WaitAction::Sync(flush_shm_window(self.vaddr, self.size)),
            WaitPhase::Finished(outcome) => WaitAction::Return(outcome),
        }
    }

    /// Goes on after the action that [`AwaitRun::action`] asked for. `yes` is
    /// the answer, where the action was a question.
    pub fn resume(&mut self, yes: bool)
        requires
            old(self).wf(),
        ensures
            final(self).wf(),
            *final(self) == old(self).stepped(yes),
            *final(self) == (AwaitRun {
                phase: next_phase(old(self).mode, old(self).phase, yes),
                ..*old(self)
            }),
    {
        let cbo = match self.mode {
            CoherenceMode::Cbo => true,
            CoherenceMode::PbmtNc => false,
        };
        let ready = if cbo {
            WaitPhase::SyncReturn
        } else {
            WaitPhase::Finished(Ok(0))
        };
        self.phase = match self.phase {
            WaitPhase::Begin => if yes {
                WaitPhase::Finished(Err(ShmError::Interrupted))
            } else if cbo {
                WaitPhase::SyncFirst
            } else {
                WaitPhase::LookFirst
            },
            WaitPhase::SyncFirst => WaitPhase::LookFirst,
            WaitPhase::LookFirst => if yes {
                ready
            } else {
                WaitPhase::Lock
            },
            WaitPhase::Lock => if cbo {
                WaitPhase::SyncSecond
            } else {
                WaitPhase::LookSecond
            },
            WaitPhase::SyncSecond => WaitPhase::LookSecond,
            WaitPhase::LookSecond => if yes {
                WaitPhase::Unlock
            } else {
                WaitPhase::Register
            },
            WaitPhase::Register => WaitPhase::Sleep,
            WaitPhase::Unlock => ready,
            WaitPhase::Sleep => WaitPhase::Begin,
            WaitPhase::SyncReturn => WaitPhase::Finished(Ok(0)),
            WaitPhase::Finished(outcome) => WaitPhase::Finished(outcome),
        };
    }
}

/// A slot for the waker of the one task that waits.
///
/// A second registration replaces the first: each process has one waiting
/// thread.
pub struct WakerSlot<W> {
    slot: Option<W>,
}

impl<W> WakerSlot<W> {
    /// The waker in the slot.
    pub closed spec fn view(&self) -> Option<W> {
        self.slot
    }

    /// An empty slot.
    pub fn new() -> (slot: Self)
        ensures
            slot@ is None,
    {
        Self { slot: None }
    }

    /// Puts `waker` into the slot.
    pub fn register(&mut self, waker: W)
        ensures
            final(self)@ == Some(waker),
    {
        self.slot = Some(waker);
    }

    /// Takes the waker out of the slot, for the caller to wake: a doorbell
    /// wakes a waiter at most once, and wakes nobody if nobody waits.
    pub fn wake_ipc_waiter(&mut self) -> (waker: Option<W>)
        ensures
            waker == old(self)@,
            final(self)@ is None,
    {
        self.slot.take()
    }
}

} // verus!
