//! The program that drops stale mailbox messages before interrupts are enabled.
//!
//! A doorbell that was rung before the handler is registered holds the line up,
//! and the edge that should deliver the first real message never comes. So the
//! level is taken down first.

use vstd::prelude::*;

use crate::mailbox::{
    access_of, irq_offset, k3_irq_reg, k3_new_msg_mask, msg_offset, new_msg_mask, MboxAction,
    RegAccess, K3_MBOX_CHANNELS, K3_MBOX_IRQ_CLR_OFF, K3_MBOX_IRQ_STATUS_OFF, K3_MBOX_MSG_BASE,
};

verus! {

/// Upper bound on the messages that are dropped.
pub const RESET_MAX_DRAIN: u32 = 32;

/// Looks at the raw status; while the line is up and messages may still be
/// dropped, reads one message and clears the interrupt.
pub open spec fn drop_trace(
    user: u8,
    channel: u8,
    left: nat,
    env: spec_fn(int) -> u32,
    i: int,
) -> Seq<RegAccess>
    decreases left,
{
    let look = seq![
        RegAccess::Read { offset: irq_offset(user, K3_MBOX_IRQ_STATUS_OFF), value: env(i) },
    ];
    if env(i) & new_msg_mask(channel) == 0 || left == 0 {
        look
    } else {
        look + seq![
            RegAccess::Read { offset: msg_offset(channel), value: env(i + 1) },
            RegAccess::Write {
                offset: irq_offset(user, K3_MBOX_IRQ_CLR_OFF),
                value: new_msg_mask(channel),
            },
        ] + drop_trace(user, channel, (left - 1) as nat, env, i + 3)
    }
}

/// Every access of a whole run, if access `i + k` finds `env(i + k)`.
pub open spec fn reset_trace(
    user: u8,
    channel: u8,
    env: spec_fn(int) -> u32,
    i: int,
) -> Seq<RegAccess> {
    drop_trace(user, channel, RESET_MAX_DRAIN as nat, env, i)
}

/// Where a run of the program stands.
enum ResetPhase {
    /// Read the raw interrupt status.
    Status,
    /// Read one message.
    Message,
    /// Clear the interrupt.
    Clear,
    /// The run has ended.
    Finished,
}

/// A run of the reset program, carried out like [`crate::ack::AckAndClear`].
pub struct ResetRx {
    user: u8,
    channel: u8,
    drained: u32,
    phase: ResetPhase,
}

impl ResetRx {
    /// The user that runs the program.
    pub closed spec fn user(&self) -> u8 {
        self.user
    }

    /// The channel that is reset.
    pub closed spec fn channel(&self) -> u8 {
        self.channel
    }

    /// Number of messages dropped so far.
    pub closed spec fn drained(&self) -> u32 {
        self.drained
    }

    /// Validity of a run.
    pub closed spec fn wf(&self) -> bool {
        &&& self.channel < K3_MBOX_CHANNELS
        &&& self.drained <= RESET_MAX_DRAIN
        &&& (self.phase is Message || self.phase is Clear) ==> self.drained < RESET_MAX_DRAIN
    }

    /// Every access that is still to come, if access `i + k` finds `env(i + k)`.
    pub closed spec fn remaining(&self, env: spec_fn(int) -> u32, i: int) -> Seq<RegAccess> {
        let (u, c) = (self.user, self.channel);
        let left = (RESET_MAX_DRAIN - self.drained) as nat;
        let clear = RegAccess::Write {
            offset: irq_offset(u, K3_MBOX_IRQ_CLR_OFF),
            value: new_msg_mask(c),
        };
        match self.phase {
            ResetPhase::Status => drop_trace(u, c, left, env, i),
            ResetPhase::Message => seq![
                RegAccess::Read { offset: msg_offset(c), value: env(i) },
                clear,
            ] + drop_trace(u, c, (left - 1) as nat, env, i + 2),
            ResetPhase::Clear => seq![clear] + drop_trace(u, c, (left - 1) as nat, env, i + 1),
            ResetPhase::Finished => Seq::empty(),
        }
    }

    /// A run that is about to begin.
    pub fn start(user: u8, channel: u8) -> (program: Self)
        requires
            channel < K3_MBOX_CHANNELS,
        ensures
            program.wf(),
            program.user() == user,
            program.channel() == channel,
            program.drained() == 0,
            forall|env: spec_fn(int) -> u32, i: int| #[trigger]
                program.remaining(env, i) == reset_trace(user, channel, env, i),
    {
        Self { user, channel, drained: 0, phase: ResetPhase::Status }
    }

    /// Number of messages dropped so far.
    pub fn drained_messages(&self) -> (drained: u32)
        ensures
            drained == self.drained(),
    {
        self.drained
    }

    /// What the program wants done next: the first of the accesses that are
    /// still to come, or [`MboxAction::Done`] if there is none.
    pub fn action(&self) -> (action: MboxAction)
        requires
            self.wf(),
        ensures
            forall|env: spec_fn(int) -> u32, i: int|
                {
                    let rest = #[trigger] self.remaining(env, i);
                    if action is Done {
                        rest.len() == 0
                    } else {
                        rest.len() > 0 && rest[0] == access_of(action, env(i))
                    }
                },
    {
        match self.phase {
            ResetPhase::Status => MboxAction::Read {
                offset: k3_irq_reg(self.user, K3_MBOX_IRQ_STATUS_OFF),
            },
            ResetPhase::Message => MboxAction::Read {
                offset: K3_MBOX_MSG_BASE + (self.channel as usize) * 4,
            },
            ResetPhase::Clear => MboxAction::Write {
                offset: k3_irq_reg(self.user, K3_MBOX_IRQ_CLR_OFF),
                value: k3_new_msg_mask(self.channel),
            },
            ResetPhase::Finished => MboxAction::Done,
        }
    }

    /// Goes on after the access that [`ResetRx::action`] asked for, which found
    /// `value` if it was a read. A message counts as dropped once the interrupt
    /// has been cleared after it. A run that has ended stays as it is.
    pub fn resume(&mut self, value: u32)
        requires
            old(self).wf(),
        ensures
            final(self).wf(),
            final(self).user() == old(self).user(),
            final(self).channel() == old(self).channel(),
            forall|env: spec_fn(int) -> u32, i: int|
                env(i) == value && (#[trigger] old(self).remaining(env, i)).len() > 0 ==> {
                    &&& final(self).remaining(env, i + 1) == old(self).remaining(
                        env,
                        i,
                    ).drop_first()
                    &&& final(self).drained() == old(self).drained() + (if old(self).remaining(
                        env,
                        i,
                    )[0] is Write {
                        1int
                    } else {
                        0
                    })
                },
            forall|env: spec_fn(int) -> u32, i: int|
                (#[trigger] old(self).remaining(env, i)).len() == 0 ==> *final(self) == *old(self)
                    && final(self).remaining(env, i + 1).len() == 0,
    {
        match self.phase {
            ResetPhase::Status => {
                if value & k3_new_msg_mask(self.channel) != 0 && self.drained < RESET_MAX_DRAIN {
                    self.phase = ResetPhase::Message;
                } else {
                    self.phase = ResetPhase::Finished;
                }
            },
            ResetPhase::Message => {
                self.phase = ResetPhase::Clear;
            },
            ResetPhase::Clear => {
                self.drained = self.drained + 1;
                self.phase = ResetPhase::Status;
            },
            ResetPhase::Finished => {},
        }
        proof {
            assert forall|env: spec_fn(int) -> u32, i: int|
                env(i) == value && (#[trigger] old(self).remaining(env, i)).len()
                    > 0 implies self.remaining(env, i + 1) == old(self).remaining(
                env,
                i,
            ).drop_first() by {
                assert(self.remaining(env, i + 1) =~= old(self).remaining(env, i).drop_first());
            }
        }
    }
}

} // verus!
