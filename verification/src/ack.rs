//! The program that acknowledges mailbox messages and clears the interrupt.
//!
//! `new_msg` is a latched level. Clearing it takes hold only after a message
//! has been read, and while the FIFO still holds messages the hardware raises
//! it again at once. An interrupt controller that delivers only rising edges
//! then never sees another one. So the program drains the FIFO, clears the
//! bit, and looks again, until the line has really gone down. Both loops are
//! bounded, because the program runs in interrupt context.

use vstd::prelude::*;

use crate::mailbox::{
    access_of, irq_offset, k3_irq_reg, k3_new_msg_mask, msg_offset, msg_status_offset,
    new_msg_mask, MboxAction, RegAccess, K3_MBOX_CHANNELS, K3_MBOX_IRQ_CLR_OFF,
    K3_MBOX_IRQ_EN_SET_OFF, K3_MBOX_IRQ_STATUS_OFF, K3_MBOX_MSG_BASE, K3_MBOX_MSG_STATUS_BASE,
    K3_MBOX_NUM_MSG_MASK,
};

verus! {

/// Upper bound on the rounds of drain and clear.
pub const ACK_MAX_ROUNDS: u32 = 32;

/// Upper bound on the messages drained in one round.
pub const ACK_MAX_DRAIN: u32 = 64;

/// Drains the FIFO: read a message, then look at the count, until the count is
/// zero or `left` messages have been read. `env(i)` is what access `i` finds.
pub open spec fn drain_trace(
    channel: u8,
    left: nat,
    env: spec_fn(int) -> u32,
    i: int,
) -> Seq<RegAccess>
    decreases left,
{
    if left == 0 {
        Seq::empty()
    } else {
        let pair = seq![
            RegAccess::Read { offset: msg_offset(channel), value: env(i) },
            RegAccess::Read { offset: msg_status_offset(channel), value: env(i + 1) },
        ];
        if env(i + 1) & K3_MBOX_NUM_MSG_MASK == 0 {
            pair
        } else {
            pair + drain_trace(channel, (left - 1) as nat, env, i + 2)
        }
    }
}

/// Clears the interrupt, keeping the bits of the other channels, and goes on
/// with the rounds that are left.
pub open spec fn clear_trace(
    user: u8,
    channel: u8,
    rounds: nat,
    env: spec_fn(int) -> u32,
    i: int,
) -> Seq<RegAccess>
    decreases rounds, 0int,
{
    let clr = irq_offset(user, K3_MBOX_IRQ_CLR_OFF);
    seq![
        RegAccess::Read { offset: clr, value: env(i) },
        RegAccess::Write { offset: clr, value: env(i) | new_msg_mask(channel) },
    ] + (if rounds == 0 {
        Seq::empty()
    } else {
        rounds_trace(user, channel, (rounds - 1) as nat, env, i + 2)
    })
}

/// The rest of a round that found the line up: drain at most `left` messages,
/// then clear.
pub open spec fn round_trace(
    user: u8,
    channel: u8,
    left: nat,
    rounds: nat,
    env: spec_fn(int) -> u32,
    i: int,
) -> Seq<RegAccess>
    decreases rounds, 1int,
{
    let drain = drain_trace(channel, left, env, i);
    drain + clear_trace(user, channel, rounds, env, i + drain.len())
}

/// At most `rounds` rounds: look at the raw status and the enable register, and
/// stop if the line is down; else drain and clear.
pub open spec fn rounds_trace(
    user: u8,
    channel: u8,
    rounds: nat,
    env: spec_fn(int) -> u32,
    i: int,
) -> Seq<RegAccess>
    decreases rounds, 2int,
{
    if rounds == 0 {
        Seq::empty()
    } else {
        let look = seq![
            RegAccess::Read {
                offset: irq_offset(user, K3_MBOX_IRQ_STATUS_OFF),
                value: env(i),
            },
            RegAccess::Read {
                offset: irq_offset(user, K3_MBOX_IRQ_EN_SET_OFF),
                value: env(i + 1),
            },
        ];
        if env(i) & env(i + 1) & new_msg_mask(channel) == 0 {
            look
        } else {
            look + round_trace(user, channel, ACK_MAX_DRAIN as nat, rounds, env, i + 2)
        }
    }
}

/// Every access of a whole run of the program, if access `i + k` finds
/// `env(i + k)`.
pub open spec fn ack_trace(
    user: u8,
    channel: u8,
    env: spec_fn(int) -> u32,
    i: int,
) -> Seq<RegAccess> {
    rounds_trace(user, channel, ACK_MAX_ROUNDS as nat, env, i)
}

/// Where a run of the program stands.
#[derive(Debug, Clone, Copy)]
enum AckPhase {
    /// Read the raw interrupt status.
    Status,
    /// Read the enable register; the raw status was `status`.
    Enable { status: u32 },
    /// Read a message; at most `left` of this round's messages are left.
    Message { left: u32 },
    /// Look at the message count, after one of `left` messages was read.
    Count { left: u32 },
    /// Read the clear register.
    Clear,
    /// Write `value` to the clear register.
    Store { value: u32 },
    /// The run has ended.
    Finished,
}

/// A run of the acknowledge program.
///
/// It asks for one register access after the other. The caller carries out
/// what [`AckAndClear::action`] says and reports back with
/// [`AckAndClear::resume`], until the action is [`MboxAction::Done`].
#[derive(Debug, Clone, Copy)]
pub struct AckAndClear {
    user: u8,
    channel: u8,
    /// Rounds that are left, the current one counted.
    rounds: u32,
    phase: AckPhase,
}

impl AckAndClear {
    /// The user that runs the program.
    pub closed spec fn user(&self) -> u8 {
        self.user
    }

    /// The channel that is acknowledged.
    pub closed spec fn channel(&self) -> u8 {
        self.channel
    }

    /// Validity of a run.
    pub closed spec fn wf(&self) -> bool {
        &&& self.channel < K3_MBOX_CHANNELS
        &&& !(self.phase is Finished) ==> 1 <= self.rounds <= ACK_MAX_ROUNDS
        &&& match self.phase {
            AckPhase::Message { left } => 1 <= left <= ACK_MAX_DRAIN,
            AckPhase::Count { left } => 1 <= left <= ACK_MAX_DRAIN,
            _ => true,
        }
    }

    /// Every access that is still to come, if access `i + k` finds `env(i + k)`.
    pub closed spec fn remaining(&self, env: spec_fn(int) -> u32, i: int) -> Seq<RegAccess> {
        let (u, c, r) = (self.user, self.channel, self.rounds as nat);
        match self.phase {
            AckPhase::Status => rounds_trace(u, c, r, env, i),
            AckPhase::Enable { status } => seq![
                RegAccess::Read { offset: irq_offset(u, K3_MBOX_IRQ_EN_SET_OFF), value: env(i) },
            ] + (if status & env(i) & new_msg_mask(c) == 0 {
                Seq::empty()
            } else {
                round_trace(u, c, ACK_MAX_DRAIN as nat, r, env, i + 1)
            }),
            AckPhase::Message { left } => round_trace(u, c, left as nat, r, env, i),
            AckPhase::Count { left } => seq![
                RegAccess::Read { offset: msg_status_offset(c), value: env(i) },
            ] + (if env(i) & K3_MBOX_NUM_MSG_MASK == 0 || left == 1 {
                clear_trace(u, c, r, env, i + 1)
            } else {
                round_trace(u, c, (left - 1) as nat, r, env, i + 1)
            }),
            AckPhase::Clear => clear_trace(u, c, r, env, i),
            AckPhase::Store { value } => seq![
                RegAccess::Write { offset: irq_offset(u, K3_MBOX_IRQ_CLR_OFF), value },
            ] + rounds_trace(u, c, (r - 1) as nat, env, i + 1),
            AckPhase::Finished => Seq::empty(),
        }
    }

    /// A run that is about to begin.
    pub fn start(user: u8, channel: u8) -> (program: Self)
        requires
            channel < K3_MBOX_CHANNELS,
        ensures
            program.wf(),
            program.user() == user,
            program.channel() == channel,
            forall|env: spec_fn(int) -> u32, i: int| #[trigger]
                program.remaining(env, i) == ack_trace(user, channel, env, i),
    {
        Self { user, channel, rounds: ACK_MAX_ROUNDS, phase: AckPhase::Status }
    }

    /// What the program wants done next: the first of the accesses that are
    /// still to come, or [`MboxAction::Done`] if there is none.
    pub fn action(&self) -> (action: MboxAction)
        requires
            self.wf(),
        ensures
            forall|env: spec_fn(int) -> u32, i: int|
                {
                    let rest = #[trigger] self.remaining(env, i);
                    if action is Done {
                        rest.len() == 0
                    } else {
                        rest.len() > 0 && rest[0] == access_of(action, env(i))
                    }
                },
    {
        match self.phase {
            AckPhase::Status => MboxAction::Read {
                offset: k3_irq_reg(self.user, K3_MBOX_IRQ_STATUS_OFF),
            },
            AckPhase::Enable { status: _ } => MboxAction::Read {
                offset: k3_irq_reg(self.user, K3_MBOX_IRQ_EN_SET_OFF),
            },
            AckPhase::Message { left: _ } => MboxAction::Read {
                offset: K3_MBOX_MSG_BASE + (self.channel as usize) * 4,
            },
            AckPhase::Count { left: _ } => MboxAction::Read {
                offset: K3_MBOX_MSG_STATUS_BASE + (self.channel as usize) * 4,
            },
            AckPhase::Clear => MboxAction::Read {
                offset: k3_irq_reg(self.user, K3_MBOX_IRQ_CLR_OFF),
            },
            AckPhase::Store { value } => MboxAction::Write {
                offset: k3_irq_reg(self.user, K3_MBOX_IRQ_CLR_OFF),
                value,
            },
            AckPhase::Finished => MboxAction::Done,
        }
    }

    /// Goes on after the access that [`AckAndClear::action`] asked for, which
    /// found `value` if it was a read: the access is off the list of those that
    /// are still to come, and the others stay as they were. A run that has ended
    /// stays as it is.
    pub fn resume(&mut self, value: u32)
        requires
            old(self).wf(),
        ensures
            final(self).wf(),
            final(self).user() == old(self).user(),
            final(self).channel() == old(self).channel(),
            forall|env: spec_fn(int) -> u32, i: int|
                env(i) == value && (#[trigger] old(self).remaining(env, i)).len() > 0
                    ==> final(self).remaining(env, i + 1) == old(self).remaining(
                    env,
                    i,
                ).drop_first(),
            forall|env: spec_fn(int) -> u32, i: int|
                (#[trigger] old(self).remaining(env, i)).len() == 0 ==> *final(self) == *old(self)
                    && final(self).remaining(env, i + 1).len() == 0,
    {
        let mask: u32 = k3_new_msg_mask(self.channel);
        match self.phase {
            AckPhase::Status => {
                self.phase = AckPhase::Enable { status: value };
            },
            AckPhase::Enable { status } => {
                if status & value & mask == 0 {
                    self.phase = AckPhase::Finished;
                } else {
                    self.phase = AckPhase::Message { left: ACK_MAX_DRAIN };
                }
            },
            AckPhase::Message { left } => {
                self.phase = AckPhase::Count { left };
            },
            AckPhase::Count { left } => {
                if value & K3_MBOX_NUM_MSG_MASK == 0 || left == 1 {
                    self.phase = AckPhase::Clear;
                } else {
                    self.phase = AckPhase::Message { left: left - 1 };
                }
            },
            AckPhase::Clear => {
                self.phase = AckPhase::Store { value: value | mask };
            },
            AckPhase::Store { value: _ } => {
                self.rounds = self.rounds - 1;
                self.phase = if self.rounds == 0 {
                    AckPhase::Finished
                } else {
                    AckPhase::Status
                };
            },
            AckPhase::Finished => {},
        }
        proof {
            assert forall|env: spec_fn(int) -> u32, i: int|
                env(i) == value && (#[trigger] old(self).remaining(env, i)).len()
                    > 0 implies self.remaining(env, i + 1) == old(self).remaining(
                env,
                i,
            ).drop_first() by {
                let (u, c, r) = (old(self).user, old(self).channel, old(self).rounds as nat);
                match old(self).phase {
                    AckPhase::Message { left } => {
                        lemma_round_unfold(u, c, left as nat, r, env, i);
                    },
                    _ => {},
                }
                assert(self.remaining(env, i + 1) =~= old(self).remaining(env, i).drop_first());
            }
        }
    }
}

/// Takes one message off a round that has some left.
proof fn lemma_round_unfold(
    u: u8,
    c: u8,
    left: nat,
    r: nat,
    env: spec_fn(int) -> u32,
    i: int,
)
    requires
        left >= 1,
    ensures
        round_trace(u, c, left, r, env, i) == seq![
            RegAccess::Read { offset: msg_offset(c), value: env(i) },
            RegAccess::Read { offset: msg_status_offset(c), value: env(i + 1) },
        ] + (if env(i + 1) & K3_MBOX_NUM_MSG_MASK == 0 || left == 1 {
            clear_trace(u, c, r, env, i + 2)
        } else {
            round_trace(u, c, (left - 1) as nat, r, env, i + 2)
        }),
{
    reveal_with_fuel(drain_trace, 2);
    let d = drain_trace(c, left, env, i);
    let rest = drain_trace(c, (left - 1) as nat, env, i + 2);
    if env(i + 1) & K3_MBOX_NUM_MSG_MASK == 0 || left == 1 {
        assert(d.len() == 2);
        assert(i + d.len() == i + 2);
    } else {
        assert(d.len() == 2 + rest.len());
        assert(i + d.len() == (i + 2) + rest.len());
    }
    assert(round_trace(u, c, left, r, env, i) =~= seq![
        RegAccess::Read { offset: msg_offset(c), value: env(i) },
        RegAccess::Read { offset: msg_status_offset(c), value: env(i + 1) },
    ] + (if env(i + 1) & K3_MBOX_NUM_MSG_MASK == 0 || left == 1 {
        clear_trace(u, c, r, env, i + 2)
    } else {
        round_trace(u, c, (left - 1) as nat, r, env, i + 2)
    }));
}

} // verus!
