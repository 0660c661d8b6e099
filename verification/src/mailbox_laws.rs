//! The mailbox's register map in plain numbers, and what the mailbox programs do
//! in terms of it.

use vstd::prelude::*;

use crate::ack::{ack_trace, drain_trace, rounds_trace};
use crate::mailbox::{
    access_of, irq_offset, msg_offset, msg_status_offset, new_msg_mask, signal_writes, MboxAction,
    RegAccess, RegWrite, K3_MBOX_IRQ_CLR_OFF, K3_MBOX_IRQ_EN_SET_OFF, K3_MBOX_IRQ_STATUS_OFF,
};
use crate::reset::{drop_trace, reset_trace};

verus! {

/// Where the registers are: one FIFO word per channel from 0x40 on, one count
/// word per channel from 0xc0 on, and from 0x100 on sixteen bytes per user, with
/// the raw status, the clear register and the enable register.
pub proof fn the_register_map(channel: u8, user: u8)
    ensures
        msg_offset(channel) == 0x40 + 4 * channel,
        msg_status_offset(channel) == 0xc0 + 4 * channel,
        irq_offset(user, K3_MBOX_IRQ_STATUS_OFF) == 0x100 + 16 * user,
        irq_offset(user, K3_MBOX_IRQ_CLR_OFF) == 0x104 + 16 * user,
        irq_offset(user, K3_MBOX_IRQ_EN_SET_OFF) == 0x108 + 16 * user,
{
}

/// Every channel has two bits of the interrupt registers, and its `new_msg` bit is
/// the lower one: bit `b` of the mask is set exactly if `b` is twice the channel.
pub proof fn the_new_msg_bit(channel: u8, b: u8)
    requires
        channel < 16,
        b < 32,
    ensures
        (new_msg_mask(channel) >> b) & 1 == 1 <==> b == 2 * channel,
{
    let p: u8 = (channel * 2) as u8;
    assert(((1u32 << p) >> b) & 1 == 1 <==> b == p) by (bit_vector)
        requires
            p < 32,
            b < 32,
    ;
}

/// `access` is a read of the register at `offset` that finds `value`.
pub open spec fn reads(access: RegAccess, offset: int, value: u32) -> bool {
    access == (RegAccess::Read { offset, value })
}

/// Ringing a user's doorbell on a channel enables that channel's bit in the
/// user's enable register, and then puts one message, a one, into the channel's
/// FIFO. Nothing else is written.
pub proof fn a_doorbell_enables_and_sends(channel: u8, user: u8)
    requires
        channel < 16,
    ensures
        ({
            let writes = signal_writes(channel, user);
            &&& writes.len() == 2
            &&& writes[0].offset == 0x108 + 16 * user
            &&& forall|b: u8| b < 32 ==> ((#[trigger] (writes[0].value >> b)) & 1 == 1 <==> b == 2
                * channel)
            &&& writes[1] == (RegWrite { offset: (0x40 + 4 * channel) as usize, value: 1 })
        }),
{
    assert forall|b: u8| b < 32 implies ((#[trigger] (signal_writes(channel, user)[0].value >> b))
        & 1 == 1 <==> b == 2 * channel) by {
        the_new_msg_bit(channel, b);
    }
}

/// Carrying an action out touches the register that it names, and a write
/// carries the value that it names.
pub proof fn an_access_is_the_action_carried_out(offset: usize, value: u32, found: u32)
    ensures
        access_of(MboxAction::Read { offset }, found) == (RegAccess::Read {
            offset: offset as int,
            value: found,
        }),
        access_of(MboxAction::Write { offset, value }, found) == (RegAccess::Write {
            offset: offset as int,
            value,
        }),
{
}

/// Message `j` of `t`, whose access `k` finds `env(i + k)`: the FIFO of `channel` is
/// read, and then its count.
pub open spec fn message_at(
    channel: u8,
    t: Seq<RegAccess>,
    env: spec_fn(int) -> u32,
    i: int,
    j: int,
) -> bool {
    &&& reads(t[2 * j], 0x40 + 4 * channel, env(i + 2 * j))
    &&& reads(t[2 * j + 1], 0xc0 + 4 * channel, env(i + 2 * j + 1))
}

/// The count after message `j` says that there are more.
pub open spec fn more_after(env: spec_fn(int) -> u32, i: int, j: int) -> bool {
    env(i + 2 * j + 1) & 0xf != 0
}

/// `t` begins with `n` messages of `channel`, and only after the last of them may
/// the count be zero.
pub open spec fn drains(
    channel: u8,
    n: nat,
    t: Seq<RegAccess>,
    env: spec_fn(int) -> u32,
    i: int,
) -> bool {
    &&& t.len() >= 2 * n
    &&& forall|j: int| 0 <= j < n ==> #[trigger] message_at(channel, t, env, i, j)
    &&& forall|j: int| 0 <= j < n - 1 ==> #[trigger] more_after(env, i, j)
}

/// Draining reads messages and counts in turn. It stops at the first count of
/// zero, or when as many messages as allowed have been read.
proof fn lemma_drain(channel: u8, left: nat, env: spec_fn(int) -> u32, i: int) -> (n: nat)
    requires
        left >= 1,
    ensures
        1 <= n <= left,
        drain_trace(channel, left, env, i).len() == 2 * n,
        drains(channel, n, drain_trace(channel, left, env, i), env, i),
        n == left || !more_after(env, i, n - 1),
    decreases left,
{
    let d = drain_trace(channel, left, env, i);
    the_register_map(channel, 0);
    if env(i + 1) & 0xf == 0 || left == 1 {
        reveal_with_fuel(drain_trace, 2);
        assert(message_at(channel, d, env, i, 0));
        1
    } else {
        let rest = drain_trace(channel, (left - 1) as nat, env, i + 2);
        let m = lemma_drain(channel, (left - 1) as nat, env, i + 2);
        let n = m + 1;
        assert(d.len() == 2 + rest.len());
        assert forall|j: int| 0 <= j < n implies #[trigger] message_at(channel, d, env, i, j) by {
            if j > 0 {
                assert(message_at(channel, rest, env, i + 2, j - 1));
                assert(d[2 * j] == rest[2 * (j - 1)]);
                assert(d[2 * j + 1] == rest[2 * (j - 1) + 1]);
                assert(i + 2 + 2 * (j - 1) == i + 2 * j);
            }
        }
        assert forall|j: int| 0 <= j < n - 1 implies #[trigger] more_after(env, i, j) by {
            if j > 0 {
                assert(more_after(env, i + 2, j - 1));
                assert(i + 2 + 2 * (j - 1) + 1 == i + 2 * j + 1);
            }
        }
        assert(i + 2 + 2 * (m - 1) + 1 == i + 2 * (n - 1) + 1);
        n
    }
}

/// One round of acknowledging, out of those that are left. It looks at the raw
/// status and the enable register. If the channel's bit is not set in both, the
/// run is over. Else it reads messages until the count is zero, at least one and
/// at most 64; then it adds the channel's bit to what the clear register holds;
/// and then come the rounds that are left. `n` is the number of messages read.
pub proof fn one_round_of_acknowledging(
    user: u8,
    channel: u8,
    rounds: nat,
    env: spec_fn(int) -> u32,
    i: int,
) -> (n: nat)
    requires
        rounds >= 1,
    ensures
        ({
            let t = rounds_trace(user, channel, rounds, env, i);
            let end = 4 + 2 * n;
            &&& t.len() >= 2
            &&& reads(t[0], 0x100 + 16 * user, env(i))
            &&& reads(t[1], 0x108 + 16 * user, env(i + 1))
            &&& if env(i) & env(i + 1) & new_msg_mask(channel) == 0 {
                t.len() == 2
            } else {
                &&& 1 <= n <= 64
                &&& t.len() >= end
                &&& drains(channel, n, t.skip(2), env, i + 2)
                &&& n == 64 || env(i + 2 * n + 1) & 0xf == 0
                &&& reads(t[end - 2], 0x104 + 16 * user, env(i + end - 2))
                &&& t[end - 1] == (RegAccess::Write {
                    offset: 0x104 + 16 * user,
                    value: env(i + end - 2) | new_msg_mask(channel),
                })
                &&& t.skip(end as int) == rounds_trace(
                    user,
                    channel,
                    (rounds - 1) as nat,
                    env,
                    i + end,
                )
            }
        }),
{
    let t = rounds_trace(user, channel, rounds, env, i);
    the_register_map(channel, user);
    if env(i) & env(i + 1) & new_msg_mask(channel) == 0 {
        0
    } else {
        let d = drain_trace(channel, 64, env, i + 2);
        let n = lemma_drain(channel, 64, env, i + 2);
        let end = 4 + 2 * n;
        let rest = rounds_trace(user, channel, (rounds - 1) as nat, env, i + end);
        assert(i + 2 + d.len() == i + end - 2);
        assert(i + 2 + d.len() + 2 == i + end);
        let clr = 0x104 + 16 * user;
        assert(t =~= seq![
            RegAccess::Read { offset: 0x100 + 16 * user, value: env(i) },
            RegAccess::Read { offset: 0x108 + 16 * user, value: env(i + 1) },
        ] + d + seq![
            RegAccess::Read { offset: clr, value: env(i + end - 2) },
            RegAccess::Write {
                offset: clr,
                value: env(i + end - 2) | new_msg_mask(channel),
            },
        ] + rest);
        let s = t.skip(2);
        assert forall|j: int| 0 <= j < n implies #[trigger] message_at(
            channel,
            s,
            env,
            i + 2,
            j,
        ) by {
            assert(message_at(channel, d, env, i + 2, j));
            assert(s[2 * j] == d[2 * j]);
            assert(s[2 * j + 1] == d[2 * j + 1]);
        }
        assert(i + 2 + 2 * (n - 1) + 1 == i + 2 * n + 1);
        assert(t.skip(end as int) =~= rest);
        n
    }
}

/// A run of the acknowledge program is at most 32 rounds, and without rounds
/// nothing is done.
pub proof fn acknowledging_takes_thirty_two_rounds(
    user: u8,
    channel: u8,
    env: spec_fn(int) -> u32,
    i: int,
)
    ensures
        ack_trace(user, channel, env, i) == rounds_trace(user, channel, 32, env, i),
        rounds_trace(user, channel, 0, env, i).len() == 0,
{
}

/// A run of the reset program drops `n` messages, at most 32. Before each it
/// finds the channel's bit in the raw status; then it reads the FIFO and writes
/// the channel's bit to the clear register. It ends with a look at the raw status
/// that finds the bit gone, or with the limit.
pub proof fn resetting_drops_one_message_after_the_other(
    user: u8,
    channel: u8,
    env: spec_fn(int) -> u32,
    i: int,
) -> (n: nat)
    ensures
        n <= 32,
        drops(user, channel, n, reset_trace(user, channel, env, i), env, i),
        n == 32 || env(i + 3 * n) & new_msg_mask(channel) == 0,
{
    lemma_drops(user, channel, 32, env, i)
}

/// Look `j` of `t` at the raw status of `user`.
pub open spec fn look_at_status(
    user: u8,
    t: Seq<RegAccess>,
    env: spec_fn(int) -> u32,
    i: int,
    j: int,
) -> bool {
    reads(t[3 * j], 0x100 + 16 * user, env(i + 3 * j))
}

/// Drop `j` of `t`: look `j` found the bit of `channel`, the FIFO is read, and the
/// bit is written to the clear register.
pub open spec fn drop_at(
    user: u8,
    channel: u8,
    t: Seq<RegAccess>,
    env: spec_fn(int) -> u32,
    i: int,
    j: int,
) -> bool {
    &&& env(i + 3 * j) & new_msg_mask(channel) != 0
    &&& reads(t[3 * j + 1], 0x40 + 4 * channel, env(i + 3 * j + 1))
    &&& t[3 * j + 2] == (RegAccess::Write {
        offset: 0x104 + 16 * user,
        value: new_msg_mask(channel),
    })
}

/// `t` drops exactly `n` messages and then looks once more.
pub open spec fn drops(
    user: u8,
    channel: u8,
    n: nat,
    t: Seq<RegAccess>,
    env: spec_fn(int) -> u32,
    i: int,
) -> bool {
    &&& t.len() == 3 * n + 1
    &&& forall|j: int| 0 <= j <= n ==> #[trigger] look_at_status(user, t, env, i, j)
    &&& forall|j: int| 0 <= j < n ==> #[trigger] drop_at(user, channel, t, env, i, j)
}

proof fn lemma_drops(user: u8, channel: u8, left: nat, env: spec_fn(int) -> u32, i: int) -> (n: nat)
    ensures
        n <= left,
        drops(user, channel, n, drop_trace(user, channel, left, env, i), env, i),
        n == left || env(i + 3 * n) & new_msg_mask(channel) == 0,
    decreases left,
{
    let t = drop_trace(user, channel, left, env, i);
    the_register_map(channel, user);
    if env(i) & new_msg_mask(channel) == 0 || left == 0 {
        assert(look_at_status(user, t, env, i, 0));
        0
    } else {
        let rest = drop_trace(user, channel, (left - 1) as nat, env, i + 3);
        let m = lemma_drops(user, channel, (left - 1) as nat, env, i + 3);
        let n = m + 1;
        assert(t.len() == 3 + rest.len());
        assert forall|j: int| 0 <= j <= n implies #[trigger] look_at_status(
            user,
            t,
            env,
            i,
            j,
        ) by {
            if j > 0 {
                assert(look_at_status(user, rest, env, i + 3, j - 1));
                assert(t[3 * j] == rest[3 * (j - 1)]);
                assert(i + 3 + 3 * (j - 1) == i + 3 * j);
            }
        }
        assert forall|j: int| 0 <= j < n implies #[trigger] drop_at(
            user,
            channel,
            t,
            env,
            i,
            j,
        ) by {
            if j > 0 {
                assert(drop_at(user, channel, rest, env, i + 3, j - 1));
                assert(t[3 * j + 1] == rest[3 * (j - 1) + 1]);
                assert(t[3 * j + 2] == rest[3 * (j - 1) + 2]);
                assert(i + 3 + 3 * (j - 1) == i + 3 * j);
            }
        }
        assert(i + 3 + 3 * m == i + 3 * n);
        n
    }
}

} // verus!
