//! What holds of every run of the acknowledge program, whatever the hardware
//! answers.

use vstd::prelude::*;

use crate::ack::{ack_trace, drain_trace, rounds_trace, ACK_MAX_DRAIN, ACK_MAX_ROUNDS};
use crate::mailbox::{
    irq_offset, msg_offset, msg_status_offset, new_msg_mask, RegAccess, K3_MBOX_CHANNELS,
    K3_MBOX_IRQ_CLR_OFF, K3_MBOX_IRQ_EN_SET_OFF, K3_MBOX_IRQ_STATUS_OFF, K3_MBOX_NUM_MSG_MASK,
};

verus! {

/// Whether `offset` is one of the registers that belong to `channel` as `user`
/// sees it.
pub open spec fn own_register(user: u8, channel: u8, offset: int) -> bool {
    ||| offset == irq_offset(user, K3_MBOX_IRQ_STATUS_OFF)
    ||| offset == irq_offset(user, K3_MBOX_IRQ_CLR_OFF)
    ||| offset == irq_offset(user, K3_MBOX_IRQ_EN_SET_OFF)
    ||| offset == msg_offset(channel)
    ||| offset == msg_status_offset(channel)
}

/// Access `k` of `t` is in order: a read touches an own register, and a write
/// adds this channel's bit to what the clear register held just before, right
/// after a message was read and the count looked at.
pub open spec fn access_in_order(user: u8, channel: u8, t: Seq<RegAccess>, k: int) -> bool {
    match t[k] {
        RegAccess::Read { offset, .. } => own_register(user, channel, offset),
        RegAccess::Write { offset, value } => {
            &&& k >= 3
            &&& offset == irq_offset(user, K3_MBOX_IRQ_CLR_OFF)
            &&& t[k - 1] matches RegAccess::Read { offset: before, value: held }
            &&& before == offset
            &&& value == held | new_msg_mask(channel)
            &&& t[k - 2] matches RegAccess::Read { offset: count, .. }
            &&& count == msg_status_offset(channel)
            &&& t[k - 3] matches RegAccess::Read { offset: message, .. }
            &&& message == msg_offset(channel)
        },
    }
}

/// Number of writes in `t`. The program only ever writes to clear.
pub open spec fn clears(t: Seq<RegAccess>) -> nat
    decreases t.len(),
{
    if t.len() == 0 {
        0
    } else {
        clears(t.drop_last()) + (if t.last() is Write {
            1nat
        } else {
            0nat
        })
    }
}

/// Number of messages of `channel` that `t` reads.
pub open spec fn message_reads(channel: u8, t: Seq<RegAccess>) -> nat
    decreases t.len(),
{
    if t.len() == 0 {
        0
    } else {
        message_reads(channel, t.drop_last()) + (if reads_message(channel, t.last()) {
            1nat
        } else {
            0nat
        })
    }
}

/// Whether `access` reads a message of `channel`.
pub open spec fn reads_message(channel: u8, access: RegAccess) -> bool {
    access matches RegAccess::Read { offset, .. } && offset == msg_offset(channel)
}

/// The last two accesses of `t` look at the raw status and the enable register
/// and find the line of `channel` down.
pub open spec fn ends_with_line_down(user: u8, channel: u8, t: Seq<RegAccess>) -> bool {
    &&& t.len() >= 2
    &&& t[t.len() - 2] matches RegAccess::Read { offset: s_off, value: status }
    &&& s_off == irq_offset(user, K3_MBOX_IRQ_STATUS_OFF)
    &&& t[t.len() - 1] matches RegAccess::Read { offset: e_off, value: enable }
    &&& e_off == irq_offset(user, K3_MBOX_IRQ_EN_SET_OFF)
    &&& status & enable & new_msg_mask(channel) == 0
}

proof fn lemma_clears_add(a: Seq<RegAccess>, b: Seq<RegAccess>)
    ensures
        clears(a + b) == clears(a) + clears(b),
    decreases b.len(),
{
    if b.len() == 0 {
        assert(a + b =~= a);
    } else {
        lemma_clears_add(a, b.drop_last());
        assert((a + b).drop_last() =~= a + b.drop_last());
    }
}

proof fn lemma_reads_add(channel: u8, a: Seq<RegAccess>, b: Seq<RegAccess>)
    ensures
        message_reads(channel, a + b) == message_reads(channel, a) + message_reads(channel, b),
    decreases b.len(),
{
    if b.len() == 0 {
        assert(a + b =~= a);
    } else {
        lemma_reads_add(channel, a, b.drop_last());
        assert((a + b).drop_last() =~= a + b.drop_last());
    }
}

proof fn lemma_drain_shape(channel: u8, left: nat, env: spec_fn(int) -> u32, i: int)
    requires
        left >= 1,
    ensures
        ({
            let d = drain_trace(channel, left, env, i);
            &&& 2 <= d.len() <= 2 * left
            &&& clears(d) == 0
            &&& message_reads(channel, d) <= left
            &&& forall|k: int| 0 <= k < d.len() ==> (#[trigger] d[k] matches RegAccess::Read {
                offset,
                ..
            } && (offset == msg_offset(channel) || offset == msg_status_offset(channel)))
            &&& d[d.len() - 2] matches RegAccess::Read { offset, .. }
            &&& offset == msg_offset(channel)
            &&& d[d.len() - 1] matches RegAccess::Read { offset, .. }
            &&& offset == msg_status_offset(channel)
        }),
    decreases left,
{
    let pair = seq![
        RegAccess::Read { offset: msg_offset(channel), value: env(i) },
        RegAccess::Read { offset: msg_status_offset(channel), value: env(i + 1) },
    ];
    reveal_with_fuel(clears, 3);
    reveal_with_fuel(message_reads, 3);
    assert(clears(pair) == 0);
    assert(message_reads(channel, pair) == 1) by {
        assert(pair.drop_last().drop_last() =~= Seq::empty());
    }
    reveal_with_fuel(drain_trace, 2);
    if env(i + 1) & K3_MBOX_NUM_MSG_MASK != 0 && left >= 2 {
        lemma_drain_shape(channel, (left - 1) as nat, env, i + 2);
        lemma_clears_add(pair, drain_trace(channel, (left - 1) as nat, env, i + 2));
        lemma_reads_add(channel, pair, drain_trace(channel, (left - 1) as nat, env, i + 2));
    } else {
        assert(drain_trace(channel, left, env, i) =~= pair);
    }
}

proof fn lemma_rounds_shape(
    user: u8,
    channel: u8,
    rounds: nat,
    env: spec_fn(int) -> u32,
    i: int,
)
    ensures
        ({
            let t = rounds_trace(user, channel, rounds, env, i);
            &&& t.len() <= rounds * (2 * ACK_MAX_DRAIN + 4)
            &&& clears(t) <= rounds
            &&& channel < K3_MBOX_CHANNELS ==> message_reads(channel, t) <= rounds * ACK_MAX_DRAIN
            &&& forall|k: int| 0 <= k < t.len() ==> #[trigger] access_in_order(user, channel, t, k)
            &&& ends_with_line_down(user, channel, t) || clears(t) == rounds
        }),
    decreases rounds,
{
    let t = rounds_trace(user, channel, rounds, env, i);
    reveal_with_fuel(clears, 3);
    reveal_with_fuel(message_reads, 3);
    if rounds > 0 {
        let look = seq![
            RegAccess::Read { offset: irq_offset(user, K3_MBOX_IRQ_STATUS_OFF), value: env(i) },
            RegAccess::Read {
                offset: irq_offset(user, K3_MBOX_IRQ_EN_SET_OFF),
                value: env(i + 1),
            },
        ];
        assert(clears(look) == 0);
        assert(channel < K3_MBOX_CHANNELS ==> message_reads(channel, look) == 0) by {
            assert(look.drop_last().drop_last() =~= Seq::empty());
        }
        if env(i) & env(i + 1) & new_msg_mask(channel) == 0 {
            assert(t =~= look);
            assert(0 <= rounds * ACK_MAX_DRAIN) by (nonlinear_arith);
        } else {
            let d = drain_trace(channel, ACK_MAX_DRAIN as nat, env, i + 2);
            lemma_drain_shape(channel, ACK_MAX_DRAIN as nat, env, i + 2);
            let j = i + 2 + d.len();
            let clr = irq_offset(user, K3_MBOX_IRQ_CLR_OFF);
            let clear = seq![
                RegAccess::Read { offset: clr, value: env(j) },
                RegAccess::Write { offset: clr, value: env(j) | new_msg_mask(channel) },
            ];
            assert(clears(clear) == 1) by {
                assert(clear.drop_last().drop_last() =~= Seq::empty());
            }
            let rest = rounds_trace(user, channel, (rounds - 1) as nat, env, j + 2);
            lemma_rounds_shape(user, channel, (rounds - 1) as nat, env, j + 2);
            assert(t =~= look + d + clear + rest);
            lemma_clears_add(look, d);
            lemma_clears_add(look + d, clear);
            lemma_clears_add(look + d + clear, rest);
            assert(channel < K3_MBOX_CHANNELS ==> message_reads(channel, clear) == 0) by {
                assert(clear.drop_last().drop_last() =~= Seq::empty());
            }
            lemma_reads_add(channel, look, d);
            lemma_reads_add(channel, look + d, clear);
            lemma_reads_add(channel, look + d + clear, rest);
            assert(ACK_MAX_DRAIN + (rounds - 1) * ACK_MAX_DRAIN == rounds * ACK_MAX_DRAIN)
                by (nonlinear_arith);
            let head = look + d + clear;
            assert forall|k: int| 0 <= k < t.len() implies #[trigger] access_in_order(
                user,
                channel,
                t,
                k,
            ) by {
                if k < head.len() {
                    assert(t[k] == head[k]);
                    if 2 <= k < 2 + d.len() {
                        assert(t[k] == d[k - 2]);
                    }
                    if k == head.len() - 1 {
                        assert(t[k - 2] == d[d.len() - 1]);
                        assert(t[k - 3] == d[d.len() - 2]);
                    }
                } else {
                    let m = k - head.len();
                    assert(access_in_order(user, channel, rest, m));
                    assert(t[k] == rest[m]);
                    if rest[m] is Write {
                        assert(t[k - 1] == rest[m - 1]);
                        assert(t[k - 2] == rest[m - 2]);
                        assert(t[k - 3] == rest[m - 3]);
                    }
                }
            }
            if ends_with_line_down(user, channel, rest) {
                assert(t[t.len() - 2] == rest[rest.len() - 2]);
                assert(t[t.len() - 1] == rest[rest.len() - 1]);
            }
            assert(t.len() <= rounds * (2 * ACK_MAX_DRAIN + 4)) by (nonlinear_arith)
                requires
                    t.len() <= 2 + 2 * ACK_MAX_DRAIN + 2 + (rounds - 1) * (2 * ACK_MAX_DRAIN + 4),
            ;
        }
    }
}

/// A run of the acknowledge program ends after a bounded number of accesses,
/// of clears and of messages read, whatever the hardware answers: it cannot hold
/// up interrupt context.
pub proof fn ack_is_bounded(user: u8, channel: u8, env: spec_fn(int) -> u32, i: int)
    ensures
        ack_trace(user, channel, env, i).len() <= ACK_MAX_ROUNDS * (2 * ACK_MAX_DRAIN + 4),
        clears(ack_trace(user, channel, env, i)) <= ACK_MAX_ROUNDS,
        channel < K3_MBOX_CHANNELS ==> message_reads(channel, ack_trace(user, channel, env, i))
            <= ACK_MAX_ROUNDS * ACK_MAX_DRAIN,
{
    lemma_rounds_shape(user, channel, ACK_MAX_ROUNDS as nat, env, i);
}

/// A run of the acknowledge program ends only after it has seen the line down,
/// unless it has used up all of its rounds.
pub proof fn ack_ends_with_line_down(user: u8, channel: u8, env: spec_fn(int) -> u32, i: int)
    ensures
        ({
            let t = ack_trace(user, channel, env, i);
            ends_with_line_down(user, channel, t) || clears(t) == ACK_MAX_ROUNDS
        }),
{
    lemma_rounds_shape(user, channel, ACK_MAX_ROUNDS as nat, env, i);
}

/// Every access of the acknowledge program is in order: it touches no register
/// of another user or channel, it clears only after a message of the same round
/// has been read, and clearing keeps the bits of the other channels.
pub proof fn ack_clears_in_order(
    user: u8,
    channel: u8,
    env: spec_fn(int) -> u32,
    i: int,
    k: int,
)
    requires
        0 <= k < ack_trace(user, channel, env, i).len(),
    ensures
        access_in_order(user, channel, ack_trace(user, channel, env, i), k),
{
    lemma_rounds_shape(user, channel, ACK_MAX_ROUNDS as nat, env, i);
}

} // verus!
