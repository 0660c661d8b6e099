//! A model of one mailbox channel as its documentation describes it, and what
//! the mailbox programs achieve on it.

use vstd::prelude::*;

use crate::ack::{ack_trace, drain_trace, rounds_trace, ACK_MAX_DRAIN, ACK_MAX_ROUNDS};
use crate::ack_laws::{ends_with_line_down, own_register};
use crate::mailbox::{
    irq_offset, msg_offset, msg_status_offset, new_msg_bit_in_both, new_msg_mask, signal_writes,
    RegAccess, RegWrite, K3_MBOX_CHANNELS, K3_MBOX_IRQ_CLR_OFF, K3_MBOX_IRQ_EN_SET_OFF,
    K3_MBOX_IRQ_STATUS_OFF, K3_MBOX_NUM_MSG_MASK,
};
use crate::reset::{drop_trace, reset_trace, RESET_MAX_DRAIN};

verus! {

/// One channel of the mailbox, as one user sees it.
pub struct ChannelHw {
    /// Messages in the FIFO.
    pub fifo: nat,
    /// The latched `new_msg` level.
    pub latched: bool,
    /// Whether a message has been read since the interrupt was last cleared.
    pub acked: bool,
    /// Whether `new_msg` may interrupt the user.
    pub enabled: bool,
}

impl ChannelHw {
    /// Messages in the FIFO hold the level up.
    pub open spec fn level_holds(self) -> bool {
        self.fifo > 0 ==> self.latched
    }

    /// `n` messages from the peer have come in.
    pub open spec fn arrive(self, n: nat) -> Self {
        ChannelHw { fifo: self.fifo + n, latched: self.latched || n > 0, ..self }
    }

    /// Whether `access`, if it is a read, can find the value it carries.
    pub open spec fn answers(self, user: u8, channel: u8, access: RegAccess) -> bool {
        let mask = new_msg_mask(channel);
        match access {
            RegAccess::Read { offset, value } => {
                &&& offset == irq_offset(user, K3_MBOX_IRQ_STATUS_OFF) ==> (value & mask != 0
                    <==> self.latched)
                &&& offset == irq_offset(user, K3_MBOX_IRQ_EN_SET_OFF) ==> (value & mask != 0
                    <==> self.enabled)
                &&& offset == msg_status_offset(channel) ==> (value & K3_MBOX_NUM_MSG_MASK == 0
                    <==> self.fifo == 0)
            },
            RegAccess::Write { .. } => true,
        }
    }

    /// The channel after `access`: reading the FIFO register takes a message
    /// out and acknowledges; clearing takes hold only after an acknowledgement
    /// and with an empty FIFO, else the hardware raises the level again.
    pub open spec fn after(self, user: u8, channel: u8, access: RegAccess) -> Self {
        match access {
            RegAccess::Read { offset, .. } => if offset == msg_offset(channel) {
                ChannelHw {
                    fifo: if self.fifo > 0 {
                        (self.fifo - 1) as nat
                    } else {
                        0
                    },
                    acked: true,
                    ..self
                }
            } else {
                self
            },
            RegAccess::Write { offset, value } => if offset == irq_offset(
                user,
                K3_MBOX_IRQ_CLR_OFF,
            ) && value & new_msg_mask(channel) != 0 {
                ChannelHw {
                    latched: self.latched && !(self.acked && self.fifo == 0),
                    acked: false,
                    ..self
                }
            } else {
                self
            },
        }
    }

    /// The channel after all of `t`, with `arr(i + k)` messages coming in just
    /// before access `k`.
    pub open spec fn run(
        self,
        user: u8,
        channel: u8,
        arr: spec_fn(int) -> nat,
        t: Seq<RegAccess>,
        i: int,
    ) -> Self
        decreases t.len(),
    {
        if t.len() == 0 {
            self
        } else {
            self.arrive(arr(i)).after(user, channel, t[0]).run(
                user,
                channel,
                arr,
                t.drop_first(),
                i + 1,
            )
        }
    }

    /// Whether the channel can give the answers that `t` found.
    pub open spec fn gives(
        self,
        user: u8,
        channel: u8,
        arr: spec_fn(int) -> nat,
        t: Seq<RegAccess>,
        i: int,
    ) -> bool
        decreases t.len(),
    {
        t.len() == 0 || {
            &&& self.arrive(arr(i)).answers(user, channel, t[0])
            &&& self.arrive(arr(i)).after(user, channel, t[0]).gives(
                user,
                channel,
                arr,
                t.drop_first(),
                i + 1,
            )
        }
    }
}

/// Number of messages that come in before `n` accesses from access `i` on.
pub open spec fn arrivals(arr: spec_fn(int) -> nat, i: int, n: nat) -> nat
    decreases n,
{
    if n == 0 {
        0
    } else {
        arr(i) + arrivals(arr, i + 1, (n - 1) as nat)
    }
}

proof fn lemma_arrivals_split(arr: spec_fn(int) -> nat, i: int, m: nat, n: nat)
    ensures
        arrivals(arr, i, m + n) == arrivals(arr, i, m) + arrivals(arr, i + m, n),
    decreases m,
{
    if m > 0 {
        lemma_arrivals_split(arr, i + 1, (m - 1) as nat, n);
        assert((m + n - 1) as nat == (m - 1) as nat + n);
    }
}

proof fn lemma_run_split(
    hw: ChannelHw,
    user: u8,
    channel: u8,
    arr: spec_fn(int) -> nat,
    a: Seq<RegAccess>,
    b: Seq<RegAccess>,
    i: int,
)
    ensures
        hw.run(user, channel, arr, a + b, i) == hw.run(user, channel, arr, a, i).run(
            user,
            channel,
            arr,
            b,
            i + a.len(),
        ),
        hw.gives(user, channel, arr, a + b, i) <==> (hw.gives(user, channel, arr, a, i) && hw.run(
            user,
            channel,
            arr,
            a,
            i,
        ).gives(user, channel, arr, b, i + a.len())),
    decreases a.len(),
{
    if a.len() == 0 {
        assert(a + b =~= b);
    } else {
        let next = hw.arrive(arr(i)).after(user, channel, a[0]);
        lemma_run_split(next, user, channel, arr, a.drop_first(), b, i + 1);
        assert((a + b).drop_first() =~= a.drop_first() + b);
    }
}

/// Draining ends with an empty FIFO, if the messages that are there and those
/// that come in meanwhile are fewer than the program may read.
proof fn lemma_drain_empties(
    hw: ChannelHw,
    user: u8,
    channel: u8,
    left: nat,
    env: spec_fn(int) -> u32,
    arr: spec_fn(int) -> nat,
    i: int,
)
    requires
        channel < K3_MBOX_CHANNELS,
        left >= 1,
        hw.latched,
        ({
            let d = drain_trace(channel, left, env, i);
            let total = hw.fifo + arrivals(arr, i, d.len());
            &&& hw.gives(user, channel, arr, d, i)
            &&& total < left || (hw.fifo > 0 && total <= left)
        }),
    ensures
        ({
            let d = drain_trace(channel, left, env, i);
            let end = hw.run(user, channel, arr, d, i);
            end.fifo == 0 && end.acked && end.latched && end.enabled == hw.enabled
        }),
    decreases left,
{
    let d = drain_trace(channel, left, env, i);
    reveal_with_fuel(drain_trace, 2);
    reveal_with_fuel(ChannelHw::run, 3);
    reveal_with_fuel(ChannelHw::gives, 3);
    reveal_with_fuel(arrivals, 3);
    let m = RegAccess::Read { offset: msg_offset(channel), value: env(i) };
    let c = RegAccess::Read { offset: msg_status_offset(channel), value: env(i + 1) };
    let h1 = hw.arrive(arr(i)).after(user, channel, m);
    let h2 = h1.arrive(arr(i + 1)).after(user, channel, c);
    assert(d[0] == m && d[1] == c);
    assert(h1.arrive(arr(i + 1)).answers(user, channel, c)) by {
        assert(d.drop_first()[0] == c);
    }
    let d2 = d.drop_first().drop_first();
    assert(hw.run(user, channel, arr, d, i) == h2.run(user, channel, arr, d2, i + 2));
    if env(i + 1) & K3_MBOX_NUM_MSG_MASK == 0 {
        assert(d2 =~= Seq::empty());
    } else {
        if left == 1 {
            lemma_arrivals_split(arr, i, 2, 0);
            assert(false);
        }
        let rest = drain_trace(channel, (left - 1) as nat, env, i + 2);
        assert(d2 =~= rest);
        lemma_arrivals_split(arr, i, 2, rest.len());
        lemma_drain_empties(h2, user, channel, (left - 1) as nat, env, arr, i + 2);
    }
}

proof fn lemma_rounds_end_down(
    hw: ChannelHw,
    user: u8,
    channel: u8,
    rounds: nat,
    env: spec_fn(int) -> u32,
    arr: spec_fn(int) -> nat,
    i: int,
)
    requires
        channel < K3_MBOX_CHANNELS,
        hw.level_holds(),
        ({
            let t = rounds_trace(user, channel, rounds, env, i);
            let coming = arrivals(arr, i, t.len());
            &&& hw.gives(user, channel, arr, t, i)
            &&& hw.fifo + coming < ACK_MAX_DRAIN
            &&& (if hw.latched {
                1nat
            } else {
                0nat
            }) + coming < rounds
        }),
    ensures
        ({
            let t = rounds_trace(user, channel, rounds, env, i);
            let end = hw.run(user, channel, arr, t, i);
            &&& ends_with_line_down(user, channel, t)
            &&& end.enabled == hw.enabled
            &&& hw.enabled && arrivals(arr, i, t.len()) == 0 ==> !end.latched && end.fifo == 0
        }),
    decreases rounds,
{
    let t = rounds_trace(user, channel, rounds, env, i);
    let status = RegAccess::Read {
        offset: irq_offset(user, K3_MBOX_IRQ_STATUS_OFF),
        value: env(i),
    };
    let enable = RegAccess::Read {
        offset: irq_offset(user, K3_MBOX_IRQ_EN_SET_OFF),
        value: env(i + 1),
    };
    let look = seq![status, enable];
    reveal_with_fuel(ChannelHw::run, 3);
    reveal_with_fuel(ChannelHw::gives, 3);
    reveal_with_fuel(arrivals, 3);
    new_msg_bit_in_both(channel, env(i), env(i + 1));
    let h1 = hw.arrive(arr(i));
    let h2 = h1.arrive(arr(i + 1));
    assert(h1.after(user, channel, status) == h1);
    assert(h2.after(user, channel, enable) == h2);
    assert(look.drop_first() =~= seq![enable]);
    assert(look.drop_first().drop_first() =~= Seq::empty());
    assert(hw.run(user, channel, arr, look, i) == h2);
    if env(i) & env(i + 1) & new_msg_mask(channel) == 0 {
        assert(t =~= look);
        lemma_arrivals_split(arr, i, 2, 0);
    } else {
        let d = drain_trace(channel, ACK_MAX_DRAIN as nat, env, i + 2);
        let j = i + 2 + d.len();
        let clr = irq_offset(user, K3_MBOX_IRQ_CLR_OFF);
        let held = RegAccess::Read { offset: clr, value: env(j) };
        let store = RegAccess::Write { offset: clr, value: env(j) | new_msg_mask(channel) };
        let clear = seq![held, store];
        let rest = rounds_trace(user, channel, (rounds - 1) as nat, env, j + 2);
        assert(t =~= look + (d + (clear + rest)));
        lemma_run_split(hw, user, channel, arr, look, d + (clear + rest), i);
        lemma_run_split(h2, user, channel, arr, d, clear + rest, i + 2);
        let h3 = h2.run(user, channel, arr, d, i + 2);
        lemma_run_split(h3, user, channel, arr, clear, rest, j);
        lemma_arrivals_split(arr, i, 2, d.len() + 2 + rest.len());
        lemma_arrivals_split(arr, i + 2, d.len(), 2 + rest.len());
        lemma_arrivals_split(arr, j, 2, rest.len());
        assert(h1.answers(user, channel, look[0]));
        assert(h1.latched);
        lemma_drain_empties(h2, user, channel, ACK_MAX_DRAIN as nat, env, arr, i + 2);
        let h4 = h3.arrive(arr(j));
        assert(h4.after(user, channel, held) == h4);
        let h5 = h4.arrive(arr(j + 1)).after(user, channel, store);
        assert((env(j) | new_msg_mask(channel)) & new_msg_mask(channel) != 0) by {
            let p: u8 = (channel * 2) as u8;
            let v = env(j);
            assert((v | (1u32 << p)) & (1u32 << p) != 0) by (bit_vector)
                requires
                    p < 32,
            ;
        }
        assert(clear.drop_first() =~= seq![store]);
        assert(clear.drop_first().drop_first() =~= Seq::empty());
        assert(h3.run(user, channel, arr, clear, j) == h5);
        lemma_rounds_end_down(h5, user, channel, (rounds - 1) as nat, env, arr, j + 2);
        assert(t[t.len() - 2] == rest[rest.len() - 2]);
        assert(t[t.len() - 1] == rest[rest.len() - 1]);
    }
}

/// The acknowledge program takes the line down, even if messages keep coming in
/// while it runs: as long as fewer than its rounds come in, and the FIFO could
/// have held them all, it ends because it saw the line down. The next doorbell
/// is then a rising edge.
pub proof fn ack_takes_the_line_down(
    hw: ChannelHw,
    user: u8,
    channel: u8,
    env: spec_fn(int) -> u32,
    arr: spec_fn(int) -> nat,
    i: int,
)
    requires
        channel < K3_MBOX_CHANNELS,
        hw.level_holds(),
        ({
            let t = ack_trace(user, channel, env, i);
            let coming = arrivals(arr, i, t.len());
            &&& hw.gives(user, channel, arr, t, i)
            &&& hw.fifo + coming < ACK_MAX_DRAIN
            &&& 1 + coming < ACK_MAX_ROUNDS
        }),
    ensures
        ends_with_line_down(user, channel, ack_trace(user, channel, env, i)),
{
    lemma_rounds_end_down(hw, user, channel, ACK_MAX_ROUNDS as nat, env, arr, i);
}

/// If no message comes in while the acknowledge program runs, it leaves an
/// empty FIFO and the line down.
pub proof fn ack_drains_a_quiet_channel(
    hw: ChannelHw,
    user: u8,
    channel: u8,
    env: spec_fn(int) -> u32,
    arr: spec_fn(int) -> nat,
    i: int,
)
    requires
        channel < K3_MBOX_CHANNELS,
        hw.level_holds(),
        hw.enabled,
        hw.fifo < ACK_MAX_DRAIN,
        ({
            let t = ack_trace(user, channel, env, i);
            &&& hw.gives(user, channel, arr, t, i)
            &&& arrivals(arr, i, t.len()) == 0
        }),
    ensures
        ({
            let end = hw.run(user, channel, arr, ack_trace(user, channel, env, i), i);
            !end.latched && end.fifo == 0
        }),
{
    lemma_rounds_end_down(hw, user, channel, ACK_MAX_ROUNDS as nat, env, arr, i);
}

proof fn lemma_drops_end_down(
    hw: ChannelHw,
    user: u8,
    channel: u8,
    left: nat,
    env: spec_fn(int) -> u32,
    arr: spec_fn(int) -> nat,
    i: int,
)
    requires
        channel < K3_MBOX_CHANNELS,
        hw.level_holds(),
        hw.fifo <= left,
        hw.latched ==> left >= 1,
        ({
            let t = drop_trace(user, channel, left, env, i);
            &&& hw.gives(user, channel, arr, t, i)
            &&& arrivals(arr, i, t.len()) == 0
        }),
    ensures
        ({
            let t = drop_trace(user, channel, left, env, i);
            let end = hw.run(user, channel, arr, t, i);
            !end.latched && end.fifo == 0 && end.enabled == hw.enabled
        }),
    decreases left,
{
    let t = drop_trace(user, channel, left, env, i);
    reveal_with_fuel(ChannelHw::run, 4);
    reveal_with_fuel(ChannelHw::gives, 4);
    reveal_with_fuel(arrivals, 4);
    let status = RegAccess::Read {
        offset: irq_offset(user, K3_MBOX_IRQ_STATUS_OFF),
        value: env(i),
    };
    assert(t[0] == status);
    assert(hw.arrive(0) == hw);
    assert(arr(i) == 0);
    if env(i) & new_msg_mask(channel) == 0 || left == 0 {
        assert(t =~= seq![status]);
        assert(t.drop_first() =~= Seq::empty());
    } else {
        let message = RegAccess::Read { offset: msg_offset(channel), value: env(i + 1) };
        let clear = RegAccess::Write {
            offset: irq_offset(user, K3_MBOX_IRQ_CLR_OFF),
            value: new_msg_mask(channel),
        };
        let head = seq![status, message, clear];
        let rest = drop_trace(user, channel, (left - 1) as nat, env, i + 3);
        assert(t =~= head + rest);
        lemma_run_split(hw, user, channel, arr, head, rest, i);
        lemma_arrivals_split(arr, i, 3, rest.len());
        let h1 = hw.after(user, channel, message);
        let h2 = h1.after(user, channel, clear);
        assert(new_msg_mask(channel) & new_msg_mask(channel) != 0) by {
            crate::mailbox::new_msg_masks_are_disjoint(channel, channel);
        }
        assert(head.drop_first() =~= seq![message, clear]);
        assert(head.drop_first().drop_first() =~= seq![clear]);
        assert(head.drop_first().drop_first().drop_first() =~= Seq::empty());
        assert(h1.arrive(0) == h1);
        assert(hw.run(user, channel, arr, head, i) == h2);
        assert(arrivals(arr, i, 3) == arr(i) + arr(i + 1) + arr(i + 2)) by {
            assert(i + 1 + 1 == i + 2);
        }
        lemma_drops_end_down(h2, user, channel, (left - 1) as nat, env, arr, i + 3);
    }
}

/// The reset program leaves an empty FIFO and the line down, if nothing comes
/// in meanwhile and the FIFO held no more messages than may be dropped: the
/// interrupt starts from a clean level.
pub proof fn reset_takes_the_line_down(
    hw: ChannelHw,
    user: u8,
    channel: u8,
    env: spec_fn(int) -> u32,
    arr: spec_fn(int) -> nat,
    i: int,
)
    requires
        channel < K3_MBOX_CHANNELS,
        hw.level_holds(),
        hw.fifo <= RESET_MAX_DRAIN,
        ({
            let t = reset_trace(user, channel, env, i);
            &&& hw.gives(user, channel, arr, t, i)
            &&& arrivals(arr, i, t.len()) == 0
        }),
    ensures
        ({
            let end = hw.run(user, channel, arr, reset_trace(user, channel, env, i), i);
            !end.latched && end.fifo == 0
        }),
{
    lemma_drops_end_down(hw, user, channel, RESET_MAX_DRAIN as nat, env, arr, i);
}

/// A run of the reset program ends after a bounded number of accesses, whatever
/// the hardware answers.
pub proof fn reset_is_bounded(user: u8, channel: u8, env: spec_fn(int) -> u32, i: int)
    ensures
        reset_trace(user, channel, env, i).len() <= 3 * RESET_MAX_DRAIN + 1,
{
    lemma_drops_bounded(user, channel, RESET_MAX_DRAIN as nat, env, i);
}

proof fn lemma_drops_bounded(
    user: u8,
    channel: u8,
    left: nat,
    env: spec_fn(int) -> u32,
    i: int,
)
    ensures
        drop_trace(user, channel, left, env, i).len() <= 3 * left + 1,
    decreases left,
{
    if left > 0 {
        lemma_drops_bounded(user, channel, (left - 1) as nat, env, i + 3);
    }
}

/// Ringing the peer on one channel writes no register of another channel that
/// this side listens on; ringing on the very channel that this side listens on
/// puts a message into its own FIFO. So the two directions need two channels.
pub proof fn doorbell_spares_other_channels(tx: u8, rx: u8, local: u8, remote: u8)
    requires
        tx < K3_MBOX_CHANNELS,
        rx < K3_MBOX_CHANNELS,
        local != remote,
    ensures
        tx != rx ==> forall|k: int| 0 <= k < 2 ==> !own_register(
            local,
            rx,
            (#[trigger] signal_writes(tx, remote)[k]).offset as int,
        ),
        tx == rx ==> signal_writes(tx, remote)[1] == (RegWrite {
            offset: msg_offset(rx) as usize,
            value: 1,
        }),
{
}

} // verus!
