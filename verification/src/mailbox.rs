//! Registers of the K3 hardware mailbox and the driver's view of one user of it.

use vstd::prelude::*;

use crate::ack::AckAndClear;
use crate::reset::ResetRx;

verus! {

/// Offset of the first message FIFO register; one word per channel.
pub const K3_MBOX_MSG_BASE: usize = 0x040;

/// Offset of the first message count register; one word per channel.
pub const K3_MBOX_MSG_STATUS_BASE: usize = 0x0c0;

/// Offset of the first user's interrupt register block.
pub const K3_MBOX_IRQ_BASE: usize = 0x100;

/// Distance between the interrupt register blocks of two users.
pub const K3_MBOX_IRQ_STRIDE: usize = 0x10;

/// Raw interrupt status, within a user's block.
pub const K3_MBOX_IRQ_STATUS_OFF: usize = 0x00;

/// Interrupt clear, within a user's block.
pub const K3_MBOX_IRQ_CLR_OFF: usize = 0x04;

/// Interrupt enable (set), within a user's block.
pub const K3_MBOX_IRQ_EN_SET_OFF: usize = 0x08;

/// Bits of a message count register that hold the number of messages.
pub const K3_MBOX_NUM_MSG_MASK: u32 = 0xf;

/// Number of channels whose status bits fit the 32-bit interrupt registers.
pub const K3_MBOX_CHANNELS: u8 = 16;

/// What a mailbox program wants done next.
#[derive(Debug, Clone, Copy, PartialEq, Eq, Structural)]
pub enum MboxAction {
    /// Read the 32-bit register at `offset` and hand the value back.
    Read { offset: usize },
    /// Write `value` to the 32-bit register at `offset`.
    Write { offset: usize, value: u32 },
    /// Nothing: the program has ended.
    Done,
}

/// A 32-bit register write.
#[derive(Debug, Clone, Copy, PartialEq, Eq, Structural)]
pub struct RegWrite {
    /// Offset of the register from the mailbox base.
    pub offset: usize,
    /// Value to write.
    pub value: u32,
}

/// One access to the mailbox, with the value that went over the bus.
#[verifier::ext_equal]
pub enum RegAccess {
    /// The register at `offset` was read and held `value`.
    Read { offset: int, value: u32 },
    /// `value` was written to the register at `offset`.
    Write { offset: int, value: u32 },
}

/// The access that carrying out `action` amounts to, if a read finds `value`.
pub open spec fn access_of(action: MboxAction, value: u32) -> RegAccess {
    match action {
        MboxAction::Read { offset } => RegAccess::Read { offset: offset as int, value },
        MboxAction::Write { offset, value: v } => RegAccess::Write {
            offset: offset as int,
            value: v,
        },
        MboxAction::Done => arbitrary(),
    }
}

/// Offset of the message FIFO register of `channel`.
pub open spec fn msg_offset(channel: u8) -> int {
    K3_MBOX_MSG_BASE + channel * 4
}

/// Offset of the message count register of `channel`.
pub open spec fn msg_status_offset(channel: u8) -> int {
    K3_MBOX_MSG_STATUS_BASE + channel * 4
}

/// Offset of the register `reg_off` in the interrupt block of `user`.
pub open spec fn irq_offset(user: u8, reg_off: usize) -> int {
    K3_MBOX_IRQ_BASE + user * K3_MBOX_IRQ_STRIDE + reg_off
}

/// The `new_msg` bit of `channel`: each channel has two status bits, and
/// `new_msg` is the even one.
pub open spec fn new_msg_mask(channel: u8) -> u32 {
    1u32 << ((channel * 2) as u8)
}

/// The `new_msg` interrupt mask of channel `ch`.
pub fn k3_new_msg_mask(ch: u8) -> (mask: u32)
    requires
        ch < K3_MBOX_CHANNELS,
    ensures
        mask == new_msg_mask(ch),
{
    1u32 << (ch * 2)
}

/// Offset of the interrupt register `reg_off` of `user`.
pub fn k3_irq_reg(user: u8, reg_off: usize) -> (offset: usize)
    requires
        irq_offset(user, reg_off) <= usize::MAX,
    ensures
        offset == irq_offset(user, reg_off),
{
    K3_MBOX_IRQ_BASE + (user as usize) * K3_MBOX_IRQ_STRIDE + reg_off
}

/// The mailbox as one of its users drives it.
#[derive(Debug, Clone, Copy, PartialEq, Eq, Structural)]
pub struct K3MboxMmio {
    /// The user that this side is.
    pub user_local: u8,
}

impl K3MboxMmio {
    /// A mailbox driven as `user_local`.
    pub fn new(user_local: u8) -> (mbox: Self)
        ensures
            mbox.user_local == user_local,
    {
        Self { user_local }
    }

    /// The writes that ring `user_remote`'s doorbell on `channel`: enable its
    /// `new_msg` interrupt, then put a message into the FIFO.
    pub fn signal_to_remote(&self, channel: u8, user_remote: u8) -> (writes: [RegWrite; 2])
        requires
            channel < K3_MBOX_CHANNELS,
        ensures
            writes@ == signal_writes(channel, user_remote),
    {
        let mask: u32 = k3_new_msg_mask(channel);
        let enable = RegWrite {
            offset: k3_irq_reg(user_remote, K3_MBOX_IRQ_EN_SET_OFF),
            value: mask,
        };
        let message = RegWrite { offset: K3_MBOX_MSG_BASE + (channel as usize) * 4, value: 1 };
        let writes = [enable, message];
        assert(writes@ =~= signal_writes(channel, user_remote));
        writes
    }

    /// The program that acknowledges every message of `channel` and takes the
    /// interrupt line down again.
    pub fn ack_and_clear(&self, channel: u8) -> (program: AckAndClear)
        requires
            channel < K3_MBOX_CHANNELS,
        ensures
            program.wf(),
            program.user() == self.user_local,
            program.channel() == channel,
            forall|env: spec_fn(int) -> u32, i: int| #[trigger]
                program.remaining(env, i) == crate::ack::ack_trace(
                    self.user_local,
                    channel,
                    env,
                    i,
                ),
    {
        AckAndClear::start(self.user_local, channel)
    }

    /// The write that lets messages on `channel` interrupt this side.
    pub fn enable_rx(&self, channel: u8) -> (write: RegWrite)
        requires
            channel < K3_MBOX_CHANNELS,
        ensures
            write.offset == irq_offset(self.user_local, K3_MBOX_IRQ_EN_SET_OFF),
            write.value == new_msg_mask(channel),
    {
        RegWrite {
            offset: k3_irq_reg(self.user_local, K3_MBOX_IRQ_EN_SET_OFF),
            value: k3_new_msg_mask(channel),
        }
    }

    /// The writes that stand in for a message from the peer: they raise this
    /// side's own `new_msg` interrupt on `channel`.
    pub fn inject_local_message(&self, channel: u8) -> (writes: [RegWrite; 2])
        requires
            channel < K3_MBOX_CHANNELS,
        ensures
            writes@ == signal_writes(channel, self.user_local),
    {
        self.signal_to_remote(channel, self.user_local)
    }

    /// Offsets of this side's raw interrupt status and interrupt enable
    /// registers, in the order in which a diagnostic reads them.
    pub fn debug_irq_raw(&self) -> (offsets: (usize, usize))
        ensures
            offsets.0 == irq_offset(self.user_local, K3_MBOX_IRQ_STATUS_OFF),
            offsets.1 == irq_offset(self.user_local, K3_MBOX_IRQ_EN_SET_OFF),
    {
        (
            k3_irq_reg(self.user_local, K3_MBOX_IRQ_STATUS_OFF),
            k3_irq_reg(self.user_local, K3_MBOX_IRQ_EN_SET_OFF),
        )
    }

    /// The program that drops messages left over on `channel` before the
    /// interrupt is enabled.
    pub fn reset_rx(&self, channel: u8) -> (program: ResetRx)
        requires
            channel < K3_MBOX_CHANNELS,
        ensures
            program.wf(),
            program.user() == self.user_local,
            program.channel() == channel,
            program.drained() == 0,
            forall|env: spec_fn(int) -> u32, i: int| #[trigger]
                program.remaining(env, i) == crate::reset::reset_trace(
                    self.user_local,
                    channel,
                    env,
                    i,
                ),
    {
        ResetRx::start(self.user_local, channel)
    }
}

/// The writes that raise `user`'s `new_msg` interrupt on `channel`.
pub open spec fn signal_writes(channel: u8, user: u8) -> Seq<RegWrite> {
    seq![
        RegWrite {
            offset: irq_offset(user, K3_MBOX_IRQ_EN_SET_OFF) as usize,
            value: new_msg_mask(channel),
        },
        RegWrite { offset: msg_offset(channel) as usize, value: 1 },
    ]
}

/// The `new_msg` bits of two different channels never overlap.
pub proof fn new_msg_masks_are_disjoint(a: u8, b: u8)
    requires
        a < K3_MBOX_CHANNELS,
        b < K3_MBOX_CHANNELS,
    ensures
        new_msg_mask(a) != 0,
        (new_msg_mask(a) & new_msg_mask(b) == 0) <==> a != b,
{
    let p: u8 = (a * 2) as u8;
    let q: u8 = (b * 2) as u8;
    assert(1u32 << p != 0) by (bit_vector)
        requires
            p < 32,
    ;
    assert(((1u32 << p) & (1u32 << q) == 0) <==> p != q) by (bit_vector)
        requires
            p < 32,
            q < 32,
    ;
}

/// A set of bits meets the `new_msg` bit of a channel in two registers at once
/// exactly when it is set in both.
pub proof fn new_msg_bit_in_both(channel: u8, s: u32, e: u32)
    requires
        channel < K3_MBOX_CHANNELS,
    ensures
        (s & e & new_msg_mask(channel) == 0) <==> (s & new_msg_mask(channel) == 0 || e
            & new_msg_mask(channel) == 0),
{
    let p: u8 = (channel * 2) as u8;
    assert((s & e & (1u32 << p) == 0) <==> (s & (1u32 << p) == 0 || e & (1u32 << p) == 0))
        by (bit_vector)
        requires
            p < 32,
    ;
}

/// The FIFO registers, the message counts and the interrupt blocks lie in
/// separate parts of the register file, and no two of them share a word.
pub proof fn register_blocks_are_disjoint(c1: u8, c2: u8, user: u8, reg_off: usize)
    requires
        c1 < K3_MBOX_CHANNELS,
        c2 < K3_MBOX_CHANNELS,
    ensures
        msg_offset(c1) + 4 <= msg_status_offset(c2),
        msg_status_offset(c1) + 4 <= irq_offset(user, reg_off),
        c1 != c2 ==> msg_offset(c1) != msg_offset(c2) && msg_status_offset(c1)
            != msg_status_offset(c2),
{
}

/// The interrupt blocks of two users share no register.
pub proof fn irq_blocks_are_disjoint(u1: u8, u2: u8, r1: usize, r2: usize)
    requires
        r1 < K3_MBOX_IRQ_STRIDE,
        r2 < K3_MBOX_IRQ_STRIDE,
    ensures
        irq_offset(u1, r1) == irq_offset(u2, r2) <==> (u1 == u2 && r1 == r2),
{
}

} // verus!
