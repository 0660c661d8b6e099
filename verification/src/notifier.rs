//! The doorbells of the two platforms, and the interrupt endpoint of the mailbox.
//!
//! A sender does not touch registers. It posts what is to be done, in order,
//! and the caller takes the posted actions and carries them out.

use vstd::prelude::*;

use crate::ack::{ack_trace, AckAndClear};
use crate::driver::{Event, IpiIrqEndpoint, IpiSender};
use crate::mailbox::{signal_writes, K3MboxMmio, RegWrite, K3_MBOX_CHANNELS};

verus! {

/// Size of the page that a register block is mapped in.
pub const REGISTER_PAGE: usize = 0x1000;

/// One action of ringing a doorbell.
#[derive(Debug, Clone, Copy, PartialEq, Eq, Structural)]
pub enum DoorbellAction {
    /// Order every earlier access, to memory and to devices, before every later
    /// one: the peer sees what was written before it hears the doorbell.
    Fence,
    /// Write a register.
    Write(RegWrite),
}

/// The page that the register at `phys` lies in, and its offset there.
pub fn register_page(phys: usize) -> (page: (usize, usize))
    ensures
        page.0 % REGISTER_PAGE == 0,
        page.1 < REGISTER_PAGE,
        page.0 + page.1 == phys,
{
    let base: usize = phys & !0xFFFusize;
    proof {
        assert(base <= phys && phys - base < 0x1000 && base % 0x1000 == 0) by (bit_vector)
            requires
                base == phys & !0xFFFusize,
        ;
    }
    (base, phys - base)
}

/// Rings through the software interrupt register of the CLINT.
pub struct ClintIpiSender {
    offset: usize,
    posted: Vec<DoorbellAction>,
}

impl ClintIpiSender {
    /// Offset of the software interrupt register in its page.
    pub closed spec fn offset(&self) -> usize {
        self.offset
    }

    /// Actions that nobody has taken yet.
    pub closed spec fn posted(&self) -> Seq<DoorbellAction> {
        self.posted@
    }

    /// A sender for the software interrupt register at `msip_phys`.
    pub fn new(msip_phys: usize) -> (sender: Self)
        ensures
            sender.offset() == msip_phys % REGISTER_PAGE,
            sender.posted() == Seq::<DoorbellAction>::empty(),
    {
        let page = register_page(msip_phys);
        Self { offset: page.1, posted: Vec::new() }
    }

    /// Takes the posted actions, for the caller to carry out in order.
    pub fn take_posted(&mut self) -> (actions: Vec<DoorbellAction>)
        ensures
            actions@ == old(self).posted(),
            final(self).posted() == Seq::<DoorbellAction>::empty(),
            final(self).offset() == old(self).offset(),
    {
        let mut actions: Vec<DoorbellAction> = Vec::new();
        actions.append(&mut self.posted);
        assert(actions@ =~= old(self).posted());
        actions
    }
}

/// What ringing the CLINT comes to.
pub open spec fn clint_doorbell(offset: usize) -> Seq<DoorbellAction> {
    seq![DoorbellAction::Fence, DoorbellAction::Write(RegWrite { offset, value: 1 })]
}

impl IpiSender for ClintIpiSender {
    open spec fn rings(before: Self, after: Self) -> bool {
        &&& after.offset() == before.offset()
        &&& after.posted() == before.posted() + clint_doorbell(before.offset())
    }

    fn notify_peer(&mut self) {
        self.posted.push(DoorbellAction::Fence);
        self.posted.push(DoorbellAction::Write(RegWrite { offset: self.offset, value: 1 }));
        assert(self.posted() =~= old(self).posted() + clint_doorbell(old(self).offset()));
        assert(Self::rings(*old(self), *self));
    }
}

/// Rings through a channel of the hardware mailbox.
pub struct K3MailboxIpiSender {
    writes: [RegWrite; 2],
    posted: Vec<DoorbellAction>,
}

impl K3MailboxIpiSender {
    /// Register writes of one ring.
    pub closed spec fn writes(&self) -> Seq<RegWrite> {
        self.writes@
    }

    /// Actions that nobody has taken yet.
    pub closed spec fn posted(&self) -> Seq<DoorbellAction> {
        self.posted@
    }

    /// A sender that rings `user_remote` on `tx_channel`.
    pub fn new(mbox: K3MboxMmio, tx_channel: u8, user_remote: u8) -> (sender: Self)
        requires
            tx_channel < K3_MBOX_CHANNELS,
        ensures
            sender.writes() == signal_writes(tx_channel, user_remote),
            sender.posted() == Seq::<DoorbellAction>::empty(),
    {
        let writes = mbox.signal_to_remote(tx_channel, user_remote);
        Self { writes, posted: Vec::new() }
    }

    /// Takes the posted actions, for the caller to carry out in order.
    pub fn take_posted(&mut self) -> (actions: Vec<DoorbellAction>)
        ensures
            actions@ == old(self).posted(),
            final(self).posted() == Seq::<DoorbellAction>::empty(),
            final(self).writes() == old(self).writes(),
    {
        let mut actions: Vec<DoorbellAction> = Vec::new();
        actions.append(&mut self.posted);
        assert(actions@ =~= old(self).posted());
        actions
    }
}

/// What ringing the mailbox comes to.
pub open spec fn mailbox_doorbell(writes: Seq<RegWrite>) -> Seq<DoorbellAction> {
    seq![
        DoorbellAction::Fence,
        DoorbellAction::Write(writes[0]),
        DoorbellAction::Write(writes[1]),
    ]
}

impl IpiSender for K3MailboxIpiSender {
    open spec fn rings(before: Self, after: Self) -> bool {
        &&& after.writes() == before.writes()
        &&& after.posted() == before.posted() + mailbox_doorbell(before.writes())
    }

    fn notify_peer(&mut self) {
        self.posted.push(DoorbellAction::Fence);
        self.posted.push(DoorbellAction::Write(self.writes[0]));
        self.posted.push(DoorbellAction::Write(self.writes[1]));
        assert(self.posted() =~= old(self).posted() + mailbox_doorbell(old(self).writes()));
        assert(Self::rings(*old(self), *self));
    }
}

/// The doorbell that the platform has.
pub enum IpiBackend {
    /// CLINT software interrupt.
    Clint(ClintIpiSender),
    /// Hardware mailbox.
    K3Mbox(K3MailboxIpiSender),
}

impl IpiBackend {
    /// Actions that nobody has taken yet.
    pub open spec fn posted(&self) -> Seq<DoorbellAction> {
        match self {
            IpiBackend::Clint(sender) => sender.posted(),
            IpiBackend::K3Mbox(sender) => sender.posted(),
        }
    }

    /// What ringing once comes to.
    pub open spec fn doorbell(&self) -> Seq<DoorbellAction> {
        match self {
            IpiBackend::Clint(sender) => clint_doorbell(sender.offset()),
            IpiBackend::K3Mbox(sender) => mailbox_doorbell(sender.writes()),
        }
    }

    /// Takes the posted actions, for the caller to carry out in order.
    pub fn take_posted(&mut self) -> (actions: Vec<DoorbellAction>)
        ensures
            actions@ == old(self).posted(),
            final(self).posted() == Seq::<DoorbellAction>::empty(),
            final(self).doorbell() == old(self).doorbell(),
    {
        match self {
            IpiBackend::Clint(sender) => sender.take_posted(),
            IpiBackend::K3Mbox(sender) => sender.take_posted(),
        }
    }
}

impl IpiSender for IpiBackend {
    open spec fn rings(before: Self, after: Self) -> bool {
        &&& after.doorbell() == before.doorbell()
        &&& after.posted() == before.posted() + before.doorbell()
    }

    fn notify_peer(&mut self) {
        match self {
            IpiBackend::Clint(sender) => sender.notify_peer(),
            IpiBackend::K3Mbox(sender) => sender.notify_peer(),
        }
    }
}

/// Every ring orders what was written before it rings.
pub proof fn doorbells_fence_first(backend: IpiBackend)
    ensures
        backend.doorbell().len() >= 2,
        backend.doorbell()[0] == DoorbellAction::Fence,
        forall|k: int|
            1 <= k < backend.doorbell().len() ==> #[trigger] backend.doorbell()[k] is Write,
{
}

/// The mailbox's interrupt endpoint.
pub struct K3MailboxIrqEndpoint {
    fresh: AckAndClear,
    program: AckAndClear,
}

impl K3MailboxIrqEndpoint {
    /// The acknowledge program as it starts.
    pub closed spec fn fresh(&self) -> AckAndClear {
        self.fresh
    }

    /// The acknowledge program that the last interrupt started.
    pub closed spec fn running(&self) -> AckAndClear {
        self.program
    }

    /// An endpoint for messages on `rx_channel`.
    pub fn new(mbox: K3MboxMmio, rx_channel: u8) -> (endpoint: Self)
        requires
            rx_channel < K3_MBOX_CHANNELS,
        ensures
            endpoint.fresh().wf(),
            endpoint.fresh() == endpoint.running(),
            forall|env: spec_fn(int) -> u32, i: int| #[trigger]
                endpoint.fresh().remaining(env, i) == ack_trace(
                    mbox.user_local,
                    rx_channel,
                    env,
                    i,
                ),
    {
        let fresh = mbox.ack_and_clear(rx_channel);
        Self { fresh, program: fresh }
    }

    /// The acknowledge program that the last interrupt started. The caller runs
    /// it to its end before it acts on the event.
    pub fn program(&self) -> (program: AckAndClear)
        ensures
            program == self.running(),
    {
        self.program
    }
}

impl IpiIrqEndpoint for K3MailboxIrqEndpoint {
    open spec fn handles(before: Self, after: Self, event: Event) -> bool {
        &&& event == Event::PeerNotify
        &&& after.fresh() == before.fresh()
        &&& after.running() == before.fresh()
    }

    fn handle_irq(&mut self) -> (event: Event) {
        self.program = self.fresh;
        Event::PeerNotify
    }
}

/// Whether an interrupt with this event wakes the waiting task.
pub fn wakes_waiter(event: Event) -> (wakes: bool)
    ensures
        wakes == (event == Event::PeerNotify),
{
    match event {
        Event::PeerNotify => true,
        Event::Spurious => false,
    }
}

/// Number of mailbox interrupts that are worth a line in the log.
pub const LOGGED_IRQS: usize = 5;

/// Whether the interrupt that brought the count to `count` is worth a line in
/// the log: the first few show that the path works, the others would flood it.
pub fn irq_is_logged(count: usize) -> (logged: bool)
    ensures
        logged == (count <= LOGGED_IRQS),
{
    count <= LOGGED_IRQS
}

} // verus!
