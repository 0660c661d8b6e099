//! The OS-independent driver core and the capabilities it is built on.

use vstd::prelude::*;

verus! {

/// Number of channels in the shared window.
///
/// Both sides of the protocol agree on it: channel 0 carries requests to the
/// real-time core, channel 1 carries its replies, channel 2 is spare.
pub const DEFAULT_CHANNELS: usize = 3;

/// What an interrupt endpoint found when it looked at its interrupt source.
///
/// An interrupt only synchronises state. Whoever receives the event decides
/// whether a thread is woken, a worker scheduled, or nothing is done at all.
#[derive(Debug, Clone, Copy, PartialEq, Eq, Structural)]
pub enum Event {
    /// The peer rang the doorbell. New messages may be in the ring buffer.
    PeerNotify,
    /// The interrupt did not come from the peer.
    Spurious,
}

/// Ability to ring the peer core's doorbell.
///
/// An implementation makes every earlier write to the shared window visible to
/// the peer before the doorbell rings.
pub trait IpiSender: Sized {
    /// Whether ringing once may take the sender from `before` to `after`. An
    /// implementation that does not say leaves it open.
    open spec fn rings(before: Self, after: Self) -> bool {
        true
    }

    /// Rings the peer's doorbell once.
    fn notify_peer(&mut self)
        ensures
            Self::rings(*old(self), *final(self)),
    ;
}

/// Ability to see whether the peer has written messages that nobody has read.
///
/// The peer writes concurrently, so two looks at one channel may differ: an
/// implementation states which answers are possible.
pub trait ShmAccess: Sized {
    /// Whether a look at the channel may answer `pending`. An implementation
    /// that does not say leaves it open.
    open spec fn may_report(&self, pending: bool) -> bool {
        true
    }

    /// Looks at the channel once.
    fn has_pending(&self) -> (pending: bool)
        ensures
            self.may_report(pending),
    ;
}

/// Interrupt endpoint, owned by the registered interrupt callback.
///
/// It inspects the interrupt source and says what it found. It wakes nobody.
pub trait IpiIrqEndpoint: Sized {
    /// Whether one interrupt may take the endpoint from `before` to `after`
    /// and be reported as `event`. An implementation that does not say leaves it
    /// open.
    open spec fn handles(before: Self, after: Self, event: Event) -> bool {
        true
    }

    /// Inspects the interrupt source.
    fn handle_irq(&mut self) -> (event: Event)
        ensures
            Self::handles(*old(self), *final(self), event),
    ;
}

/// State of the IPC device that is the same on every platform.
pub struct RtShmCore<A: ShmAccess, S: IpiSender> {
    shm: A,
    ipi: S,
}

impl<A: ShmAccess, S: IpiSender> RtShmCore<A, S> {
    /// The shared-memory access that the core looks through.
    pub closed spec fn shm(&self) -> A {
        self.shm
    }

    /// The sender that the core rings.
    pub closed spec fn ipi(&self) -> S {
        self.ipi
    }

    /// Creates a core from its two capabilities.
    pub fn new(shm: A, ipi: S) -> (core: Self)
        ensures
            core.shm() == shm,
            core.ipi() == ipi,
    {
        Self { shm, ipi }
    }

    /// Whether the peer has written data that nobody has read: what one look
    /// through the shared-memory access says.
    pub fn has_pending(&self) -> (pending: bool)
        ensures
            self.shm().may_report(pending),
            call_ensures(A::has_pending, (&self.shm(),), pending),
    {
        self.shm.has_pending()
    }

    /// Rings the peer's doorbell once. The caller has already written its data
    /// to the shared window; the sender makes it visible.
    pub fn notify_peer(&mut self)
        ensures
            final(self).shm() == old(self).shm(),
            S::rings(old(self).ipi(), final(self).ipi()),
    {
        self.ipi.notify_peer();
    }

    /// The sender, for whoever carries out what it has posted.
    pub fn sender(&mut self) -> (sender: &mut S)
        ensures
            *sender == old(self).ipi(),
            final(self).ipi() == *final(sender),
            final(self).shm() == old(self).shm(),
    {
        &mut self.ipi
    }
}

} // verus!
