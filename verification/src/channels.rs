//! Looking at the shared window through the channel library.

use vstd::prelude::*;

use crate::driver::ShmAccess;

verus! {

/// A channel number.
#[derive(Debug, Clone, Copy, PartialEq, Eq, Hash, Structural)]
pub struct ChannelId {
    id: u8,
}

impl ChannelId {
    /// The number.
    pub closed spec fn view(&self) -> u8 {
        self.id
    }

    /// The channel with number `id`.
    pub fn new(id: u8) -> (channel: Self)
        ensures
            channel@ == id,
    {
        Self { id }
    }

    /// The number.
    pub fn get(self) -> (id: u8)
        ensures
            id == self@,
    {
        self.id
    }
}

/// The channel that carries the real-time core's replies: it writes, and this
/// side looks for messages.
pub fn ch_from_rt_async() -> (channel: ChannelId)
    ensures
        channel@ == 1,
{
    ChannelId::new(1)
}

/// The channel library's shared-memory region of `N` channels. The peer writes
/// to it at any time, so nothing is said of what it holds.
#[verifier::external_type_specification]
#[verifier::external_body]
pub struct ExSharedMemory<const N: usize>(ov_channels::SharedMemory<N>);

/// The channel library's receiving end of one channel.
#[verifier::external_type_specification]
#[verifier::external_body]
pub struct ExReceiver<'a>(ov_channels::Receiver<'a>);

/// The channel library's error for a channel number that a region lacks.
#[verifier::external_type_specification]
#[verifier::external_body]
pub struct ExInvalidChannelId(ov_channels::InvalidChannelId);

/// `ov_channels::Receiver::has_pending`: whether the channel's magic number is
/// in place and its read and write indices differ. Both sides write these words
/// at any time, so nothing is said of the answer.
#[verifier::external_body]
fn look_at(receiver: &ov_channels::Receiver<'static>) -> (pending: bool) {
    receiver.has_pending()
}

/// `ov_channels::SharedMemory::receiver`: hands out the receiving end of a
/// channel, and refuses exactly the numbers that the region has no channel for.
#[verifier::external_body]
fn open_receiver<const N: usize>(
    shm: &'static ov_channels::SharedMemory<N>,
    channel: ChannelId,
) -> (receiver: Result<ov_channels::Receiver<'static>, ov_channels::InvalidChannelId>)
    ensures
        receiver is Ok <==> channel@ < N,
{
    shm.receiver(ov_channels::ChannelId::new(channel.get()))
}

/// Looks for messages on one channel of a region of `N` channels.
///
/// Both sides have to agree on `N`.
pub struct OvChannelsShmAccess<const N: usize> {
    shm: &'static ov_channels::SharedMemory<N>,
    channel: ChannelId,
}

impl<const N: usize> OvChannelsShmAccess<N> {
    /// The channel that is looked at.
    pub closed spec fn channel(&self) -> ChannelId {
        self.channel
    }

    /// The region that is looked at.
    pub closed spec fn region(&self) -> &'static ov_channels::SharedMemory<N> {
        self.shm
    }

    /// Whether the receiving end of the channel, opened in the region, can
    /// itself have answered `pending`.
    pub closed spec fn answers(&self, pending: bool) -> bool {
        exists|receiver: ov_channels::Receiver<'static>|
            call_ensures(open_receiver::<N>, (self.shm, self.channel), Ok(receiver))
                && #[trigger] call_ensures(look_at, (&receiver,), pending)
    }

    /// Looks at `channel` of the region `shm`, which is mapped for as long as
    /// the device exists and laid out as the peer has it.
    pub fn new(shm: &'static ov_channels::SharedMemory<N>, channel: ChannelId) -> (access: Self)
        ensures
            access.channel() == channel,
            access.region() == shm,
    {
        Self { shm, channel }
    }
}

/// What a look answers, given the answer of the channel's receiving end, or
/// `None` if the region has no such channel: no channel, no messages.
pub fn pending_of(receiver: Option<bool>) -> (pending: bool)
    ensures
        pending == (receiver == Some(true)),
{
    match receiver {
        Some(answer) => answer,
        None => false,
    }
}

impl<const N: usize> ShmAccess for OvChannelsShmAccess<N> {
    /// A look answers what the receiving end of the channel answers. A channel
    /// that does not exist never has messages.
    open spec fn may_report(&self, pending: bool) -> bool {
        if self.channel()@ < N {
            self.answers(pending)
        } else {
            !pending
        }
    }

    fn has_pending(&self) -> (pending: bool) {
        let answer = match open_receiver(self.shm, self.channel) {
            Ok(receiver) => Some(look_at(&receiver)),
            Err(_) => None,
        };
        pending_of(answer)
    }
}

/// A channel that the region does not have never has messages, whatever the
/// region holds.
pub proof fn a_missing_channel_has_no_messages<const N: usize>(access: OvChannelsShmAccess<N>)
    requires
        access.channel()@ >= N,
    ensures
        access.may_report(false),
        !access.may_report(true),
{
}

/// A look at a channel that exists reports what the receiving end of that very
/// channel answers, and nothing that no such receiving end has answered.
proof fn a_look_reports_the_receivers_answer<const N: usize>(
    access: OvChannelsShmAccess<N>,
    receiver: ov_channels::Receiver<'static>,
    pending: bool,
)
    requires
        access.channel()@ < N,
    ensures
        call_ensures(open_receiver::<N>, (access.region(), access.channel()), Ok(receiver))
            && call_ensures(look_at, (&receiver,), pending) ==> access.may_report(pending),
        access.may_report(pending) ==> exists|end: ov_channels::Receiver<'static>|
            call_ensures(open_receiver::<N>, (access.region(), access.channel()), Ok(end))
                && #[trigger] call_ensures(look_at, (&end,), pending),
{
}

} // verus!
