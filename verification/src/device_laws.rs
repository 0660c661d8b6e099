//! What the device does, in plain numbers: its doorbell, its boot steps, its
//! requests and its cache maintenance.

use vstd::prelude::*;

use crate::coherence::{
    finish_steps, mode_after, probe_of, CacheOp, CacheSync, CoherenceMode, PbmtProbe, ProbeAction,
    SyncPoint,
};
use crate::config::{NotifierConfig, RtAsyncConfig};
use crate::device::{
    channels_exist, doorbell_of, notifier_script, test_target, window_script, BootAction, Ioctl,
    RtShmDevice,
};
use crate::driver::{Event, IpiIrqEndpoint, IpiSender};
use crate::mailbox::{new_msg_mask, RegWrite};
use crate::mailbox_laws::the_new_msg_bit;
use crate::notifier::{
    clint_doorbell, mailbox_doorbell, ClintIpiSender, DoorbellAction, IpiBackend,
    K3MailboxIpiSender, K3MailboxIrqEndpoint,
};
use crate::vfs::{device_number, event_bits};
use crate::wait::{ShmError, WaitPhase};

verus! {

/// `write` sets the bit of `channel`, and no other, in the register at `offset`.
pub open spec fn writes_channel_bit(write: RegWrite, offset: int, channel: u8) -> bool {
    &&& write.offset == offset
    &&& forall|b: u8| b < 32 ==> ((#[trigger] (write.value >> b)) & 1 == 1 <==> b == 2 * channel)
}

proof fn lemma_channel_bit(channel: u8)
    requires
        channel < 16,
    ensures
        forall|b: u8| b < 32 ==> ((#[trigger] (new_msg_mask(channel) >> b)) & 1 == 1 <==> b == 2
            * channel),
{
    assert forall|b: u8| b < 32 implies ((#[trigger] (new_msg_mask(channel) >> b)) & 1 == 1 <==> b
        == 2 * channel) by {
        the_new_msg_bit(channel, b);
    }
}

/// The mailbox channels of a configuration exist exactly if both are below 16.
pub proof fn sixteen_channels_exist(notifier: NotifierConfig)
    ensures
        notifier is ClintMsip ==> channels_exist(notifier),
        notifier is K3Mailbox ==> (channels_exist(notifier) <==> notifier->tx_channel < 16
            && notifier->rx_channel < 16),
{
}

/// The CLINT is rung by a fence and then a one, written to the register that the
/// configuration names: its offset in its 4 KiB page.
pub proof fn the_clint_is_rung_at_its_register(notifier: NotifierConfig)
    requires
        notifier is ClintMsip,
    ensures
        ({
            let bell = doorbell_of(notifier);
            &&& bell.len() == 2
            &&& bell[0] == DoorbellAction::Fence
            &&& bell[1] matches DoorbellAction::Write(write)
            &&& write.value == 1
            &&& write.offset < 0x1000
            &&& write.offset == notifier->msip_phys % 0x1000
        }),
{
}

/// The mailbox is rung by a fence, then the transmit channel's bit in the peer's
/// enable register, and then a one in the transmit channel's FIFO. The receive
/// channel has no part in it.
pub proof fn the_mailbox_is_rung_on_the_transmit_channel(notifier: NotifierConfig)
    requires
        notifier is K3Mailbox,
        notifier->tx_channel < 16,
    ensures
        ({
            let bell = doorbell_of(notifier);
            &&& bell.len() == 3
            &&& bell[0] == DoorbellAction::Fence
            &&& bell[1] matches DoorbellAction::Write(enable)
            &&& writes_channel_bit(enable, 0x118, notifier->tx_channel)
            &&& bell[2] == DoorbellAction::Write(
                RegWrite { offset: (0x40 + 4 * notifier->tx_channel) as usize, value: 1 },
            )
        }),
{
    lemma_channel_bit(notifier->tx_channel);
}

/// Ringing a sender once adds its doorbell to what is to be done, once, behind
/// what was there, and changes nothing else about it.
pub proof fn a_ring_adds_one_doorbell(
    clint: (ClintIpiSender, ClintIpiSender),
    mailbox: (K3MailboxIpiSender, K3MailboxIpiSender),
    backend: (IpiBackend, IpiBackend),
)
    ensures
        ClintIpiSender::rings(clint.0, clint.1) ==> clint.1.offset() == clint.0.offset()
            && clint.1.posted() == clint.0.posted().push(DoorbellAction::Fence).push(
            DoorbellAction::Write(RegWrite { offset: clint.0.offset(), value: 1 }),
        ),
        K3MailboxIpiSender::rings(mailbox.0, mailbox.1) ==> mailbox.1.writes()
            == mailbox.0.writes() && mailbox.1.posted() == mailbox.0.posted().push(
            DoorbellAction::Fence,
        ).push(DoorbellAction::Write(mailbox.0.writes()[0])).push(
            DoorbellAction::Write(mailbox.0.writes()[1]),
        ),
        IpiBackend::rings(backend.0, backend.1) ==> backend.1.doorbell() == backend.0.doorbell()
            && backend.1.posted() == backend.0.posted() + backend.0.doorbell(),
{
    let c = clint.0;
    assert(c.posted() + clint_doorbell(c.offset()) =~= c.posted().push(DoorbellAction::Fence).push(
        DoorbellAction::Write(RegWrite { offset: c.offset(), value: 1 }),
    ));
    let m = mailbox.0;
    assert(m.posted() + mailbox_doorbell(m.writes()) =~= m.posted().push(
        DoorbellAction::Fence,
    ).push(DoorbellAction::Write(m.writes()[0])).push(DoorbellAction::Write(m.writes()[1])));
}

/// A backend is the sender inside it: what is posted, and what a ring comes to.
pub proof fn a_backend_is_its_sender(clint: ClintIpiSender, mailbox: K3MailboxIpiSender)
    ensures
        IpiBackend::Clint(clint).posted() == clint.posted(),
        IpiBackend::K3Mbox(mailbox).posted() == mailbox.posted(),
        IpiBackend::Clint(clint).doorbell() == seq![
            DoorbellAction::Fence,
            DoorbellAction::Write(RegWrite { offset: clint.offset(), value: 1 }),
        ],
        IpiBackend::K3Mbox(mailbox).doorbell() == seq![
            DoorbellAction::Fence,
            DoorbellAction::Write(mailbox.writes()[0]),
            DoorbellAction::Write(mailbox.writes()[1]),
        ],
{
}

/// An interrupt of the mailbox is one of the peer, and starts the acknowledge
/// program from its beginning, every time.
pub proof fn every_interrupt_starts_an_acknowledgement(
    before: K3MailboxIrqEndpoint,
    after: K3MailboxIrqEndpoint,
    event: Event,
)
    requires
        K3MailboxIrqEndpoint::handles(before, after, event),
    ensures
        event is PeerNotify,
        after.running() == before.fresh(),
        after.fresh() == before.fresh(),
{
}

/// The steps that set up the window: drop all of it from the cache, then remap it;
/// around the remapping, store the first word on its last line, store the second,
/// drop that line, load it, flush it. Without a probe only the first and the
/// remapping are left.
pub proof fn the_window_is_dropped_probed_and_remapped(phys: usize, size: usize, lin: usize)
    ensures
        ({
            let script = window_script(phys, size, lin);
            let line = (lin + size - 64) as usize;
            let probed = size >= 64 && lin + size <= usize::MAX && (lin + size) % 64 == 0;
            &&& script[0] == BootAction::Sync(
                CacheSync { op: CacheOp::Invalidate, vaddr: lin, size },
            )
            &&& !probed ==> script.len() == 2 && script[1] == (BootAction::MapWindow { phys, size })
            &&& probed ==> {
                &&& script.len() == 7
                &&& script[1] == BootAction::Probe(
                    ProbeAction::Store { addr: line, value: 0xA5A5_5A5A_A5A5_5A5A },
                )
                &&& script[2] == (BootAction::MapWindow { phys, size })
                &&& script[3] == BootAction::Probe(
                    ProbeAction::Store { addr: line, value: 0x5A5A_A5A5_5A5A_A5A5 },
                )
                &&& script[4] == BootAction::Probe(
                    ProbeAction::Sync(CacheSync { op: CacheOp::Invalidate, vaddr: line, size: 64 }),
                )
                &&& script[5] == BootAction::Probe(ProbeAction::Load { addr: line })
                &&& script[6] == BootAction::Probe(
                    ProbeAction::Sync(
                        CacheSync { op: CacheOp::CleanInvalidate, vaddr: line, size: 64 },
                    ),
                )
            }
        }),
{
}

/// The steps that set up a CLINT: have its line of the CPU-local domain wake the
/// waiting task, and map the page that its register lies in.
pub proof fn a_clint_is_requested_and_mapped(notifier: NotifierConfig)
    requires
        notifier is ClintMsip,
    ensures
        ({
            let script = notifier_script(notifier);
            &&& script.len() == 2
            &&& script[0] matches BootAction::RequestLocalIrq { irq }
            &&& irq.domain.0 == 0xffff
            &&& irq.hwirq.0 == notifier->ipi_irq
            &&& script[1] matches BootAction::MapRegisters { phys, offset }
            &&& phys % 0x1000 == 0
            &&& phys <= notifier->msip_phys < phys + 0x1000
            &&& offset == 0
        }),
{
}

/// The steps that set up a mailbox, all on the receive channel: map its registers,
/// drop what is left in the FIFO, set the channel's bit in this side's enable
/// register, have the endpoint of the channel handle the interrupt that the tree
/// names, and run the self-test.
pub proof fn a_mailbox_is_reset_enabled_and_tested(notifier: NotifierConfig)
    requires
        notifier is K3Mailbox,
        notifier->rx_channel < 16,
    ensures
        ({
            let script = notifier_script(notifier);
            &&& script.len() == 5
            &&& script[0] matches BootAction::MapRegisters { phys, offset }
            &&& phys % 0x1000 == 0
            &&& offset < 0x1000
            &&& phys + offset == notifier->mbox_phys
            &&& script[1] == (BootAction::ResetRx { channel: notifier->rx_channel })
            &&& script[2] matches BootAction::Write(enable)
            &&& writes_channel_bit(enable, 0x108, notifier->rx_channel)
            &&& script[3] == (BootAction::RequestIrq {
                irq: notifier->rx_irq,
                channel: notifier->rx_channel,
            })
            &&& script[4] == BootAction::SelfTest
        }),
{
    lemma_channel_bit(notifier->rx_channel);
}

/// The self-test is of the receive channel, as user zero, and there is one exactly
/// where there is a mailbox.
pub proof fn the_receive_channel_is_tested(notifier: NotifierConfig)
    ensures
        test_target(notifier) is Some <==> notifier is K3Mailbox,
        test_target(notifier) matches Some(target) ==> target.0.user_local == 0 && target.1
            == notifier->rx_channel,
{
}

/// The maintenance that the device owes its window at each point: in the mode that
/// trusts no attribute, a mapping and a look drop the window, a notification and
/// a return flush it; in the other mode nothing is owed.
pub proof fn what_the_device_owes_its_window(device: RtShmDevice)
    ensures
        ({
            let drop_all = CacheSync {
                op: CacheOp::Invalidate,
                vaddr: device.lin_vaddr,
                size: device.shm_size,
            };
            let flush_all = CacheSync { op: CacheOp::CleanInvalidate, ..drop_all };
            let cbo = device.mode == CoherenceMode::Cbo;
            &&& device.window_sync(SyncPoint::Boot) == Some(drop_all)
            &&& cbo ==> device.window_sync(SyncPoint::Mmap) == Some(drop_all)
            &&& cbo ==> device.window_sync(SyncPoint::AwaitCheck) == Some(drop_all)
            &&& cbo ==> device.window_sync(SyncPoint::Notify) == Some(flush_all)
            &&& cbo ==> device.window_sync(SyncPoint::AwaitReturn) == Some(flush_all)
            &&& !cbo ==> device.window_sync(SyncPoint::Mmap) is None
            &&& !cbo ==> device.window_sync(SyncPoint::AwaitCheck) is None
            &&& !cbo ==> device.window_sync(SyncPoint::Notify) is None
            &&& !cbo ==> device.window_sync(SyncPoint::AwaitReturn) is None
        }),
{
}

/// What each request is answered: the notification flushes a window that may be
/// cached and rings the doorbell, the wait waits on the whole window from its
/// beginning, forgetting does nothing, the self-test is run where there is a
/// mailbox and refused where there is none, and every other number is refused.
pub proof fn every_request_has_its_answer(device: RtShmDevice, cmd: u32, plan: Ioctl)
    requires
        device.answers(cmd, plan),
    ensures
        cmd == 0x73_5001 ==> {
            &&& plan matches Ioctl::Notify { sync, doorbell }
            &&& doorbell@ == device.doorbell()
            &&& device.mode == CoherenceMode::PbmtNc ==> sync is None
            &&& device.mode == CoherenceMode::Cbo ==> sync == Some(
                CacheSync {
                    op: CacheOp::CleanInvalidate,
                    vaddr: device.lin_vaddr,
                    size: device.shm_size,
                },
            )
        },
        cmd == 0x73_5002 ==> {
            &&& plan matches Ioctl::Await(run)
            &&& run.mode == device.mode
            &&& run.vaddr == device.lin_vaddr
            &&& run.size == device.shm_size
            &&& run.phase == WaitPhase::Begin
        },
        cmd == 0x73_5003 ==> plan == Ioctl::Return(Ok(0)),
        cmd == 0x73_5004 ==> (if device.test_mbox is Some {
            plan == Ioctl::SelfTest
        } else {
            plan == Ioctl::Return(Err(ShmError::Unsupported))
        }),
        !(0x73_5001 <= cmd <= 0x73_5004) ==> plan == Ioctl::Return(Err(ShmError::InvalidInput)),
{
}

/// A request changes nothing about the device.
pub proof fn a_request_leaves_the_device_as_it_was(after: RtShmDevice, before: RtShmDevice)
    requires
        after.same_device(before),
    ensures
        after.access() == before.access(),
        after.doorbell() == before.doorbell(),
        after.shm_phys_base == before.shm_phys_base,
        after.shm_size == before.shm_size,
        after.lin_vaddr == before.lin_vaddr,
        after.mode == before.mode,
        after.test_mbox == before.test_mbox,
{
}

/// There is a probe exactly if the window holds a whole line, ends at the end of
/// one, and fits the address space; it uses the last line.
pub proof fn when_there_is_a_probe(lin: usize, size: usize)
    ensures
        probe_of(lin, size) is Some <==> size >= 64 && lin + size <= usize::MAX && (lin + size) % 64
            == 0,
        probe_of(lin, size) matches Some(probe) ==> probe.scratch == lin + size - 64,
{
}

/// The driver does without cache maintenance exactly if the probe was made and
/// read its second word back.
pub proof fn when_maintenance_is_done_without(lin: usize, size: usize, readback: u64)
    ensures
        mode_after(lin, size, readback) == CoherenceMode::PbmtNc <==> (size >= 64 && lin + size
            <= usize::MAX && (lin + size) % 64 == 0 && readback == 0x5A5A_A5A5_5A5A_A5A5),
{
}

/// After the remapping the probe stores, drops, loads and flushes, all on its own
/// line.
pub proof fn the_probe_stays_on_its_line(probe: PbmtProbe)
    ensures
        ({
            let steps = finish_steps(probe);
            &&& steps.len() == 4
            &&& steps[0] == (ProbeAction::Store {
                addr: probe.scratch,
                value: 0x5A5A_A5A5_5A5A_A5A5,
            })
            &&& steps[1] == ProbeAction::Sync(
                CacheSync { op: CacheOp::Invalidate, vaddr: probe.scratch, size: 64 },
            )
            &&& steps[2] == (ProbeAction::Load { addr: probe.scratch })
            &&& steps[3] == ProbeAction::Sync(
                CacheSync { op: CacheOp::CleanInvalidate, vaddr: probe.scratch, size: 64 },
            )
        }),
{
}

/// A poll always reports room to write, reports data to read exactly if messages
/// are pending, and reports nothing else.
pub proof fn a_poll_reports_room_and_messages(pending: bool)
    ensures
        event_bits(pending) & 0x4 != 0,
        event_bits(pending) & 0x1 != 0 <==> pending,
        event_bits(pending) & 0xffff_fffa == 0,
{
    assert(0x5u32 & 0x4 != 0 && 0x5u32 & 0x1 != 0 && 0x5u32 & 0xffff_fffa == 0 && 0x4u32 & 0x4 != 0
        && 0x4u32 & 0x1 == 0 && 0x4u32 & 0xffff_fffa == 0) by (bit_vector);
}

/// A device number holds both of its halves: they can be read out of it again.
pub proof fn a_device_number_holds_both_halves(major: u32, minor: u32)
    ensures
        (device_number(major, minor) >> 32) & 0xffff_f000 | (device_number(major, minor) >> 8)
            & 0xfff == major as u64,
        (device_number(major, minor) >> 12) & 0xffff_ff00 | device_number(major, minor) & 0xff
            == minor as u64,
{
    assert((device_number(major, minor) >> 32) & 0xffff_f000 | (device_number(major, minor) >> 8)
        & 0xfff == major as u64 && (device_number(major, minor) >> 12) & 0xffff_ff00
        | device_number(major, minor) & 0xff == minor as u64) by (bit_vector);
}

/// The script of a configuration sets up its window and then its notifier.
pub proof fn the_window_comes_before_the_notifier(cfg: RtAsyncConfig, lin: usize, k: int)
    ensures
        ({
            let window = window_script(cfg.shm_phys_base, cfg.shm_size, lin);
            let script = window + notifier_script(cfg.notifier);
            &&& 0 <= k < window.len() ==> (script[k] is Sync || script[k] is Probe || script[k]
                is MapWindow)
            &&& window.len() <= k < script.len() ==> !(script[k] is Sync || script[k] is Probe
                || script[k] is MapWindow)
        }),
{
}

} // verus!
