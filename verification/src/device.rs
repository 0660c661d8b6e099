//! The `/dev/rt_shm` device: how it is set up, and what its operations do.

use vstd::prelude::*;

use crate::channels::{ch_from_rt_async, OvChannelsShmAccess};
use crate::coherence::{
    coherence_mode, finish_steps, mode_after, probe_of, sync_op, sync_window, CacheOp, CacheSync,
    CoherenceMode, PbmtProbe, ProbeAction, SyncPoint, PBMT_PROBE_A, PBMT_PROBE_B,
};
use crate::config::{NotifierConfig, RtAsyncConfig};
use crate::driver::{RtShmCore, ShmAccess, DEFAULT_CHANNELS};
use crate::irq::{cpu_local_irq, HwIrq, IrqDomainId, IrqId, CPU_LOCAL_IRQ_DOMAIN};
use crate::mailbox::{
    irq_offset, new_msg_mask, signal_writes, K3MboxMmio, RegWrite, K3_MBOX_CHANNELS,
    K3_MBOX_IRQ_EN_SET_OFF,
};
use crate::notifier::{
    clint_doorbell, mailbox_doorbell, register_page, ClintIpiSender, DoorbellAction, IpiBackend,
    K3MailboxIpiSender, REGISTER_PAGE,
};
use crate::selftest::{selftest_trace, SelfTest};
use crate::vfs::{event_bits, node_flags, poll_events, window_range};
use crate::wait::{AwaitRun, ShmError, WaitPhase};

verus! {

/// Request: the caller has written a message; notify the peer.
pub const RT_SHM_IOC_NOTIFY: u32 = 0x7350_01;

/// Request: wait until the peer has written a message.
pub const RT_SHM_IOC_AWAIT: u32 = 0x7350_02;

/// Request: forget pending notifications. Nothing to forget: readiness follows
/// from the ring indices.
pub const RT_SHM_IOC_CLR_PENDING: u32 = 0x7350_03;

/// Request: test the mailbox interrupt without the peer.
pub const RT_SHM_IOC_TEST_MBOX: u32 = 0x7350_04;

/// The mailbox user that this side is.
pub const MBOX_USER_LOCAL: u8 = 0;

/// The mailbox user that the peer is.
pub const MBOX_USER_REMOTE: u8 = 1;

/// One step of setting the device up.
#[derive(Debug, Clone, Copy, PartialEq, Eq, Structural)]
pub enum BootAction {
    /// Carry out cache maintenance.
    Sync(CacheSync),
    /// Carry out a step of the coherence probe.
    Probe(ProbeAction),
    /// Remap the shared window with a non-cached attribute.
    MapWindow { phys: usize, size: usize },
    /// Map the page of registers at `phys`. Register offsets count from `offset`
    /// in it.
    MapRegisters { phys: usize, offset: usize },
    /// Have the CPU-local interrupt `irq` wake the waiting task, on every CPU.
    RequestLocalIrq { irq: IrqId },
    /// Run the mailbox's reset program on `channel`.
    ResetRx { channel: u8 },
    /// Write a mailbox register.
    Write(RegWrite),
    /// Have the mailbox endpoint of `channel` handle `irq`.
    RequestIrq { irq: IrqId, channel: u8 },
    /// Run the self-test, for the log.
    SelfTest,
}

/// Whether the mailbox channels of `notifier`, if it has any, exist.
pub open spec fn channels_exist(notifier: NotifierConfig) -> bool {
    notifier matches NotifierConfig::K3Mailbox { tx_channel, rx_channel, .. } ==> tx_channel
        < K3_MBOX_CHANNELS && rx_channel < K3_MBOX_CHANNELS
}

/// The steps that set up `notifier`. The mailbox starts from a clean level: it
/// is reset, then enabled, and only then is its interrupt handled.
pub open spec fn notifier_script(notifier: NotifierConfig) -> Seq<BootAction> {
    match notifier {
        NotifierConfig::ClintMsip { msip_phys, ipi_irq } => seq![
            BootAction::RequestLocalIrq { irq: cpu_local_irq(HwIrq(ipi_irq)) },
            BootAction::MapRegisters {
                phys: (msip_phys - msip_phys % REGISTER_PAGE) as usize,
                offset: 0,
            },
        ],
        NotifierConfig::K3Mailbox { mbox_phys, rx_channel, rx_irq, .. } => seq![
            BootAction::MapRegisters {
                phys: (mbox_phys - mbox_phys % REGISTER_PAGE) as usize,
                offset: (mbox_phys % REGISTER_PAGE) as usize,
            },
            BootAction::ResetRx { channel: rx_channel },
            BootAction::Write(
                RegWrite {
                    offset: irq_offset(MBOX_USER_LOCAL, K3_MBOX_IRQ_EN_SET_OFF) as usize,
                    value: new_msg_mask(rx_channel),
                },
            ),
            BootAction::RequestIrq { irq: rx_irq, channel: rx_channel },
            BootAction::SelfTest,
        ],
    }
}

/// The steps that set up the window, whose cached mapping is at `lin_vaddr`: drop
/// what the boot chain left in the cache, then remap, with the two halves of the
/// coherence probe on either side.
pub open spec fn window_script(phys: usize, size: usize, lin_vaddr: usize) -> Seq<BootAction> {
    let drop_lines = BootAction::Sync(
        CacheSync { op: CacheOp::Invalidate, vaddr: lin_vaddr, size },
    );
    let remap = BootAction::MapWindow { phys, size };
    match probe_of(lin_vaddr, size) {
        Some(probe) => seq![
            drop_lines,
            BootAction::Probe(ProbeAction::Store { addr: probe.scratch, value: PBMT_PROBE_A }),
            remap,
            BootAction::Probe(finish_steps(probe)[0]),
            BootAction::Probe(finish_steps(probe)[1]),
            BootAction::Probe(finish_steps(probe)[2]),
            BootAction::Probe(finish_steps(probe)[3]),
        ],
        None => seq![drop_lines, remap],
    }
}

/// The steps that set the device up, in order, for the configuration `cfg` with
/// the window's cached mapping at `lin_vaddr`.
pub fn boot_script(cfg: RtAsyncConfig, lin_vaddr: usize) -> (script: Vec<BootAction>)
    requires
        channels_exist(cfg.notifier),
    ensures
        script@ == window_script(cfg.shm_phys_base, cfg.shm_size, lin_vaddr) + notifier_script(
            cfg.notifier,
        ),
{
    let mut script: Vec<BootAction> = Vec::new();
    if let Some(sync) = sync_window(CoherenceMode::Cbo, SyncPoint::Boot, lin_vaddr, cfg.shm_size) {
        script.push(BootAction::Sync(sync));
    }
    let remap = BootAction::MapWindow { phys: cfg.shm_phys_base, size: cfg.shm_size };
    match PbmtProbe::prime(lin_vaddr, cfg.shm_size) {
        Some(probe) => {
            let steps = probe.finish_actions();
            script.push(BootAction::Probe(probe.prime_action()));
            script.push(remap);
            script.push(BootAction::Probe(steps[0]));
            script.push(BootAction::Probe(steps[1]));
            script.push(BootAction::Probe(steps[2]));
            script.push(BootAction::Probe(steps[3]));
        },
        None => {
            script.push(remap);
        },
    }
    assert(script@ =~= window_script(cfg.shm_phys_base, cfg.shm_size, lin_vaddr));
    match cfg.notifier {
        NotifierConfig::ClintMsip { msip_phys, ipi_irq } => {
            let irq = IrqId::new(IrqDomainId(CPU_LOCAL_IRQ_DOMAIN), HwIrq(ipi_irq));
            script.push(BootAction::RequestLocalIrq { irq });
            let page = register_page(msip_phys);
            script.push(BootAction::MapRegisters { phys: page.0, offset: 0 });
        },
        NotifierConfig::K3Mailbox { mbox_phys, tx_channel: _, rx_channel, rx_irq } => {
            let mbox = K3MboxMmio::new(MBOX_USER_LOCAL);
            let page = register_page(mbox_phys);
            script.push(BootAction::MapRegisters { phys: page.0, offset: page.1 });
            script.push(BootAction::ResetRx { channel: rx_channel });
            script.push(BootAction::Write(mbox.enable_rx(rx_channel)));
            script.push(BootAction::RequestIrq { irq: rx_irq, channel: rx_channel });
            script.push(BootAction::SelfTest);
        },
    }
    assert(script@ =~= window_script(cfg.shm_phys_base, cfg.shm_size, lin_vaddr) + notifier_script(
        cfg.notifier,
    ));
    script
}

/// What a request asks for.
#[derive(Debug, PartialEq, Eq)]
pub enum Ioctl {
    /// Carry out the cache maintenance, if any, then the doorbell's actions in
    /// order, then return zero.
    Notify { sync: Option<CacheSync>, doorbell: Vec<DoorbellAction> },
    /// Carry the wait out.
    Await(AwaitRun),
    /// Run the self-test.
    SelfTest,
    /// Return at once.
    Return(Result<usize, ShmError>),
}

/// A mapping of the window into a process.
#[derive(Debug, Clone, Copy, PartialEq, Eq)]
pub struct WindowMapping {
    /// Cache maintenance to carry out first.
    pub sync: Option<CacheSync>,
    /// First physical address.
    pub start: usize,
    /// First physical address past the end.
    pub end: usize,
}

/// The doorbell that `notifier` rings.
pub open spec fn doorbell_of(notifier: NotifierConfig) -> Seq<DoorbellAction> {
    match notifier {
        NotifierConfig::ClintMsip { msip_phys, .. } => clint_doorbell(
            (msip_phys % REGISTER_PAGE) as usize,
        ),
        NotifierConfig::K3Mailbox { tx_channel, .. } => mailbox_doorbell(
            signal_writes(tx_channel, MBOX_USER_REMOTE),
        ),
    }
}

/// The mailbox and the channel that the self-test of `notifier` uses.
pub open spec fn test_target(notifier: NotifierConfig) -> Option<(K3MboxMmio, u8)> {
    match notifier {
        NotifierConfig::K3Mailbox { rx_channel, .. } => Some(
            (K3MboxMmio { user_local: MBOX_USER_LOCAL }, rx_channel),
        ),
        NotifierConfig::ClintMsip { .. } => None,
    }
}

/// The doorbell of the configuration `cfg`.
pub fn backend(cfg: RtAsyncConfig) -> (backend: IpiBackend)
    requires
        channels_exist(cfg.notifier),
    ensures
        backend.posted() == Seq::<DoorbellAction>::empty(),
        backend.doorbell() == doorbell_of(cfg.notifier),
{
    match cfg.notifier {
        NotifierConfig::ClintMsip { msip_phys, ipi_irq: _ } => IpiBackend::Clint(
            ClintIpiSender::new(msip_phys),
        ),
        NotifierConfig::K3Mailbox { mbox_phys: _, tx_channel, rx_channel: _, rx_irq: _ } => {
            IpiBackend::K3Mbox(
                K3MailboxIpiSender::new(
                    K3MboxMmio::new(MBOX_USER_LOCAL),
                    tx_channel,
                    MBOX_USER_REMOTE,
                ),
            )
        },
    }
}

/// The device.
pub struct RtShmDevice {
    /// Looks for messages and rings the peer.
    pub core: RtShmCore<OvChannelsShmAccess<DEFAULT_CHANNELS>, IpiBackend>,
    /// Physical address of the shared window.
    pub shm_phys_base: usize,
    /// Size of the shared window.
    pub shm_size: usize,
    /// Address of the window's cached mapping, for cache maintenance.
    pub lin_vaddr: usize,
    /// How the window is kept coherent.
    pub mode: CoherenceMode,
    /// The mailbox and the channel that the self-test uses, if there is one.
    pub test_mbox: Option<(K3MboxMmio, u8)>,
}

impl RtShmDevice {
    /// What the device looks for messages through.
    pub open spec fn access(&self) -> OvChannelsShmAccess<DEFAULT_CHANNELS> {
        self.core.shm()
    }

    /// What ringing the peer once comes to.
    pub open spec fn doorbell(&self) -> Seq<DoorbellAction> {
        self.core.ipi().doorbell()
    }

    /// Doorbell actions that the device has yet to hand out.
    pub open spec fn posted(&self) -> Seq<DoorbellAction> {
        self.core.ipi().posted()
    }

    /// Validity of a device: the self-test's channel exists, and no doorbell
    /// has stayed behind.
    pub open spec fn wf(&self) -> bool {
        &&& self.test_mbox matches Some((_, channel)) ==> channel < K3_MBOX_CHANNELS
        &&& self.posted() == Seq::<DoorbellAction>::empty()
    }

    /// The device for the configuration `cfg`, after its boot script has been
    /// carried out. `readback` is the word that the probe read back; without a
    /// probe it does not matter. `shm` is the remapped window.
    pub fn new(
        cfg: RtAsyncConfig,
        lin_vaddr: usize,
        readback: u64,
        shm: &'static ov_channels::SharedMemory<DEFAULT_CHANNELS>,
    ) -> (device: Self)
        requires
            channels_exist(cfg.notifier),
        ensures
            device.wf(),
            device.access().region() == shm,
            device.access().channel()@ == 1,
            device.doorbell() == doorbell_of(cfg.notifier),
            device.shm_phys_base == cfg.shm_phys_base,
            device.shm_size == cfg.shm_size,
            device.lin_vaddr == lin_vaddr,
            device.mode == mode_after(lin_vaddr, cfg.shm_size, readback),
            device.test_mbox == test_target(cfg.notifier),
            device.test_mbox == (match cfg.notifier {
                NotifierConfig::K3Mailbox { rx_channel, .. } => Some(
                    (K3MboxMmio { user_local: MBOX_USER_LOCAL }, rx_channel),
                ),
                NotifierConfig::ClintMsip { .. } => None,
            }),
    {
        let effective = match PbmtProbe::prime(lin_vaddr, cfg.shm_size) {
            Some(probe) => Some(probe.finish(readback)),
            None => None,
        };
        let test_mbox = match cfg.notifier {
            NotifierConfig::K3Mailbox { mbox_phys: _, tx_channel: _, rx_channel, rx_irq: _ } => {
                Some((K3MboxMmio::new(MBOX_USER_LOCAL), rx_channel))
            },
            NotifierConfig::ClintMsip { msip_phys: _, ipi_irq: _ } => None,
        };
        let access = OvChannelsShmAccess::new(shm, ch_from_rt_async());
        Self {
            core: RtShmCore::new(access, backend(cfg)),
            shm_phys_base: cfg.shm_phys_base,
            shm_size: cfg.shm_size,
            lin_vaddr,
            mode: coherence_mode(effective),
            test_mbox,
        }
    }

    /// Looks once whether the peer has written messages that nobody has read.
    pub fn has_pending(&self) -> (pending: bool)
        ensures
            self.access().may_report(pending),
    {
        self.core.has_pending()
    }

    /// A run of the self-test, which starts when `before` mailbox interrupts
    /// have been handled. Only a mailbox can be tested.
    pub fn test_k3_mailbox_irq(&self, before: usize) -> (run: Result<SelfTest, ShmError>)
        requires
            self.wf(),
        ensures
            self.test_mbox is None ==> run == Err::<SelfTest, ShmError>(ShmError::Unsupported),
            self.test_mbox matches Some((mbox, channel)) ==> {
                &&& run is Ok
                &&& run->Ok_0.wf()
                &&& run->Ok_0.before() == before
                &&& forall|env: spec_fn(int) -> usize, i: int| #[trigger]
                    run->Ok_0.remaining(env, i) == selftest_trace(
                        mbox.user_local,
                        channel,
                        before,
                        env,
                        i,
                    )
            },
    {
        match self.test_mbox {
            Some(target) => Ok(SelfTest::start(target.0, target.1, before)),
            None => Err(ShmError::Unsupported),
        }
    }

    /// Reading the device file is not supported: messages go through the
    /// mapped window.
    pub fn read_at(&self, _offset: u64) -> (outcome: Result<usize, ShmError>)
        ensures
            outcome == Err::<usize, ShmError>(ShmError::Unsupported),
    {
        Err(ShmError::Unsupported)
    }

    /// Writing the device file is not supported: messages go through the mapped
    /// window.
    pub fn write_at(&self, _offset: u64) -> (outcome: Result<usize, ShmError>)
        ensures
            outcome == Err::<usize, ShmError>(ShmError::Unsupported),
    {
        Err(ShmError::Unsupported)
    }

    /// What the request `cmd` asks for. A request that is not known is refused,
    /// and its argument is never looked at.
    pub fn ioctl(&mut self, cmd: u32, _arg: usize) -> (plan: Ioctl)
        requires
            old(self).wf(),
        ensures
            old(self).answers(cmd, plan),
            final(self).wf(),
            final(self).same_device(*old(self)),
    {
        if cmd == RT_SHM_IOC_NOTIFY {
            let sync = sync_window(self.mode, SyncPoint::Notify, self.lin_vaddr, self.shm_size);
            self.core.notify_peer();
            let doorbell = self.core.sender().take_posted();
            assert(doorbell@ =~= old(self).doorbell());
            Ioctl::Notify { sync, doorbell }
        } else if cmd == RT_SHM_IOC_AWAIT {
            Ioctl::Await(AwaitRun::start(self.mode, self.lin_vaddr, self.shm_size))
        } else if cmd == RT_SHM_IOC_CLR_PENDING {
            Ioctl::Return(Ok(0))
        } else if cmd == RT_SHM_IOC_TEST_MBOX {
            match self.test_mbox {
                Some(_) => Ioctl::SelfTest,
                None => Ioctl::Return(Err(ShmError::Unsupported)),
            }
        } else {
            Ioctl::Return(Err(ShmError::InvalidInput))
        }
    }

    /// Whether `plan` is what the request `cmd` asks for.
    pub open spec fn answers(&self, cmd: u32, plan: Ioctl) -> bool {
        if cmd == RT_SHM_IOC_NOTIFY {
            &&& plan matches Ioctl::Notify { sync, doorbell }
            &&& sync == self.window_sync(SyncPoint::Notify)
            &&& doorbell@ == self.doorbell()
        } else if cmd == RT_SHM_IOC_AWAIT {
            plan == Ioctl::Await(
                AwaitRun {
                    mode: self.mode,
                    vaddr: self.lin_vaddr,
                    size: self.shm_size,
                    phase: WaitPhase::Begin,
                },
            )
        } else if cmd == RT_SHM_IOC_CLR_PENDING {
            plan == Ioctl::Return(Ok(0))
        } else if cmd == RT_SHM_IOC_TEST_MBOX && self.test_mbox is Some {
            plan == Ioctl::SelfTest
        } else if cmd == RT_SHM_IOC_TEST_MBOX {
            plan == Ioctl::Return(Err(ShmError::Unsupported))
        } else {
            plan == Ioctl::Return(Err(ShmError::InvalidInput))
        }
    }

    /// Whether nothing sets this device apart from `other`, but for doorbell
    /// actions that have yet to be handed out.
    pub open spec fn same_device(&self, other: Self) -> bool {
        &&& self.access() == other.access()
        &&& self.doorbell() == other.doorbell()
        &&& self.shm_phys_base == other.shm_phys_base
        &&& self.shm_size == other.shm_size
        &&& self.lin_vaddr == other.lin_vaddr
        &&& self.mode == other.mode
        &&& self.test_mbox == other.test_mbox
    }

    /// The cache maintenance that is due on the whole window at `point`.
    pub open spec fn window_sync(&self, point: SyncPoint) -> Option<CacheSync> {
        match sync_op(self.mode, point) {
            Some(op) => Some(CacheSync { op, vaddr: self.lin_vaddr, size: self.shm_size }),
            None => None,
        }
    }

    /// The mapping of the window into a process: always the whole window,
    /// whatever part of it was asked for.
    pub fn mmap(&self, _offset: u64, _length: u64) -> (mapping: WindowMapping)
        requires
            self.shm_phys_base + self.shm_size <= usize::MAX,
        ensures
            mapping.sync == self.window_sync(SyncPoint::Mmap),
            mapping.start == self.shm_phys_base,
            mapping.end == self.shm_phys_base + self.shm_size,
    {
        let sync = sync_window(self.mode, SyncPoint::Mmap, self.lin_vaddr, self.shm_size);
        let range = window_range(self.shm_phys_base, self.shm_size);
        WindowMapping { sync, start: range.0, end: range.1 }
    }

    /// The bits of the device's node flags: mappings are to bypass the cache.
    pub fn flags(&self) -> (bits: u32)
        ensures
            bits == 0x2,
    {
        node_flags()
    }

    /// The bits of the events that a poll reports: what one look at the channel
    /// comes to.
    pub fn poll(&self) -> (bits: u32)
        ensures
            exists|pending: bool| #[trigger]
                self.access().may_report(pending) && bits == event_bits(pending),
    {
        let pending = self.has_pending();
        assert(self.access().may_report(pending));
        poll_events(pending)
    }
}

/// A notification orders the window before it rings: the cache maintenance that
/// is due comes first, then the fence, and only then are registers written.
pub proof fn notification_rings_last(device: RtShmDevice, plan: Ioctl, cfg: RtAsyncConfig)
    requires
        device.answers(RT_SHM_IOC_NOTIFY, plan),
        device.doorbell() == doorbell_of(cfg.notifier),
    ensures
        plan matches Ioctl::Notify { sync, doorbell } && {
            &&& device.mode == CoherenceMode::Cbo ==> sync == Some(
                CacheSync {
                    op: CacheOp::CleanInvalidate,
                    vaddr: device.lin_vaddr,
                    size: device.shm_size,
                },
            )
            &&& doorbell@.len() >= 2
            &&& doorbell@[0] == DoorbellAction::Fence
            &&& forall|k: int| 1 <= k < doorbell@.len() ==> #[trigger] doorbell@[k] is Write
        },
{
}

/// `action` is the probe's store of `word`.
pub open spec fn stores_word(action: BootAction, word: u64) -> bool {
    action matches BootAction::Probe(ProbeAction::Store { value, .. }) && value == word
}

/// `action` is the probe's load.
pub open spec fn loads_word(action: BootAction) -> bool {
    action matches BootAction::Probe(ProbeAction::Load { .. })
}

/// The order in which the device is set up. What the boot chain left in the cache
/// is dropped first of all. The probe leaves its dirty line before the window is
/// remapped and goes on after it. The mailbox is reset before its interrupt is
/// enabled, enabled before it is handled, and tested only then.
pub proof fn boot_steps_are_in_order(cfg: RtAsyncConfig, lin_vaddr: usize, i: int, j: int)
    ensures
        ({
            let script = window_script(cfg.shm_phys_base, cfg.shm_size, lin_vaddr)
                + notifier_script(cfg.notifier);
            let remap = BootAction::MapWindow { phys: cfg.shm_phys_base, size: cfg.shm_size };
            &&& script[0] == BootAction::Sync(
                CacheSync { op: CacheOp::Invalidate, vaddr: lin_vaddr, size: cfg.shm_size },
            )
            &&& script.contains(remap)
            &&& 0 <= i < script.len() && 0 <= j < script.len() ==> {
                &&& stores_word(script[i], PBMT_PROBE_A) && script[j] == remap ==> i < j
                &&& script[i] == remap && stores_word(script[j], PBMT_PROBE_B) ==> i < j
                &&& stores_word(script[i], PBMT_PROBE_B) && loads_word(script[j]) ==> i < j
                &&& script[i] is ResetRx && script[j] is Write ==> i < j
                &&& script[i] is Write && script[j] is RequestIrq ==> i < j
                &&& script[i] is RequestIrq && script[j] is SelfTest ==> i < j
                &&& script[i] is MapRegisters && script[j] is ResetRx ==> i < j
            }
        }),
{
    let window = window_script(cfg.shm_phys_base, cfg.shm_size, lin_vaddr);
    let script = window + notifier_script(cfg.notifier);
    let remap = BootAction::MapWindow { phys: cfg.shm_phys_base, size: cfg.shm_size };
    if probe_of(lin_vaddr, cfg.shm_size) is Some {
        assert(script[2] == remap);
    } else {
        assert(script[1] == remap);
    }
}

} // verus!
