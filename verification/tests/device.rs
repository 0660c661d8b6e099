use rt_shm::coherence::{CacheOp, CacheSync, CoherenceMode, ProbeAction, PBMT_PROBE_A, PBMT_PROBE_B};
use rt_shm::config::{NotifierConfig, RtAsyncConfig};
use rt_shm::device::{
    boot_script, BootAction, Ioctl, RtShmDevice, RT_SHM_IOC_AWAIT, RT_SHM_IOC_CLR_PENDING,
    RT_SHM_IOC_NOTIFY, RT_SHM_IOC_TEST_MBOX,
};
use rt_shm::irq::{HwIrq, IrqDomainId, IrqId};
use rt_shm::mailbox::RegWrite;
use rt_shm::notifier::DoorbellAction;
use rt_shm::selftest::TestAction;
use rt_shm::vfs::{poll_events, rt_shm_device_id};
use rt_shm::wait::{AwaitRun, ShmError};
use rt_shm::{SharedMemory, DEFAULT_CHANNELS};

const LIN: usize = 0xffff_ffc0_c080_0000;

fn k3() -> RtAsyncConfig {
    RtAsyncConfig {
        shm_phys_base: 0xc080_0000,
        shm_size: 0x1_9000,
        notifier: NotifierConfig::K3Mailbox {
            mbox_phys: 0xcac9_1000,
            tx_channel: 0,
            rx_channel: 1,
            rx_irq: IrqId { domain: IrqDomainId(8), hwirq: HwIrq(217) },
        },
    }
}

fn virt() -> RtAsyncConfig {
    RtAsyncConfig {
        shm_phys_base: 0xc080_0000,
        shm_size: 0x1_9000,
        notifier: NotifierConfig::ClintMsip { msip_phys: 0x0200_0004, ipi_irq: 1 },
    }
}

fn region() -> &'static SharedMemory<DEFAULT_CHANNELS> {
    let shm: &'static SharedMemory<DEFAULT_CHANNELS> = Box::leak(Box::new(SharedMemory::new()));
    shm.init();
    shm
}

fn device(cfg: RtAsyncConfig, lin_vaddr: usize, readback: u64) -> RtShmDevice {
    RtShmDevice::new(cfg, lin_vaddr, readback, region())
}

fn whole(op: CacheOp) -> CacheSync {
    CacheSync { op, vaddr: LIN, size: 0x1_9000 }
}

#[test]
fn the_mailbox_device_is_set_up_in_order() {
    let line = LIN + 0x1_9000 - 64;
    assert_eq!(
        boot_script(k3(), LIN),
        vec![
            BootAction::Sync(whole(CacheOp::Invalidate)),
            BootAction::Probe(ProbeAction::Store { addr: line, value: PBMT_PROBE_A }),
            BootAction::MapWindow { phys: 0xc080_0000, size: 0x1_9000 },
            BootAction::Probe(ProbeAction::Store { addr: line, value: PBMT_PROBE_B }),
            BootAction::Probe(ProbeAction::Sync(CacheSync {
                op: CacheOp::Invalidate,
                vaddr: line,
                size: 64,
            })),
            BootAction::Probe(ProbeAction::Load { addr: line }),
            BootAction::Probe(ProbeAction::Sync(CacheSync {
                op: CacheOp::CleanInvalidate,
                vaddr: line,
                size: 64,
            })),
            BootAction::MapRegisters { phys: 0xcac9_1000, offset: 0 },
            BootAction::ResetRx { channel: 1 },
            BootAction::Write(RegWrite { offset: 0x108, value: 4 }),
            BootAction::RequestIrq {
                irq: IrqId { domain: IrqDomainId(8), hwirq: HwIrq(217) },
                channel: 1,
            },
            BootAction::SelfTest,
        ]
    );
}

#[test]
fn a_mailbox_within_a_page_keeps_its_offset() {
    let mut cfg = k3();
    if let NotifierConfig::K3Mailbox { mbox_phys, .. } = &mut cfg.notifier {
        *mbox_phys = 0xcac9_1400;
    }
    assert!(boot_script(cfg, LIN)
        .contains(&BootAction::MapRegisters { phys: 0xcac9_1000, offset: 0x400 }));
}

#[test]
fn the_clint_device_is_set_up_in_order() {
    let script = boot_script(virt(), LIN + 1);
    assert_eq!(
        script,
        vec![
            BootAction::Sync(CacheSync {
                op: CacheOp::Invalidate,
                vaddr: LIN + 1,
                size: 0x1_9000,
            }),
            BootAction::MapWindow { phys: 0xc080_0000, size: 0x1_9000 },
            BootAction::RequestLocalIrq {
                irq: IrqId { domain: IrqDomainId(0xffff), hwirq: HwIrq(1) },
            },
            BootAction::MapRegisters { phys: 0x0200_0000, offset: 0 },
        ]
    );
}

#[test]
fn the_probe_decides_the_mode() {
    assert_eq!(device(k3(), LIN, PBMT_PROBE_B).mode, CoherenceMode::PbmtNc);
    assert_eq!(device(k3(), LIN, 0).mode, CoherenceMode::Cbo);
    // Without a probe the word does not matter.
    assert_eq!(device(k3(), LIN + 1, PBMT_PROBE_B).mode, CoherenceMode::Cbo);
}

#[test]
fn a_device_keeps_its_configuration() {
    let dev = device(k3(), LIN, 0);
    assert_eq!(dev.shm_phys_base, 0xc080_0000);
    assert_eq!(dev.shm_size, 0x1_9000);
    assert_eq!(dev.lin_vaddr, LIN);
    assert_eq!(dev.test_mbox.map(|(mbox, rx)| (mbox.user_local, rx)), Some((0, 1)));
    assert_eq!(device(virt(), LIN, 0).test_mbox, None);
}

#[test]
fn reading_and_writing_are_not_supported() {
    let dev = device(virt(), LIN, 0);
    assert_eq!(dev.read_at(0), Err(ShmError::Unsupported));
    assert_eq!(dev.write_at(0), Err(ShmError::Unsupported));
}

#[test]
fn notify_flushes_a_cached_window() {
    let bell = || {
        vec![
            DoorbellAction::Fence,
            DoorbellAction::Write(RegWrite { offset: 4, value: 1 }),
        ]
    };
    let mut cached = device(virt(), LIN, 0);
    // Each request rings once.
    for _ in 0..2 {
        assert_eq!(
            cached.ioctl(RT_SHM_IOC_NOTIFY, 0),
            Ioctl::Notify { sync: Some(whole(CacheOp::CleanInvalidate)), doorbell: bell() }
        );
    }
    let mut direct = device(virt(), LIN, PBMT_PROBE_B);
    assert_eq!(
        direct.ioctl(RT_SHM_IOC_NOTIFY, 0),
        Ioctl::Notify { sync: None, doorbell: bell() }
    );
}

#[test]
fn await_starts_a_wait() {
    let mut dev = device(virt(), LIN, 0);
    assert_eq!(
        dev.ioctl(RT_SHM_IOC_AWAIT, 0),
        Ioctl::Await(AwaitRun::start(CoherenceMode::Cbo, LIN, 0x1_9000))
    );
}

#[test]
fn clearing_pending_does_nothing() {
    let mut dev = device(virt(), LIN, 0);
    assert_eq!(dev.ioctl(RT_SHM_IOC_CLR_PENDING, 99), Ioctl::Return(Ok(0)));
}

#[test]
fn only_a_mailbox_can_be_tested() {
    assert_eq!(device(k3(), LIN, 0).ioctl(RT_SHM_IOC_TEST_MBOX, 0), Ioctl::SelfTest);
    let mut clint = device(virt(), LIN, 0);
    assert_eq!(
        clint.ioctl(RT_SHM_IOC_TEST_MBOX, 0),
        Ioctl::Return(Err(ShmError::Unsupported))
    );
    assert_eq!(clint.test_k3_mailbox_irq(0).err(), Some(ShmError::Unsupported));
}

#[test]
fn unknown_requests_are_refused() {
    let mut dev = device(virt(), LIN, 0);
    for cmd in [0, 0x7350_00, 0x7350_05, u32::MAX] {
        assert_eq!(dev.ioctl(cmd, 0), Ioctl::Return(Err(ShmError::InvalidInput)));
    }
}

#[test]
fn mapping_covers_the_whole_window() {
    let cached = device(virt(), LIN, 0).mmap(0x1000, 0x10);
    assert_eq!((cached.start, cached.end), (0xc080_0000, 0xc081_9000));
    assert_eq!(cached.sync, Some(whole(CacheOp::Invalidate)));
    let direct = device(virt(), LIN, PBMT_PROBE_B).mmap(0, 0);
    assert_eq!((direct.start, direct.end), (0xc080_0000, 0xc081_9000));
    assert_eq!(direct.sync, None);
}

#[test]
fn mappings_are_flagged_non_cacheable() {
    let bits = device(virt(), LIN, 0).flags();
    assert_eq!(bits, 2);
    assert_eq!(bits, axfs_ng_vfs::NodeFlags::NON_CACHEABLE.bits());
}

#[test]
fn polling_reports_room_and_messages() {
    let shm = region();
    let dev = RtShmDevice::new(virt(), LIN, 0, shm);
    assert!(!dev.has_pending());
    assert_eq!(dev.poll(), axpoll::IoEvents::OUT.bits());
    let sender = shm.sender(ov_channels::ChannelId::new(1)).unwrap();
    sender.try_send(&ov_channels::Message::notification(7)).unwrap();
    assert!(dev.has_pending());
    assert_eq!(dev.poll(), (axpoll::IoEvents::OUT | axpoll::IoEvents::IN).bits());
    assert_eq!(poll_events(false), 4);
    assert_eq!(poll_events(true), 5);
}

#[test]
fn requests_to_the_peer_are_not_pending() {
    let shm = region();
    let dev = RtShmDevice::new(virt(), LIN, 0, shm);
    let sender = shm.sender(ov_channels::ChannelId::new(0)).unwrap();
    sender.try_send(&ov_channels::Message::notification(7)).unwrap();
    assert_eq!(dev.poll(), 4);
}

#[test]
fn the_device_number_packs_major_and_minor() {
    assert_eq!(rt_shm_device_id(), 0xac8);
    let id = axfs_ng_vfs::DeviceId(rt_shm_device_id());
    assert_eq!((id.major(), id.minor()), (10, 200));
}

/// Runs the self-test with the interrupt count that each look finds.
fn selftest(mut count_at: impl FnMut(usize) -> usize) -> (Vec<TestAction>, usize) {
    let mut run = device(k3(), LIN, 0).test_k3_mailbox_irq(7).unwrap();
    let mut log = Vec::new();
    let mut looks = 0;
    loop {
        let action = run.action();
        match action {
            TestAction::Count => {
                run.resume(count_at(looks));
                looks += 1;
            }
            TestAction::Return(_) => {
                log.push(action);
                return (log, looks);
            }
            _ => {
                log.push(action);
                run.resume(0);
            }
        }
    }
}

#[test]
fn the_selftest_reports_the_interrupts_that_came() {
    let (log, looks) = selftest(|look| if look < 10 { 7 } else { 9 });
    assert_eq!(looks, 11);
    assert_eq!(
        log,
        vec![
            TestAction::Write(RegWrite { offset: 0x108, value: 4 }),
            TestAction::Write(RegWrite { offset: 0x108, value: 4 }),
            TestAction::Write(RegWrite { offset: 0x44, value: 1 }),
            TestAction::Return(Ok(2)),
        ]
    );
}

#[test]
fn the_selftest_tries_again() {
    let (log, looks) = selftest(|look| if look < 100_000 { 7 } else { 8 });
    assert_eq!(looks, 100_001);
    assert_eq!(log[3], TestAction::Read { offset: 0x100 });
    assert_eq!(log[4], TestAction::Read { offset: 0x108 });
    assert_eq!(log.last(), Some(&TestAction::Return(Ok(1))));
}

#[test]
fn the_selftest_gives_up_after_three_attempts() {
    let (log, looks) = selftest(|_| 7);
    assert_eq!(looks, 300_000);
    assert_eq!(log.len(), 3 * 5 + 1);
    assert_eq!(log.last(), Some(&TestAction::Return(Err(ShmError::Io))));
}
