use rt_shm::config::{NotifierConfig, RtAsyncConfig};
use rt_shm::device::backend;
use rt_shm::irq::{HwIrq, IrqDomainId, IrqId};
use rt_shm::mailbox::{K3MboxMmio, MboxAction, RegWrite};
use rt_shm::notifier::{
    irq_is_logged, register_page, wakes_waiter, ClintIpiSender, DoorbellAction, IpiBackend,
    K3MailboxIpiSender, K3MailboxIrqEndpoint,
};
use rt_shm::{
    ChannelId, Event, IpiIrqEndpoint, IpiSender, OvChannelsShmAccess, RtShmCore, SharedMemory,
    ShmAccess, DEFAULT_CHANNELS,
};

fn region() -> &'static SharedMemory<DEFAULT_CHANNELS> {
    let shm: &'static SharedMemory<DEFAULT_CHANNELS> = Box::leak(Box::new(SharedMemory::new()));
    shm.init();
    shm
}

fn send(shm: &'static SharedMemory<DEFAULT_CHANNELS>, channel: u8) {
    let sender = shm.sender(ov_channels::ChannelId::new(channel)).unwrap();
    sender.try_send(&ov_channels::Message::notification(7)).unwrap();
}

struct Counting {
    rings: u32,
}

impl IpiSender for Counting {
    fn notify_peer(&mut self) {
        self.rings += 1;
    }
}

struct Fixed(bool);

impl ShmAccess for Fixed {
    fn has_pending(&self) -> bool {
        self.0
    }
}

#[test]
fn core_looks_through_its_access() {
    assert!(RtShmCore::new(Fixed(true), Counting { rings: 0 }).has_pending());
    assert!(!RtShmCore::new(Fixed(false), Counting { rings: 0 }).has_pending());
}

#[test]
fn core_rings_its_sender_once() {
    let mut core = RtShmCore::new(Fixed(false), Counting { rings: 0 });
    core.notify_peer();
    assert_eq!(core.sender().rings, 1);
    core.notify_peer();
    assert_eq!(core.sender().rings, 2);
}

#[test]
fn a_message_on_the_reply_channel_is_pending() {
    let shm = region();
    let access = OvChannelsShmAccess::new(shm, rt_shm::channels::ch_from_rt_async());
    let core = RtShmCore::new(access, Counting { rings: 0 });
    assert!(!core.has_pending());
    send(shm, 1);
    assert!(core.has_pending());
    // Looking takes nothing out.
    assert!(core.has_pending());
    let receiver = shm.receiver(ov_channels::ChannelId::new(1)).unwrap();
    assert!(receiver.try_recv().is_some());
    assert!(!core.has_pending());
}

#[test]
fn a_message_on_another_channel_is_not_pending() {
    let shm = region();
    let access = OvChannelsShmAccess::new(shm, ChannelId::new(1));
    send(shm, 0);
    send(shm, 2);
    assert!(!access.has_pending());
}

#[test]
fn a_channel_that_does_not_exist_is_never_pending() {
    let shm = region();
    send(shm, 0);
    assert!(!OvChannelsShmAccess::new(shm, ChannelId::new(3)).has_pending());
    assert!(!OvChannelsShmAccess::new(shm, ChannelId::new(255)).has_pending());
}

#[test]
fn the_last_channel_exists() {
    let shm = region();
    send(shm, 2);
    assert!(OvChannelsShmAccess::new(shm, ChannelId::new(2)).has_pending());
}

#[test]
fn pending_follows_the_receiving_end() {
    assert!(rt_shm::channels::pending_of(Some(true)));
    assert!(!rt_shm::channels::pending_of(Some(false)));
    assert!(!rt_shm::channels::pending_of(None));
}

#[test]
fn channel_numbers_are_kept() {
    assert_eq!(ChannelId::new(200).get(), 200);
    assert_eq!(rt_shm::channels::ch_from_rt_async().get(), 1);
}

#[test]
fn the_clint_is_rung_after_a_fence() {
    let sender = ClintIpiSender::new(0x0200_0004);
    let mut core = RtShmCore::new(Fixed(false), sender);
    core.notify_peer();
    assert_eq!(
        core.sender().take_posted(),
        vec![
            DoorbellAction::Fence,
            DoorbellAction::Write(RegWrite { offset: 4, value: 1 }),
        ]
    );
    assert!(core.sender().take_posted().is_empty());
}

#[test]
fn the_mailbox_is_rung_after_a_fence() {
    let mut sender = K3MailboxIpiSender::new(K3MboxMmio::new(0), 0, 1);
    sender.notify_peer();
    sender.notify_peer();
    let once = [
        DoorbellAction::Fence,
        DoorbellAction::Write(RegWrite { offset: 0x118, value: 1 }),
        DoorbellAction::Write(RegWrite { offset: 0x40, value: 1 }),
    ];
    assert_eq!(sender.take_posted(), [once, once].concat());
}

#[test]
fn backends_follow_the_configuration() {
    let clint = RtAsyncConfig {
        shm_phys_base: 0,
        shm_size: 0,
        notifier: NotifierConfig::ClintMsip { msip_phys: 0x0200_0ff8, ipi_irq: 1 },
    };
    let mut bell = backend(clint);
    assert!(matches!(bell, IpiBackend::Clint(_)));
    bell.notify_peer();
    assert_eq!(
        bell.take_posted()[1],
        DoorbellAction::Write(RegWrite { offset: 0xff8, value: 1 })
    );
    let mailbox = RtAsyncConfig {
        shm_phys_base: 0,
        shm_size: 0,
        notifier: NotifierConfig::K3Mailbox {
            mbox_phys: 0xcac9_1000,
            tx_channel: 2,
            rx_channel: 1,
            rx_irq: IrqId { domain: IrqDomainId(9), hwirq: HwIrq(217) },
        },
    };
    let mut bell = backend(mailbox);
    assert!(matches!(bell, IpiBackend::K3Mbox(_)));
    bell.notify_peer();
    assert_eq!(
        bell.take_posted()[1..],
        [
            DoorbellAction::Write(RegWrite { offset: 0x118, value: 16 }),
            DoorbellAction::Write(RegWrite { offset: 0x48, value: 1 }),
        ]
    );
}

#[test]
fn the_endpoint_starts_an_acknowledgement_each_time() {
    let mut endpoint = K3MailboxIrqEndpoint::new(K3MboxMmio::new(0), 1);
    for _ in 0..2 {
        assert_eq!(endpoint.handle_irq(), Event::PeerNotify);
        let mut program = endpoint.program();
        assert_eq!(program.action(), MboxAction::Read { offset: 0x100 });
        program.resume(0);
        assert_eq!(program.action(), MboxAction::Read { offset: 0x108 });
        program.resume(0);
        assert_eq!(program.action(), MboxAction::Done);
    }
}

#[test]
fn only_the_peer_wakes_the_waiter() {
    assert!(wakes_waiter(Event::PeerNotify));
    assert!(!wakes_waiter(Event::Spurious));
}

#[test]
fn the_first_five_interrupts_are_logged() {
    assert!(irq_is_logged(1));
    assert!(irq_is_logged(5));
    assert!(!irq_is_logged(6));
}

#[test]
fn registers_are_mapped_by_the_page() {
    assert_eq!(register_page(0x0200_0004), (0x0200_0000, 4));
    assert_eq!(register_page(0xcac9_1000), (0xcac9_1000, 0));
    assert_eq!(register_page(0xfff), (0, 0xfff));
}
