use rt_shm::ack::AckAndClear;
use rt_shm::mailbox::{k3_irq_reg, k3_new_msg_mask, K3MboxMmio, MboxAction, RegWrite};
use rt_shm::reset::ResetRx;

/// A mailbox channel that behaves as the documentation says.
struct Channel {
    fifo: u32,
    latched: bool,
    acked: bool,
    enabled: bool,
    clr: u32,
    /// Accesses before which one more message comes in.
    arrivals: Vec<usize>,
    accesses: usize,
}

const USER: u8 = 0;
const CHANNEL: u8 = 1;
const MASK: u32 = 4;

impl Channel {
    fn new(fifo: u32, enabled: bool) -> Self {
        Channel {
            fifo,
            latched: fifo > 0,
            acked: false,
            enabled,
            clr: 0x50,
            arrivals: Vec::new(),
            accesses: 0,
        }
    }

    fn tick(&mut self) {
        if self.arrivals.contains(&self.accesses) {
            self.fifo += 1;
            self.latched = true;
        }
        self.accesses += 1;
    }

    fn read(&mut self, offset: usize) -> u32 {
        self.tick();
        match offset {
            0x100 => 0xa0 | if self.latched { MASK } else { 0 },
            0x108 => 0x0a | if self.enabled { MASK } else { 0 },
            0x104 => self.clr,
            0x044 => {
                self.fifo = self.fifo.saturating_sub(1);
                self.acked = true;
                1
            }
            0x0c4 => 0xab0 | self.fifo.min(15),
            _ => panic!("foreign register {offset:#x}"),
        }
    }

    fn write(&mut self, offset: usize, value: u32) {
        self.tick();
        assert_eq!(offset, 0x104);
        assert!(value & MASK != 0);
        if self.acked && self.fifo == 0 {
            self.latched = false;
        }
        self.acked = false;
        self.clr = value;
    }

    fn run_ack(&mut self, mut program: AckAndClear) -> Vec<MboxAction> {
        let mut log = Vec::new();
        loop {
            let action = program.action();
            log.push(action);
            match action {
                MboxAction::Read { offset } => program.resume(self.read(offset)),
                MboxAction::Write { offset, value } => {
                    self.write(offset, value);
                    program.resume(0);
                }
                MboxAction::Done => return log,
            }
        }
    }

    fn run_reset(&mut self, mut program: ResetRx) -> u32 {
        loop {
            match program.action() {
                MboxAction::Read { offset } => program.resume(self.read(offset)),
                MboxAction::Write { offset, value } => {
                    assert_eq!(value, MASK);
                    self.write(offset, value);
                    program.resume(0);
                }
                MboxAction::Done => return program.drained_messages(),
            }
        }
    }
}

#[test]
fn new_msg_mask_is_the_even_bit() {
    assert_eq!(k3_new_msg_mask(0), 1);
    assert_eq!(k3_new_msg_mask(1), 4);
    assert_eq!(k3_new_msg_mask(15), 1 << 30);
}

#[test]
fn irq_registers_are_laid_out_per_user() {
    assert_eq!(k3_irq_reg(0, 0), 0x100);
    assert_eq!(k3_irq_reg(1, 8), 0x118);
    assert_eq!(k3_irq_reg(2, 4), 0x124);
}

#[test]
fn ringing_enables_the_remote_and_fills_the_fifo() {
    let writes = K3MboxMmio::new(0).signal_to_remote(0, 1);
    assert_eq!(
        writes,
        [
            RegWrite { offset: 0x118, value: 1 },
            RegWrite { offset: 0x40, value: 1 },
        ]
    );
}

#[test]
fn injecting_rings_the_local_user() {
    let writes = K3MboxMmio::new(0).inject_local_message(1);
    assert_eq!(
        writes,
        [
            RegWrite { offset: 0x108, value: 4 },
            RegWrite { offset: 0x44, value: 1 },
        ]
    );
}

#[test]
fn enabling_and_debugging_use_the_local_block() {
    let mbox = K3MboxMmio::new(0);
    assert_eq!(mbox.enable_rx(1), RegWrite { offset: 0x108, value: 4 });
    assert_eq!(mbox.debug_irq_raw(), (0x100, 0x108));
}

#[test]
fn acknowledging_an_idle_channel_only_looks() {
    let mut hw = Channel::new(0, true);
    let log = hw.run_ack(K3MboxMmio::new(USER).ack_and_clear(CHANNEL));
    assert_eq!(
        log,
        vec![
            MboxAction::Read { offset: 0x100 },
            MboxAction::Read { offset: 0x108 },
            MboxAction::Done,
        ]
    );
}

#[test]
fn acknowledging_drains_and_clears() {
    let mut hw = Channel::new(3, true);
    let log = hw.run_ack(K3MboxMmio::new(USER).ack_and_clear(CHANNEL));
    assert_eq!(hw.fifo, 0);
    assert!(!hw.latched);
    // The bits of other channels in the clear register are kept.
    assert_eq!(hw.clr, 0x54);
    // Look, three messages with their counts, read and write clear, look again.
    assert_eq!(log.len(), 2 + 6 + 2 + 2 + 1);
    assert_eq!(log[9], MboxAction::Write { offset: 0x104, value: 0x54 });
}

#[test]
fn a_burst_during_the_clear_is_not_missed() {
    let mut hw = Channel::new(1, true);
    // Look (0, 1), message and count (2, 3), read clear (4), write clear (5):
    // a message comes in just before the write.
    hw.arrivals = vec![5];
    let log = hw.run_ack(K3MboxMmio::new(USER).ack_and_clear(CHANNEL));
    assert_eq!(hw.fifo, 0);
    assert!(!hw.latched);
    let clears = log.iter().filter(|a| matches!(a, MboxAction::Write { .. })).count();
    assert_eq!(clears, 2);
}

#[test]
fn thirty_bursts_are_still_taken_down() {
    let mut hw = Channel::new(1, true);
    hw.arrivals = (0..30).map(|k| 5 + 6 * k).collect();
    hw.run_ack(K3MboxMmio::new(USER).ack_and_clear(CHANNEL));
    assert_eq!(hw.fifo, 0);
    assert!(!hw.latched);
}

#[test]
fn acknowledging_is_bounded_on_stuck_hardware() {
    let mut program = K3MboxMmio::new(USER).ack_and_clear(CHANNEL);
    let (mut accesses, mut clears, mut messages) = (0, 0, 0);
    while program.action() != MboxAction::Done {
        match program.action() {
            MboxAction::Write { .. } => clears += 1,
            MboxAction::Read { offset: 0x44 } => messages += 1,
            _ => {}
        }
        program.resume(u32::MAX);
        accesses += 1;
    }
    assert_eq!(accesses, 32 * (2 + 2 * 64 + 2));
    assert_eq!(clears, 32);
    assert_eq!(messages, 32 * 64);
}

#[test]
fn a_run_that_has_ended_stays_ended() {
    let mut ack = K3MboxMmio::new(USER).ack_and_clear(CHANNEL);
    ack.resume(0);
    ack.resume(0);
    assert_eq!(ack.action(), MboxAction::Done);
    ack.resume(u32::MAX);
    assert_eq!(ack.action(), MboxAction::Done);
    let mut reset = K3MboxMmio::new(USER).reset_rx(CHANNEL);
    for value in [u32::MAX, 0, 0, 0] {
        reset.resume(value);
    }
    assert_eq!(reset.action(), MboxAction::Done);
    reset.resume(u32::MAX);
    assert_eq!(reset.action(), MboxAction::Done);
    assert_eq!(reset.drained_messages(), 1);
}

#[test]
fn a_disabled_channel_is_left_alone() {
    let mut hw = Channel::new(2, false);
    hw.run_ack(K3MboxMmio::new(USER).ack_and_clear(CHANNEL));
    assert_eq!(hw.fifo, 2);
}

#[test]
fn resetting_drops_stale_messages() {
    let mut hw = Channel::new(5, false);
    let dropped = hw.run_reset(K3MboxMmio::new(USER).reset_rx(CHANNEL));
    assert_eq!(dropped, 5);
    assert_eq!(hw.fifo, 0);
    assert!(!hw.latched);
}

#[test]
fn resetting_an_idle_channel_drops_nothing() {
    let mut hw = Channel::new(0, false);
    assert_eq!(hw.run_reset(K3MboxMmio::new(USER).reset_rx(CHANNEL)), 0);
    assert_eq!(hw.accesses, 1);
}

#[test]
fn resetting_is_bounded_on_stuck_hardware() {
    let mut program = K3MboxMmio::new(USER).reset_rx(CHANNEL);
    let mut accesses = 0;
    while program.action() != MboxAction::Done {
        program.resume(u32::MAX);
        accesses += 1;
    }
    assert_eq!(accesses, 3 * 32 + 1);
    assert_eq!(program.drained_messages(), 32);
}
