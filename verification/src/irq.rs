//! Interrupt numbers and how RISC-V traps map to them.

use vstd::prelude::*;

verus! {

/// An interrupt controller domain.
#[derive(Debug, Clone, Copy, PartialEq, Eq, Hash, Structural)]
pub struct IrqDomainId(pub u16);

/// An interrupt line within a domain.
#[derive(Debug, Clone, Copy, PartialEq, Eq, Hash, Structural)]
pub struct HwIrq(pub u32);

/// An interrupt: a line of a domain.
#[derive(Debug, Clone, Copy, PartialEq, Eq, Hash, Structural)]
pub struct IrqId {
    /// The domain.
    pub domain: IrqDomainId,
    /// The line within the domain.
    pub hwirq: HwIrq,
}

impl IrqId {
    /// Line `hwirq` of `domain`.
    pub fn new(domain: IrqDomainId, hwirq: HwIrq) -> (irq: Self)
        ensures
            irq == (IrqId { domain, hwirq }),
    {
        Self { domain, hwirq }
    }
}

/// Errors of interrupt operations.
#[derive(Debug, Clone, Copy, PartialEq, Eq, Structural)]
pub enum IrqError {
    /// There is no such interrupt.
    InvalidIrq,
    /// There is no such CPU.
    InvalidCpu,
    /// The target CPU is offline.
    CpuOffline,
    /// The operation took too long.
    Timeout,
    /// The line or its controller is in use.
    Busy,
    /// There was not enough memory.
    NoMemory,
    /// There is no such registration.
    NotFound,
    /// The operation is not allowed in interrupt context.
    InIrqContext,
    /// The operation does not apply to the interrupt.
    Unsupported,
    /// The controller is missing or failed.
    Controller,
}

/// What firmware or a driver names an interrupt by.
#[derive(Debug, Clone, Copy, PartialEq, Eq, Structural)]
pub enum IrqSource {
    /// An ACPI global system interrupt.
    AcpiGsi(u32),
    /// An ACPI global system interrupt with explicit routing.
    AcpiGsiRoute(u32),
    /// A line of a controller.
    ControllerLine { domain: IrqDomainId, hwirq: HwIrq },
}

/// Number of the domain of the interrupts that a CPU raises by itself.
pub const CPU_LOCAL_IRQ_DOMAIN: u16 = 0xffff;

/// The bit of a trap cause that tells interrupts from exceptions.
pub const RISCV_INTERRUPT_BIT: usize = 1usize << (usize::BITS - 1);

/// Cause of a supervisor software interrupt.
pub const RISCV_S_SOFT_CAUSE: usize = 1;

/// Cause of a supervisor timer interrupt.
pub const RISCV_S_TIMER_CAUSE: usize = 5;

/// Cause of a supervisor external interrupt.
pub const RISCV_S_EXT_CAUSE: usize = 9;

/// What a trap cause or a claimed source stands for.
#[derive(Debug, Clone, Copy, PartialEq, Eq, Structural)]
pub enum RiscvTrapIrq {
    /// The timer.
    Timer,
    /// Another CPU.
    Ipi,
    /// An interrupt controller.
    External,
    /// An interrupt that this kernel does not use.
    UnknownInterrupt { cause: usize },
    /// Not a trap cause, but the bare number of a controller source.
    BareSource(usize),
}

/// Whether `raw` has the interrupt bit set.
pub open spec fn is_interrupt(raw: usize) -> bool {
    raw & RISCV_INTERRUPT_BIT != 0
}

/// The cause of the trap `raw`, without the interrupt bit.
pub open spec fn cause_of(raw: usize) -> usize {
    raw & !RISCV_INTERRUPT_BIT
}

/// What the raw trap cause `raw` stands for.
pub open spec fn trap_of(raw: usize) -> RiscvTrapIrq {
    let cause = cause_of(raw);
    if !is_interrupt(raw) {
        RiscvTrapIrq::BareSource(raw)
    } else if cause == RISCV_S_TIMER_CAUSE {
        RiscvTrapIrq::Timer
    } else if cause == RISCV_S_SOFT_CAUSE {
        RiscvTrapIrq::Ipi
    } else if cause == RISCV_S_EXT_CAUSE {
        RiscvTrapIrq::External
    } else {
        RiscvTrapIrq::UnknownInterrupt { cause }
    }
}

/// Sorts a raw trap cause.
pub fn classify_riscv_trap(raw: usize) -> (trap: RiscvTrapIrq)
    ensures
        trap == trap_of(raw),
        trap == (if !is_interrupt(raw) {
            RiscvTrapIrq::BareSource(raw)
        } else if cause_of(raw) == RISCV_S_TIMER_CAUSE {
            RiscvTrapIrq::Timer
        } else if cause_of(raw) == RISCV_S_SOFT_CAUSE {
            RiscvTrapIrq::Ipi
        } else if cause_of(raw) == RISCV_S_EXT_CAUSE {
            RiscvTrapIrq::External
        } else {
            RiscvTrapIrq::UnknownInterrupt { cause: cause_of(raw) }
        }),
{
    if raw & RISCV_INTERRUPT_BIT == 0 {
        return RiscvTrapIrq::BareSource(raw);
    }
    let cause: usize = raw & !RISCV_INTERRUPT_BIT;
    if cause == RISCV_S_TIMER_CAUSE {
        RiscvTrapIrq::Timer
    } else if cause == RISCV_S_SOFT_CAUSE {
        RiscvTrapIrq::Ipi
    } else if cause == RISCV_S_EXT_CAUSE {
        RiscvTrapIrq::External
    } else {
        RiscvTrapIrq::UnknownInterrupt { cause }
    }
}

/// Whether the CPU-local line `hwirq` is one that this kernel uses.
pub open spec fn runtime_line(hwirq: HwIrq) -> bool {
    hwirq.0 == RISCV_S_TIMER_CAUSE || hwirq.0 == RISCV_S_SOFT_CAUSE || hwirq.0
        == RISCV_S_EXT_CAUSE
}

/// Line `hwirq` of the CPU-local domain.
pub open spec fn cpu_local_irq(hwirq: HwIrq) -> IrqId {
    IrqId { domain: IrqDomainId(CPU_LOCAL_IRQ_DOMAIN), hwirq }
}

/// Whether the CPU-local line `hwirq` is one that this kernel uses: the timer,
/// the software interrupt, or the cascade of an interrupt controller.
pub fn riscv_cpu_local_hwirq_is_runtime_irq(hwirq: HwIrq) -> (runtime: bool)
    ensures
        runtime == runtime_line(hwirq),
{
    let line: usize = hwirq.0 as usize;
    line == RISCV_S_TIMER_CAUSE || line == RISCV_S_SOFT_CAUSE || line == RISCV_S_EXT_CAUSE
}

/// The CPU-local interrupt that the trap `raw` stands for, if it is one that
/// this kernel uses.
pub fn riscv_cpu_local_irq_from_raw(raw: usize) -> (irq: Option<IrqId>)
    ensures
        irq == local_irq_of(raw),
{
    let cause: usize = raw & !RISCV_INTERRUPT_BIT;
    if cause <= u32::MAX as usize {
        let hwirq = HwIrq(cause as u32);
        if riscv_cpu_local_hwirq_is_runtime_irq(hwirq) {
            Some(IrqId::new(IrqDomainId(CPU_LOCAL_IRQ_DOMAIN), hwirq))
        } else {
            None
        }
    } else {
        None
    }
}

/// The CPU-local interrupt that the trap `raw` stands for, if it is one that
/// this kernel uses.
pub open spec fn local_irq_of(raw: usize) -> Option<IrqId> {
    let cause = cause_of(raw);
    if cause == RISCV_S_TIMER_CAUSE || cause == RISCV_S_SOFT_CAUSE || cause == RISCV_S_EXT_CAUSE {
        Some(cpu_local_irq(HwIrq(cause as u32)))
    } else {
        None
    }
}

/// The trap that the CPU-local interrupt `irq` is raised by.
pub fn riscv_local_irq_raw(irq: IrqId) -> (raw: Result<usize, IrqError>)
    ensures
        raw == raw_of(irq),
{
    if irq.domain.0 != CPU_LOCAL_IRQ_DOMAIN || !riscv_cpu_local_hwirq_is_runtime_irq(irq.hwirq) {
        return Err(IrqError::InvalidIrq);
    }
    Ok(RISCV_INTERRUPT_BIT | irq.hwirq.0 as usize)
}

/// The trap that the CPU-local interrupt `irq` is raised by, if it is one that
/// this kernel uses.
pub open spec fn raw_of(irq: IrqId) -> Result<usize, IrqError> {
    if irq.domain.0 == CPU_LOCAL_IRQ_DOMAIN && runtime_line(irq.hwirq) {
        Ok(RISCV_INTERRUPT_BIT | irq.hwirq.0 as usize)
    } else {
        Err(IrqError::InvalidIrq)
    }
}

/// Encoding a CPU-local interrupt as a trap and decoding it again gives the
/// interrupt back, and the trap carries the interrupt bit.
pub proof fn raw_round_trip(irq: IrqId)
    requires
        irq.domain.0 == CPU_LOCAL_IRQ_DOMAIN,
        runtime_line(irq.hwirq),
    ensures
        raw_of(irq) matches Ok(raw) && is_interrupt(raw) && local_irq_of(raw) == Some(irq),
{
    let line = irq.hwirq.0 as usize;
    let raw = RISCV_INTERRUPT_BIT | line;
    assert(raw & RISCV_INTERRUPT_BIT != 0 && raw & !RISCV_INTERRUPT_BIT == line) by (bit_vector)
        requires
            raw == RISCV_INTERRUPT_BIT | line,
            line < 16,
    ;
}

/// Whether a source names a line that this platform can resolve: an ACPI source
/// is foreign, a CPU-local line has to be one that the kernel uses, and any
/// other line has to belong to a wired controller.
pub fn riscv_resolve_controller_line(source: IrqSource, wired: bool) -> (line: Result<
    (),
    IrqError,
>)
    ensures
        line == controller_line(source, wired),
{
    match source {
        IrqSource::ControllerLine { domain, hwirq } => {
            if domain.0 == CPU_LOCAL_IRQ_DOMAIN {
                if riscv_cpu_local_hwirq_is_runtime_irq(hwirq) {
                    Ok(())
                } else {
                    Err(IrqError::InvalidIrq)
                }
            } else if wired {
                Ok(())
            } else {
                Err(IrqError::InvalidIrq)
            }
        },
        IrqSource::AcpiGsi(_) | IrqSource::AcpiGsiRoute(_) => Err(IrqError::Unsupported),
    }
}

/// Whether a source names a line that this platform can resolve.
pub open spec fn controller_line(source: IrqSource, wired: bool) -> Result<(), IrqError> {
    match source {
        IrqSource::ControllerLine { domain, hwirq } => if (if domain.0 == CPU_LOCAL_IRQ_DOMAIN {
            runtime_line(hwirq)
        } else {
            wired
        }) {
            Ok(())
        } else {
            Err(IrqError::InvalidIrq)
        },
        _ => Err(IrqError::Unsupported),
    }
}

} // verus!
