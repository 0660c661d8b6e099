//! The interrupt routing rules of the RISC-V platform.
//!
//! Every rule says where a request goes; the platform code carries it there.

use vstd::prelude::*;

use crate::irq::{
    classify_riscv_trap, controller_line, cause_of, cpu_local_irq, is_interrupt, local_irq_of,
    raw_of, riscv_cpu_local_hwirq_is_runtime_irq, riscv_cpu_local_irq_from_raw, riscv_local_irq_raw,
    riscv_resolve_controller_line, runtime_line, trap_of, HwIrq, IrqDomainId, IrqError, IrqId,
    IrqSource,
    RiscvTrapIrq, CPU_LOCAL_IRQ_DOMAIN, RISCV_INTERRUPT_BIT, RISCV_S_EXT_CAUSE,
    RISCV_S_SOFT_CAUSE,
};

verus! {

/// The kind of an interrupt controller domain.
#[derive(Debug, Clone, Copy, PartialEq, Eq, Structural)]
pub enum IrqDomainKind {
    /// Platform-level interrupt controller.
    RiscvPlic,
    /// Advanced platform-level interrupt controller: wired lines.
    RiscvAplic,
    /// Incoming message-signalled interrupt controller.
    RiscvImsic,
}

/// The registered interrupt controller domains. There is at most one PLIC and at
/// most one IMSIC, each a root; APLICs are children of the IMSIC, and there may
/// be several.
#[derive(Debug, Clone, PartialEq, Eq)]
pub struct IrqDomains {
    /// The domain of the PLIC.
    pub plic: Option<IrqDomainId>,
    /// The domains of the APLICs.
    pub aplics: Vec<IrqDomainId>,
    /// The domain of the IMSIC.
    pub imsic: Option<IrqDomainId>,
}

impl IrqDomains {
    /// The root domain of kind `kind`. No APLIC is one.
    pub open spec fn by_kind(&self, kind: IrqDomainKind) -> Option<IrqDomainId> {
        match kind {
            IrqDomainKind::RiscvPlic => self.plic,
            IrqDomainKind::RiscvAplic => None,
            IrqDomainKind::RiscvImsic => self.imsic,
        }
    }

    /// Whether `id` is a domain of kind `kind`.
    pub open spec fn is_kind(&self, id: IrqDomainId, kind: IrqDomainKind) -> bool {
        match kind {
            IrqDomainKind::RiscvPlic => self.plic == Some(id),
            IrqDomainKind::RiscvAplic => self.aplics@.contains(id),
            IrqDomainKind::RiscvImsic => self.imsic == Some(id),
        }
    }

    /// The root domain of kind `kind`. No APLIC is one.
    pub fn domain_by_kind_fast(&self, kind: IrqDomainKind) -> (id: Option<IrqDomainId>)
        ensures
            id == self.by_kind(kind),
    {
        match kind {
            IrqDomainKind::RiscvPlic => self.plic,
            IrqDomainKind::RiscvAplic => None,
            IrqDomainKind::RiscvImsic => self.imsic,
        }
    }

    /// Whether `id` is a domain of kind `kind`.
    pub fn domain_is_kind(&self, id: IrqDomainId, kind: IrqDomainKind) -> (is: bool)
        ensures
            is == self.is_kind(id, kind),
    {
        match kind {
            IrqDomainKind::RiscvAplic => self.is_aplic(id),
            IrqDomainKind::RiscvPlic | IrqDomainKind::RiscvImsic => {
                match self.domain_by_kind_fast(kind) {
                    Some(domain) => domain == id,
                    None => false,
                }
            },
        }
    }

    /// Whether `id` is the domain of an APLIC.
    fn is_aplic(&self, id: IrqDomainId) -> (is: bool)
        ensures
            is == self.aplics@.contains(id),
    {
        let n: usize = self.aplics.len();
        let mut i: usize = 0;
        while i < n
            invariant
                n == self.aplics@.len(),
                i <= n,
                forall|j: int| 0 <= j < i ==> #[trigger] self.aplics@[j] != id,
            decreases n - i,
        {
            if self.aplics[i] == id {
                assert(self.aplics@[i as int] == id);
                return true;
            }
            i = i + 1;
        }
        false
    }
}

/// Where enabling or disabling an interrupt goes.
#[derive(Debug, Clone, Copy, PartialEq, Eq, Structural)]
pub enum EnableRoute {
    /// To the CPU: the interrupt is raised by the trap `raw`.
    Local { raw: usize, enable: bool },
    /// To the controller of the interrupt's domain.
    Controller { irq: IrqId, enable: bool },
}

/// Which CPU is to receive an interrupt.
#[derive(Debug, Clone, Copy, PartialEq, Eq, Structural)]
pub enum IrqAffinity {
    /// Any.
    Any,
    /// This one.
    Fixed { cpu_id: usize },
}

/// Where directing an interrupt to a CPU goes.
#[derive(Debug, Clone, Copy, PartialEq, Eq, Structural)]
pub enum AffinityRoute {
    /// To the PLIC.
    Plic { hwirq: HwIrq, affinity: IrqAffinity },
    /// Nowhere: the source was bound to its CPU when it was enabled.
    Bound,
}

/// Where a trap is taken up.
#[derive(Debug, Clone, Copy, PartialEq, Eq, Structural)]
pub enum BeginRoute {
    /// At the incoming message-signalled interrupt controller.
    Imsic,
    /// At the PLIC, which also handles CPU-local traps.
    Plic { raw: usize },
}

/// The part that a CPU plays at boot.
#[derive(Debug, Clone, Copy, PartialEq, Eq, Structural)]
pub enum CpuBootRole {
    /// It boots the others.
    Primary,
    /// It is booted.
    Secondary,
}

/// Which controller a CPU sets up for itself at boot.
#[derive(Debug, Clone, Copy, PartialEq, Eq, Structural)]
pub enum IntcInit {
    /// None: it was set up with the system.
    Nothing,
    /// The incoming message-signalled interrupt controller.
    Imsic,
    /// The PLIC, for the CPU `cpu_idx`.
    Plic { cpu_idx: usize },
}

/// What a CPU does about interrupts at boot.
#[derive(Debug, Clone, Copy, PartialEq, Eq, Structural)]
pub struct BootIrqPlan {
    /// Value to write to `senvcfg` first, if any.
    pub senvcfg: Option<usize>,
    /// The controller to set up.
    pub intc: IntcInit,
}

/// Where an inter-processor interrupt goes.
#[derive(Debug, Clone, Copy, PartialEq, Eq, Structural)]
pub enum IpiTarget {
    /// To the CPU that sends it.
    Current { cpu_id: usize },
    /// To another CPU.
    Other { cpu_id: usize },
    /// To all of the `cpu_num` CPUs but the one that sends it.
    AllExceptCurrent { cpu_id: usize, cpu_num: usize },
}

/// `senvcfg` bit that lets user mode clean and flush cache blocks.
pub const SENVCFG_CBCFE: usize = 0x40;

/// `senvcfg` field that says what user mode may do to invalidate cache blocks.
pub const SENVCFG_CBIE: usize = 0x30;

/// `senvcfg` field value that lets user mode invalidate cache blocks, with the
/// effect of a flush: a dirty block is written back before it is dropped.
pub const SENVCFG_CBIE_FLUSH_SEMANTICS: usize = 0x10;

/// The value of `senvcfg` that opens cache maintenance to user mode, where it
/// was `old`.
pub open spec fn user_cbo_senvcfg(old: usize) -> usize {
    (old & !0x70usize) | 0x50
}

/// The value of `senvcfg` that opens cache maintenance to user mode, where it
/// was `old`. Whatever the invalidation field held is replaced, so that an
/// invalidation by user mode never drops dirty data.
pub fn enable_user_cbo(old: usize) -> (new: usize)
    ensures
        new == user_cbo_senvcfg(old),
{
    let kept: usize = old & !(SENVCFG_CBCFE | SENVCFG_CBIE);
    assert((old & !(0x40usize | 0x30usize)) | (0x40usize | 0x10usize) == (old & !0x70usize)
        | 0x50) by (bit_vector);
    kept | (SENVCFG_CBCFE | SENVCFG_CBIE_FLUSH_SEMANTICS)
}

/// With cache maintenance open to user mode, cleaning and flushing are allowed,
/// an invalidation acts as a flush, and every other bit of `senvcfg` is as it
/// was.
pub proof fn user_invalidation_acts_as_flush(old: usize)
    ensures
        user_cbo_senvcfg(old) & SENVCFG_CBCFE == SENVCFG_CBCFE,
        user_cbo_senvcfg(old) & SENVCFG_CBIE == SENVCFG_CBIE_FLUSH_SEMANTICS,
        user_cbo_senvcfg(old) & !(SENVCFG_CBCFE | SENVCFG_CBIE) == old & !(SENVCFG_CBCFE
            | SENVCFG_CBIE),
{
    assert(user_cbo_senvcfg(old) & SENVCFG_CBCFE == SENVCFG_CBCFE && user_cbo_senvcfg(old)
        & SENVCFG_CBIE == SENVCFG_CBIE_FLUSH_SEMANTICS && user_cbo_senvcfg(old) & !(SENVCFG_CBCFE
        | SENVCFG_CBIE) == old & !(SENVCFG_CBCFE | SENVCFG_CBIE)) by (bit_vector);
}

/// The interrupt that a claimed PLIC source stands for.
pub fn plic_irq_id_from_claimed_source(source: usize, domains: &IrqDomains) -> (irq: Result<
    IrqId,
    IrqError,
>)
    ensures
        irq == claimed_irq(source, domains.by_kind(IrqDomainKind::RiscvPlic)),
{
    match domains.domain_by_kind_fast(IrqDomainKind::RiscvPlic) {
        None => Err(IrqError::Unsupported),
        Some(domain) => {
            if source > u32::MAX as usize || source == 0 {
                Err(IrqError::InvalidIrq)
            } else {
                Ok(IrqId::new(domain, HwIrq(source as u32)))
            }
        },
    }
}

/// The interrupt that the claimed source `source` of the PLIC `plic` stands for.
pub open spec fn claimed_irq(source: usize, plic: Option<IrqDomainId>) -> Result<IrqId, IrqError> {
    match plic {
        None => Err(IrqError::Unsupported),
        Some(domain) => if 0 < source <= u32::MAX {
            Ok(IrqId { domain, hwirq: HwIrq(source as u32) })
        } else {
            Err(IrqError::InvalidIrq)
        },
    }
}

/// The CPU-local interrupt of line `hwirq`, if it is one that this kernel uses.
pub fn checked_cpu_local_irq(hwirq: HwIrq) -> (irq: Result<IrqId, IrqError>)
    ensures
        irq == (if runtime_line(hwirq) {
            Ok::<IrqId, IrqError>(cpu_local_irq(hwirq))
        } else {
            Err(IrqError::InvalidIrq)
        }),
{
    if riscv_cpu_local_hwirq_is_runtime_irq(hwirq) {
        Ok(IrqId::new(IrqDomainId(CPU_LOCAL_IRQ_DOMAIN), hwirq))
    } else {
        Err(IrqError::InvalidIrq)
    }
}

/// The RISC-V platform.
pub struct Plat;

impl Plat {
    /// Where enabling or disabling `irq` goes. A CPU-local interrupt has to be
    /// one that the kernel uses; any other has to belong to a PLIC, an APLIC or
    /// an IMSIC.
    pub fn irq_set_enable(irq: IrqId, enable: bool, domains: &IrqDomains) -> (route: Result<
        EnableRoute,
        IrqError,
    >)
        ensures
            route == enable_route(irq, enable, domains),
            route == (if irq.domain.0 == CPU_LOCAL_IRQ_DOMAIN {
                match raw_of(irq) {
                    Ok(raw) => Ok(EnableRoute::Local { raw, enable }),
                    Err(e) => Err(e),
                }
            } else if domains.is_kind(irq.domain, IrqDomainKind::RiscvPlic) || domains.is_kind(
                irq.domain,
                IrqDomainKind::RiscvAplic,
            ) || domains.is_kind(irq.domain, IrqDomainKind::RiscvImsic) {
                Ok(EnableRoute::Controller { irq, enable })
            } else {
                Err(IrqError::InvalidIrq)
            }),
    {
        if irq.domain.0 == CPU_LOCAL_IRQ_DOMAIN {
            return match riscv_local_irq_raw(irq) {
                Ok(raw) => Ok(EnableRoute::Local { raw, enable }),
                Err(e) => Err(e),
            };
        }
        if domains.domain_is_kind(irq.domain, IrqDomainKind::RiscvPlic) || domains.domain_is_kind(
            irq.domain,
            IrqDomainKind::RiscvAplic,
        ) || domains.domain_is_kind(irq.domain, IrqDomainKind::RiscvImsic) {
            return Ok(EnableRoute::Controller { irq, enable });
        }
        Err(IrqError::InvalidIrq)
    }

    /// Where directing `irq` to a CPU goes. CPU-local interrupts have no
    /// choice; the PLIC is told; APLIC and IMSIC sources were bound when they
    /// were enabled.
    pub fn irq_set_affinity(irq: IrqId, affinity: IrqAffinity, domains: &IrqDomains) -> (route:
        Result<AffinityRoute, IrqError>)
        ensures
            route == affinity_route(irq, affinity, domains),
            route == (if irq.domain.0 == CPU_LOCAL_IRQ_DOMAIN {
                Err(IrqError::Unsupported)
            } else if domains.is_kind(irq.domain, IrqDomainKind::RiscvPlic) {
                Ok(AffinityRoute::Plic { hwirq: irq.hwirq, affinity })
            } else if domains.is_kind(irq.domain, IrqDomainKind::RiscvAplic) || domains.is_kind(
                irq.domain,
                IrqDomainKind::RiscvImsic,
            ) {
                Ok(AffinityRoute::Bound)
            } else {
                Err(IrqError::InvalidIrq)
            }),
    {
        if irq.domain.0 == CPU_LOCAL_IRQ_DOMAIN {
            return Err(IrqError::Unsupported);
        }
        if domains.domain_is_kind(irq.domain, IrqDomainKind::RiscvPlic) {
            return Ok(AffinityRoute::Plic { hwirq: irq.hwirq, affinity });
        }
        if domains.domain_is_kind(irq.domain, IrqDomainKind::RiscvAplic) || domains.domain_is_kind(
            irq.domain,
            IrqDomainKind::RiscvImsic,
        ) {
            return Ok(AffinityRoute::Bound);
        }
        Err(IrqError::InvalidIrq)
    }

    /// Where the trap `raw` is taken up: external interrupts go to the IMSIC if
    /// the advanced interrupt architecture is in use, everything else to the
    /// PLIC.
    pub fn begin_irq(raw: usize, aia_active: bool) -> (route: BeginRoute)
        ensures
            route == begin_route(raw, aia_active),
            route == (if aia_active && is_interrupt(raw) && cause_of(raw) == RISCV_S_EXT_CAUSE {
                BeginRoute::Imsic
            } else {
                BeginRoute::Plic { raw }
            }),
    {
        match classify_riscv_trap(raw) {
            RiscvTrapIrq::External => if aia_active {
                BeginRoute::Imsic
            } else {
                BeginRoute::Plic { raw }
            },
            _ => BeginRoute::Plic { raw },
        }
    }

    /// Whether `raw` is what an active interrupt can carry: a CPU-local trap
    /// that the kernel uses, a message number with an IMSIC to attribute it to,
    /// or a source that a PLIC can have handed out.
    pub open spec fn active_is_valid(raw: usize, aia_active: bool, domains: &IrqDomains) -> bool {
        if is_interrupt(raw) {
            local_irq_of(raw) is Some
        } else if aia_active {
            domains.by_kind(IrqDomainKind::RiscvImsic) is Some
        } else {
            claimed_irq(raw, domains.by_kind(IrqDomainKind::RiscvPlic)) is Ok
        }
    }

    /// The interrupt that is being handled. A message number is attributed to
    /// the IMSIC, from where it is routed on to its leaf.
    pub fn active_irq_id(raw: usize, aia_active: bool, domains: &IrqDomains) -> (irq: IrqId)
        requires
            Self::active_is_valid(raw, aia_active, domains),
        ensures
            irq == active_irq(raw, aia_active, domains),
            irq == (if is_interrupt(raw) {
                local_irq_of(raw)->0
            } else if aia_active {
                IrqId {
                    domain: domains.by_kind(IrqDomainKind::RiscvImsic)->0,
                    hwirq: HwIrq(raw as u32),
                }
            } else {
                claimed_irq(raw, domains.by_kind(IrqDomainKind::RiscvPlic))->Ok_0
            }),
    {
        if raw & RISCV_INTERRUPT_BIT != 0 {
            riscv_cpu_local_irq_from_raw(raw).unwrap()
        } else if aia_active {
            let imsic = domains.domain_by_kind_fast(IrqDomainKind::RiscvImsic).unwrap();
            IrqId::new(imsic, HwIrq(#[verifier::truncate] (raw as u32)))
        } else {
            plic_irq_id_from_claimed_source(raw, domains).unwrap()
        }
    }

    /// The interrupt of the system tick, which is raised by the trap `raw`.
    pub fn systick_irq(raw: usize) -> (irq: IrqId)
        requires
            local_irq_of(raw) is Some,
        ensures
            Some(irq) == local_irq_of(raw),
    {
        riscv_cpu_local_irq_from_raw(raw).unwrap()
    }

    /// The line that the PLIC has to be asked about before `source` can be
    /// resolved: only its own lines.
    pub fn plic_line(source: IrqSource, domains: &IrqDomains) -> (line: Option<HwIrq>)
        ensures
            line == plic_line_of(source, domains),
    {
        match source {
            IrqSource::ControllerLine { domain, hwirq } => {
                if domain.0 != CPU_LOCAL_IRQ_DOMAIN && !domains.domain_is_kind(
                    domain,
                    IrqDomainKind::RiscvAplic,
                ) && domains.domain_is_kind(domain, IrqDomainKind::RiscvPlic) {
                    Some(hwirq)
                } else {
                    None
                }
            },
            IrqSource::AcpiGsi(_) | IrqSource::AcpiGsiRoute(_) => None,
        }
    }

    /// The interrupt that `source` names. `plic_source` is what the PLIC says
    /// of [`Plat::plic_line`], and matters only where there is one.
    pub fn resolve_irq_source(
        source: IrqSource,
        domains: &IrqDomains,
        plic_source: Result<usize, IrqError>,
    ) -> (irq: Result<IrqId, IrqError>)
        ensures
            irq == resolved(source, domains, plic_source),
            irq == (match source {
                IrqSource::ControllerLine { domain, hwirq } => {
                    if domain.0 == CPU_LOCAL_IRQ_DOMAIN {
                        if runtime_line(hwirq) {
                            Ok(cpu_local_irq(hwirq))
                        } else {
                            Err(IrqError::InvalidIrq)
                        }
                    } else if domains.is_kind(domain, IrqDomainKind::RiscvAplic) {
                        Ok(IrqId { domain, hwirq })
                    } else if domains.is_kind(domain, IrqDomainKind::RiscvPlic) {
                        match plic_source {
                            Ok(_) => Ok(IrqId { domain, hwirq }),
                            Err(e) => Err(e),
                        }
                    } else {
                        Err(IrqError::InvalidIrq)
                    }
                },
                _ => Err(IrqError::Unsupported),
            }),
    {
        let wired = match source {
            IrqSource::ControllerLine { domain, hwirq: _ } => domains.domain_is_kind(
                domain,
                IrqDomainKind::RiscvPlic,
            ) || domains.domain_is_kind(domain, IrqDomainKind::RiscvAplic),
            _ => false,
        };
        match riscv_resolve_controller_line(source, wired) {
            Err(e) => return Err(e),
            Ok(()) => {},
        }
        match source {
            IrqSource::ControllerLine { domain, hwirq } => {
                if domain.0 == CPU_LOCAL_IRQ_DOMAIN {
                    checked_cpu_local_irq(hwirq)
                } else if domains.domain_is_kind(domain, IrqDomainKind::RiscvAplic) {
                    Ok(IrqId::new(domain, hwirq))
                } else {
                    match plic_source {
                        Ok(_) => Ok(IrqId::new(domain, hwirq)),
                        Err(e) => Err(e),
                    }
                }
            },
            IrqSource::AcpiGsi(_) | IrqSource::AcpiGsiRoute(_) => Err(IrqError::Unsupported),
        }
    }

    /// What the CPU `cpu_idx` does about interrupts at boot: it opens cache
    /// maintenance to user mode if it has it, and a secondary CPU sets up its
    /// end of the controller that is in use. `senvcfg` is what that register
    /// holds, on a CPU with cache maintenance instructions.
    pub fn init_boot_irq_cpu(
        cpu_idx: usize,
        role: CpuBootRole,
        aia_active: bool,
        senvcfg: Option<usize>,
    ) -> (plan: BootIrqPlan)
        ensures
            plan == boot_plan(cpu_idx, role, aia_active, senvcfg),
            plan.senvcfg == (match senvcfg {
                Some(old) => Some(user_cbo_senvcfg(old)),
                None => None,
            }),
            plan.intc == (match role {
                CpuBootRole::Primary => IntcInit::Nothing,
                CpuBootRole::Secondary => if aia_active {
                    IntcInit::Imsic
                } else {
                    IntcInit::Plic { cpu_idx }
                },
            }),
    {
        let senvcfg = match senvcfg {
            Some(old) => Some(enable_user_cbo(old)),
            None => None,
        };
        let intc = match role {
            CpuBootRole::Primary => IntcInit::Nothing,
            CpuBootRole::Secondary => if aia_active {
                IntcInit::Imsic
            } else {
                IntcInit::Plic { cpu_idx }
            },
        };
        BootIrqPlan { senvcfg, intc }
    }

    /// The CPUs that an inter-processor interrupt is sent to, in order, or
    /// `None` if `irq` is not the inter-processor interrupt.
    pub fn send_ipi(irq: IrqId, target: IpiTarget) -> (cpus: Option<Vec<usize>>)
        ensures
            cpus is Some <==> irq == ipi_id(),
            cpus matches Some(list) ==> list@ == ipi_targets(target),
    {
        if irq.domain != Self::ipi_irq().domain || irq.hwirq != Self::ipi_irq().hwirq {
            return None;
        }
        let mut cpus: Vec<usize> = Vec::new();
        match target {
            IpiTarget::Current { cpu_id } => {
                cpus.push(cpu_id);
            },
            IpiTarget::Other { cpu_id } => {
                cpus.push(cpu_id);
            },
            IpiTarget::AllExceptCurrent { cpu_id, cpu_num } => {
                let mut target_cpu: usize = 0;
                while target_cpu < cpu_num
                    invariant
                        target_cpu <= cpu_num,
                        cpus@ == others_below(cpu_id, target_cpu as nat),
                    decreases cpu_num - target_cpu,
                {
                    if target_cpu != cpu_id {
                        cpus.push(target_cpu);
                    }
                    target_cpu = target_cpu + 1;
                }
            },
        }
        assert(cpus@ =~= ipi_targets(target));
        Some(cpus)
    }

    /// The inter-processor interrupt.
    pub fn ipi_irq() -> (irq: IrqId)
        ensures
            irq == ipi_id(),
    {
        IrqId::new(IrqDomainId(CPU_LOCAL_IRQ_DOMAIN), HwIrq(1))
    }
}

/// Where enabling or disabling `irq` goes.
pub open spec fn enable_route(irq: IrqId, enable: bool, domains: &IrqDomains) -> Result<
    EnableRoute,
    IrqError,
> {
    if irq.domain.0 == CPU_LOCAL_IRQ_DOMAIN {
        match raw_of(irq) {
            Ok(raw) => Ok(EnableRoute::Local { raw, enable }),
            Err(e) => Err(e),
        }
    } else if has_controller(irq.domain, domains) {
        Ok(EnableRoute::Controller { irq, enable })
    } else {
        Err(IrqError::InvalidIrq)
    }
}

/// Whether `id` is the domain of a controller that is registered.
pub open spec fn has_controller(id: IrqDomainId, domains: &IrqDomains) -> bool {
    ||| domains.is_kind(id, IrqDomainKind::RiscvPlic)
    ||| domains.is_kind(id, IrqDomainKind::RiscvAplic)
    ||| domains.is_kind(id, IrqDomainKind::RiscvImsic)
}

/// Where directing `irq` to a CPU goes.
pub open spec fn affinity_route(irq: IrqId, affinity: IrqAffinity, domains: &IrqDomains) -> Result<
    AffinityRoute,
    IrqError,
> {
    if irq.domain.0 == CPU_LOCAL_IRQ_DOMAIN {
        Err(IrqError::Unsupported)
    } else if domains.is_kind(irq.domain, IrqDomainKind::RiscvPlic) {
        Ok(AffinityRoute::Plic { hwirq: irq.hwirq, affinity })
    } else if has_controller(irq.domain, domains) {
        Ok(AffinityRoute::Bound)
    } else {
        Err(IrqError::InvalidIrq)
    }
}

/// Where the trap `raw` is taken up.
pub open spec fn begin_route(raw: usize, aia_active: bool) -> BeginRoute {
    if aia_active && trap_of(raw) == RiscvTrapIrq::External {
        BeginRoute::Imsic
    } else {
        BeginRoute::Plic { raw }
    }
}

/// The interrupt that is being handled, if it carries `raw`.
pub open spec fn active_irq(raw: usize, aia_active: bool, domains: &IrqDomains) -> IrqId {
    if is_interrupt(raw) {
        local_irq_of(raw)->0
    } else if aia_active {
        IrqId {
            domain: domains.by_kind(IrqDomainKind::RiscvImsic)->0,
            hwirq: HwIrq(raw as u32),
        }
    } else {
        claimed_irq(raw, domains.by_kind(IrqDomainKind::RiscvPlic))->Ok_0
    }
}

/// The interrupt that `source` names, if the PLIC says `plic_source`.
pub open spec fn resolved(
    source: IrqSource,
    domains: &IrqDomains,
    plic_source: Result<usize, IrqError>,
) -> Result<IrqId, IrqError> {
    match source {
        IrqSource::ControllerLine { domain, hwirq } => {
            let irq = IrqId { domain, hwirq };
            if domain.0 == CPU_LOCAL_IRQ_DOMAIN {
                if runtime_line(hwirq) {
                    Ok(irq)
                } else {
                    Err(IrqError::InvalidIrq)
                }
            } else if domains.is_kind(domain, IrqDomainKind::RiscvAplic) {
                Ok(irq)
            } else if domains.is_kind(domain, IrqDomainKind::RiscvPlic) {
                match plic_source {
                    Ok(_) => Ok(irq),
                    Err(e) => Err(e),
                }
            } else {
                Err(IrqError::InvalidIrq)
            }
        },
        _ => Err(IrqError::Unsupported),
    }
}

/// What the CPU `cpu_idx` does about interrupts at boot.
pub open spec fn boot_plan(
    cpu_idx: usize,
    role: CpuBootRole,
    aia_active: bool,
    senvcfg: Option<usize>,
) -> BootIrqPlan {
    BootIrqPlan {
        senvcfg: match senvcfg {
            Some(old) => Some(user_cbo_senvcfg(old)),
            None => None,
        },
        intc: match role {
            CpuBootRole::Primary => IntcInit::Nothing,
            CpuBootRole::Secondary => if aia_active {
                IntcInit::Imsic
            } else {
                IntcInit::Plic { cpu_idx }
            },
        },
    }
}

/// The line that the PLIC has to be asked about before `source` can be resolved.
pub open spec fn plic_line_of(source: IrqSource, domains: &IrqDomains) -> Option<HwIrq> {
    match source {
        IrqSource::ControllerLine { domain, hwirq } if domain.0 != CPU_LOCAL_IRQ_DOMAIN
            && !domains.is_kind(domain, IrqDomainKind::RiscvAplic) && domains.is_kind(
            domain,
            IrqDomainKind::RiscvPlic,
        ) => Some(hwirq),
        _ => None,
    }
}

/// The inter-processor interrupt: the CPU-local software interrupt.
pub open spec fn ipi_id() -> IrqId {
    cpu_local_irq(HwIrq(RISCV_S_SOFT_CAUSE as u32))
}

/// The numbers below `n` in ascending order, without `cpu`.
pub open spec fn others_below(cpu: usize, n: nat) -> Seq<usize>
    decreases n,
{
    if n == 0 {
        Seq::empty()
    } else if n - 1 == cpu {
        others_below(cpu, (n - 1) as nat)
    } else {
        others_below(cpu, (n - 1) as nat).push((n - 1) as usize)
    }
}

/// The CPUs that an inter-processor interrupt for `target` is sent to.
pub open spec fn ipi_targets(target: IpiTarget) -> Seq<usize> {
    match target {
        IpiTarget::Current { cpu_id } => seq![cpu_id],
        IpiTarget::Other { cpu_id } => seq![cpu_id],
        IpiTarget::AllExceptCurrent { cpu_id, cpu_num } => others_below(cpu_id, cpu_num as nat),
    }
}

/// A broadcast reaches every other CPU, and never the one that sends it.
pub proof fn broadcast_reaches_all_others(cpu_id: usize, cpu_num: usize, cpu: usize)
    ensures
        ipi_targets(IpiTarget::AllExceptCurrent { cpu_id, cpu_num }).contains(cpu) <==> (cpu
            < cpu_num && cpu != cpu_id),
{
    lemma_others_below(cpu_id, cpu_num as nat, cpu);
}

proof fn lemma_others_below(except: usize, n: nat, cpu: usize)
    requires
        n <= usize::MAX,
    ensures
        others_below(except, n).contains(cpu) <==> (cpu < n && cpu != except),
    decreases n,
{
    if n > 0 {
        lemma_others_below(except, (n - 1) as nat, cpu);
        let rest = others_below(except, (n - 1) as nat);
        if n - 1 != except {
            let all = rest.push((n - 1) as usize);
            if rest.contains(cpu) {
                let k = rest.index_of(cpu);
                assert(all[k] == cpu);
            }
            if cpu == n - 1 {
                assert(all[all.len() - 1] == cpu);
            }
            if all.contains(cpu) && cpu != n - 1 {
                let k = all.index_of(cpu);
                assert(rest[k] == cpu);
            }
        }
    }
}

/// The inter-processor interrupt is a CPU-local line that the kernel uses: it is
/// enabled at the CPU, and accepted as a source without any controller.
pub proof fn ipi_is_cpu_local()
    ensures
        ipi_id().domain.0 == CPU_LOCAL_IRQ_DOMAIN,
        runtime_line(ipi_id().hwirq),
        raw_of(ipi_id()) == Ok::<usize, IrqError>(RISCV_INTERRUPT_BIT | 1),
        controller_line(
            IrqSource::ControllerLine { domain: ipi_id().domain, hwirq: ipi_id().hwirq },
            false,
        ) is Ok,
{
}

} // verus!
