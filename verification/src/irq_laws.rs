//! Interrupt numbers and routes in plain numbers.

use vstd::prelude::*;

use crate::irq::{
    cause_of, controller_line, cpu_local_irq, is_interrupt, local_irq_of, raw_of, runtime_line,
    trap_of, HwIrq, IrqDomainId, IrqError, IrqId, IrqSource, RiscvTrapIrq, RISCV_INTERRUPT_BIT,
};
use crate::plat::{
    active_irq, affinity_route, begin_route, boot_plan, claimed_irq, enable_route, ipi_id,
    ipi_targets, plic_line_of, resolved, user_cbo_senvcfg, AffinityRoute, BeginRoute, CpuBootRole,
    EnableRoute, IntcInit, IpiTarget, IrqAffinity, IrqDomainKind, IrqDomains, Plat,
};

verus! {

/// A trap is an interrupt exactly if its top bit is set, and its cause is what is
/// left without that bit.
pub proof fn the_top_bit_tells_interrupts(raw: usize)
    ensures
        is_interrupt(raw) <==> raw > usize::MAX / 2,
        is_interrupt(raw) ==> cause_of(raw) == raw - usize::MAX / 2 - 1,
        !is_interrupt(raw) ==> cause_of(raw) == raw,
{
    lemma_all_ones();
    assert((raw & RISCV_INTERRUPT_BIT != 0 <==> raw > !0usize / 2) && (raw & RISCV_INTERRUPT_BIT
        != 0 ==> raw & !RISCV_INTERRUPT_BIT == raw - !0usize / 2 - 1) && (raw & RISCV_INTERRUPT_BIT
        == 0 ==> raw & !RISCV_INTERRUPT_BIT == raw)) by (bit_vector);
}

proof fn lemma_all_ones()
    ensures
        !0usize == usize::MAX,
{
    let m: usize = usize::MAX;
    assert(m <= !0usize) by (bit_vector);
}

/// The kernel uses three CPU-local lines: 1 for inter-processor interrupts, 5 for
/// the timer, and 9 for the interrupt controllers. They are in domain 0xffff.
pub proof fn the_cpu_local_lines(hwirq: HwIrq)
    ensures
        runtime_line(hwirq) <==> hwirq.0 == 1 || hwirq.0 == 5 || hwirq.0 == 9,
        cpu_local_irq(hwirq).domain.0 == 0xffff,
        cpu_local_irq(hwirq).hwirq == hwirq,
{
}

/// A trap stands for the CPU-local line of its own cause, if the kernel uses that
/// line, and for nothing else.
pub proof fn a_trap_stands_for_the_line_of_its_cause(raw: usize)
    ensures
        cause_of(raw) == 1 || cause_of(raw) == 5 || cause_of(raw) == 9 ==> (local_irq_of(
            raw,
        ) matches Some(irq) && irq.domain.0 == 0xffff && irq.hwirq.0 == cause_of(raw)),
        !(cause_of(raw) == 1 || cause_of(raw) == 5 || cause_of(raw) == 9) ==> local_irq_of(raw)
            is None,
{
}

/// A CPU-local interrupt is raised by the trap whose cause is its line and whose
/// top bit is set; any other interrupt is refused.
pub proof fn a_cpu_local_interrupt_has_its_trap(irq: IrqId)
    ensures
        irq.domain.0 == 0xffff && (irq.hwirq.0 == 1 || irq.hwirq.0 == 5 || irq.hwirq.0 == 9)
            ==> (raw_of(irq) matches Ok(raw) && raw == usize::MAX / 2 + 1 + irq.hwirq.0),
        !(irq.domain.0 == 0xffff && (irq.hwirq.0 == 1 || irq.hwirq.0 == 5 || irq.hwirq.0 == 9))
            ==> raw_of(irq) == Err::<usize, IrqError>(IrqError::InvalidIrq),
{
    let line = irq.hwirq.0 as usize;
    lemma_all_ones();
    assert(line < 16 ==> RISCV_INTERRUPT_BIT | line == !0usize / 2 + 1 + line) by (bit_vector);
}

/// Which sources name a line that can be resolved: no ACPI source, a CPU-local
/// line that the kernel uses, and any line of a wired controller.
pub proof fn which_sources_can_be_resolved(
    domain: IrqDomainId,
    hwirq: HwIrq,
    gsi: u32,
    wired: bool,
)
    ensures
        controller_line(IrqSource::AcpiGsi(gsi), wired) == Err::<(), IrqError>(
            IrqError::Unsupported,
        ),
        controller_line(IrqSource::AcpiGsiRoute(gsi), wired) == Err::<(), IrqError>(
            IrqError::Unsupported,
        ),
        ({
            let line = controller_line(IrqSource::ControllerLine { domain, hwirq }, wired);
            &&& line is Ok <==> if domain.0 == 0xffff {
                hwirq.0 == 1 || hwirq.0 == 5 || hwirq.0 == 9
            } else {
                wired
            }
            &&& line matches Err(e) ==> e == IrqError::InvalidIrq
        }),
{
}

/// Domains are told apart by their own entries: the PLIC and the IMSIC by theirs,
/// the APLICs by theirs, and no APLIC is a root.
pub proof fn domains_are_told_by_their_entries(domains: IrqDomains, id: IrqDomainId)
    ensures
        domains.by_kind(IrqDomainKind::RiscvPlic) == domains.plic,
        domains.by_kind(IrqDomainKind::RiscvImsic) == domains.imsic,
        domains.by_kind(IrqDomainKind::RiscvAplic) is None,
        domains.is_kind(id, IrqDomainKind::RiscvPlic) <==> domains.plic == Some(id),
        domains.is_kind(id, IrqDomainKind::RiscvImsic) <==> domains.imsic == Some(id),
        domains.is_kind(id, IrqDomainKind::RiscvAplic) <==> exists|k: int|
            0 <= k < domains.aplics@.len() && #[trigger] domains.aplics@[k] == id,
{
}

/// A claimed PLIC source is the line of its own number in the PLIC's domain.
/// Source zero is none, a source has to fit 32 bits, and without a PLIC there is
/// nothing to claim.
pub proof fn a_claimed_source_is_its_own_line(source: usize, plic: IrqDomainId)
    ensures
        0 < source <= 0xffff_ffff ==> (claimed_irq(source, Some(plic)) matches Ok(irq) && irq.domain
            == plic && irq.hwirq.0 == source),
        source == 0 || source > 0xffff_ffff ==> claimed_irq(source, Some(plic)) == Err::<
            IrqId,
            IrqError,
        >(IrqError::InvalidIrq),
        claimed_irq(source, None) == Err::<IrqId, IrqError>(IrqError::Unsupported),
{
}

/// The PLIC is asked about a line exactly if the line is in the PLIC's domain and
/// in no domain that comes before it.
pub proof fn the_plic_is_asked_about_its_lines(
    domain: IrqDomainId,
    hwirq: HwIrq,
    gsi: u32,
    domains: &IrqDomains,
)
    ensures
        ({
            let line = plic_line_of(IrqSource::ControllerLine { domain, hwirq }, domains);
            if domain.0 != 0xffff && domains.plic == Some(domain) && !domains.aplics@.contains(
                domain,
            ) {
                line == Some(hwirq)
            } else {
                line is None
            }
        }),
        plic_line_of(IrqSource::AcpiGsi(gsi), domains) is None,
        plic_line_of(IrqSource::AcpiGsiRoute(gsi), domains) is None,
{
}

/// What an active interrupt can carry.
pub proof fn what_an_active_interrupt_carries(raw: usize, aia: bool, domains: &IrqDomains)
    ensures
        raw > usize::MAX / 2 ==> (Plat::active_is_valid(raw, aia, domains) <==> (raw - usize::MAX
            / 2 - 1 == 1 || raw - usize::MAX / 2 - 1 == 5 || raw - usize::MAX / 2 - 1 == 9)),
        raw <= usize::MAX / 2 && aia ==> (Plat::active_is_valid(raw, aia, domains)
            <==> domains.imsic is Some),
        raw <= usize::MAX / 2 && !aia ==> (Plat::active_is_valid(raw, aia, domains)
            <==> domains.plic is Some && 0 < raw <= 0xffff_ffff),
{
    the_top_bit_tells_interrupts(raw);
}

/// An interrupt trap is sorted by its cause: 5 is the timer, 1 another CPU, 9 a
/// controller, and anything else is unknown by that cause. What is not an
/// interrupt trap is the bare number of a source.
pub proof fn traps_are_sorted_by_their_cause(raw: usize)
    ensures
        ({
            let cause = (raw - usize::MAX / 2 - 1) as usize;
            let interrupt = raw > usize::MAX / 2;
            &&& !interrupt ==> trap_of(raw) == RiscvTrapIrq::BareSource(raw)
            &&& trap_of(raw) is Timer <==> interrupt && cause == 5
            &&& trap_of(raw) is Ipi <==> interrupt && cause == 1
            &&& trap_of(raw) is External <==> interrupt && cause == 9
            &&& interrupt && cause != 5 && cause != 1 && cause != 9 ==> trap_of(raw) == (
            RiscvTrapIrq::UnknownInterrupt { cause })
        }),
{
    the_top_bit_tells_interrupts(raw);
}

/// Enabling goes where the interrupt is: a CPU-local line that the kernel uses to
/// the CPU, by its own trap; a line of a registered controller to that controller,
/// as it is; and whether to enable or to disable is passed on. Anything else is
/// refused.
pub proof fn enabling_goes_where_the_interrupt_is(irq: IrqId, enable: bool, domains: &IrqDomains)
    ensures
        ({
            let route = enable_route(irq, enable, domains);
            let local = irq.domain.0 == 0xffff;
            let used = irq.hwirq.0 == 1 || irq.hwirq.0 == 5 || irq.hwirq.0 == 9;
            let registered = domains.plic == Some(irq.domain) || domains.imsic == Some(irq.domain)
                || domains.aplics@.contains(irq.domain);
            &&& local && used ==> route == Ok::<EnableRoute, IrqError>(
                EnableRoute::Local {
                    raw: (usize::MAX / 2 + 1 + irq.hwirq.0) as usize,
                    enable,
                },
            )
            &&& !local && registered ==> route == Ok::<EnableRoute, IrqError>(
                EnableRoute::Controller { irq, enable },
            )
            &&& (local && !used) || (!local && !registered) ==> route == Err::<
                EnableRoute,
                IrqError,
            >(IrqError::InvalidIrq)
        }),
{
    a_cpu_local_interrupt_has_its_trap(irq);
}

/// Directing an interrupt to a CPU is for the PLIC to do, with the line and the CPU
/// as they are; lines of the other controllers are bound already, CPU-local lines
/// have no choice, and anything else is refused.
pub proof fn directing_is_for_the_plic(irq: IrqId, affinity: IrqAffinity, domains: &IrqDomains)
    ensures
        ({
            let route = affinity_route(irq, affinity, domains);
            let local = irq.domain.0 == 0xffff;
            let plic = domains.plic == Some(irq.domain);
            let other = domains.imsic == Some(irq.domain) || domains.aplics@.contains(irq.domain);
            &&& local ==> route == Err::<AffinityRoute, IrqError>(IrqError::Unsupported)
            &&& !local && plic ==> route == Ok::<AffinityRoute, IrqError>(
                AffinityRoute::Plic { hwirq: irq.hwirq, affinity },
            )
            &&& !local && !plic && other ==> route == Ok::<AffinityRoute, IrqError>(
                AffinityRoute::Bound,
            )
            &&& !local && !plic && !other ==> route == Err::<AffinityRoute, IrqError>(
                IrqError::InvalidIrq,
            )
        }),
{
}

/// A trap is taken up at the IMSIC exactly if it is an external interrupt and the
/// advanced architecture is in use; else at the PLIC, as it is.
pub proof fn only_external_interrupts_go_to_the_imsic(raw: usize, aia: bool)
    ensures
        begin_route(raw, aia) is Imsic <==> aia && raw == usize::MAX / 2 + 1 + 9,
        !(begin_route(raw, aia) is Imsic) ==> begin_route(raw, aia) == (BeginRoute::Plic { raw }),
{
    traps_are_sorted_by_their_cause(raw);
}

/// The interrupt that is being handled: a trap is the CPU-local line of its cause,
/// a message number is that line of the IMSIC, and a claimed source is that line
/// of the PLIC.
pub proof fn what_is_being_handled(raw: usize, aia: bool, domains: &IrqDomains)
    requires
        Plat::active_is_valid(raw, aia, domains),
    ensures
        ({
            let irq = active_irq(raw, aia, domains);
            &&& raw > usize::MAX / 2 ==> irq.domain.0 == 0xffff && irq.hwirq.0 == raw - usize::MAX
                / 2 - 1
            &&& raw <= usize::MAX / 2 && aia ==> Some(irq.domain) == domains.imsic && irq.hwirq.0
                == raw as int % 0x1_0000_0000
            &&& raw <= usize::MAX / 2 && !aia ==> Some(irq.domain) == domains.plic && irq.hwirq.0
                == raw
        }),
{
    the_top_bit_tells_interrupts(raw);
    let wide = raw as u64;
    assert(raw as u32 == wide % 0x1_0000_0000) by (bit_vector)
        requires
            wide == raw as u64,
    ;
}

/// A source is resolved to the very line that it names, or refused: ACPI sources
/// always, CPU-local lines if the kernel does not use them, lines of the PLIC if
/// the PLIC refuses them, for its own reason, and lines of no wired controller.
pub proof fn a_source_is_resolved_to_its_own_line(
    domain: IrqDomainId,
    hwirq: HwIrq,
    gsi: u32,
    domains: &IrqDomains,
    plic: Result<usize, IrqError>,
)
    ensures
        ({
            let irq = resolved(IrqSource::ControllerLine { domain, hwirq }, domains, plic);
            let local = domain.0 == 0xffff;
            let used = hwirq.0 == 1 || hwirq.0 == 5 || hwirq.0 == 9;
            let aplic = domains.aplics@.contains(domain);
            let asked = !local && !aplic && domains.plic == Some(domain);
            &&& irq matches Ok(id) ==> id.domain == domain && id.hwirq == hwirq
            &&& irq is Ok <==> (local && used) || (!local && aplic) || (asked && plic is Ok)
            &&& asked && plic is Err ==> irq == Err::<IrqId, IrqError>(plic->Err_0)
            &&& irq is Err && !asked ==> irq == Err::<IrqId, IrqError>(IrqError::InvalidIrq)
        }),
        resolved(IrqSource::AcpiGsi(gsi), domains, plic) == Err::<IrqId, IrqError>(
            IrqError::Unsupported,
        ),
        resolved(IrqSource::AcpiGsiRoute(gsi), domains, plic) == Err::<IrqId, IrqError>(
            IrqError::Unsupported,
        ),
{
}

/// At boot a CPU with cache maintenance opens it to user mode, whatever its role.
/// A secondary CPU sets up its own end of the controller that is in use, and the
/// primary none.
pub proof fn what_a_cpu_does_at_boot(
    cpu_idx: usize,
    role: CpuBootRole,
    aia: bool,
    senvcfg: Option<usize>,
)
    ensures
        ({
            let plan = boot_plan(cpu_idx, role, aia, senvcfg);
            &&& plan.senvcfg is Some <==> senvcfg is Some
            &&& senvcfg matches Some(old) ==> plan.senvcfg == Some(user_cbo_senvcfg(old))
            &&& plan.intc is Nothing <==> role is Primary
            &&& plan.intc is Imsic <==> role is Secondary && aia
            &&& plan.intc matches IntcInit::Plic { cpu_idx: idx } ==> idx == cpu_idx
        }),
{
}

/// The inter-processor interrupt is line 1 of domain 0xffff.
pub proof fn the_ipi_is_the_software_interrupt()
    ensures
        ipi_id().domain.0 == 0xffff,
        ipi_id().hwirq.0 == 1,
{
}

/// An inter-processor interrupt for a single CPU is sent to that CPU, once, and to
/// no other.
pub proof fn a_single_target_is_reached_alone(cpu_id: usize)
    ensures
        ipi_targets(IpiTarget::Current { cpu_id }).len() == 1,
        ipi_targets(IpiTarget::Current { cpu_id })[0] == cpu_id,
        ipi_targets(IpiTarget::Other { cpu_id }).len() == 1,
        ipi_targets(IpiTarget::Other { cpu_id })[0] == cpu_id,
{
}

/// A broadcast is sent to each CPU at most once, in ascending order: with
/// [`crate::plat::broadcast_reaches_all_others`], exactly once to each of the
/// others.
pub proof fn a_broadcast_goes_up_from_cpu_to_cpu(cpu_id: usize, cpu_num: usize, i: int, j: int)
    ensures
        ({
            let cpus = ipi_targets(IpiTarget::AllExceptCurrent { cpu_id, cpu_num });
            &&& 0 <= i < j < cpus.len() ==> cpus[i] < cpus[j]
            &&& cpus.len() == if cpu_id < cpu_num {
                cpu_num - 1
            } else {
                cpu_num as int
            }
        }),
{
    lemma_others_ascend(cpu_id, cpu_num as nat);
}

proof fn lemma_others_ascend(except: usize, n: nat)
    requires
        n <= usize::MAX,
    ensures
        ({
            let cpus = crate::plat::others_below(except, n);
            &&& forall|i: int, j: int|
                0 <= i < j < cpus.len() ==> #[trigger] cpus[i] < #[trigger] cpus[j]
            &&& forall|i: int| 0 <= i < cpus.len() ==> #[trigger] cpus[i] < n
            &&& cpus.len() == if except < n {
                n - 1
            } else {
                n as int
            }
        }),
    decreases n,
{
    if n > 0 {
        lemma_others_ascend(except, (n - 1) as nat);
    }
}

/// With cache maintenance open to user mode, bit 6 of `senvcfg` is set, bits 5 and
/// 4 are `01`, and every other bit is as it was.
pub proof fn user_cache_maintenance_bit_by_bit(old: usize, b: usize)
    requires
        b < 32,
    ensures
        ({
            let bit = (user_cbo_senvcfg(old) >> b) & 1;
            if b == 4 || b == 6 {
                bit == 1
            } else if b == 5 {
                bit == 0
            } else {
                bit == (old >> b) & 1
            }
        }),
        user_cbo_senvcfg(old) >> 7 == old >> 7,
{
    assert(b == 4 || b == 6 ==> (user_cbo_senvcfg(old) >> b) & 1 == 1) by (bit_vector);
    assert(b == 5 ==> (user_cbo_senvcfg(old) >> b) & 1 == 0) by (bit_vector);
    assert(b < 32 && b != 4 && b != 5 && b != 6 ==> (user_cbo_senvcfg(old) >> b) & 1 == (old >> b)
        & 1) by (bit_vector);
    assert(user_cbo_senvcfg(old) >> 7 == old >> 7) by (bit_vector);
}

} // verus!
