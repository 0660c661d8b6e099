use rt_shm::irq::{
    classify_riscv_trap, riscv_cpu_local_hwirq_is_runtime_irq, riscv_cpu_local_irq_from_raw,
    riscv_local_irq_raw, riscv_resolve_controller_line, HwIrq, IrqDomainId, IrqError, IrqId,
    IrqSource, RiscvTrapIrq, CPU_LOCAL_IRQ_DOMAIN, RISCV_INTERRUPT_BIT,
};
use rt_shm::plat::{
    checked_cpu_local_irq, enable_user_cbo, plic_irq_id_from_claimed_source, AffinityRoute,
    BeginRoute, BootIrqPlan, CpuBootRole, EnableRoute, IntcInit, IpiTarget, IrqAffinity,
    IrqDomainKind, IrqDomains, Plat,
};

const BIT: usize = RISCV_INTERRUPT_BIT;

fn domains() -> IrqDomains {
    IrqDomains {
        plic: Some(IrqDomainId(4)),
        aplics: vec![IrqDomainId(8), IrqDomainId(9)],
        imsic: Some(IrqDomainId(7)),
    }
}

fn none() -> IrqDomains {
    IrqDomains { plic: None, aplics: Vec::new(), imsic: None }
}

fn irq(domain: u16, line: u32) -> IrqId {
    IrqId { domain: IrqDomainId(domain), hwirq: HwIrq(line) }
}

fn line(domain: u16, line: u32) -> IrqSource {
    IrqSource::ControllerLine { domain: IrqDomainId(domain), hwirq: HwIrq(line) }
}

#[test]
fn domains_are_found_by_kind() {
    assert_eq!(domains().domain_by_kind_fast(IrqDomainKind::RiscvPlic), Some(IrqDomainId(4)));
    // APLICs are children.
    assert_eq!(domains().domain_by_kind_fast(IrqDomainKind::RiscvAplic), None);
    assert_eq!(domains().domain_by_kind_fast(IrqDomainKind::RiscvImsic), Some(IrqDomainId(7)));
    assert_eq!(none().domain_by_kind_fast(IrqDomainKind::RiscvPlic), None);
    assert!(domains().domain_is_kind(IrqDomainId(4), IrqDomainKind::RiscvPlic));
    assert!(!domains().domain_is_kind(IrqDomainId(4), IrqDomainKind::RiscvAplic));
    assert!(domains().domain_is_kind(IrqDomainId(8), IrqDomainKind::RiscvAplic));
    assert!(domains().domain_is_kind(IrqDomainId(9), IrqDomainKind::RiscvAplic));
    assert!(domains().domain_is_kind(IrqDomainId(7), IrqDomainKind::RiscvImsic));
    assert!(!none().domain_is_kind(IrqDomainId(4), IrqDomainKind::RiscvPlic));
}

#[test]
fn trap_causes_are_sorted() {
    assert_eq!(BIT, 1 << 63);
    assert_eq!(classify_riscv_trap(BIT | 5), RiscvTrapIrq::Timer);
    assert_eq!(classify_riscv_trap(BIT | 1), RiscvTrapIrq::Ipi);
    assert_eq!(classify_riscv_trap(BIT | 9), RiscvTrapIrq::External);
    assert_eq!(classify_riscv_trap(BIT | 3), RiscvTrapIrq::UnknownInterrupt { cause: 3 });
    assert_eq!(classify_riscv_trap(9), RiscvTrapIrq::BareSource(9));
}

#[test]
fn local_interrupts_round_trip_through_traps() {
    for cause in [1, 5, 9] {
        let id = irq(CPU_LOCAL_IRQ_DOMAIN, cause);
        assert!(riscv_cpu_local_hwirq_is_runtime_irq(HwIrq(cause)));
        let raw = riscv_local_irq_raw(id).unwrap();
        assert_eq!(raw, BIT | cause as usize);
        assert_eq!(riscv_cpu_local_irq_from_raw(raw), Some(id));
    }
    assert_eq!(riscv_local_irq_raw(irq(CPU_LOCAL_IRQ_DOMAIN, 2)), Err(IrqError::InvalidIrq));
    assert_eq!(riscv_local_irq_raw(irq(4, 1)), Err(IrqError::InvalidIrq));
    assert_eq!(riscv_cpu_local_irq_from_raw(BIT | 2), None);
    assert_eq!(riscv_cpu_local_irq_from_raw(BIT | 0x1_0000_0001), None);
}

#[test]
fn claimed_sources_belong_to_the_plic() {
    assert_eq!(plic_irq_id_from_claimed_source(217, &domains()), Ok(irq(4, 217)));
    assert_eq!(plic_irq_id_from_claimed_source(0, &domains()), Err(IrqError::InvalidIrq));
    assert_eq!(
        plic_irq_id_from_claimed_source(0x1_0000_0000, &domains()),
        Err(IrqError::InvalidIrq)
    );
    assert_eq!(plic_irq_id_from_claimed_source(217, &none()), Err(IrqError::Unsupported));
}

#[test]
fn local_lines_are_checked() {
    assert_eq!(checked_cpu_local_irq(HwIrq(5)), Ok(irq(CPU_LOCAL_IRQ_DOMAIN, 5)));
    assert_eq!(checked_cpu_local_irq(HwIrq(6)), Err(IrqError::InvalidIrq));
}

#[test]
fn enabling_is_routed() {
    assert_eq!(
        Plat::irq_set_enable(irq(CPU_LOCAL_IRQ_DOMAIN, 5), true, &domains()),
        Ok(EnableRoute::Local { raw: BIT | 5, enable: true })
    );
    assert_eq!(
        Plat::irq_set_enable(irq(CPU_LOCAL_IRQ_DOMAIN, 4), true, &domains()),
        Err(IrqError::InvalidIrq)
    );
    for domain in [4, 7, 8] {
        assert_eq!(
            Plat::irq_set_enable(irq(domain, 2), false, &domains()),
            Ok(EnableRoute::Controller { irq: irq(domain, 2), enable: false })
        );
    }
    assert_eq!(Plat::irq_set_enable(irq(3, 2), true, &domains()), Err(IrqError::InvalidIrq));
}

#[test]
fn affinity_is_routed() {
    let fixed = IrqAffinity::Fixed { cpu_id: 2 };
    assert_eq!(
        Plat::irq_set_affinity(irq(CPU_LOCAL_IRQ_DOMAIN, 5), fixed, &domains()),
        Err(IrqError::Unsupported)
    );
    assert_eq!(
        Plat::irq_set_affinity(irq(4, 9), fixed, &domains()),
        Ok(AffinityRoute::Plic { hwirq: HwIrq(9), affinity: fixed })
    );
    assert_eq!(
        Plat::irq_set_affinity(irq(8, 9), IrqAffinity::Any, &domains()),
        Ok(AffinityRoute::Bound)
    );
    assert_eq!(Plat::irq_set_affinity(irq(7, 9), fixed, &domains()), Ok(AffinityRoute::Bound));
    assert_eq!(Plat::irq_set_affinity(irq(3, 9), fixed, &domains()), Err(IrqError::InvalidIrq));
}

#[test]
fn external_traps_go_to_the_imsic_if_it_is_active() {
    assert_eq!(Plat::begin_irq(BIT | 9, true), BeginRoute::Imsic);
    assert_eq!(Plat::begin_irq(BIT | 9, false), BeginRoute::Plic { raw: BIT | 9 });
    assert_eq!(Plat::begin_irq(BIT | 5, true), BeginRoute::Plic { raw: BIT | 5 });
    assert_eq!(Plat::begin_irq(9, true), BeginRoute::Plic { raw: 9 });
}

#[test]
fn active_interrupts_are_attributed() {
    assert_eq!(
        Plat::active_irq_id(BIT | 1, true, &domains()),
        irq(CPU_LOCAL_IRQ_DOMAIN, 1)
    );
    assert_eq!(Plat::active_irq_id(33, true, &domains()), irq(7, 33));
    assert_eq!(Plat::active_irq_id(33, false, &domains()), irq(4, 33));
    assert_eq!(Plat::systick_irq(BIT | 5), irq(CPU_LOCAL_IRQ_DOMAIN, 5));
}

#[test]
fn sources_are_resolved() {
    let ok = Ok(1);
    assert_eq!(
        Plat::resolve_irq_source(line(CPU_LOCAL_IRQ_DOMAIN, 9), &none(), Err(IrqError::Busy)),
        Ok(irq(CPU_LOCAL_IRQ_DOMAIN, 9))
    );
    assert_eq!(
        Plat::resolve_irq_source(line(CPU_LOCAL_IRQ_DOMAIN, 8), &none(), ok),
        Err(IrqError::InvalidIrq)
    );
    // The PLIC has no say in APLIC lines.
    assert_eq!(
        Plat::resolve_irq_source(line(8, 217), &domains(), Err(IrqError::Controller)),
        Ok(irq(8, 217))
    );
    assert_eq!(Plat::resolve_irq_source(line(4, 217), &domains(), ok), Ok(irq(4, 217)));
    assert_eq!(
        Plat::resolve_irq_source(line(4, 0), &domains(), Err(IrqError::InvalidIrq)),
        Err(IrqError::InvalidIrq)
    );
    assert_eq!(
        Plat::resolve_irq_source(line(4, 1), &domains(), Err(IrqError::Controller)),
        Err(IrqError::Controller)
    );
    assert_eq!(
        Plat::resolve_irq_source(line(7, 1), &domains(), ok),
        Err(IrqError::InvalidIrq)
    );
    for source in [IrqSource::AcpiGsi(5), IrqSource::AcpiGsiRoute(5)] {
        assert_eq!(
            Plat::resolve_irq_source(source, &domains(), ok),
            Err(IrqError::Unsupported)
        );
        assert_eq!(riscv_resolve_controller_line(source, true), Err(IrqError::Unsupported));
    }
}

#[test]
fn every_aplic_is_served() {
    for domain in [8, 9] {
        assert_eq!(
            Plat::irq_set_enable(irq(domain, 217), true, &domains()),
            Ok(EnableRoute::Controller { irq: irq(domain, 217), enable: true })
        );
        assert_eq!(
            Plat::irq_set_affinity(irq(domain, 217), IrqAffinity::Any, &domains()),
            Ok(AffinityRoute::Bound)
        );
        assert_eq!(
            Plat::resolve_irq_source(line(domain, 217), &domains(), Err(IrqError::Controller)),
            Ok(irq(domain, 217))
        );
    }
}

#[test]
fn the_plic_is_asked_about_its_own_lines_only() {
    assert_eq!(Plat::plic_line(line(4, 217), &domains()), Some(HwIrq(217)));
    assert_eq!(Plat::plic_line(line(8, 217), &domains()), None);
    assert_eq!(Plat::plic_line(line(7, 1), &domains()), None);
    assert_eq!(Plat::plic_line(line(CPU_LOCAL_IRQ_DOMAIN, 9), &domains()), None);
    assert_eq!(Plat::plic_line(line(4, 217), &none()), None);
    assert_eq!(Plat::plic_line(IrqSource::AcpiGsi(4), &domains()), None);
}

#[test]
fn user_invalidation_acts_as_flush() {
    assert_eq!(enable_user_cbo(0), 0x50);
    // An invalidation that would drop dirty data is not left in place.
    assert_eq!(enable_user_cbo(0x30), 0x50);
    assert_eq!(enable_user_cbo(0x20), 0x50);
    assert_eq!(enable_user_cbo(0x50), 0x50);
    // The other bits stay.
    assert_eq!(enable_user_cbo(0x81), 0xd1);
    assert_eq!(enable_user_cbo(usize::MAX), usize::MAX - 0x20);
}

#[test]
fn boot_opens_cache_maintenance_and_sets_up_controllers() {
    assert_eq!(
        Plat::init_boot_irq_cpu(0, CpuBootRole::Primary, true, Some(0)),
        BootIrqPlan { senvcfg: Some(0x50), intc: IntcInit::Nothing }
    );
    assert_eq!(
        Plat::init_boot_irq_cpu(1, CpuBootRole::Secondary, true, Some(0x31)),
        BootIrqPlan { senvcfg: Some(0x51), intc: IntcInit::Imsic }
    );
    assert_eq!(
        Plat::init_boot_irq_cpu(2, CpuBootRole::Secondary, true, None),
        BootIrqPlan { senvcfg: None, intc: IntcInit::Imsic }
    );
    assert_eq!(
        Plat::init_boot_irq_cpu(2, CpuBootRole::Secondary, false, None),
        BootIrqPlan { senvcfg: None, intc: IntcInit::Plic { cpu_idx: 2 } }
    );
}

#[test]
fn ipis_reach_their_targets() {
    let ipi = Plat::ipi_irq();
    assert_eq!(ipi, irq(CPU_LOCAL_IRQ_DOMAIN, 1));
    assert_eq!(Plat::send_ipi(ipi, IpiTarget::Current { cpu_id: 3 }), Some(vec![3]));
    assert_eq!(Plat::send_ipi(ipi, IpiTarget::Other { cpu_id: 1 }), Some(vec![1]));
    assert_eq!(
        Plat::send_ipi(ipi, IpiTarget::AllExceptCurrent { cpu_id: 1, cpu_num: 4 }),
        Some(vec![0, 2, 3])
    );
    assert_eq!(
        Plat::send_ipi(ipi, IpiTarget::AllExceptCurrent { cpu_id: 0, cpu_num: 1 }),
        Some(vec![])
    );
    assert_eq!(
        Plat::send_ipi(irq(CPU_LOCAL_IRQ_DOMAIN, 5), IpiTarget::Current { cpu_id: 3 }),
        None
    );
}
