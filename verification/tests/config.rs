use rt_shm::config::{
    compatible_names, config, config_is_readable, cpu_path, fdt_declares_svpbmt, find_isa,
    k3_notifier_irq, parse_rt_async_from_fdt, ConfigSkip, DtInterrupt, DtNode, DtProp, DtReg,
    NotifierConfig, RtAsyncConfig, CPU_SLOTS,
};
use rt_shm::irq::{HwIrq, IrqDomainId, IrqId};
use rt_shm::text::{contains_text, same_text};

fn node(compatible: &[&str]) -> DtNode {
    DtNode {
        compatible: compatible.iter().map(|c| c.to_string()).collect(),
        reg: Vec::new(),
        props: Vec::new(),
        interrupts: Vec::new(),
    }
}

fn with_reg(mut node: DtNode, address: u64, size: Option<usize>) -> DtNode {
    node.reg.push(DtReg { address, size });
    node
}

fn with_cell(mut node: DtNode, name: &str, value: u32) -> DtNode {
    node.props.push(DtProp { name: name.to_string(), text: None, cell: Some(value) });
    node
}

fn text(name: &str, value: &str) -> DtProp {
    DtProp { name: name.to_string(), text: Some(value.to_string()), cell: None }
}

fn with_text(mut node: DtNode, name: &str, value: &str) -> DtNode {
    node.props.push(text(name, value));
    node
}

/// A property that is neither text nor long enough for a cell.
fn with_broken(mut node: DtNode, name: &str) -> DtNode {
    node.props.push(DtProp { name: name.to_string(), text: None, cell: None });
    node
}

fn amp() -> DtNode {
    with_reg(node(&["ov,rt-async-amp"]), 0xc080_0000, Some(0x1_9000))
}

fn clint() -> DtNode {
    with_reg(node(&["ov,clint-msip-notifier"]), 0x0200_0004, Some(4))
}

fn mailbox() -> DtNode {
    with_reg(node(&["vendor,mailbox", "ov,k3-mailbox-notifier"]), 0xcac9_1000, Some(0x400))
}

fn irq() -> IrqId {
    IrqId { domain: IrqDomainId(8), hwirq: HwIrq(217) }
}

#[test]
fn the_mailbox_binding_is_read() {
    let tree = vec![
        node(&["simple-bus"]),
        amp(),
        with_cell(with_cell(mailbox(), "tx-channel", 0), "rx-channel", 1),
    ];
    assert_eq!(
        config(&tree, Some(irq())),
        Some(RtAsyncConfig {
            shm_phys_base: 0xc080_0000,
            shm_size: 0x1_9000,
            notifier: NotifierConfig::K3Mailbox {
                mbox_phys: 0xcac9_1000,
                tx_channel: 0,
                rx_channel: 1,
                rx_irq: irq(),
            },
        })
    );
}

#[test]
fn the_clint_binding_is_read() {
    let tree = vec![amp(), with_cell(clint(), "ov,ipi-irq", 3)];
    assert_eq!(
        config(&tree, None).unwrap().notifier,
        NotifierConfig::ClintMsip { msip_phys: 0x0200_0004, ipi_irq: 3 }
    );
}

#[test]
fn missing_cells_have_defaults() {
    assert_eq!(
        config(&vec![amp(), clint()], None).unwrap().notifier,
        NotifierConfig::ClintMsip { msip_phys: 0x0200_0004, ipi_irq: 1 }
    );
    assert_eq!(
        config(&vec![amp(), mailbox()], Some(irq())).unwrap().notifier,
        NotifierConfig::K3Mailbox {
            mbox_phys: 0xcac9_1000,
            tx_channel: 0,
            rx_channel: 1,
            rx_irq: irq(),
        }
    );
}

#[test]
fn the_first_cell_of_a_name_counts_and_channels_are_bytes() {
    let tree = vec![
        amp(),
        with_cell(with_cell(with_cell(mailbox(), "tx-channel", 0x105), "tx-channel", 9), "x", 1),
    ];
    match config(&tree, Some(irq())).unwrap().notifier {
        NotifierConfig::K3Mailbox { tx_channel, .. } => assert_eq!(tx_channel, 5),
        other => panic!("{other:?}"),
    }
}

#[test]
fn without_a_node_there_is_no_device() {
    assert_eq!(parse_rt_async_from_fdt(&vec![], None), Err(ConfigSkip::NoNode));
    assert_eq!(parse_rt_async_from_fdt(&vec![clint()], None), Err(ConfigSkip::NoNode));
    assert_eq!(config(&vec![clint()], None), None);
}

#[test]
fn a_disabled_node_is_passed_over() {
    let off = || with_text(amp(), "status", "disabled");
    assert_eq!(parse_rt_async_from_fdt(&vec![off(), clint()], None), Err(ConfigSkip::NoNode));
    let on = with_text(
        with_reg(node(&["ov,rt-async-amp"]), 0x1000, Some(64)),
        "status",
        "okay",
    );
    assert_eq!(config(&vec![off(), on, clint()], None).unwrap().shm_phys_base, 0x1000);
}

#[test]
fn a_disabled_notifier_still_counts() {
    assert!(config(&vec![amp(), with_text(clint(), "status", "disabled")], None).is_some());
}

#[test]
fn the_first_entry_of_reg_counts() {
    let tree = vec![with_reg(amp(), 0x5000, Some(1)), with_reg(clint(), 0x6000, Some(1))];
    assert_eq!(
        config(&tree, None),
        Some(RtAsyncConfig {
            shm_phys_base: 0xc080_0000,
            shm_size: 0x1_9000,
            notifier: NotifierConfig::ClintMsip { msip_phys: 0x0200_0004, ipi_irq: 1 },
        })
    );
}

#[test]
fn only_properties_that_are_read_have_to_be_whole() {
    assert!(!config_is_readable(&vec![with_broken(amp(), "status"), clint()], None));
    assert!(!config_is_readable(&vec![amp(), with_broken(clint(), "ov,ipi-irq")], None));
    for name in ["tx-channel", "rx-channel"] {
        let tree = |irq| config_is_readable(&vec![amp(), with_broken(mailbox(), name)], irq);
        assert!(!tree(Some(irq())));
        assert!(!tree(None));
    }
    // Of a mailbox beside a CLINT nothing is read, nor of a node behind the
    // first enabled one, nor of a notifier without registers.
    let tree = vec![
        amp(),
        with_broken(clint(), "tx-channel"),
        with_broken(with_broken(mailbox(), "tx-channel"), "rx-channel"),
        with_broken(amp(), "status"),
    ];
    assert!(config_is_readable(&tree, None));
    assert!(config(&tree, None).is_some());
    let bare = with_broken(node(&["ov,clint-msip-notifier"]), "ov,ipi-irq");
    assert_eq!(
        parse_rt_async_from_fdt(&vec![amp(), bare], None),
        Err(ConfigSkip::ClintNoReg)
    );
}

#[test]
fn other_nodes_have_no_say() {
    assert_eq!(
        compatible_names(),
        ["ov,rt-async-amp", "ov,clint-msip-notifier", "ov,k3-mailbox-notifier"]
    );
    let with = vec![with_broken(node(&["simple-bus"]), "status"), amp(), clint()];
    assert_eq!(config(&with, None), config(&vec![amp(), clint()], None));
}

#[test]
fn the_window_needs_an_address_and_a_size() {
    let no_reg = node(&["ov,rt-async-amp"]);
    assert_eq!(parse_rt_async_from_fdt(&vec![no_reg, clint()], None), Err(ConfigSkip::NoWindow));
    let no_size = with_reg(node(&["ov,rt-async-amp"]), 0x1000, None);
    assert_eq!(parse_rt_async_from_fdt(&vec![no_size, clint()], None), Err(ConfigSkip::NoWindow));
}

#[test]
fn an_incomplete_notifier_means_no_device() {
    assert_eq!(parse_rt_async_from_fdt(&vec![amp()], Some(irq())), Err(ConfigSkip::NoNotifier));
    // An incomplete CLINT is not passed over for a mailbox.
    let bare = node(&["ov,clint-msip-notifier"]);
    assert_eq!(
        parse_rt_async_from_fdt(&vec![amp(), bare, mailbox()], Some(irq())),
        Err(ConfigSkip::ClintNoReg)
    );
    let bare = node(&["ov,k3-mailbox-notifier"]);
    assert_eq!(
        parse_rt_async_from_fdt(&vec![amp(), bare], Some(irq())),
        Err(ConfigSkip::MailboxNoReg)
    );
    assert_eq!(
        parse_rt_async_from_fdt(&vec![amp(), mailbox()], None),
        Err(ConfigSkip::MailboxNoIrq)
    );
}

#[test]
fn the_mailbox_interrupt_is_the_first_entry() {
    let mut first = mailbox();
    first.interrupts.push(DtInterrupt { parent: 3, specifier: vec![217, 4] });
    first.interrupts.push(DtInterrupt { parent: 3, specifier: vec![218, 4] });
    let tree = vec![amp(), first];
    let found = k3_notifier_irq(&tree).unwrap();
    assert_eq!((found.parent, found.specifier.clone()), (3, vec![217, 4]));
    assert!(k3_notifier_irq(&vec![mailbox()]).is_none());
    assert!(k3_notifier_irq(&vec![amp()]).is_none());
}

/// The properties of the CPU slots, the last ones without a node.
fn cpus(texts: &[Option<&str>]) -> [Option<Vec<DtProp>>; CPU_SLOTS] {
    std::array::from_fn(|slot| {
        texts.get(slot).map(|isa| {
            let mut props = vec![text("device_type", "svpbmt")];
            props.extend(isa.map(|isa| text("riscv,isa", isa)));
            props
        })
    })
}

#[test]
fn the_first_isa_string_decides() {
    assert_eq!(fdt_declares_svpbmt(&cpus(&[])), None);
    assert_eq!(fdt_declares_svpbmt(&cpus(&[None, None])), None);
    assert_eq!(fdt_declares_svpbmt(&cpus(&[Some("rv64imafdcv_zicbom_svpbmt")])), Some(true));
    assert_eq!(fdt_declares_svpbmt(&cpus(&[None, Some("rv64imac"), Some("svpbmt")])), Some(false));
    let mut last = cpus(&[]);
    last[7] = Some(vec![text("riscv,isa", "rv64_svpbmt_sstc")]);
    assert_eq!(fdt_declares_svpbmt(&last), Some(true));
    assert_eq!(find_isa(&last).unwrap().text.as_deref(), Some("rv64_svpbmt_sstc"));
    assert!(find_isa(&cpus(&[None])).is_none());
}

#[test]
fn cpu_nodes_are_named_by_number() {
    assert_eq!(cpu_path(0), Some("/cpus/cpu@0"));
    assert_eq!(cpu_path(7), Some("/cpus/cpu@7"));
    assert_eq!(cpu_path(8), None);
}

#[test]
fn text_is_compared_and_searched() {
    assert!(same_text("disabled", "disabled"));
    assert!(!same_text("disabled", "disable"));
    assert!(!same_text("disabled", "Disabled"));
    assert!(same_text("", ""));
    assert!(contains_text("abcabd", "abd"));
    assert!(!contains_text("abcab", "abd"));
    assert!(contains_text("abc", ""));
    assert!(!contains_text("ab", "abc"));
}
