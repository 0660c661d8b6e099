//! The device's configuration, as the device tree gives it.

use vstd::prelude::*;
use vstd::string::StringSliceAdditionalSpecFns;

use crate::irq::IrqId;
use crate::text::{contains_text, occurs_at, same_text};

verus! {

/// An entry of a node's `reg` property.
#[derive(Debug, Clone, Copy, PartialEq, Eq)]
pub struct DtReg {
    /// Address, as the CPU sees it.
    pub address: u64,
    /// Size, if the bus has sizes.
    pub size: Option<usize>,
}

/// A property of a node, in the two ways in which the driver may read it.
#[derive(Debug)]
pub struct DtProp {
    /// Name of the property.
    pub name: String,
    /// Its value as text, if it is text that ends in a zero byte.
    pub text: Option<String>,
    /// Its first 32-bit cell, if it is long enough to have one.
    pub cell: Option<u32>,
}

/// The first property called `name` in `props`.
pub open spec fn prop_in(props: Seq<DtProp>, name: Seq<char>) -> Option<DtProp>
    decreases props.len(),
{
    if props.len() == 0 {
        None
    } else if props[0].name@ == name {
        Some(props[0])
    } else {
        prop_in(props.drop_first(), name)
    }
}

/// Finds the first property called `name`.
fn find_prop<'a>(props: &'a Vec<DtProp>, name: &str) -> (prop: Option<&'a DtProp>)
    ensures
        match prop_in(props@, name@) {
            Some(first) => prop == Some(&first),
            None => prop is None,
        },
{
    let n: usize = props.len();
    let mut i: usize = 0;
    assert(props@.skip(0) =~= props@);
    while i < n
        invariant
            n == props@.len(),
            i <= n,
            prop_in(props@, name@) == prop_in(props@.skip(i as int), name@),
        decreases n - i,
    {
        assert(props@.skip(i as int)[0] == props@[i as int]);
        assert(props@.skip(i as int).drop_first() =~= props@.skip(i + 1));
        let prop = &props[i];
        if same_text(prop.name.as_str(), name) {
            return Some(prop);
        }
        i = i + 1;
    }
    None
}

/// An entry of a node's `interrupts` property.
#[derive(Debug)]
pub struct DtInterrupt {
    /// Phandle of the interrupt controller.
    pub parent: u32,
    /// The cells that name the line there.
    pub specifier: Vec<u32>,
}

/// What the driver reads of a device-tree node.
#[derive(Debug)]
pub struct DtNode {
    /// The `compatible` strings.
    pub compatible: Vec<String>,
    /// The entries of the `reg` property.
    pub reg: Vec<DtReg>,
    /// The properties.
    pub props: Vec<DtProp>,
    /// The entries of the `interrupts` property.
    pub interrupts: Vec<DtInterrupt>,
}

impl DtNode {
    /// Whether `name` is one of the node's `compatible` strings.
    pub open spec fn is_compatible(&self, name: Seq<char>) -> bool {
        exists|k: int| 0 <= k < self.compatible@.len() && #[trigger] self.compatible@[k]@ == name
    }

    /// The first entry of the `reg` property.
    pub open spec fn first_reg(&self) -> Option<DtReg> {
        if self.reg@.len() > 0 {
            Some(self.reg@[0])
        } else {
            None
        }
    }

    /// Whether the node is switched off, or `None` if its `status` is there but
    /// is not text.
    pub open spec fn switched_off(&self) -> Option<bool> {
        match prop_in(self.props@, "status"@) {
            Some(status) => match status.text {
                Some(text) => Some(text@ == "disabled"@),
                None => None,
            },
            None => Some(false),
        }
    }

    /// The cell called `name`, or `default` if there is no such property, or
    /// `None` if it is there but too short.
    pub open spec fn cell_or(&self, name: Seq<char>, default: u32) -> Option<u32> {
        match prop_in(self.props@, name) {
            Some(prop) => prop.cell,
            None => Some(default),
        }
    }

    /// Whether `name` is one of the node's `compatible` strings.
    fn has_compatible(&self, name: &str) -> (has: bool)
        ensures
            has == self.is_compatible(name@),
    {
        let n: usize = self.compatible.len();
        let mut i: usize = 0;
        while i < n
            invariant
                n == self.compatible@.len(),
                i <= n,
                forall|k: int| 0 <= k < i ==> #[trigger] self.compatible@[k]@ != name@,
            decreases n - i,
        {
            if same_text(self.compatible[i].as_str(), name) {
                assert(self.compatible@[i as int]@ == name@);
                return true;
            }
            i = i + 1;
        }
        false
    }

    /// The first entry of the `reg` property.
    fn window(&self) -> (reg: Option<DtReg>)
        ensures
            reg == self.first_reg(),
    {
        if self.reg.len() > 0 {
            Some(self.reg[0])
        } else {
            None
        }
    }

    /// Whether the node is switched off, or `None` if that cannot be read.
    fn disabled(&self) -> (disabled: Option<bool>)
        ensures
            disabled == self.switched_off(),
    {
        match find_prop(&self.props, "status") {
            Some(status) => match &status.text {
                Some(text) => Some(same_text(text.as_str(), "disabled")),
                None => None,
            },
            None => Some(false),
        }
    }

    /// The cell called `name`, or `default`, or `None` if it cannot be read.
    fn read_cell(&self, name: &str, default: u32) -> (cell: Option<u32>)
        ensures
            cell == self.cell_or(name@, default),
    {
        match find_prop(&self.props, name) {
            Some(prop) => prop.cell,
            None => Some(default),
        }
    }
}

/// The first node in tree order that has the `compatible` string `name`.
pub open spec fn first_node(nodes: Seq<DtNode>, name: Seq<char>) -> Option<DtNode>
    decreases nodes.len(),
{
    if nodes.len() == 0 {
        None
    } else if nodes[0].is_compatible(name) {
        Some(nodes[0])
    } else {
        first_node(nodes.drop_first(), name)
    }
}

/// The first node in tree order that has the `compatible` string `name` and is
/// not switched off, or `None` if the search comes to one of which that cannot
/// be read.
pub open spec fn first_enabled(nodes: Seq<DtNode>, name: Seq<char>) -> Option<Option<DtNode>>
    decreases nodes.len(),
{
    if nodes.len() == 0 {
        Some(None)
    } else if !nodes[0].is_compatible(name) {
        first_enabled(nodes.drop_first(), name)
    } else {
        match nodes[0].switched_off() {
            Some(true) => first_enabled(nodes.drop_first(), name),
            Some(false) => Some(Some(nodes[0])),
            None => None,
        }
    }
}

/// Finds the first node in tree order that has the `compatible` string `name`.
fn find_node<'a>(nodes: &'a Vec<DtNode>, name: &str) -> (node: Option<&'a DtNode>)
    ensures
        match first_node(nodes@, name@) {
            Some(first) => node == Some(&first),
            None => node is None,
        },
{
    let n: usize = nodes.len();
    let mut i: usize = 0;
    assert(nodes@.skip(0) =~= nodes@);
    while i < n
        invariant
            n == nodes@.len(),
            i <= n,
            first_node(nodes@, name@) == first_node(nodes@.skip(i as int), name@),
        decreases n - i,
    {
        assert(nodes@.skip(i as int)[0] == nodes@[i as int]);
        assert(nodes@.skip(i as int).drop_first() =~= nodes@.skip(i + 1));
        let node = &nodes[i];
        if node.has_compatible(name) {
            return Some(node);
        }
        i = i + 1;
    }
    None
}

/// Finds the first node in tree order that has the `compatible` string `name`
/// and is not switched off.
fn find_enabled<'a>(nodes: &'a Vec<DtNode>, name: &str) -> (node: Option<Option<&'a DtNode>>)
    ensures
        match first_enabled(nodes@, name@) {
            Some(Some(first)) => node == Some(Some(&first)),
            Some(None) => node == Some(None::<&DtNode>),
            None => node is None,
        },
{
    let n: usize = nodes.len();
    let mut i: usize = 0;
    assert(nodes@.skip(0) =~= nodes@);
    while i < n
        invariant
            n == nodes@.len(),
            i <= n,
            first_enabled(nodes@, name@) == first_enabled(nodes@.skip(i as int), name@),
        decreases n - i,
    {
        assert(nodes@.skip(i as int)[0] == nodes@[i as int]);
        assert(nodes@.skip(i as int).drop_first() =~= nodes@.skip(i + 1));
        let node = &nodes[i];
        if node.has_compatible(name) {
            match node.disabled() {
                Some(true) => {},
                Some(false) => return Some(Some(node)),
                None => return None,
            }
        }
        i = i + 1;
    }
    Some(None)
}

/// How the platform rings doorbells.
#[derive(Debug, Clone, Copy, PartialEq, Eq)]
pub enum NotifierConfig {
    /// Through the CLINT.
    ClintMsip {
        /// Address of the peer's software interrupt register.
        msip_phys: usize,
        /// CPU-local line of this side's doorbell.
        ipi_irq: u32,
    },
    /// Through the hardware mailbox.
    K3Mailbox {
        /// Address of the mailbox.
        mbox_phys: usize,
        /// Channel that this side rings on.
        tx_channel: u8,
        /// Channel that this side listens on.
        rx_channel: u8,
        /// Interrupt of this side's doorbell.
        rx_irq: IrqId,
    },
}

/// The device's configuration.
#[derive(Debug, Clone, Copy, PartialEq, Eq)]
pub struct RtAsyncConfig {
    /// Physical address of the shared window.
    pub shm_phys_base: usize,
    /// Size of the shared window.
    pub shm_size: usize,
    /// How doorbells are rung.
    pub notifier: NotifierConfig,
}

/// Why there is no device.
#[derive(Debug, Clone, Copy, PartialEq, Eq, Structural)]
pub enum ConfigSkip {
    /// No enabled node asks for it.
    NoNode,
    /// The node does not say where the window is, or how large.
    NoWindow,
    /// The CLINT notifier has no `reg`.
    ClintNoReg,
    /// The mailbox notifier has no `reg`.
    MailboxNoReg,
    /// The interrupt of the mailbox notifier is missing or cannot be resolved.
    MailboxNoIrq,
    /// There is no notifier.
    NoNotifier,
}

/// The CLINT notifier that the node `clint` describes, or `None` if a property
/// that has to be read cannot be.
pub open spec fn clint_of(clint: DtNode) -> Option<Result<NotifierConfig, ConfigSkip>> {
    match clint.first_reg() {
        Some(reg) => match clint.cell_or("ov,ipi-irq"@, 1) {
            Some(ipi_irq) => Some(
                Ok(NotifierConfig::ClintMsip { msip_phys: reg.address as usize, ipi_irq }),
            ),
            None => None,
        },
        None => Some(Err(ConfigSkip::ClintNoReg)),
    }
}

/// The mailbox notifier that the node `mailbox` describes, or `None` if a
/// property that has to be read cannot be.
pub open spec fn mailbox_of(mailbox: DtNode, rx_irq: Option<IrqId>) -> Option<
    Result<NotifierConfig, ConfigSkip>,
> {
    match mailbox.first_reg() {
        Some(reg) => match (mailbox.cell_or("tx-channel"@, 0), mailbox.cell_or("rx-channel"@, 1)) {
            (Some(tx), Some(rx)) => match rx_irq {
                Some(rx_irq) => Some(
                    Ok(
                        NotifierConfig::K3Mailbox {
                            mbox_phys: reg.address as usize,
                            tx_channel: tx as u8,
                            rx_channel: rx as u8,
                            rx_irq,
                        },
                    ),
                ),
                None => Some(Err(ConfigSkip::MailboxNoIrq)),
            },
            _ => None,
        },
        None => Some(Err(ConfigSkip::MailboxNoReg)),
    }
}

/// The notifier that the device tree describes, or `None` if a property that has
/// to be read cannot be. The CLINT comes first; a notifier that is there but
/// incomplete is not passed over.
pub open spec fn notifier_of(nodes: Seq<DtNode>, rx_irq: Option<IrqId>) -> Option<
    Result<NotifierConfig, ConfigSkip>,
> {
    match first_node(nodes, "ov,clint-msip-notifier"@) {
        Some(clint) => clint_of(clint),
        None => match first_node(nodes, "ov,k3-mailbox-notifier"@) {
            Some(mailbox) => mailbox_of(mailbox, rx_irq),
            None => Some(Err(ConfigSkip::NoNotifier)),
        },
    }
}

/// The configuration that the device tree describes, or `None` if a property
/// that has to be read cannot be. The window comes from the first enabled node
/// that asks for the device.
pub open spec fn config_of(nodes: Seq<DtNode>, rx_irq: Option<IrqId>) -> Option<
    Result<RtAsyncConfig, ConfigSkip>,
> {
    match first_enabled(nodes, "ov,rt-async-amp"@) {
        None => None,
        Some(None) => Some(Err(ConfigSkip::NoNode)),
        Some(Some(node)) => match node.first_reg() {
            Some(DtReg { address, size: Some(size) }) => match notifier_of(nodes, rx_irq) {
                Some(Ok(notifier)) => Some(
                    Ok(RtAsyncConfig { shm_phys_base: address as usize, shm_size: size, notifier }),
                ),
                Some(Err(skip)) => Some(Err(skip)),
                None => None,
            },
            _ => Some(Err(ConfigSkip::NoWindow)),
        },
    }
}

/// The `compatible` strings of the nodes that the configuration depends on. Other
/// nodes need not be handed in.
pub fn compatible_names() -> (names: [&'static str; 3])
    ensures
        names@[0]@ == "ov,rt-async-amp"@,
        names@[1]@ == "ov,clint-msip-notifier"@,
        names@[2]@ == "ov,k3-mailbox-notifier"@,
{
    ["ov,rt-async-amp", "ov,clint-msip-notifier", "ov,k3-mailbox-notifier"]
}

/// Reads the notifier out of the device tree.
fn read_notifier(nodes: &Vec<DtNode>, rx_irq: Option<IrqId>) -> (notifier: Option<
    Result<NotifierConfig, ConfigSkip>,
>)
    ensures
        notifier == notifier_of(nodes@, rx_irq),
{
    if let Some(clint) = find_node(nodes, "ov,clint-msip-notifier") {
        return match clint.window() {
            Some(reg) => match clint.read_cell("ov,ipi-irq", 1) {
                Some(ipi_irq) => Some(
                    Ok(
                        NotifierConfig::ClintMsip {
                            msip_phys: #[verifier::truncate] (reg.address as usize),
                            ipi_irq,
                        },
                    ),
                ),
                None => None,
            },
            None => Some(Err(ConfigSkip::ClintNoReg)),
        };
    }
    if let Some(mailbox) = find_node(nodes, "ov,k3-mailbox-notifier") {
        return match mailbox.window() {
            Some(reg) => match (
                mailbox.read_cell("tx-channel", 0),
                mailbox.read_cell("rx-channel", 1),
            ) {
                (Some(tx), Some(rx)) => match rx_irq {
                    Some(rx_irq) => Some(
                        Ok(
                            NotifierConfig::K3Mailbox {
                                mbox_phys: #[verifier::truncate] (reg.address as usize),
                                tx_channel: #[verifier::truncate] (tx as u8),
                                rx_channel: #[verifier::truncate] (rx as u8),
                                rx_irq,
                            },
                        ),
                    ),
                    None => Some(Err(ConfigSkip::MailboxNoIrq)),
                },
                _ => None,
            },
            None => Some(Err(ConfigSkip::MailboxNoReg)),
        };
    }
    Some(Err(ConfigSkip::NoNotifier))
}

/// Reads the configuration out of the device tree.
fn read_config(nodes: &Vec<DtNode>, rx_irq: Option<IrqId>) -> (config: Option<
    Result<RtAsyncConfig, ConfigSkip>,
>)
    ensures
        config == config_of(nodes@, rx_irq),
{
    match find_enabled(nodes, "ov,rt-async-amp") {
        None => None,
        Some(None) => Some(Err(ConfigSkip::NoNode)),
        Some(Some(node)) => match node.window() {
            Some(reg) => match reg.size {
                Some(size) => match read_notifier(nodes, rx_irq) {
                    Some(Ok(notifier)) => Some(
                        Ok(
                            RtAsyncConfig {
                                shm_phys_base: #[verifier::truncate] (reg.address as usize),
                                shm_size: size,
                                notifier,
                            },
                        ),
                    ),
                    Some(Err(skip)) => Some(Err(skip)),
                    None => None,
                },
                None => Some(Err(ConfigSkip::NoWindow)),
            },
            None => Some(Err(ConfigSkip::NoWindow)),
        },
    }
}

/// Whether every property that the configuration depends on holds what it
/// should: text where text is read, a whole cell where a cell is read.
pub fn config_is_readable(nodes: &Vec<DtNode>, rx_irq: Option<IrqId>) -> (readable: bool)
    ensures
        readable == (config_of(nodes@, rx_irq) is Some),
{
    read_config(nodes, rx_irq).is_some()
}

/// Reads the configuration out of the device tree, whose nodes are `nodes` in
/// tree order. `rx_irq` is the interrupt that [`k3_notifier_irq`]'s entry was
/// resolved to.
pub fn parse_rt_async_from_fdt(nodes: &Vec<DtNode>, rx_irq: Option<IrqId>) -> (config: Result<
    RtAsyncConfig,
    ConfigSkip,
>)
    requires
        config_of(nodes@, rx_irq) is Some,
    ensures
        Some(config) == config_of(nodes@, rx_irq),
{
    read_config(nodes, rx_irq).unwrap()
}

/// The configuration of the device, or `None` if there is to be no device.
pub fn config(nodes: &Vec<DtNode>, rx_irq: Option<IrqId>) -> (config: Option<RtAsyncConfig>)
    requires
        config_of(nodes@, rx_irq) is Some,
    ensures
        config == (match config_of(nodes@, rx_irq) {
            Some(Ok(config)) => Some(config),
            _ => None,
        }),
{
    match parse_rt_async_from_fdt(nodes, rx_irq) {
        Ok(config) => Some(config),
        Err(_) => None,
    }
}

/// The entry of the device tree that names the mailbox's interrupt.
pub open spec fn irq_entry_of(nodes: Seq<DtNode>) -> Option<DtInterrupt> {
    match first_node(nodes, "ov,k3-mailbox-notifier"@) {
        Some(mailbox) => if mailbox.interrupts@.len() > 0 {
            Some(mailbox.interrupts@[0])
        } else {
            None
        },
        None => None,
    }
}

/// The entry of the device tree that names the mailbox's interrupt: the first
/// of the first mailbox notifier.
pub fn k3_notifier_irq<'a>(nodes: &'a Vec<DtNode>) -> (interrupt: Option<&'a DtInterrupt>)
    ensures
        match irq_entry_of(nodes@) {
            Some(entry) => interrupt == Some(&entry),
            None => interrupt is None,
        },
        match first_node(nodes@, "ov,k3-mailbox-notifier"@) {
            Some(mailbox) if mailbox.interrupts@.len() > 0 => interrupt == Some(
                &mailbox.interrupts@[0],
            ),
            _ => interrupt is None,
        },
{
    match find_node(nodes, "ov,k3-mailbox-notifier") {
        Some(mailbox) => if mailbox.interrupts.len() > 0 {
            Some(&mailbox.interrupts[0])
        } else {
            None
        },
        None => None,
    }
}

/// Number of CPU nodes that are searched for an ISA string.
pub const CPU_SLOTS: usize = 8;

/// The path of the CPU node in `slot`: CPU nodes are named by their number.
pub fn cpu_path(slot: usize) -> (path: Option<&'static str>)
    ensures
        path is Some <==> slot < CPU_SLOTS,
        path matches Some(text) ==> text@ == "/cpus/cpu@"@.push((('0' as int) + slot) as char),
{
    proof {
        reveal_strlit("/cpus/cpu@");
        reveal_strlit("/cpus/cpu@0");
        reveal_strlit("/cpus/cpu@1");
        reveal_strlit("/cpus/cpu@2");
        reveal_strlit("/cpus/cpu@3");
        reveal_strlit("/cpus/cpu@4");
        reveal_strlit("/cpus/cpu@5");
        reveal_strlit("/cpus/cpu@6");
        reveal_strlit("/cpus/cpu@7");
    }
    match slot {
        0 => Some("/cpus/cpu@0"),
        1 => Some("/cpus/cpu@1"),
        2 => Some("/cpus/cpu@2"),
        3 => Some("/cpus/cpu@3"),
        4 => Some("/cpus/cpu@4"),
        5 => Some("/cpus/cpu@5"),
        6 => Some("/cpus/cpu@6"),
        7 => Some("/cpus/cpu@7"),
        _ => None,
    }
}

/// The ISA string of the CPU nodes: that of the first slot whose node has one.
/// A slot holds the properties of its node, if there is such a node.
pub open spec fn isa_of(cpus: Seq<Option<Vec<DtProp>>>) -> Option<DtProp>
    decreases cpus.len(),
{
    if cpus.len() == 0 {
        None
    } else {
        match cpus[0] {
            Some(props) => match prop_in(props@, "riscv,isa"@) {
                Some(isa) => Some(isa),
                None => isa_of(cpus.drop_first()),
            },
            None => isa_of(cpus.drop_first()),
        }
    }
}

/// Finds the ISA string of the CPU nodes, given the properties of the nodes at
/// [`cpu_path`], slot by slot.
pub fn find_isa<'a>(cpus: &'a [Option<Vec<DtProp>>; CPU_SLOTS]) -> (isa: Option<&'a DtProp>)
    ensures
        match isa_of(cpus@) {
            Some(first) => isa == Some(&first),
            None => isa is None,
        },
{
    let mut i: usize = 0;
    assert(cpus@.skip(0) =~= cpus@);
    while i < CPU_SLOTS
        invariant
            cpus@.len() == CPU_SLOTS,
            i <= CPU_SLOTS,
            isa_of(cpus@) == isa_of(cpus@.skip(i as int)),
        decreases CPU_SLOTS - i,
    {
        assert(cpus@.skip(i as int)[0] == cpus@[i as int]);
        assert(cpus@.skip(i as int).drop_first() =~= cpus@.skip(i + 1));
        match &cpus[i] {
            Some(props) => match find_prop(props, "riscv,isa") {
                Some(isa) => return Some(isa),
                None => {},
            },
            None => {},
        }
        i = i + 1;
    }
    None
}

/// What the device tree's CPU nodes say of the page attribute extension: whether
/// their ISA string names it, if they have one.
pub open spec fn declares_svpbmt(cpus: Seq<Option<Vec<DtProp>>>) -> Option<bool> {
    match isa_of(cpus) {
        Some(isa) => Some(
            exists|at: int| occurs_at(text_bytes(isa.text->0), "svpbmt".spec_bytes(), at),
        ),
        None => None,
    }
}

/// The bytes of `text`.
pub open spec fn text_bytes(text: String) -> Seq<u8> {
    vstd::utf8::encode_utf8(text@)
}

/// Whether the device tree declares the page attribute extension, given the
/// properties of the nodes at [`cpu_path`], slot by slot. Only the log asks; the
/// probe decides.
pub fn fdt_declares_svpbmt(cpus: &[Option<Vec<DtProp>>; CPU_SLOTS]) -> (declared: Option<bool>)
    requires
        isa_of(cpus@) matches Some(isa) ==> isa.text is Some,
    ensures
        declared == declares_svpbmt(cpus@),
{
    match find_isa(cpus) {
        Some(isa) => match &isa.text {
            Some(text) => {
                let text_str = text.as_str();
                assert(text_str.spec_bytes() == text_bytes(*text));
                Some(contains_text(text_str, "svpbmt"))
            },
            None => None,
        },
        None => None,
    }
}

/// Without a notifier of either kind, and with one that lacks its registers or
/// its interrupt, there is no device, whatever else the device tree says.
pub proof fn incomplete_notifier_means_no_device(nodes: Seq<DtNode>, rx_irq: Option<IrqId>)
    requires
        first_node(nodes, "ov,clint-msip-notifier"@) matches Some(clint) ==> clint.first_reg()
            is None,
        first_node(nodes, "ov,clint-msip-notifier"@) is None ==> (first_node(
            nodes,
            "ov,k3-mailbox-notifier"@,
        ) matches Some(mailbox) ==> mailbox.first_reg() is None || rx_irq is None),
    ensures
        config_of(nodes, rx_irq) matches Some(config) ==> config is Err,
{
}

/// The default mailbox channels keep the two directions apart.
pub proof fn default_channels_differ(nodes: Seq<DtNode>, rx_irq: Option<IrqId>)
    requires
        first_node(nodes, "ov,k3-mailbox-notifier"@) matches Some(mailbox) && prop_in(
            mailbox.props@,
            "tx-channel"@,
        ) is None && prop_in(mailbox.props@, "rx-channel"@) is None,
    ensures
        config_of(nodes, rx_irq) matches Some(Ok(config)) ==> (config.notifier
            matches NotifierConfig::K3Mailbox { tx_channel, rx_channel, .. } ==> tx_channel
            != rx_channel),
{
}

/// Whether `node` is one that the configuration depends on.
pub open spec fn is_listed(node: DtNode) -> bool {
    ||| node.is_compatible("ov,rt-async-amp"@)
    ||| node.is_compatible("ov,clint-msip-notifier"@)
    ||| node.is_compatible("ov,k3-mailbox-notifier"@)
}

/// A node that is not listed has no say: the configuration is the same with it
/// and without it.
pub proof fn unlisted_nodes_have_no_say(nodes: Seq<DtNode>, rx_irq: Option<IrqId>, at: int)
    requires
        0 <= at < nodes.len(),
        !is_listed(nodes[at]),
    ensures
        config_of(nodes.remove(at), rx_irq) == config_of(nodes, rx_irq),
{
    lemma_node_has_no_say(nodes, "ov,rt-async-amp"@, at);
    lemma_node_has_no_say(nodes, "ov,clint-msip-notifier"@, at);
    lemma_node_has_no_say(nodes, "ov,k3-mailbox-notifier"@, at);
}

proof fn lemma_node_has_no_say(nodes: Seq<DtNode>, name: Seq<char>, at: int)
    requires
        0 <= at < nodes.len(),
        !nodes[at].is_compatible(name),
    ensures
        first_node(nodes.remove(at), name) == first_node(nodes, name),
        first_enabled(nodes.remove(at), name) == first_enabled(nodes, name),
    decreases nodes.len(),
{
    if at == 0 {
        assert(nodes.remove(0) =~= nodes.drop_first());
    } else {
        lemma_node_has_no_say(nodes.drop_first(), name, at - 1);
        assert(nodes.remove(at).drop_first() =~= nodes.drop_first().remove(at - 1));
        assert(nodes.remove(at)[0] == nodes[0]);
    }
}

/// A node that is switched off counts as one that is not there: if every node
/// that asks for the device is switched off, there is no device.
pub proof fn disabled_nodes_mean_no_device(nodes: Seq<DtNode>, rx_irq: Option<IrqId>)
    requires
        forall|k: int|
            0 <= k < nodes.len() && #[trigger] nodes[k].is_compatible("ov,rt-async-amp"@)
                ==> nodes[k].switched_off() == Some(true),
    ensures
        config_of(nodes, rx_irq) == Some(Err::<RtAsyncConfig, ConfigSkip>(ConfigSkip::NoNode)),
    decreases nodes.len(),
{
    if nodes.len() > 0 {
        let rest = nodes.drop_first();
        assert forall|k: int|
            0 <= k < rest.len() && #[trigger] rest[k].is_compatible(
                "ov,rt-async-amp"@,
            ) implies rest[k].switched_off() == Some(true) by {
            assert(nodes[k + 1].is_compatible("ov,rt-async-amp"@));
        }
        disabled_nodes_mean_no_device(rest, rx_irq);
    }
}

} // verus!
