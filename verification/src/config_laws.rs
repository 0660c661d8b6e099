//! What the configuration owes to the nodes of the device tree and to their
//! properties.

use vstd::prelude::*;
use vstd::string::StringSliceAdditionalSpecFns;

use crate::config::{
    config_of, declares_svpbmt, first_enabled, first_node, irq_entry_of, isa_of, prop_in,
    ConfigSkip, DtNode, DtProp, RtAsyncConfig,
};
use crate::irq::IrqId;
use crate::text::occurs_at;

verus! {

/// One of the `compatible` strings of `node` is `name`.
pub open spec fn carries(node: DtNode, name: Seq<char>) -> bool {
    exists|m: int| 0 <= m < node.compatible@.len() && #[trigger] node.compatible@[m]@ == name
}

/// Node `k` is the first whose `compatible` strings hold `name`.
pub open spec fn first_with(nodes: Seq<DtNode>, name: Seq<char>, k: int) -> bool {
    &&& 0 <= k < nodes.len()
    &&& carries(nodes[k], name)
    &&& forall|j: int| 0 <= j < k ==> !carries(#[trigger] nodes[j], name)
}

/// No `compatible` string of any node is `name`.
pub open spec fn none_with(nodes: Seq<DtNode>, name: Seq<char>) -> bool {
    forall|j: int| 0 <= j < nodes.len() ==> !carries(#[trigger] nodes[j], name)
}

/// Property `k` is the first that is called `name`.
pub open spec fn first_called(props: Seq<DtProp>, name: Seq<char>, k: int) -> bool {
    &&& 0 <= k < props.len()
    &&& props[k].name@ == name
    &&& forall|j: int| 0 <= j < k ==> (#[trigger] props[j]).name@ != name
}

/// No property is called `name`.
pub open spec fn none_called(props: Seq<DtProp>, name: Seq<char>) -> bool {
    forall|j: int| 0 <= j < props.len() ==> (#[trigger] props[j]).name@ != name
}

/// The first property called `name` has the cell `cell`, or there is none and
/// `cell` is `default`.
pub open spec fn cell_is(props: Seq<DtProp>, name: Seq<char>, default: u32, cell: u32) -> bool {
    ||| none_called(props, name) && cell == default
    ||| exists|k: int| #[trigger] first_called(props, name, k) && props[k].cell == Some(cell)
}

/// The first `status` of `node` is the text "disabled".
pub open spec fn is_off(node: DtNode) -> bool {
    exists|k: int| #[trigger]
        first_called(node.props@, "status"@, k) && (node.props@[k].text matches Some(text)
            && text@ == "disabled"@)
}

/// The `status` of `node`, if it has one, is text.
pub open spec fn status_is_text(node: DtNode) -> bool {
    forall|k: int| #[trigger]
        first_called(node.props@, "status"@, k) ==> node.props@[k].text is Some
}

/// Node `k` is the first that asks for the device and is not switched off.
pub open spec fn asks_first(nodes: Seq<DtNode>, k: int) -> bool {
    &&& 0 <= k < nodes.len()
    &&& carries(nodes[k], "ov,rt-async-amp"@)
    &&& !is_off(nodes[k])
    &&& forall|j: int|
        0 <= j < k && carries(#[trigger] nodes[j], "ov,rt-async-amp"@) ==> is_off(nodes[j])
}

/// A property is found by its name, and the first of two counts.
pub proof fn a_property_is_found_by_its_name(props: Seq<DtProp>, name: Seq<char>, k: int)
    ensures
        first_called(props, name, k) ==> prop_in(props, name) == Some(props[k]),
        none_called(props, name) <==> prop_in(props, name) is None,
        prop_in(props, name) is Some ==> exists|j: int| #[trigger] first_called(props, name, j),
    decreases props.len(),
{
    if props.len() > 0 {
        let rest = props.drop_first();
        a_property_is_found_by_its_name(rest, name, k - 1);
        if props[0].name@ == name {
            assert(first_called(props, name, 0));
        } else {
            if first_called(props, name, k) {
                assert forall|j: int| 0 <= j < k - 1 implies (#[trigger] rest[j]).name@
                    != name by {
                    assert(rest[j] == props[j + 1]);
                }
                assert(first_called(rest, name, k - 1));
            }
            if none_called(rest, name) {
                assert forall|j: int| 0 <= j < props.len() implies (#[trigger] props[j]).name@
                    != name by {
                    if j > 0 {
                        assert(props[j] == rest[j - 1]);
                    }
                }
            }
            if none_called(props, name) {
                assert forall|j: int| 0 <= j < rest.len() implies (#[trigger] rest[j]).name@
                    != name by {
                    assert(rest[j] == props[j + 1]);
                }
            }
            if prop_in(props, name) is Some {
                let j = choose|j: int| #[trigger] first_called(rest, name, j);
                assert forall|m: int| 0 <= m < j + 1 implies (#[trigger] props[m]).name@
                    != name by {
                    if m > 0 {
                        assert(props[m] == rest[m - 1]);
                    }
                }
                assert(first_called(props, name, j + 1));
            }
        }
    }
}

/// A node is found by its `compatible` strings, and the first of two counts.
pub proof fn a_node_is_found_by_its_compatible_strings(
    nodes: Seq<DtNode>,
    name: Seq<char>,
    k: int,
)
    ensures
        first_with(nodes, name, k) ==> first_node(nodes, name) == Some(nodes[k]),
        none_with(nodes, name) <==> first_node(nodes, name) is None,
        first_node(nodes, name) is Some ==> exists|j: int| #[trigger] first_with(nodes, name, j),
    decreases nodes.len(),
{
    if nodes.len() > 0 {
        let rest = nodes.drop_first();
        a_node_is_found_by_its_compatible_strings(rest, name, k - 1);
        assert(carries(nodes[0], name) == nodes[0].is_compatible(name));
        if carries(nodes[0], name) {
            assert(first_with(nodes, name, 0));
        } else {
            if first_with(nodes, name, k) {
                assert forall|j: int| 0 <= j < k - 1 implies !carries(
                    #[trigger] rest[j],
                    name,
                ) by {
                    assert(rest[j] == nodes[j + 1]);
                }
                assert(first_with(rest, name, k - 1));
            }
            if none_with(rest, name) {
                assert forall|j: int| 0 <= j < nodes.len() implies !carries(
                    #[trigger] nodes[j],
                    name,
                ) by {
                    if j > 0 {
                        assert(nodes[j] == rest[j - 1]);
                    }
                }
            }
            if none_with(nodes, name) {
                assert forall|j: int| 0 <= j < rest.len() implies !carries(
                    #[trigger] rest[j],
                    name,
                ) by {
                    assert(rest[j] == nodes[j + 1]);
                }
            }
            if first_node(nodes, name) is Some {
                let j = choose|j: int| #[trigger] first_with(rest, name, j);
                assert forall|m: int| 0 <= m < j + 1 implies !carries(
                    #[trigger] nodes[m],
                    name,
                ) by {
                    if m > 0 {
                        assert(nodes[m] == rest[m - 1]);
                    }
                }
                assert(first_with(nodes, name, j + 1));
            }
        }
    }
}

proof fn lemma_cell(node: DtNode, name: Seq<char>, default: u32)
    ensures
        node.cell_or(name, default) matches Some(cell) ==> cell_is(
            node.props@,
            name,
            default,
            cell,
        ),
        forall|cell: u32| #[trigger]
            cell_is(node.props@, name, default, cell) ==> node.cell_or(name, default) == Some(cell),
{
    let props = node.props@;
    a_property_is_found_by_its_name(props, name, 0);
    if let Some(prop) = prop_in(props, name) {
        let j = choose|j: int| #[trigger] first_called(props, name, j);
        a_property_is_found_by_its_name(props, name, j);
    }
    assert forall|cell: u32| #[trigger] cell_is(props, name, default, cell) implies node.cell_or(
        name,
        default,
    ) == Some(cell) by {
        if !none_called(props, name) {
            let k = choose|k: int| #[trigger]
                first_called(props, name, k) && props[k].cell == Some(cell);
            a_property_is_found_by_its_name(props, name, k);
        }
    }
}

proof fn lemma_off(node: DtNode)
    ensures
        is_off(node) <==> node.switched_off() == Some(true),
        status_is_text(node) <==> node.switched_off() is Some,
{
    let props = node.props@;
    let name = "status"@;
    a_property_is_found_by_its_name(props, name, 0);
    if prop_in(props, name) is Some {
        let j = choose|j: int| #[trigger] first_called(props, name, j);
        a_property_is_found_by_its_name(props, name, j);
        assert forall|k: int| #[trigger] first_called(props, name, k) implies props[k]
            == props[j] by {
            a_property_is_found_by_its_name(props, name, k);
        }
    }
}

proof fn lemma_enabled(nodes: Seq<DtNode>, k: int)
    ensures
        ({
            let found = first_enabled(nodes, "ov,rt-async-amp"@);
            &&& asks_first(nodes, k) && status_is_text(nodes[k]) ==> found == Some(Some(nodes[k]))
            &&& found matches Some(Some(node)) ==> exists|j: int| #[trigger]
                asks_first(nodes, j) && nodes[j] == node
            &&& found matches Some(None) ==> forall|j: int|
                0 <= j < nodes.len() && carries(#[trigger] nodes[j], "ov,rt-async-amp"@) ==> is_off(
                    nodes[j],
                )
        }),
    decreases nodes.len(),
{
    let name = "ov,rt-async-amp"@;
    if nodes.len() > 0 {
        let rest = nodes.drop_first();
        lemma_enabled(rest, k - 1);
        lemma_off(nodes[0]);
        assert(carries(nodes[0], name) == nodes[0].is_compatible(name));
        if carries(nodes[0], name) && nodes[0].switched_off() != Some(true) {
            if asks_first(nodes, k) {
                assert(k == 0);
            }
            if nodes[0].switched_off() == Some(false) {
                assert(asks_first(nodes, 0));
            }
        } else {
            if asks_first(nodes, k) {
                assert forall|j: int|
                    0 <= j < k - 1 && carries(#[trigger] rest[j], name) implies is_off(
                    rest[j],
                ) by {
                    assert(rest[j] == nodes[j + 1]);
                }
                assert(rest[k - 1] == nodes[k]);
                assert(asks_first(rest, k - 1));
            }
            let found = first_enabled(rest, name);
            assert(found == first_enabled(nodes, name));
            if let Some(Some(node)) = found {
                let j = choose|j: int| #[trigger] asks_first(rest, j) && rest[j] == node;
                assert forall|m: int|
                    0 <= m < j + 1 && carries(#[trigger] nodes[m], name) implies is_off(
                    nodes[m],
                ) by {
                    if m > 0 {
                        assert(nodes[m] == rest[m - 1]);
                    }
                }
                assert(nodes[j + 1] == rest[j]);
                assert(asks_first(nodes, j + 1));
            }
            if found == Some(None::<DtNode>) {
                assert forall|m: int|
                    0 <= m < nodes.len() && carries(#[trigger] nodes[m], name) implies is_off(
                    nodes[m],
                ) by {
                    if m > 0 {
                        assert(nodes[m] == rest[m - 1]);
                    }
                }
            }
        }
    }
}

/// The window is where the first entry of the `reg` of the first node says that
/// asks for the device and is not switched off.
pub proof fn the_window_is_that_of_the_first_node(
    nodes: Seq<DtNode>,
    rx_irq: Option<IrqId>,
    config: RtAsyncConfig,
)
    requires
        config_of(nodes, rx_irq) == Some(Ok::<RtAsyncConfig, ConfigSkip>(config)),
    ensures
        exists|k: int| #[trigger]
            asks_first(nodes, k) && nodes[k].reg@.len() > 0 && config.shm_phys_base
                == nodes[k].reg@[0].address as usize && nodes[k].reg@[0].size == Some(
                config.shm_size,
            ),
{
    lemma_enabled(nodes, 0);
}

/// A mailbox is configured from the first mailbox notifier, and only if there is
/// no CLINT notifier: it is where the first entry of the node's `reg` says, each
/// channel is the low byte of the node's own property, or the default if it has
/// none, and the interrupt is the one that was resolved.
pub proof fn a_mailbox_is_as_its_node_says(
    nodes: Seq<DtNode>,
    rx_irq: Option<IrqId>,
    config: RtAsyncConfig,
    k: int,
)
    requires
        config_of(nodes, rx_irq) == Some(Ok::<RtAsyncConfig, ConfigSkip>(config)),
        config.notifier is K3Mailbox,
        first_with(nodes, "ov,k3-mailbox-notifier"@, k),
    ensures
        none_with(nodes, "ov,clint-msip-notifier"@),
        nodes[k].reg@.len() > 0,
        config.notifier->mbox_phys == nodes[k].reg@[0].address as usize,
        exists|tx: u32| #[trigger]
            cell_is(nodes[k].props@, "tx-channel"@, 0, tx) && config.notifier->tx_channel == tx
                % 256,
        exists|rx: u32| #[trigger]
            cell_is(nodes[k].props@, "rx-channel"@, 1, rx) && config.notifier->rx_channel == rx
                % 256,
        rx_irq == Some(config.notifier->rx_irq),
{
    a_node_is_found_by_its_compatible_strings(nodes, "ov,clint-msip-notifier"@, 0);
    a_node_is_found_by_its_compatible_strings(nodes, "ov,k3-mailbox-notifier"@, k);
    lemma_cell(nodes[k], "tx-channel"@, 0);
    lemma_cell(nodes[k], "rx-channel"@, 1);
    let tx = nodes[k].cell_or("tx-channel"@, 0)->0;
    let rx = nodes[k].cell_or("rx-channel"@, 1)->0;
    assert(tx as u8 == tx % 256) by (bit_vector);
    assert(rx as u8 == rx % 256) by (bit_vector);
    assert(cell_is(nodes[k].props@, "tx-channel"@, 0, tx));
    assert(cell_is(nodes[k].props@, "rx-channel"@, 1, rx));
}

/// The channels of a mailbox follow the node's properties one by one: whatever the
/// cell of its first `tx-channel` is, the low byte of it is the channel to ring
/// on, and likewise for `rx-channel` and the channel to listen on.
pub proof fn mailbox_channels_follow_the_properties(
    nodes: Seq<DtNode>,
    rx_irq: Option<IrqId>,
    config: RtAsyncConfig,
    k: int,
    p: int,
    cell: u32,
)
    requires
        config_of(nodes, rx_irq) == Some(Ok::<RtAsyncConfig, ConfigSkip>(config)),
        config.notifier is K3Mailbox,
        first_with(nodes, "ov,k3-mailbox-notifier"@, k),
    ensures
        first_called(nodes[k].props@, "tx-channel"@, p) && nodes[k].props@[p].cell == Some(cell)
            ==> config.notifier->tx_channel == cell % 256,
        first_called(nodes[k].props@, "rx-channel"@, p) && nodes[k].props@[p].cell == Some(cell)
            ==> config.notifier->rx_channel == cell % 256,
        none_called(nodes[k].props@, "tx-channel"@) ==> config.notifier->tx_channel == 0,
        none_called(nodes[k].props@, "rx-channel"@) ==> config.notifier->rx_channel == 1,
{
    a_mailbox_is_as_its_node_says(nodes, rx_irq, config, k);
    let props = nodes[k].props@;
    lemma_cell(nodes[k], "tx-channel"@, 0);
    lemma_cell(nodes[k], "rx-channel"@, 1);
    if first_called(props, "tx-channel"@, p) && props[p].cell == Some(cell) {
        assert(cell_is(props, "tx-channel"@, 0, cell));
    }
    if first_called(props, "rx-channel"@, p) && props[p].cell == Some(cell) {
        assert(cell_is(props, "rx-channel"@, 1, cell));
    }
    if none_called(props, "tx-channel"@) {
        assert(cell_is(props, "tx-channel"@, 0, 0));
    }
    if none_called(props, "rx-channel"@) {
        assert(cell_is(props, "rx-channel"@, 1, 1));
    }
}

/// The mailbox's interrupt is named by the first entry of the first mailbox
/// notifier, if there are such a node and such an entry, and by nothing else.
pub proof fn the_interrupt_is_named_by_the_first_entry(nodes: Seq<DtNode>, k: int)
    ensures
        none_with(nodes, "ov,k3-mailbox-notifier"@) ==> irq_entry_of(nodes) is None,
        first_with(nodes, "ov,k3-mailbox-notifier"@, k) && nodes[k].interrupts@.len() == 0
            ==> irq_entry_of(nodes) is None,
        first_with(nodes, "ov,k3-mailbox-notifier"@, k) && nodes[k].interrupts@.len() > 0
            ==> irq_entry_of(nodes) == Some(nodes[k].interrupts@[0]),
{
    a_node_is_found_by_its_compatible_strings(nodes, "ov,k3-mailbox-notifier"@, k);
}

/// A CLINT is configured from the first CLINT notifier, whatever mailboxes there
/// are: its register is where the first entry of the node's `reg` says, and its
/// line is the node's own property, or one if it has none.
pub proof fn a_clint_is_as_its_node_says(
    nodes: Seq<DtNode>,
    rx_irq: Option<IrqId>,
    config: RtAsyncConfig,
    k: int,
)
    requires
        config_of(nodes, rx_irq) == Some(Ok::<RtAsyncConfig, ConfigSkip>(config)),
        first_with(nodes, "ov,clint-msip-notifier"@, k),
    ensures
        config.notifier is ClintMsip,
        nodes[k].reg@.len() > 0,
        config.notifier->msip_phys == nodes[k].reg@[0].address as usize,
        cell_is(nodes[k].props@, "ov,ipi-irq"@, 1, config.notifier->ipi_irq),
{
    a_node_is_found_by_its_compatible_strings(nodes, "ov,clint-msip-notifier"@, k);
    lemma_cell(nodes[k], "ov,ipi-irq"@, 1);
}

/// A device has one of the two notifiers, and the tree has a node for it.
pub proof fn a_device_has_a_notifier(
    nodes: Seq<DtNode>,
    rx_irq: Option<IrqId>,
    config: RtAsyncConfig,
)
    requires
        config_of(nodes, rx_irq) == Some(Ok::<RtAsyncConfig, ConfigSkip>(config)),
    ensures
        config.notifier is ClintMsip ==> exists|k: int| #[trigger]
            first_with(nodes, "ov,clint-msip-notifier"@, k),
        config.notifier is K3Mailbox ==> exists|k: int| #[trigger]
            first_with(nodes, "ov,k3-mailbox-notifier"@, k),
{
    a_node_is_found_by_its_compatible_strings(nodes, "ov,clint-msip-notifier"@, 0);
    a_node_is_found_by_its_compatible_strings(nodes, "ov,k3-mailbox-notifier"@, 0);
}

/// A tree that is complete gives a device: an enabled node with an address and a
/// size, and a CLINT notifier with an address, or without one a mailbox notifier
/// with an address and an interrupt, whose properties are whole where they are
/// there at all.
pub proof fn a_complete_tree_gives_a_device(
    nodes: Seq<DtNode>,
    rx_irq: Option<IrqId>,
    k: int,
    n: int,
    first: u32,
    second: u32,
)
    requires
        asks_first(nodes, k),
        status_is_text(nodes[k]),
        nodes[k].reg@.len() > 0,
        nodes[k].reg@[0].size is Some,
        0 <= n < nodes.len(),
        nodes[n].reg@.len() > 0,
        ({
            ||| first_with(nodes, "ov,clint-msip-notifier"@, n) && cell_is(
                nodes[n].props@,
                "ov,ipi-irq"@,
                1,
                first,
            )
            ||| none_with(nodes, "ov,clint-msip-notifier"@) && first_with(
                nodes,
                "ov,k3-mailbox-notifier"@,
                n,
            ) && rx_irq is Some && cell_is(nodes[n].props@, "tx-channel"@, 0, first) && cell_is(
                nodes[n].props@,
                "rx-channel"@,
                1,
                second,
            )
        }),
    ensures
        config_of(nodes, rx_irq) matches Some(config) && config is Ok,
{
    lemma_enabled(nodes, k);
    a_node_is_found_by_its_compatible_strings(nodes, "ov,clint-msip-notifier"@, n);
    a_node_is_found_by_its_compatible_strings(nodes, "ov,k3-mailbox-notifier"@, n);
    lemma_cell(nodes[n], "ov,ipi-irq"@, 1);
    lemma_cell(nodes[n], "tx-channel"@, 0);
    lemma_cell(nodes[n], "rx-channel"@, 1);
}

/// Every reason for there to be no device is true of the tree.
pub proof fn a_skip_says_why(nodes: Seq<DtNode>, rx_irq: Option<IrqId>, skip: ConfigSkip)
    requires
        config_of(nodes, rx_irq) == Some(Err::<RtAsyncConfig, ConfigSkip>(skip)),
    ensures
        match skip {
            ConfigSkip::NoNode => forall|j: int|
                0 <= j < nodes.len() && carries(#[trigger] nodes[j], "ov,rt-async-amp"@) ==> is_off(
                    nodes[j],
                ),
            ConfigSkip::NoWindow => exists|k: int| #[trigger]
                asks_first(nodes, k) && (nodes[k].reg@.len() == 0 || nodes[k].reg@[0].size is None),
            ConfigSkip::ClintNoReg => exists|k: int| #[trigger]
                first_with(nodes, "ov,clint-msip-notifier"@, k) && nodes[k].reg@.len() == 0,
            ConfigSkip::MailboxNoReg => none_with(nodes, "ov,clint-msip-notifier"@) && exists|
                k: int,
            | #[trigger]
                first_with(nodes, "ov,k3-mailbox-notifier"@, k) && nodes[k].reg@.len() == 0,
            ConfigSkip::MailboxNoIrq => none_with(nodes, "ov,clint-msip-notifier"@) && rx_irq
                is None && exists|k: int| #[trigger]
                first_with(nodes, "ov,k3-mailbox-notifier"@, k) && nodes[k].reg@.len() > 0,
            ConfigSkip::NoNotifier => none_with(nodes, "ov,clint-msip-notifier"@) && none_with(
                nodes,
                "ov,k3-mailbox-notifier"@,
            ),
        },
{
    lemma_enabled(nodes, 0);
    a_node_is_found_by_its_compatible_strings(nodes, "ov,clint-msip-notifier"@, 0);
    a_node_is_found_by_its_compatible_strings(nodes, "ov,k3-mailbox-notifier"@, 0);
    if first_node(nodes, "ov,clint-msip-notifier"@) is Some {
        let k = choose|k: int| #[trigger] first_with(nodes, "ov,clint-msip-notifier"@, k);
        a_node_is_found_by_its_compatible_strings(nodes, "ov,clint-msip-notifier"@, k);
    }
    if first_node(nodes, "ov,k3-mailbox-notifier"@) is Some {
        let k = choose|k: int| #[trigger] first_with(nodes, "ov,k3-mailbox-notifier"@, k);
        a_node_is_found_by_its_compatible_strings(nodes, "ov,k3-mailbox-notifier"@, k);
    }
}

/// A configuration that cannot be read owes that to a property which is there but
/// is not whole: a `status` that is not text, or a cell that is too short.
pub proof fn only_a_broken_property_cannot_be_read(nodes: Seq<DtNode>, rx_irq: Option<IrqId>)
    requires
        forall|j: int, p: int|
            0 <= j < nodes.len() && 0 <= p < nodes[j].props@.len() ==> {
                let prop = #[trigger] nodes[j].props@[p];
                &&& prop.name@ == "status"@ ==> prop.text is Some
                &&& prop.name@ == "ov,ipi-irq"@ || prop.name@ == "tx-channel"@ || prop.name@
                    == "rx-channel"@ ==> prop.cell is Some
            },
    ensures
        config_of(nodes, rx_irq) is Some,
{
    lemma_statuses_are_text(nodes);
    a_node_is_found_by_its_compatible_strings(nodes, "ov,clint-msip-notifier"@, 0);
    a_node_is_found_by_its_compatible_strings(nodes, "ov,k3-mailbox-notifier"@, 0);
    if first_node(nodes, "ov,clint-msip-notifier"@) is Some {
        let k = choose|k: int| #[trigger] first_with(nodes, "ov,clint-msip-notifier"@, k);
        a_node_is_found_by_its_compatible_strings(nodes, "ov,clint-msip-notifier"@, k);
        lemma_whole_cell(nodes[k], "ov,ipi-irq"@, 1);
    }
    if first_node(nodes, "ov,k3-mailbox-notifier"@) is Some {
        let k = choose|k: int| #[trigger] first_with(nodes, "ov,k3-mailbox-notifier"@, k);
        a_node_is_found_by_its_compatible_strings(nodes, "ov,k3-mailbox-notifier"@, k);
        lemma_whole_cell(nodes[k], "tx-channel"@, 0);
        lemma_whole_cell(nodes[k], "rx-channel"@, 1);
    }
}

proof fn lemma_whole_cell(node: DtNode, name: Seq<char>, default: u32)
    requires
        forall|p: int|
            0 <= p < node.props@.len() && (#[trigger] node.props@[p]).name@ == name
                ==> node.props@[p].cell is Some,
    ensures
        node.cell_or(name, default) is Some,
{
    a_property_is_found_by_its_name(node.props@, name, 0);
    if prop_in(node.props@, name) is Some {
        let j = choose|j: int| #[trigger] first_called(node.props@, name, j);
        a_property_is_found_by_its_name(node.props@, name, j);
    }
}

proof fn lemma_statuses_are_text(nodes: Seq<DtNode>)
    requires
        forall|j: int, p: int|
            0 <= j < nodes.len() && 0 <= p < nodes[j].props@.len() && (
            #[trigger] nodes[j].props@[p]).name@ == "status"@ ==> nodes[j].props@[p].text is Some,
    ensures
        first_enabled(nodes, "ov,rt-async-amp"@) is Some,
    decreases nodes.len(),
{
    if nodes.len() > 0 {
        let rest = nodes.drop_first();
        assert forall|j: int, p: int|
            0 <= j < rest.len() && 0 <= p < rest[j].props@.len() && (
            #[trigger] rest[j].props@[p]).name@ == "status"@ implies rest[j].props@[p].text
            is Some by {
            assert(rest[j] == nodes[j + 1]);
            assert(nodes[j + 1].props@[p] == rest[j].props@[p]);
        }
        lemma_statuses_are_text(rest);
        lemma_off(nodes[0]);
    }
}

/// Slot `s` is the first whose node has an ISA string, its property `p`.
pub open spec fn isa_at(cpus: Seq<Option<Vec<DtProp>>>, s: int, p: int) -> bool {
    &&& 0 <= s < cpus.len()
    &&& cpus[s] is Some
    &&& first_called(cpus[s]->0@, "riscv,isa"@, p)
    &&& forall|r: int|
        0 <= r < s ==> (#[trigger] cpus[r] matches Some(props) ==> none_called(
            props@,
            "riscv,isa"@,
        ))
}

/// The extension is declared exactly if its name stands in the first ISA string of
/// the CPU slots; without an ISA string nothing is known.
pub proof fn the_first_isa_string_declares(cpus: Seq<Option<Vec<DtProp>>>, s: int, p: int)
    ensures
        isa_at(cpus, s, p) ==> (declares_svpbmt(cpus) matches Some(declared) && (declared
            <==> exists|at: int|
            occurs_at(
                vstd::utf8::encode_utf8(cpus[s]->0@[p].text->0@),
                "svpbmt".spec_bytes(),
                at,
            ))),
        (forall|r: int|
            0 <= r < cpus.len() ==> (#[trigger] cpus[r] matches Some(props) ==> none_called(
                props@,
                "riscv,isa"@,
            ))) ==> declares_svpbmt(cpus) is None,
{
    lemma_isa(cpus, s, p);
    if isa_at(cpus, s, p) {
        let isa = cpus[s]->0@[p];
        let bytes = vstd::utf8::encode_utf8(isa.text->0@);
        assert(isa_of(cpus) == Some(isa));
        assert(crate::config::text_bytes(isa.text->0) == bytes);
        let needle = "svpbmt".spec_bytes();
        if declares_svpbmt(cpus) == Some(true) {
            let at = choose|at: int| occurs_at(crate::config::text_bytes(isa.text->0), needle, at);
            assert(occurs_at(bytes, needle, at));
        }
        if exists|at: int| occurs_at(bytes, needle, at) {
            let at = choose|at: int| occurs_at(bytes, needle, at);
            assert(occurs_at(crate::config::text_bytes(isa.text->0), needle, at));
        }
    }
}

proof fn lemma_isa(cpus: Seq<Option<Vec<DtProp>>>, s: int, p: int)
    ensures
        isa_at(cpus, s, p) ==> isa_of(cpus) == Some(cpus[s]->0@[p]),
        (forall|r: int|
            0 <= r < cpus.len() ==> (#[trigger] cpus[r] matches Some(props) ==> none_called(
                props@,
                "riscv,isa"@,
            ))) ==> isa_of(cpus) is None,
    decreases cpus.len(),
{
    if cpus.len() > 0 {
        let rest = cpus.drop_first();
        lemma_isa(rest, s - 1, p);
        if let Some(props) = cpus[0] {
            a_property_is_found_by_its_name(props@, "riscv,isa"@, p);
        }
        if isa_at(cpus, s, p) && s > 0 {
            assert(rest[s - 1] == cpus[s]);
            assert forall|r: int| 0 <= r < s - 1 implies (#[trigger] rest[r] matches Some(props)
                ==> none_called(props@, "riscv,isa"@)) by {
                assert(rest[r] == cpus[r + 1]);
            }
            assert(isa_at(rest, s - 1, p));
            assert(cpus[0] matches Some(props) ==> none_called(props@, "riscv,isa"@));
        }
        if forall|r: int|
            0 <= r < cpus.len() ==> (#[trigger] cpus[r] matches Some(props) ==> none_called(
                props@,
                "riscv,isa"@,
            )) {
            assert forall|r: int| 0 <= r < rest.len() implies (#[trigger] rest[r] matches Some(
                props,
            ) ==> none_called(props@, "riscv,isa"@)) by {
                assert(rest[r] == cpus[r + 1]);
            }
            assert(cpus[0] matches Some(props) ==> none_called(props@, "riscv,isa"@));
        }
    }
}

/// A text stands in another at a place exactly if it is read there, byte by byte.
pub proof fn text_occurs_byte_by_byte(text: Seq<u8>, needle: Seq<u8>, at: int)
    ensures
        occurs_at(text, needle, at) <==> (0 <= at && at + needle.len() <= text.len()
            && forall|j: int| 0 <= j < needle.len() ==> text[at + j] == #[trigger] needle[j]),
{
    if 0 <= at && at + needle.len() <= text.len() {
        let part = text.subrange(at, at + needle.len());
        if forall|j: int| 0 <= j < needle.len() ==> text[at + j] == #[trigger] needle[j] {
            assert(part =~= needle);
        }
        if part == needle {
            assert forall|j: int| 0 <= j < needle.len() implies text[at + j]
                == #[trigger] needle[j] by {
                assert(part[j] == text[at + j]);
            }
        }
    }
}

} // verus!
