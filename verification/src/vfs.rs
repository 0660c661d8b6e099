//! What the device tells the file system layer: numbers and bit masks of the
//! outside crates, as plain integers.

use vstd::prelude::*;

verus! {

/// Major number of the device: miscellaneous character devices.
pub const RT_SHM_MAJOR: u32 = 10;

/// Minor number of the device.
pub const RT_SHM_MINOR: u32 = 200;

/// How a device number packs its two halves: the low 12 bits of the major number
/// above the low 8 bits of the minor number, and the rest of both further up.
pub open spec fn device_number(major: u32, minor: u32) -> u64 {
    (major as u64 & 0xffff_f000) << 32 | (major as u64 & 0xfff) << 8 | (minor as u64 & 0xffff_ff00)
        << 12 | (minor as u64 & 0xff)
}

/// `axfs_ng_vfs::DeviceId::new`: packs a major and a minor number into a device
/// number.
#[verifier::external_body]
fn pack_device_number(major: u32, minor: u32) -> (number: u64)
    ensures
        number == device_number(major, minor),
{
    axfs_ng_vfs::DeviceId::new(major, minor).0
}

/// The bits of `axfs_ng_vfs::NodeFlags::NON_CACHEABLE`, by `NodeFlags::bits`.
#[verifier::external_body]
fn non_cacheable_bits() -> (bits: u32)
    ensures
        bits == 0x2,
{
    axfs_ng_vfs::NodeFlags::NON_CACHEABLE.bits()
}

/// The bits of `axpoll::IoEvents::IN`, by `IoEvents::bits`: the poll event of
/// data to read.
#[verifier::external_body]
fn readable_bits() -> (bits: u32)
    ensures
        bits == 0x1,
{
    axpoll::IoEvents::IN.bits()
}

/// The bits of `axpoll::IoEvents::OUT`, by `IoEvents::bits`: the poll event of
/// room to write.
#[verifier::external_body]
fn writable_bits() -> (bits: u32)
    ensures
        bits == 0x4,
{
    axpoll::IoEvents::OUT.bits()
}

/// `ax_memory_addr::PhysAddrRange::from_start_size`: the range of `size` bytes
/// from `start` on, as its two ends. It panics if the range does not fit the
/// address space.
#[verifier::external_body]
fn phys_range(start: usize, size: usize) -> (range: (usize, usize))
    requires
        start + size <= usize::MAX,
    ensures
        range.0 == start,
        range.1 == start + size,
{
    let range = ax_memory_addr::PhysAddrRange::from_start_size(
        ax_memory_addr::PhysAddr::from(start),
        size,
    );
    (range.start.as_usize(), range.end.as_usize())
}

/// The device's number.
pub fn rt_shm_device_id() -> (number: u64)
    ensures
        number == device_number(RT_SHM_MAJOR, RT_SHM_MINOR),
        number == 0xac8,
{
    proof {
        assert((10u64 & 0xffff_f000) << 32 | (10u64 & 0xfff) << 8 | (200u64 & 0xffff_ff00) << 12
            | (200u64 & 0xff) == 0xac8) by (bit_vector);
    }
    pack_device_number(RT_SHM_MAJOR, RT_SHM_MINOR)
}

/// The device's node flags: its mappings are to bypass the cache.
pub fn node_flags() -> (bits: u32)
    ensures
        bits == 0x2,
{
    non_cacheable_bits()
}

/// The bits of the events that a poll reports: there is always room to write,
/// and data to read if messages are pending.
pub open spec fn event_bits(pending: bool) -> u32 {
    if pending {
        0x5
    } else {
        0x4
    }
}

/// The events that a poll reports, given whether messages are pending.
pub fn poll_events(pending: bool) -> (bits: u32)
    ensures
        bits == event_bits(pending),
{
    let mut events: u32 = writable_bits();
    if pending {
        assert(0x4u32 | 0x1u32 == 0x5u32) by (bit_vector);
        events = events | readable_bits();
    }
    events
}

/// The two ends of the physical range that a mapping of the window covers.
pub fn window_range(phys_base: usize, size: usize) -> (range: (usize, usize))
    requires
        phys_base + size <= usize::MAX,
    ensures
        range.0 == phys_base,
        range.1 == phys_base + size,
{
    phys_range(phys_base, size)
}

} // verus!
