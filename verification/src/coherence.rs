//! Cache coherence of the shared window.
//!
//! The window is cacheable RAM. Page attributes can make its mappings bypass
//! the cache, but firmware may silently ignore them. A probe at boot finds out,
//! and the answer decides whether the driver synchronises caches by hand.

use vstd::prelude::*;

verus! {

/// Size of a cache line, and of the block that cache maintenance works on.
pub const CACHE_LINE: usize = 64;

/// What the probe leaves in the cache.
pub const PBMT_PROBE_A: u64 = 0xA5A5_5A5A_A5A5_5A5A;

/// What the probe writes through the remapped window.
pub const PBMT_PROBE_B: u64 = 0x5A5A_A5A5_5A5A_A5A5;

/// How the shared window is kept coherent.
#[derive(Debug, Clone, Copy, PartialEq, Eq, Structural)]
pub enum CoherenceMode {
    /// Mappings of the window bypass the cache: every access reaches SRAM, and
    /// no synchronisation is needed per operation.
    PbmtNc,
    /// Mappings may be cached, whatever their attributes say: every
    /// synchronisation point is carried out.
    Cbo,
}

/// A cache maintenance operation.
#[derive(Debug, Clone, Copy, PartialEq, Eq, Structural)]
pub enum CacheOp {
    /// Drop cached lines without writing them back.
    Invalidate,
    /// Write dirty lines back, then drop them.
    CleanInvalidate,
}

/// A cache maintenance operation on an address range.
#[derive(Debug, Clone, Copy, PartialEq, Eq, Structural)]
pub struct CacheSync {
    /// The operation.
    pub op: CacheOp,
    /// First virtual address of the range.
    pub vaddr: usize,
    /// Size of the range in bytes.
    pub size: usize,
}

/// Where the driver synchronises the caches.
#[derive(Debug, Clone, Copy, PartialEq, Eq, Structural)]
pub enum SyncPoint {
    /// The device is being set up.
    Boot,
    /// The window is about to be mapped into a process.
    Mmap,
    /// The peer is about to be notified.
    Notify,
    /// The driver is about to look whether the peer has answered.
    AwaitCheck,
    /// A wait for the peer is about to return to the process.
    AwaitReturn,
}

/// The operation that is due at `point` in `mode`.
pub open spec fn sync_op(mode: CoherenceMode, point: SyncPoint) -> Option<CacheOp> {
    match point {
        SyncPoint::Boot => Some(CacheOp::Invalidate),
        SyncPoint::Mmap | SyncPoint::AwaitCheck => if mode == CoherenceMode::Cbo {
            Some(CacheOp::Invalidate)
        } else {
            None
        },
        SyncPoint::Notify | SyncPoint::AwaitReturn => if mode == CoherenceMode::Cbo {
            Some(CacheOp::CleanInvalidate)
        } else {
            None
        },
    }
}

/// The operation that is due on the window `[vaddr, vaddr + size)` at `point`
/// in `mode`. Lines that the boot chain left behind are dropped in either mode;
/// the other points matter only where mappings may be cached.
pub fn sync_window(mode: CoherenceMode, point: SyncPoint, vaddr: usize, size: usize) -> (sync:
    Option<CacheSync>)
    ensures
        sync == (match sync_op(mode, point) {
            Some(op) => Some(CacheSync { op, vaddr, size }),
            None => None,
        }),
{
    match point {
        SyncPoint::Boot => Some(invalidate_shm_window(vaddr, size)),
        SyncPoint::Mmap | SyncPoint::AwaitCheck => match mode {
            CoherenceMode::Cbo => Some(invalidate_shm_window(vaddr, size)),
            CoherenceMode::PbmtNc => None,
        },
        SyncPoint::Notify | SyncPoint::AwaitReturn => match mode {
            CoherenceMode::Cbo => Some(flush_shm_window(vaddr, size)),
            CoherenceMode::PbmtNc => None,
        },
    }
}

/// Drops the lines of the window: what is read next comes from SRAM.
pub fn invalidate_shm_window(vaddr: usize, size: usize) -> (sync: CacheSync)
    ensures
        sync == (CacheSync { op: CacheOp::Invalidate, vaddr, size }),
{
    CacheSync { op: CacheOp::Invalidate, vaddr, size }
}

/// Writes the lines of the window back and drops them: what was written is in
/// SRAM, and what is read next comes from there.
pub fn flush_shm_window(vaddr: usize, size: usize) -> (sync: CacheSync)
    ensures
        sync == (CacheSync { op: CacheOp::CleanInvalidate, vaddr, size }),
{
    CacheSync { op: CacheOp::CleanInvalidate, vaddr, size }
}

/// An access that the probe makes to the window.
#[derive(Debug, Clone, Copy, PartialEq, Eq, Structural)]
pub enum ProbeAction {
    /// Store `value` at `addr`.
    Store { addr: usize, value: u64 },
    /// Load the word at `addr`: the probe wants to know it.
    Load { addr: usize },
    /// Carry out cache maintenance.
    Sync(CacheSync),
}

/// The write-through probe.
///
/// Before the window is remapped with a non-cached attribute, a store through
/// the cached mapping leaves a dirty line. Afterwards a second store goes
/// through the same address. If the attribute works, that store reaches SRAM;
/// if it is ignored, it only replaces the cached value. Dropping the line and
/// reading back tells which.
///
/// The probe uses the last line of the window, which no message touches.
#[derive(Debug, Clone, Copy, PartialEq, Eq, Structural)]
pub struct PbmtProbe {
    /// Address of the line that the probe uses.
    pub scratch: usize,
}

impl PbmtProbe {
    /// Sets the probe up on the last line of the window, before it is remapped.
    /// There is no probe if the window is smaller than a line, if its last line
    /// is not aligned to one, or if it does not fit the address space.
    pub fn prime(lin_vaddr: usize, shm_size: usize) -> (probe: Option<Self>)
        ensures
            probe == probe_of(lin_vaddr, shm_size),
    {
        if shm_size < CACHE_LINE {
            return None;
        }
        match lin_vaddr.checked_add(shm_size) {
            Some(end) => {
                let scratch: usize = end - CACHE_LINE;
                proof {
                    assert(scratch & 0x3f == scratch % 64) by (bit_vector);
                }
                if scratch & 0x3f != 0 {
                    None
                } else {
                    Some(Self { scratch })
                }
            },
            None => None,
        }
    }

    /// What to do before the window is remapped: leave a dirty line.
    pub fn prime_action(&self) -> (action: ProbeAction)
        ensures
            action == (ProbeAction::Store { addr: self.scratch, value: PBMT_PROBE_A }),
    {
        ProbeAction::Store { addr: self.scratch, value: PBMT_PROBE_A }
    }

    /// What to do after the window has been remapped, in order: store again,
    /// drop the line, read back, and push out whatever may have stayed behind.
    pub fn finish_actions(&self) -> (actions: [ProbeAction; 4])
        ensures
            actions@ == finish_steps(*self),
    {
        let actions = [
            ProbeAction::Store { addr: self.scratch, value: PBMT_PROBE_B },
            ProbeAction::Sync(invalidate_shm_window(self.scratch, CACHE_LINE)),
            ProbeAction::Load { addr: self.scratch },
            ProbeAction::Sync(flush_shm_window(self.scratch, CACHE_LINE)),
        ];
        assert(actions@ =~= finish_steps(*self));
        actions
    }

    /// Whether the attribute works, given the word that was read back.
    pub fn finish(self, readback: u64) -> (effective: bool)
        ensures
            effective == (readback == PBMT_PROBE_B),
    {
        readback == PBMT_PROBE_B
    }
}

/// The probe for the window `[lin_vaddr, lin_vaddr + shm_size)`.
pub open spec fn probe_of(lin_vaddr: usize, shm_size: usize) -> Option<PbmtProbe> {
    let end = lin_vaddr + shm_size;
    if shm_size >= CACHE_LINE && end <= usize::MAX && end % CACHE_LINE as int == 0 {
        Some(PbmtProbe { scratch: (end - CACHE_LINE) as usize })
    } else {
        None
    }
}

/// What the probe does after the window has been remapped.
pub open spec fn finish_steps(probe: PbmtProbe) -> Seq<ProbeAction> {
    let line = probe.scratch;
    seq![
        ProbeAction::Store { addr: line, value: PBMT_PROBE_B },
        ProbeAction::Sync(CacheSync { op: CacheOp::Invalidate, vaddr: line, size: CACHE_LINE }),
        ProbeAction::Load { addr: line },
        ProbeAction::Sync(
            CacheSync { op: CacheOp::CleanInvalidate, vaddr: line, size: CACHE_LINE },
        ),
    ]
}

/// The mode of the window `[lin_vaddr, lin_vaddr + shm_size)`, if the probe read
/// back `readback`.
pub open spec fn mode_after(lin_vaddr: usize, shm_size: usize, readback: u64) -> CoherenceMode {
    if probe_of(lin_vaddr, shm_size) is Some && readback == PBMT_PROBE_B {
        CoherenceMode::PbmtNc
    } else {
        CoherenceMode::Cbo
    }
}

/// The mode that a probe's answer calls for. Without a probe, and after one
/// that failed, no attribute is trusted.
pub fn coherence_mode(probe: Option<bool>) -> (mode: CoherenceMode)
    ensures
        mode == (if probe == Some(true) {
            CoherenceMode::PbmtNc
        } else {
            CoherenceMode::Cbo
        }),
{
    match probe {
        Some(effective) => if effective {
            CoherenceMode::PbmtNc
        } else {
            CoherenceMode::Cbo
        },
        None => CoherenceMode::Cbo,
    }
}

/// The probe stays within the window, on a line of its own.
pub proof fn probe_line_is_the_last_of_the_window(lin_vaddr: usize, shm_size: usize)
    ensures
        probe_of(lin_vaddr, shm_size) matches Some(probe) ==> {
            &&& lin_vaddr <= probe.scratch
            &&& probe.scratch + CACHE_LINE == lin_vaddr + shm_size
            &&& probe.scratch % CACHE_LINE == 0
        },
{
}

/// A window whose mappings bypass the cache is synchronised at boot and never
/// again.
pub proof fn non_cached_window_needs_no_sync(point: SyncPoint)
    ensures
        sync_op(CoherenceMode::PbmtNc, point) is Some <==> point == SyncPoint::Boot,
{
}

} // verus!
