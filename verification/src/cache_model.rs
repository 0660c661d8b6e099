//! A model of one line of the shared window, and what the synchronisation
//! points achieve on it.

use vstd::prelude::*;

use crate::coherence::{
    finish_steps, mode_after, probe_of, sync_op, CacheOp, CoherenceMode, PbmtProbe, ProbeAction,
    SyncPoint, PBMT_PROBE_A, PBMT_PROBE_B,
};

verus! {

/// A copy of a line in this core's cache.
pub struct CachedCopy {
    /// What the copy holds.
    pub value: u64,
    /// Whether SRAM has yet to learn of it.
    pub dirty: bool,
}

/// One word of the window: what SRAM holds, and what this core's cache holds.
pub struct Line {
    /// What SRAM holds, and so what the peer sees.
    pub sram: u64,
    /// This core's copy, if it has one.
    pub cached: Option<CachedCopy>,
}

impl Line {
    /// This core stores `value`, through the cache or past it.
    pub open spec fn store(self, value: u64, bypass: bool) -> Self {
        if bypass {
            Line { sram: value, ..self }
        } else {
            Line { cached: Some(CachedCopy { value, dirty: true }), ..self }
        }
    }

    /// What a load by this core finds.
    pub open spec fn loaded(self, bypass: bool) -> u64 {
        match self.cached {
            Some(copy) if !bypass => copy.value,
            _ => self.sram,
        }
    }

    /// The line after a load by this core.
    pub open spec fn load(self, bypass: bool) -> Self {
        if bypass || self.cached is Some {
            self
        } else {
            Line { cached: Some(CachedCopy { value: self.sram, dirty: false }), ..self }
        }
    }

    /// The line after cache maintenance.
    pub open spec fn maintain(self, op: CacheOp) -> Self {
        match op {
            CacheOp::Invalidate => Line { cached: None, ..self },
            CacheOp::CleanInvalidate => self.evict(),
        }
    }

    /// The line after the cache has given up its copy: dirty data goes to SRAM.
    pub open spec fn evict(self) -> Self {
        match self.cached {
            Some(copy) if copy.dirty => Line { sram: copy.value, cached: None },
            _ => Line { cached: None, ..self },
        }
    }

    /// The line after the synchronisation that is due at `point` in `mode`.
    pub open spec fn at(self, mode: CoherenceMode, point: SyncPoint) -> Self {
        match sync_op(mode, point) {
            Some(op) => self.maintain(op),
            None => self,
        }
    }

    /// The line after the probe's actions, with the word that was read back.
    pub open spec fn probe(self, actions: Seq<ProbeAction>, bypass: bool, word: u64) -> (Line, u64)
        decreases actions.len(),
    {
        if actions.len() == 0 {
            (self, word)
        } else {
            let rest = actions.drop_first();
            match actions[0] {
                ProbeAction::Store { value, .. } => self.store(value, bypass).probe(
                    rest,
                    bypass,
                    word,
                ),
                ProbeAction::Load { .. } => self.load(bypass).probe(
                    rest,
                    bypass,
                    self.loaded(bypass),
                ),
                ProbeAction::Sync(sync) => self.maintain(sync.op).probe(rest, bypass, word),
            }
        }
    }
}

/// A mode fits the hardware: the driver does without synchronisation only where
/// accesses do bypass the cache.
pub open spec fn mode_fits(mode: CoherenceMode, bypass: bool) -> bool {
    mode == CoherenceMode::PbmtNc ==> bypass
}

/// The probe reads its own word back exactly when accesses bypass the cache:
/// the line was dropped at boot, then left dirty, perhaps evicted, and then
/// probed through the remapped address. Without the eviction this needs that
/// SRAM did not hold the probe's word to begin with.
pub proof fn probe_tells_whether_accesses_bypass(
    line: Line,
    probe: PbmtProbe,
    evicted: bool,
    bypass: bool,
    unread: u64,
)
    requires
        evicted || line.sram != PBMT_PROBE_B,
    ensures
        ({
            let primed = line.maintain(CacheOp::Invalidate).store(PBMT_PROBE_A, false);
            let remapped = if evicted {
                primed.evict()
            } else {
                primed
            };
            let (after, readback) = remapped.probe(finish_steps(probe), bypass, unread);
            &&& (readback == PBMT_PROBE_B) == bypass
            &&& after.cached is None
        }),
{
    let steps = finish_steps(probe);
    assert(steps.drop_first().drop_first().drop_first().drop_first() =~= Seq::empty());
    reveal_with_fuel(Line::probe, 5);
}

/// The cache holds no copy of the line that maintenance could push over what an
/// access that bypasses it has written.
pub open spec fn nothing_in_the_way(line: Line, mode: CoherenceMode, bypass: bool) -> bool {
    mode == CoherenceMode::Cbo && bypass ==> line.cached is None
}

/// What this core wrote is in SRAM once the synchronisation before a
/// notification has been carried out: the peer sees it when the doorbell rings.
pub proof fn notify_publishes(line: Line, mode: CoherenceMode, bypass: bool, value: u64)
    requires
        mode_fits(mode, bypass),
        nothing_in_the_way(line, mode, bypass),
    ensures
        line.store(value, bypass).at(mode, SyncPoint::Notify).sram == value,
{
}

/// A look for the peer's answer finds what SRAM holds: neither a stale copy nor
/// the answer of an earlier look gets in the way.
pub proof fn await_looks_at_sram(line: Line, mode: CoherenceMode, bypass: bool)
    requires
        mode_fits(mode, bypass),
    ensures
        line.at(mode, SyncPoint::AwaitCheck).loaded(bypass) == line.sram,
        line.at(mode, SyncPoint::AwaitCheck).sram == line.sram,
{
}

/// After a wait has returned, the process reads what SRAM holds, unless it has
/// itself written to the line since the last synchronisation, in which case its
/// own write is kept and published.
pub proof fn await_returns_the_truth(line: Line, mode: CoherenceMode, bypass: bool)
    requires
        mode_fits(mode, bypass),
        nothing_in_the_way(line, mode, bypass),
    ensures
        ({
            let after = line.at(mode, SyncPoint::AwaitReturn);
            let dirty = !bypass && (line.cached matches Some(copy) && copy.dirty);
            &&& !dirty ==> after.loaded(bypass) == line.sram && after.sram == line.sram
            &&& dirty ==> after.loaded(bypass) == line.loaded(bypass) && after.sram == line.loaded(
                bypass,
            )
        }),
{
}

/// After the synchronisation at boot no line that the boot chain left behind
/// can be written back: an eviction changes nothing.
pub proof fn boot_leaves_nothing_to_write_back(line: Line, mode: CoherenceMode)
    ensures
        line.at(mode, SyncPoint::Boot).evict() == line.at(mode, SyncPoint::Boot),
        line.at(mode, SyncPoint::Boot).sram == line.sram,
{
}

/// After the synchronisation of a mapping no copy of the line is left in the
/// cache that could swallow the first write of the process.
pub proof fn mmap_leaves_no_copy(line: Line, mode: CoherenceMode, bypass: bool)
    requires
        mode_fits(mode, bypass),
        bypass ==> line.cached is None,
    ensures
        line.at(mode, SyncPoint::Mmap).cached is None,
        line.at(mode, SyncPoint::Mmap).sram == line.sram,
{
}

/// The mode that the device ends up in fits the hardware, if the word it was
/// given is the one that the probe read back.
pub proof fn probed_mode_fits(
    line: Line,
    lin_vaddr: usize,
    shm_size: usize,
    evicted: bool,
    bypass: bool,
    unread: u64,
)
    requires
        evicted || line.sram != PBMT_PROBE_B,
    ensures
        probe_of(lin_vaddr, shm_size) matches Some(probe) ==> {
            let primed = line.maintain(CacheOp::Invalidate).store(PBMT_PROBE_A, false);
            let remapped = if evicted {
                primed.evict()
            } else {
                primed
            };
            let readback = remapped.probe(finish_steps(probe), bypass, unread).1;
            mode_fits(mode_after(lin_vaddr, shm_size, readback), bypass)
        },
        probe_of(lin_vaddr, shm_size) is None ==> mode_fits(
            mode_after(lin_vaddr, shm_size, unread),
            bypass,
        ),
{
    if let Some(probe) = probe_of(lin_vaddr, shm_size) {
        probe_tells_whether_accesses_bypass(line, probe, evicted, bypass, unread);
    }
}

} // verus!
