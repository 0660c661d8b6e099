use rt_shm::coherence::{
    coherence_mode, flush_shm_window, invalidate_shm_window, sync_window, CacheOp, CacheSync,
    CoherenceMode, PbmtProbe, ProbeAction, SyncPoint, PBMT_PROBE_A, PBMT_PROBE_B,
};

#[test]
fn the_probe_uses_the_last_line() {
    let probe = PbmtProbe::prime(0xc080_0000, 0x1_9000).unwrap();
    assert_eq!(probe.scratch, 0xc081_8fc0);
    assert_eq!(
        probe.prime_action(),
        ProbeAction::Store { addr: 0xc081_8fc0, value: 0xa5a5_5a5a_a5a5_5a5a }
    );
}

#[test]
fn there_is_no_probe_without_a_whole_aligned_line() {
    // Smaller than a line, though its end is aligned.
    assert_eq!(PbmtProbe::prime(0x1020, 0x20), None);
    assert_eq!(PbmtProbe::prime(0, 0), None);
    assert_eq!(PbmtProbe::prime(0, 63), None);
    // Not aligned.
    assert_eq!(PbmtProbe::prime(0x1000, 0x1010), None);
    // Past the end of the address space.
    assert_eq!(PbmtProbe::prime(usize::MAX - 63, 128), None);
    assert_eq!(PbmtProbe::prime(0, 64), Some(PbmtProbe { scratch: 0 }));
}

#[test]
fn the_probe_stores_drops_and_reads_back() {
    let probe = PbmtProbe { scratch: 0x40 };
    assert_eq!(
        probe.finish_actions(),
        [
            ProbeAction::Store { addr: 0x40, value: PBMT_PROBE_B },
            ProbeAction::Sync(CacheSync { op: CacheOp::Invalidate, vaddr: 0x40, size: 64 }),
            ProbeAction::Load { addr: 0x40 },
            ProbeAction::Sync(CacheSync { op: CacheOp::CleanInvalidate, vaddr: 0x40, size: 64 }),
        ]
    );
    assert!(probe.finish(PBMT_PROBE_B));
    assert!(!probe.finish(PBMT_PROBE_A));
    assert!(!probe.finish(0));
}

/// A word of memory behind a cache.
struct Line {
    sram: u64,
    cached: Option<u64>,
}

fn probe_on(bypass: bool) -> bool {
    let mut line = Line { sram: 0x1234, cached: None };
    let probe = PbmtProbe::prime(0, 64).unwrap();
    match probe.prime_action() {
        ProbeAction::Store { value, .. } => line.cached = Some(value),
        _ => unreachable!(),
    }
    let mut readback = 0;
    for action in probe.finish_actions() {
        match action {
            ProbeAction::Store { value, .. } if bypass => line.sram = value,
            ProbeAction::Store { value, .. } => line.cached = Some(value),
            ProbeAction::Load { .. } if bypass => readback = line.sram,
            ProbeAction::Load { .. } => readback = line.cached.unwrap_or(line.sram),
            ProbeAction::Sync(sync) => {
                if sync.op == CacheOp::CleanInvalidate {
                    line.sram = line.cached.unwrap_or(line.sram);
                }
                line.cached = None;
            }
        }
    }
    probe.finish(readback)
}

#[test]
fn the_probe_tells_bypassing_from_caching() {
    assert!(probe_on(true));
    assert!(!probe_on(false));
}

#[test]
fn only_a_successful_probe_is_trusted() {
    assert_eq!(coherence_mode(Some(true)), CoherenceMode::PbmtNc);
    assert_eq!(coherence_mode(Some(false)), CoherenceMode::Cbo);
    assert_eq!(coherence_mode(None), CoherenceMode::Cbo);
}

#[test]
fn cached_windows_are_synchronised_everywhere() {
    let at = |point| sync_window(CoherenceMode::Cbo, point, 0x80, 0x100);
    let drop = Some(CacheSync { op: CacheOp::Invalidate, vaddr: 0x80, size: 0x100 });
    let flush = Some(CacheSync { op: CacheOp::CleanInvalidate, vaddr: 0x80, size: 0x100 });
    assert_eq!(at(SyncPoint::Boot), drop);
    assert_eq!(at(SyncPoint::Mmap), drop);
    assert_eq!(at(SyncPoint::AwaitCheck), drop);
    assert_eq!(at(SyncPoint::Notify), flush);
    assert_eq!(at(SyncPoint::AwaitReturn), flush);
    assert_eq!(Some(invalidate_shm_window(0x80, 0x100)), drop);
    assert_eq!(Some(flush_shm_window(0x80, 0x100)), flush);
}

#[test]
fn non_cached_windows_are_synchronised_at_boot_only() {
    let at = |point| sync_window(CoherenceMode::PbmtNc, point, 0, 64);
    assert!(at(SyncPoint::Boot).is_some());
    assert_eq!(at(SyncPoint::Mmap), None);
    assert_eq!(at(SyncPoint::AwaitCheck), None);
    assert_eq!(at(SyncPoint::Notify), None);
    assert_eq!(at(SyncPoint::AwaitReturn), None);
}
