//! The change probe and the per-iteration step of a file watcher.
//!
//! A watcher owns one tracked path together with the last modification
//! time it has seen (the baseline). Each polling round the surrounding
//! program reads the current modification time of the path and hands it
//! to the logic here, which decides whether a change event must be
//! emitted and what the new baseline is.

use vstd::prelude::*;

use crate::events::{copy_bytes, ChangeEvent, FileKind};

verus! {

/// How long a watcher sleeps between polling rounds, in milliseconds: a
/// latency/overhead tradeoff, not a correctness requirement.
pub const POLL_INTERVAL_MILLIS: u64 = 100;

/// Whether a probe with the given current modification time and baseline
/// reports a change: exactly when the modification time strictly exceeds
/// the baseline.
pub open spec fn spec_probe_changed(mtime: u128, baseline: u128) -> bool {
    mtime > baseline
}

/// The baseline recorded after a probe: the current modification time if
/// a change was reported, the old baseline otherwise.
pub open spec fn spec_probe_baseline(mtime: u128, baseline: u128) -> u128 {
    if mtime > baseline {
        mtime
    } else {
        baseline
    }
}

/// Change probe. Given the current modification time of a tracked file
/// and the last recorded baseline, reports whether the file changed and
/// returns the baseline to record for the next round.
pub fn probe(mtime: u128, baseline: u128) -> (r: (bool, u128))
    ensures
        r.0 == spec_probe_changed(mtime, baseline),
        r.1 == spec_probe_baseline(mtime, baseline),
        r.1 >= baseline,
{
    if mtime > baseline {
        (true, mtime)
    } else {
        (false, baseline)
    }
}

/// Probing is idempotent: a second probe with the same modification time
/// against the baseline returned by a first probe never reports a change.
pub proof fn lemma_probe_idempotent(mtime: u128, baseline: u128)
    ensures
        !spec_probe_changed(mtime, spec_probe_baseline(mtime, baseline)),
{
}

/// The baseline never moves backwards, however probes are chained.
pub proof fn lemma_baseline_monotonic(mtime: u128, baseline: u128)
    ensures
        spec_probe_baseline(mtime, baseline) >= baseline,
{
}

/// One tracked file: its path, its kind, and the last modification time
/// the watcher has seen for it.
pub struct WatchTarget {
    pub path: Vec<u8>,
    pub kind: FileKind,
    pub last_seen: u128,
}

impl WatchTarget {
    /// A fresh target, with the given starting baseline.
    pub fn new(path: Vec<u8>, kind: FileKind, baseline: u128) -> (t: WatchTarget)
        ensures
            t.path@ == path@,
            t.kind == kind,
            t.last_seen == baseline,
    {
        WatchTarget { path, kind, last_seen: baseline }
    }
}

/// One polling round of a watcher: probe the target against the current
/// modification time, advance the baseline, and emit a change event
/// exactly when the modification time strictly exceeded the baseline.
/// The emitted event carries the target's kind and path.
pub fn watcher_step(target: &mut WatchTarget, mtime: u128) -> (r: Option<ChangeEvent>)
    ensures
        final(target).path@ == old(target).path@,
        final(target).kind == old(target).kind,
        final(target).last_seen == spec_probe_baseline(mtime, old(target).last_seen),
        final(target).last_seen >= old(target).last_seen,
        r is Some <==> spec_probe_changed(mtime, old(target).last_seen),
        match r {
            Some(e) => e.kind == old(target).kind && e.path@ == old(target).path@,
            None => true,
        },
{
    let (changed, new_baseline) = probe(mtime, target.last_seen);
    target.last_seen = new_baseline;
    if changed {
        Some(ChangeEvent { kind: target.kind, path: copy_bytes(&target.path) })
    } else {
        None
    }
}

} // verus!
