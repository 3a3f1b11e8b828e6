//! The mirror branch of the layout synthesizer: one logical monitor
//! covering every physical monitor at the best common resolution.
//!
//! The reference monitor is the first external one (or the first
//! overall); the candidate resolutions are those of its modes that
//! every monitor supports; the one with the most pixels wins, earliest
//! first among equals. Each monitor then contributes its matching mode
//! with the highest refresh rate, the latest among equals.

use vstd::arithmetic::mul::lemma_mul_upper_bound;
use vstd::prelude::*;

use crate::DisplayMode;
use crate::errors::Error;
use crate::structs::{
    ApplyMonitorAssignment, ApplyMonitorAssignmentV, LogicalMonitorConfig, LogicalMonitorConfigV,
    ModeV, Monitor, MonitorV,
};

verus! {

/// The position of the first external (non-built-in) monitor, if any.
pub open spec fn first_external_index(ms: Seq<MonitorV>) -> Option<int>
    decreases ms.len(),
{
    if ms.len() == 0 {
        None
    } else if !ms[0].is_builtin {
        Some(0int)
    } else {
        match first_external_index(ms.drop_first()) {
            Some(i) => Some(i + 1),
            None => None,
        }
    }
}

/// The reference monitor for mirroring: the first external monitor,
/// else the first monitor overall.
pub open spec fn reference_index(ms: Seq<MonitorV>) -> int {
    match first_external_index(ms) {
        Some(i) => i,
        None => 0,
    }
}

/// Whether `m` has a mode with exactly this resolution.
pub open spec fn supports_resolution(m: MonitorV, w: u32, h: u32) -> bool {
    exists|i: int|
        0 <= i < m.modes.len() && (#[trigger] m.modes[i]).width == w && m.modes[i].height == h
}

/// Whether every monitor of `ms` supports the resolution.
pub open spec fn resolution_common(ms: Seq<MonitorV>, w: u32, h: u32) -> bool {
    forall|j: int| 0 <= j < ms.len() ==> supports_resolution(#[trigger] ms[j], w, h)
}

/// The reference monitor's modes whose resolution every monitor
/// supports, in the reference monitor's mode order.
pub open spec fn common_candidates(modes: Seq<ModeV>, ms: Seq<MonitorV>) -> Seq<ModeV>
    decreases modes.len(),
{
    if modes.len() == 0 {
        Seq::empty()
    } else {
        let init = common_candidates(modes.drop_last(), ms);
        if resolution_common(ms, modes.last().width, modes.last().height) {
            init.push(modes.last())
        } else {
            init
        }
    }
}

/// Total pixel count of a mode.
pub open spec fn pixel_count(md: ModeV) -> int {
    md.width * md.height
}

/// The position of the candidate with the most pixels; among equal
/// pixel counts the earliest candidate wins, which keeps the reference
/// monitor's mode order as the tie-break.
pub open spec fn best_candidate_index(c: Seq<ModeV>) -> int
    decreases c.len(),
{
    if c.len() <= 1 {
        0
    } else {
        let b = best_candidate_index(c.drop_last());
        if pixel_count(c.last()) > pixel_count(c[b]) {
            c.len() - 1
        } else {
            b
        }
    }
}

/// The mode a monitor contributes to a mirror at resolution `w`x`h`:
/// among its modes with exactly that resolution, the one with the
/// highest refresh rate, the latest in mode order among equals.
pub open spec fn mirror_mode_choice(modes: Seq<ModeV>, w: u32, h: u32) -> Option<int>
    decreases modes.len(),
{
    if modes.len() == 0 {
        None
    } else {
        let prev = mirror_mode_choice(modes.drop_last(), w, h);
        let j = modes.len() - 1;
        if modes[j].width == w && modes[j].height == h {
            match prev {
                None => Some(j),
                Some(k) => if modes[j].refresh_millihz >= modes[k].refresh_millihz {
                    Some(j)
                } else {
                    Some(k)
                },
            }
        } else {
            prev
        }
    }
}

/// The position of the first mode with exactly this resolution.
pub open spec fn first_matching_resolution(modes: Seq<ModeV>, w: u32, h: u32) -> Option<int>
    decreases modes.len(),
{
    if modes.len() == 0 {
        None
    } else if modes[0].width == w && modes[0].height == h {
        Some(0int)
    } else {
        match first_matching_resolution(modes.drop_first(), w, h) {
            Some(i) => Some(i + 1),
            None => None,
        }
    }
}

/// The scale of a mirrored layout: the preferred scale of the
/// reference monitor's first mode at the chosen resolution, but never
/// below one (1000 thousandths), so a mirrored image is not
/// pixel-doubled by a sub-unit scale.
pub open spec fn mirror_scale_of(rm: MonitorV, w: u32, h: u32) -> u32 {
    match first_matching_resolution(rm.modes, w, h) {
        Some(i) => if rm.modes[i].preferred_scale_millis >= 1000 {
            rm.modes[i].preferred_scale_millis
        } else {
            1000
        },
        None => 1000,
    }
}

/// What one mirror assignment must say for monitor `m`: its connector
/// and the id of its chosen mode at the mirrored resolution.
pub open spec fn mirror_assignment_ok(
    a: ApplyMonitorAssignmentV,
    m: MonitorV,
    w: u32,
    h: u32,
) -> bool {
    &&& a.connector == m.connector_info.connector
    &&& match mirror_mode_choice(m.modes, w, h) {
        Some(i) => a.mode_id == m.modes[i].id,
        None => false,
    }
}

/// The single mirrored descriptor: at the origin, normal orientation,
/// primary, the mirror scale, and one assignment per monitor in input
/// order.
pub open spec fn mirror_descriptor_ok(
    d: LogicalMonitorConfigV,
    ms: Seq<MonitorV>,
    w: u32,
    h: u32,
) -> bool {
    &&& d.x == 0
    &&& d.y == 0
    &&& d.transform == 0
    &&& d.primary == true
    &&& d.scale_millis == mirror_scale_of(ms[reference_index(ms)], w, h)
    &&& d.monitors.len() == ms.len()
    &&& forall|k: int|
        0 <= k < ms.len() ==> mirror_assignment_ok(#[trigger] d.monitors[k], ms[k], w, h)
}

/// Full outcome of the mirror branch as one predicate: an empty set
/// has no monitors to mirror; a set without a shared resolution has
/// no common resolution; otherwise exactly one descriptor at the best
/// common resolution.
pub open spec fn mirror_outcome_ok(
    r: Result<Vec<LogicalMonitorConfig>, Error>,
    mv: Seq<MonitorV>,
) -> bool {
    if mv.len() == 0 {
        r == Err::<Vec<LogicalMonitorConfig>, Error>(
            Error::NoMonitorsAvailable(DisplayMode::Mirror),
        )
    } else {
        let cands = common_candidates(mv[reference_index(mv)].modes, mv);
        if cands.len() == 0 {
            r == Err::<Vec<LogicalMonitorConfig>, Error>(Error::NoCommonResolutionsAvailable)
        } else {
            let chosen = cands[best_candidate_index(cands)];
            match r {
                Ok(ds) => ds.deep_view().len() == 1 && mirror_descriptor_ok(
                    ds.deep_view()[0],
                    mv,
                    chosen.width,
                    chosen.height,
                ),
                Err(_) => false,
            }
        }
    }
}

/// Pixel product of a resolution, without overflow.
fn pixel_product(w: u32, h: u32) -> (r: u64)
    ensures
        r as int == w as int * h as int,
{
    proof {
        lemma_mul_upper_bound(w as int, 0xffff_ffff, h as int, 0xffff_ffff);
    }
    (w as u64) * (h as u64)
}

/// The best candidate position is a position of the candidate list.
proof fn lemma_best_candidate_in_range(c: Seq<ModeV>)
    requires
        c.len() > 0,
    ensures
        0 <= best_candidate_index(c) < c.len(),
    decreases c.len(),
{
    if c.len() > 1 {
        lemma_best_candidate_in_range(c.drop_last());
    }
}

/// Every candidate's resolution is supported by every monitor.
proof fn lemma_candidates_common(modes: Seq<ModeV>, ms: Seq<MonitorV>)
    ensures
        forall|i: int|
            0 <= i < common_candidates(modes, ms).len() ==> resolution_common(
                ms,
                (#[trigger] common_candidates(modes, ms)[i]).width,
                common_candidates(modes, ms)[i].height,
            ),
    decreases modes.len(),
{
    if modes.len() > 0 {
        lemma_candidates_common(modes.drop_last(), ms);
        let init = common_candidates(modes.drop_last(), ms);
        let cc = common_candidates(modes, ms);
        assert forall|i: int| 0 <= i < cc.len() implies resolution_common(
            ms,
            cc[i].width,
            cc[i].height,
        ) by {
            if i < init.len() {
                assert(cc[i] == init[i]);
            } else {
                assert(cc[i] == modes.last());
            }
        }
    }
}

/// A monitor that supports the resolution contributes a matching mode,
/// and the choice always points at a matching mode.
proof fn lemma_mirror_choice_exists(modes: Seq<ModeV>, w: u32, h: u32)
    ensures
        match mirror_mode_choice(modes, w, h) {
            Some(i) => 0 <= i < modes.len() && modes[i].width == w && modes[i].height == h,
            None => forall|j: int|
                0 <= j < modes.len() ==> !((#[trigger] modes[j]).width == w && modes[j].height
                    == h),
        },
    decreases modes.len(),
{
    if modes.len() > 0 {
        lemma_mirror_choice_exists(modes.drop_last(), w, h);
        match mirror_mode_choice(modes, w, h) {
            Some(i) => {},
            None => {
                assert(forall|j: int|
                    0 <= j < modes.len() - 1 ==> modes.drop_last()[j] == #[trigger] modes[j]);
            },
        }
    }
}

/// Whether `monitor` has a mode with exactly this resolution.
fn monitor_supports(monitor: &Monitor, w: u32, h: u32) -> (r: bool)
    ensures
        r == supports_resolution(monitor@, w, h),
{
    let n = monitor.modes.len();
    let mut i: usize = 0;
    while i < n
        invariant
            n == monitor.modes.len(),
            i <= n,
            forall|j: int|
                0 <= j < i ==> !((#[trigger] monitor@.modes[j]).width == w
                    && monitor@.modes[j].height == h),
        decreases n - i,
    {
        proof {
            assert(monitor@.modes[i as int] == monitor.modes[i as int]@);
        }
        if monitor.modes[i].width == w && monitor.modes[i].height == h {
            return true;
        }
        i = i + 1;
    }
    false
}

/// Whether every monitor of the set supports the resolution.
fn all_support(monitors: &Vec<Monitor>, w: u32, h: u32) -> (r: bool)
    ensures
        r == resolution_common(monitors.deep_view(), w, h),
{
    let n = monitors.len();
    let mut i: usize = 0;
    while i < n
        invariant
            n == monitors.len(),
            i <= n,
            forall|j: int|
                0 <= j < i ==> supports_resolution(#[trigger] monitors.deep_view()[j], w, h),
        decreases n - i,
    {
        proof {
            assert(monitors.deep_view()[i as int] == monitors[i as int]@);
        }
        if !monitor_supports(&monitors[i], w, h) {
            return false;
        }
        i = i + 1;
    }
    true
}

/// The reference monitor's position: the first external monitor, else
/// position zero.
fn find_reference(monitors: &Vec<Monitor>) -> (r: usize)
    requires
        monitors.len() > 0,
    ensures
        r < monitors.len(),
        r as int == reference_index(monitors.deep_view()),
{
    let ghost mv = monitors.deep_view();
    let n = monitors.len();
    proof {
        assert(mv.skip(0) =~= mv);
    }
    let mut i: usize = 0;
    while i < n
        invariant
            n == monitors.len(),
            n == mv.len(),
            mv == monitors.deep_view(),
            i <= n,
            first_external_index(mv) == match first_external_index(mv.skip(i as int)) {
                Some(k) => Some(k + i),
                None => None::<int>,
            },
        decreases n - i,
    {
        let ghost rest = mv.skip(i as int);
        proof {
            assert(rest[0] == mv[i as int]);
            assert(mv[i as int] == monitors[i as int]@);
            assert(rest.drop_first() =~= mv.skip(i + 1));
        }
        if !monitors[i].is_builtin {
            return i;
        }
        i = i + 1;
    }
    proof {
        assert(mv.skip(n as int) =~= Seq::<MonitorV>::empty());
    }
    0
}

/// The monitor's mirror mode at the resolution: highest refresh rate,
/// latest among equals.
fn pick_mirror_mode(monitor: &Monitor, w: u32, h: u32) -> (r: Option<usize>)
    ensures
        match r {
            Some(i) => i < monitor.modes.len() && mirror_mode_choice(monitor@.modes, w, h) == Some(
                i as int,
            ),
            None => mirror_mode_choice(monitor@.modes, w, h) is None,
        },
{
    let ghost all = monitor@.modes;
    let n = monitor.modes.len();
    let mut best: Option<usize> = None;
    let mut j: usize = 0;
    proof {
        assert(all.take(0) =~= Seq::<ModeV>::empty());
    }
    while j < n
        invariant
            n == monitor.modes.len(),
            all == monitor@.modes,
            n == all.len(),
            j <= n,
            match best {
                Some(b) => b < j && mirror_mode_choice(all.take(j as int), w, h) == Some(b as int),
                None => mirror_mode_choice(all.take(j as int), w, h) is None,
            },
        decreases n - j,
    {
        proof {
            assert(all.take(j + 1).drop_last() =~= all.take(j as int));
            assert(all.take(j + 1).last() == all[j as int]);
            assert(all[j as int] == monitor.modes[j as int]@);
        }
        if monitor.modes[j].width == w && monitor.modes[j].height == h {
            match best {
                Option::None => {
                    best = Some(j);
                },
                Option::Some(b) => {
                    if monitor.modes[j].refresh_millihz >= monitor.modes[b].refresh_millihz {
                        best = Some(j);
                    }
                },
            }
        }
        j = j + 1;
    }
    proof {
        assert(all.take(n as int) =~= all);
    }
    best
}

/// The reference monitor's first mode at the resolution.
fn first_matching_mode(monitor: &Monitor, w: u32, h: u32) -> (r: Option<usize>)
    ensures
        match r {
            Some(i) => i < monitor.modes.len() && first_matching_resolution(monitor@.modes, w, h)
                == Some(i as int),
            None => first_matching_resolution(monitor@.modes, w, h) is None,
        },
{
    let ghost all = monitor@.modes;
    let n = monitor.modes.len();
    proof {
        assert(all.skip(0) =~= all);
    }
    let mut i: usize = 0;
    while i < n
        invariant
            n == monitor.modes.len(),
            all == monitor@.modes,
            n == all.len(),
            i <= n,
            first_matching_resolution(all, w, h) == match first_matching_resolution(
                all.skip(i as int),
                w,
                h,
            ) {
                Some(k) => Some(k + i),
                None => None::<int>,
            },
        decreases n - i,
    {
        let ghost rest = all.skip(i as int);
        proof {
            assert(rest[0] == all[i as int]);
            assert(all[i as int] == monitor.modes[i as int]@);
            assert(rest.drop_first() =~= all.skip(i + 1));
        }
        if monitor.modes[i].width == w && monitor.modes[i].height == h {
            return Some(i);
        }
        i = i + 1;
    }
    proof {
        assert(all.skip(n as int) =~= Seq::<ModeV>::empty());
    }
    None
}

/// Synthesizes the mirrored layout: a single logical monitor at the
/// origin covering every input monitor at the best common resolution.
/// Fails when the set is empty or when no resolution is shared by all
/// monitors; joining side by side is the alternative then.
pub fn build_mirrored(monitors_to_use: &Vec<Monitor>) -> (r: Result<
    Vec<LogicalMonitorConfig>,
    Error,
>)
    ensures
        mirror_outcome_ok(r, monitors_to_use.deep_view()),
{
    let ghost mv = monitors_to_use.deep_view();
    let n = monitors_to_use.len();
    if n == 0 {
        return Err(Error::NoMonitorsAvailable(DisplayMode::Mirror));
    }
    let ref_idx = find_reference(monitors_to_use);
    let ghost rmodes = mv[ref_idx as int].modes;
    proof {
        assert(mv[ref_idx as int] == monitors_to_use[ref_idx as int]@);
        assert(rmodes.take(0) =~= Seq::<ModeV>::empty());
    }
    let rn = monitors_to_use[ref_idx].modes.len();

    // Scan the reference monitor's modes for the best common resolution.
    let mut have: bool = false;
    let mut best_w: u32 = 0;
    let mut best_h: u32 = 0;
    let mut i: usize = 0;
    while i < rn
        invariant
            n == monitors_to_use.len(),
            mv == monitors_to_use.deep_view(),
            ref_idx < n,
            rmodes == mv[ref_idx as int].modes,
            rn == rmodes.len(),
            i <= rn,
            ({
                let cands = common_candidates(rmodes.take(i as int), mv);
                if have {
                    cands.len() > 0 && cands[best_candidate_index(cands)].width == best_w
                        && cands[best_candidate_index(cands)].height == best_h
                } else {
                    cands.len() == 0
                }
            }),
        decreases rn - i,
    {
        let ghost cands_before = common_candidates(rmodes.take(i as int), mv);
        proof {
            assert(rmodes.take(i + 1).drop_last() =~= rmodes.take(i as int));
            assert(rmodes.take(i + 1).last() == rmodes[i as int]);
            assert(rmodes[i as int] == monitors_to_use[ref_idx as int].modes[i as int]@);
        }
        let md_w = monitors_to_use[ref_idx].modes[i].width;
        let md_h = monitors_to_use[ref_idx].modes[i].height;
        if all_support(monitors_to_use, md_w, md_h) {
            let ghost cands_after = common_candidates(rmodes.take(i + 1), mv);
            proof {
                assert(cands_after == cands_before.push(rmodes[i as int]));
                if cands_before.len() > 0 {
                    lemma_best_candidate_in_range(cands_before);
                    assert(cands_after.drop_last() =~= cands_before);
                }
            }
            if !have {
                have = true;
                best_w = md_w;
                best_h = md_h;
            } else if pixel_product(md_w, md_h) > pixel_product(best_w, best_h) {
                best_w = md_w;
                best_h = md_h;
            }
        } else {
            proof {
                assert(common_candidates(rmodes.take(i + 1), mv) == cands_before);
            }
        }
        i = i + 1;
    }
    proof {
        assert(rmodes.take(rn as int) =~= rmodes);
    }
    if !have {
        return Err(Error::NoCommonResolutionsAvailable);
    }
    let ghost cands = common_candidates(rmodes, mv);
    proof {
        lemma_best_candidate_in_range(cands);
        lemma_candidates_common(rmodes, mv);
        assert(resolution_common(mv, best_w, best_h));
    }

    // One assignment per monitor, in input order.
    let mut assignments: Vec<ApplyMonitorAssignment> = Vec::new();
    let mut k: usize = 0;
    while k < n
        invariant
            n == monitors_to_use.len(),
            mv == monitors_to_use.deep_view(),
            resolution_common(mv, best_w, best_h),
            k <= n,
            assignments.len() == k,
            forall|j: int|
                0 <= j < k ==> mirror_assignment_ok(
                    #[trigger] assignments.deep_view()[j],
                    mv[j],
                    best_w,
                    best_h,
                ),
        decreases n - k,
    {
        let monitor = &monitors_to_use[k];
        proof {
            assert(mv[k as int] == monitors_to_use[k as int]@);
        }
        let ghost before = assignments.deep_view();
        match pick_mirror_mode(monitor, best_w, best_h) {
            Option::Some(j) => {
                let a = ApplyMonitorAssignment {
                    connector: monitor.connector_info.connector.clone(),
                    mode_id: monitor.modes[j].id.clone(),
                };
                assignments.push(a);
                proof {
                    assert(monitor@.modes[j as int] == monitor.modes[j as int]@);
                    assert(assignments.deep_view() =~= before.push(a@));
                    assert(mirror_assignment_ok(a@, mv[k as int], best_w, best_h));
                }
            },
            Option::None => {
                proof {
                    lemma_mirror_choice_exists(monitor@.modes, best_w, best_h);
                    assert(supports_resolution(mv[k as int], best_w, best_h));
                    assert(false);
                }
                return vstd::pervasive::unreached();
            },
        }
        k = k + 1;
    }

    // The scale comes from the reference monitor's first mode at the
    // chosen resolution, clamped to at least one.
    let reference = &monitors_to_use[ref_idx];
    let scale: u32 = match first_matching_mode(reference, best_w, best_h) {
        Option::Some(j) => {
            let s = reference.modes[j].preferred_scale_millis;
            if s < 1000 {
                1000
            } else {
                s
            }
        },
        Option::None => 1000,
    };
    proof {
        assert(reference@ == mv[ref_idx as int]);
        assert(scale == mirror_scale_of(mv[reference_index(mv)], best_w, best_h));
    }

    let descriptor = LogicalMonitorConfig {
        x: 0,
        y: 0,
        scale_millis: scale,
        transform: 0,
        primary: true,
        monitors: assignments,
    };
    let mut out: Vec<LogicalMonitorConfig> = Vec::new();
    out.push(descriptor);
    proof {
        assert(out.deep_view() =~= seq![out@[0]@]);
        assert(mirror_descriptor_ok(out.deep_view()[0], mv, best_w, best_h));
    }
    Ok(out)
}

} // verus!
