//! The layout synthesizer: turns a target mode and a set of physical
//! monitors into logical monitor descriptors.
//!
//! The join branch places one logical monitor per physical monitor
//! left to right, accumulating a scale-aware logical width; the mirror
//! branch emits a single logical monitor covering every physical
//! monitor at their best common resolution.

use vstd::arithmetic::div_mod::{lemma_div_basics_4, lemma_div_basics_5};
use vstd::prelude::*;

use crate::DisplayMode;
use crate::errors::Error;
use crate::mirror::{build_mirrored, mirror_outcome_ok};
use crate::resolve::pool_of;
use crate::structs::{
    ApplyMonitorAssignment, CurrentState, LogicalMonitorConfig, LogicalMonitorConfigV, ModeV,
    Monitor, MonitorV, all_valid, lemma_partition_lens, lemma_partition_valid,
};

verus! {

/// An upper bound (exclusive) on any single logical width: a pixel
/// width below 2^32 at a scale of at least one thousandth stays below
/// 2^42 logical units.
pub const MAX_LOGICAL_WIDTH: i64 = 0x400_0000_0000;

/// A cap on how many monitors one layout can hold, so that accumulated
/// positions stay inside the coordinate space.
pub const MAX_LAYOUT_MONITORS: usize = 0x10_0000;

/// The position of the first preferred-flagged mode, if any.
pub open spec fn first_preferred(modes: Seq<ModeV>) -> Option<int>
    decreases modes.len(),
{
    if modes.len() == 0 {
        None
    } else if modes[0].is_preferred {
        Some(0int)
    } else {
        match first_preferred(modes.drop_first()) {
            Some(i) => Some(i + 1),
            None => None,
        }
    }
}

/// The mode the join branch selects for a monitor: the first mode
/// flagged preferred, else the first mode in snapshot order, else
/// nothing for a monitor without modes.
pub open spec fn picked_mode(m: MonitorV) -> Option<ModeV> {
    match first_preferred(m.modes) {
        Some(i) => Some(m.modes[i]),
        None => if m.modes.len() > 0 {
            Some(m.modes[0])
        } else {
            None
        },
    }
}

/// The logical width a mode occupies: its pixel width divided by its
/// scale, rounded to the nearest integer (the scale is carried in
/// thousandths).
pub open spec fn logical_width_of(md: ModeV) -> int {
    (md.width * 1000 + md.preferred_scale_millis / 2) / (md.preferred_scale_millis as int)
}

/// The monitors that can contribute a logical monitor: those with at
/// least one mode, in input order.
pub open spec fn usable_of(ms: Seq<MonitorV>) -> Seq<MonitorV>
    decreases ms.len(),
{
    if ms.len() == 0 {
        Seq::empty()
    } else {
        let init = usable_of(ms.drop_last());
        if ms.last().modes.len() > 0 {
            init.push(ms.last())
        } else {
            init
        }
    }
}

/// The horizontal position of the `i`-th usable monitor: the sum of
/// the logical widths of the usable monitors before it.
pub open spec fn x_offset(used: Seq<MonitorV>, i: int) -> int
    decreases i,
{
    if i <= 0 {
        0
    } else {
        x_offset(used, i - 1) + logical_width_of(picked_mode(used[i - 1]).unwrap())
    }
}

/// What one joined descriptor must say for monitor `m` at position
/// `x`: the monitor's picked mode, its preferred scale, normal
/// orientation, and a single assignment echoing the mode id.
pub open spec fn joined_descriptor_ok(
    d: LogicalMonitorConfigV,
    m: MonitorV,
    x: int,
    primary: bool,
) -> bool {
    &&& d.x == x
    &&& d.y == 0
    &&& d.transform == 0
    &&& d.primary == primary
    &&& match picked_mode(m) {
        Some(md) => {
            &&& d.scale_millis == md.preferred_scale_millis
            &&& d.monitors.len() == 1
            &&& d.monitors[0].connector == m.connector_info.connector
            &&& d.monitors[0].mode_id == md.id
        },
        None => false,
    }
}

/// The whole joined layout: one descriptor per usable monitor, packed
/// left to right, the first one primary.
pub open spec fn joined_layout_ok(ds: Seq<LogicalMonitorConfigV>, ms: Seq<MonitorV>) -> bool {
    let used = usable_of(ms);
    &&& ds.len() == used.len()
    &&& forall|i: int|
        0 <= i < ds.len() ==> joined_descriptor_ok(
            #[trigger] ds[i],
            used[i],
            x_offset(used, i),
            i == 0,
        )
}

/// Full outcome of the join branch as one predicate: success exactly
/// when some monitor has a mode, with the packed layout; the error
/// names the mode that had no usable monitor.
pub open spec fn joined_outcome_ok(
    r: Result<Vec<LogicalMonitorConfig>, Error>,
    mv: Seq<MonitorV>,
    mode: DisplayMode,
) -> bool {
    match r {
        Ok(ds) => usable_of(mv).len() > 0 && joined_layout_ok(ds.deep_view(), mv),
        Err(e) => usable_of(mv).len() == 0 && e == Error::NoMonitorsAvailable(mode),
    }
}

/// A valid mode's logical width lies in `[0, MAX_LOGICAL_WIDTH)`.
proof fn lemma_logical_width_in_range(md: ModeV)
    requires
        md.valid(),
    ensures
        0 <= logical_width_of(md) < MAX_LOGICAL_WIDTH,
{
    let a = md.width * 1000 + md.preferred_scale_millis / 2;
    let s = md.preferred_scale_millis as int;
    assert(0 <= a < MAX_LOGICAL_WIDTH);
    lemma_div_basics_4(a, s);
    lemma_div_basics_5(a, s);
}

/// The usable monitors keep validity and mode availability, and there
/// are no more of them than inputs.
proof fn lemma_usable_props(ms: Seq<MonitorV>)
    requires
        all_valid(ms),
    ensures
        usable_of(ms).len() <= ms.len(),
        forall|i: int|
            0 <= i < usable_of(ms).len() ==> (#[trigger] usable_of(ms)[i]).valid() && usable_of(
                ms,
            )[i].modes.len() > 0,
    decreases ms.len(),
{
    if ms.len() > 0 {
        assert(all_valid(ms.drop_last())) by {
            assert(forall|i: int|
                0 <= i < ms.len() - 1 ==> ms.drop_last()[i] == #[trigger] ms[i]);
        }
        lemma_usable_props(ms.drop_last());
    }
}

/// Offsets only depend on the entries before them: equal prefixes give
/// equal offsets.
proof fn lemma_x_offset_prefix(a: Seq<MonitorV>, b: Seq<MonitorV>, k: int)
    requires
        0 <= k <= a.len(),
        a.len() <= b.len(),
        forall|j: int| 0 <= j < k ==> a[j] == b[j],
    ensures
        x_offset(a, k) == x_offset(b, k),
    decreases k,
{
    if k > 0 {
        lemma_x_offset_prefix(a, b, k - 1);
    }
}

/// Offsets of valid usable monitors stay within `i` widths.
proof fn lemma_x_offset_bound(used: Seq<MonitorV>, i: int)
    requires
        0 <= i <= used.len(),
        forall|j: int|
            0 <= j < used.len() ==> (#[trigger] used[j]).valid() && used[j].modes.len() > 0,
    ensures
        0 <= x_offset(used, i) <= i * MAX_LOGICAL_WIDTH,
    decreases i,
{
    if i > 0 {
        lemma_x_offset_bound(used, i - 1);
        let m = used[i - 1];
        lemma_picked_mode_valid(m);
        lemma_first_preferred_in_range(m.modes);
        assert(picked_mode(m) is Some);
        lemma_logical_width_in_range(picked_mode(m).unwrap());
        assert((i - 1) * MAX_LOGICAL_WIDTH + MAX_LOGICAL_WIDTH == i * MAX_LOGICAL_WIDTH)
            by (nonlinear_arith);
    }
}

/// A picked mode comes from the monitor's own mode list.
proof fn lemma_picked_mode_valid(m: MonitorV)
    requires
        m.valid(),
    ensures
        match picked_mode(m) {
            Some(md) => md.valid(),
            None => true,
        },
{
    lemma_first_preferred_in_range(m.modes);
}

/// The first preferred position, when present, is a position of the list.
proof fn lemma_first_preferred_in_range(modes: Seq<ModeV>)
    ensures
        match first_preferred(modes) {
            Some(i) => 0 <= i < modes.len() && modes[i].is_preferred,
            None => true,
        },
    decreases modes.len(),
{
    if modes.len() > 0 && !modes[0].is_preferred {
        lemma_first_preferred_in_range(modes.drop_first());
    }
}

/// Picks the join-branch mode of a monitor: the position of the first
/// preferred mode, else position zero, else nothing when the monitor
/// has no modes.
fn pick_mode_index(monitor: &Monitor) -> (r: Option<usize>)
    ensures
        match r {
            Some(i) => i < monitor.modes.len() && picked_mode(monitor@) == Some(
                monitor@.modes[i as int],
            ),
            None => monitor.modes.len() == 0 && picked_mode(monitor@) is None,
        },
{
    let n = monitor.modes.len();
    if n == 0 {
        return None;
    }
    let ghost all = monitor@.modes;
    proof {
        assert(all.skip(0) =~= all);
    }
    let mut i: usize = 0;
    while i < n
        invariant
            n == monitor.modes.len(),
            all == monitor@.modes,
            n == all.len(),
            i <= n,
            first_preferred(all) == match first_preferred(all.skip(i as int)) {
                Some(k) => Some(k + i),
                None => None::<int>,
            },
        decreases n - i,
    {
        let ghost rest = all.skip(i as int);
        proof {
            assert(rest[0] == all[i as int]);
            assert(all[i as int] == monitor.modes[i as int]@);
            assert(rest.drop_first() =~= all.skip(i + 1));
        }
        if monitor.modes[i].is_preferred {
            return Some(i);
        }
        i = i + 1;
    }
    proof {
        assert(all.skip(n as int) =~= Seq::<ModeV>::empty());
    }
    Some(0)
}

/// Synthesizes the layout for join and the two individual modes: one
/// logical monitor per usable input monitor, placed left to right with
/// scale-aware width accumulation, the first one primary. Fails
/// exactly when no input monitor has any mode.
pub fn build_joined_or_individual(monitors_to_use: &Vec<Monitor>, mode: DisplayMode) -> (r: Result<
    Vec<LogicalMonitorConfig>,
    Error,
>)
    requires
        all_valid(monitors_to_use.deep_view()),
        monitors_to_use.len() <= MAX_LAYOUT_MONITORS,
    ensures
        joined_outcome_ok(r, monitors_to_use.deep_view(), mode),
{
    let ghost mv = monitors_to_use.deep_view();
    let n = monitors_to_use.len();
    let mut out: Vec<LogicalMonitorConfig> = Vec::new();
    let mut current_x: i64 = 0;
    let mut i: usize = 0;
    proof {
        assert(mv.take(0) =~= Seq::<MonitorV>::empty());
    }
    while i < n
        invariant
            n == monitors_to_use.len(),
            n <= MAX_LAYOUT_MONITORS,
            i <= n,
            mv == monitors_to_use.deep_view(),
            all_valid(mv),
            out.len() == usable_of(mv.take(i as int)).len(),
            out.len() <= i,
            current_x == x_offset(usable_of(mv.take(i as int)), out.len() as int),
            0 <= current_x <= out.len() as i64 * MAX_LOGICAL_WIDTH,
            forall|k: int|
                0 <= k < out.len() ==> joined_descriptor_ok(
                    #[trigger] out.deep_view()[k],
                    usable_of(mv.take(i as int))[k],
                    x_offset(usable_of(mv.take(i as int)), k),
                    k == 0,
                ),
        decreases n - i,
    {
        let ghost used_before = usable_of(mv.take(i as int));
        proof {
            assert(mv.take(i + 1).drop_last() =~= mv.take(i as int));
            assert(mv.take(i + 1).last() == mv[i as int]);
            assert(mv[i as int] == monitors_to_use[i as int]@);
        }
        let ghost used_after = usable_of(mv.take(i + 1));
        match pick_mode_index(&monitors_to_use[i]) {
            Option::None => {
                proof {
                    assert(used_after =~= used_before);
                }
            },
            Option::Some(mi) => {
                let monitor = &monitors_to_use[i];
                let md = &monitor.modes[mi];
                proof {
                    assert(md@ == mv[i as int].modes[mi as int]);
                    assert(picked_mode(mv[i as int]) == Some(md@));
                    assert(mv[i as int].valid());
                    lemma_logical_width_in_range(md@);
                }
                let wide: u64 = (md.width as u64) * 1000 + (md.preferred_scale_millis as u64) / 2;
                let lw: u64 = wide / (md.preferred_scale_millis as u64);
                proof {
                    assert(lw as int == logical_width_of(md@));
                }
                let assignment = ApplyMonitorAssignment {
                    connector: monitor.connector_info.connector.clone(),
                    mode_id: md.id.clone(),
                };
                let mut assigned: Vec<ApplyMonitorAssignment> = Vec::new();
                assigned.push(assignment);
                let descriptor = LogicalMonitorConfig {
                    x: current_x,
                    y: 0,
                    scale_millis: md.preferred_scale_millis,
                    transform: 0,
                    primary: out.len() == 0,
                    monitors: assigned,
                };
                let ghost out_before = out.deep_view();
                out.push(descriptor);
                proof {
                    assert(used_after =~= used_before.push(mv[i as int]));
                    assert forall|k: int| 0 <= k <= used_before.len() implies x_offset(
                        used_after,
                        k,
                    ) == x_offset(used_before, k) by {
                        lemma_x_offset_prefix(used_before, used_after, k);
                    }
                    assert(out.deep_view() =~= out_before.push(descriptor@));
                    assert(descriptor@.monitors.len() == 1);
                    assert(descriptor@.monitors[0].connector == mv[
                        i as int].connector_info.connector);
                    assert(descriptor@.monitors[0].mode_id == md@.id);
                    assert(used_after[out_before.len() as int] == mv[i as int]);
                    assert(x_offset(used_after, out_before.len() as int) == current_x);
                    assert(joined_descriptor_ok(
                        descriptor@,
                        mv[i as int],
                        current_x as int,
                        out_before.len() == 0,
                    ));
                    assert(all_valid(mv.take(i + 1))) by {
                        assert(forall|j: int|
                            0 <= j < i + 1 ==> mv.take(i + 1)[j] == #[trigger] mv[j]);
                    }
                    lemma_usable_props(mv.take(i + 1));
                    lemma_x_offset_bound(used_after, out.len() as int);
                }
                current_x = current_x + (lw as i64);
                proof {
                    assert(current_x == x_offset(used_after, out.len() as int));
                }
            },
        }
        i = i + 1;
    }
    proof {
        assert(mv.take(n as int) =~= mv);
    }
    if out.len() == 0 {
        Err(Error::NoMonitorsAvailable(mode))
    } else {
        Ok(out)
    }
}

impl CurrentState {
    /// Selects the monitors the target mode works on — the external
    /// set for External, the built-in set for Internal, all monitors
    /// for Join and Mirror — and synthesizes the logical layout for
    /// that pool.
    pub fn synthesize_layout(&self, mode: DisplayMode) -> (r: Result<
        Vec<LogicalMonitorConfig>,
        Error,
    >)
        requires
            all_valid(self.monitors.deep_view()),
            self.monitors.len() <= MAX_LAYOUT_MONITORS,
        ensures
            ({
                let pool = pool_of(mode, self.monitors.deep_view());
                if mode == DisplayMode::Mirror {
                    mirror_outcome_ok(r, pool)
                } else {
                    joined_outcome_ok(r, pool, mode)
                }
            }),
    {
        let ghost mv = self.monitors.deep_view();
        let (internal, external) = self.classify();
        proof {
            lemma_partition_valid(mv);
            lemma_partition_lens(mv);
        }
        match mode {
            DisplayMode::External => build_joined_or_individual(&external, mode),
            DisplayMode::Internal => build_joined_or_individual(&internal, mode),
            DisplayMode::Join => build_joined_or_individual(&self.monitors, mode),
            DisplayMode::Mirror => build_mirrored(&self.monitors),
        }
    }
}

} // verus!
