//! The applied-configuration check: after a layout was submitted, the
//! re-read snapshot must actually reflect it — same number of logical
//! monitors, and for every intended descriptor some current logical
//! monitor with the same geometry whose monitors run the intended
//! modes. The search is existential, so the compositor may reorder
//! logical monitors in its reply.

use vstd::prelude::*;

use crate::structs::{
    ApplyMonitorAssignmentV, ConnectorInfo, CurrentLogicalMonitor, CurrentLogicalMonitorV,
    CurrentState, CurrentStateV, LogicalMonitorConfig, LogicalMonitorConfigV, Monitor, MonitorV,
};
use crate::strutil::str_equal;

verus! {

/// The position of the first monitor wired to connector `c`, if any.
pub open spec fn first_monitor_with_connector(ms: Seq<MonitorV>, c: Seq<char>) -> Option<int>
    decreases ms.len(),
{
    if ms.len() == 0 {
        None
    } else if ms[0].connector_info.connector == c {
        Some(0int)
    } else {
        match first_monitor_with_connector(ms.drop_first(), c) {
            Some(i) => Some(i + 1),
            None => None,
        }
    }
}

/// Whether the snapshot's monitor on the assignment's connector
/// currently runs the assignment's mode.
pub open spec fn connector_reports_mode_active(
    ms: Seq<MonitorV>,
    a: ApplyMonitorAssignmentV,
) -> bool {
    match first_monitor_with_connector(ms, a.connector) {
        Some(mi) => exists|j: int|
            0 <= j < ms[mi].modes.len() && (#[trigger] ms[mi].modes[j]).is_current
                && ms[mi].modes[j].id == a.mode_id,
        None => false,
    }
}

/// Scales match when they differ by at most one thousandth.
pub open spec fn scale_within_tolerance(a: u32, b: u32) -> bool {
    -1 <= a - b <= 1
}

/// One intended assignment realized inside one current logical
/// monitor: its connector is present, and the monitor on that
/// connector currently runs the intended mode.
pub open spec fn assignment_realized(
    cur: CurrentLogicalMonitorV,
    a: ApplyMonitorAssignmentV,
    ms: Seq<MonitorV>,
) -> bool {
    &&& exists|k: int|
        0 <= k < cur.assigned_monitors.len() && (#[trigger] cur.assigned_monitors[k]).connector
            == a.connector
    &&& connector_reports_mode_active(ms, a)
}

/// Whether one current logical monitor realizes one intended
/// descriptor: exact position, transform and primary flag, scale
/// within tolerance, the same number of assigned monitors, and every
/// intended assignment realized.
pub open spec fn logical_monitor_matches(
    cur: CurrentLogicalMonitorV,
    d: LogicalMonitorConfigV,
    ms: Seq<MonitorV>,
) -> bool {
    &&& cur.x == d.x
    &&& cur.y == d.y
    &&& scale_within_tolerance(cur.scale_millis, d.scale_millis)
    &&& cur.transform == d.transform
    &&& cur.primary == d.primary
    &&& cur.assigned_monitors.len() == d.monitors.len()
    &&& forall|ai: int|
        0 <= ai < d.monitors.len() ==> assignment_realized(cur, #[trigger] d.monitors[ai], ms)
}

/// Some current logical monitor of the snapshot realizes `d`.
pub open spec fn descriptor_realized(st: CurrentStateV, d: LogicalMonitorConfigV) -> bool {
    exists|j: int|
        0 <= j < st.logical_monitors.len() && logical_monitor_matches(
            #[trigger] st.logical_monitors[j],
            d,
            st.monitors,
        )
}

/// Whether the whole snapshot realizes the whole intended layout:
/// equal counts, and every intended descriptor matched by some current
/// logical monitor. All or nothing.
pub open spec fn layout_verified(st: CurrentStateV, ds: Seq<LogicalMonitorConfigV>) -> bool {
    &&& st.logical_monitors.len() == ds.len()
    &&& forall|i: int| 0 <= i < ds.len() ==> descriptor_realized(st, #[trigger] ds[i])
}

/// Whether some assigned monitor of the list sits on connector `c`.
fn has_connector(assigned: &Vec<ConnectorInfo>, c: &String) -> (r: bool)
    ensures
        r == exists|k: int|
            0 <= k < assigned.deep_view().len() && (#[trigger] assigned.deep_view()[k]).connector
                == c@,
{
    let n = assigned.len();
    let mut k: usize = 0;
    while k < n
        invariant
            n == assigned.len(),
            k <= n,
            forall|j: int| 0 <= j < k ==> (#[trigger] assigned.deep_view()[j]).connector != c@,
        decreases n - k,
    {
        proof {
            assert(assigned.deep_view()[k as int] == assigned[k as int]@);
        }
        if str_equal(assigned[k].connector.as_str(), c.as_str()) {
            return true;
        }
        k = k + 1;
    }
    false
}

/// Whether `monitor` reports a currently active mode with id `mode_id`.
fn monitor_runs_mode(monitor: &Monitor, mode_id: &String) -> (r: bool)
    ensures
        r == exists|j: int|
            0 <= j < monitor@.modes.len() && (#[trigger] monitor@.modes[j]).is_current
                && monitor@.modes[j].id == mode_id@,
{
    let mn = monitor.modes.len();
    let mut j: usize = 0;
    while j < mn
        invariant
            mn == monitor.modes.len(),
            j <= mn,
            forall|t: int|
                0 <= t < j ==> !((#[trigger] monitor@.modes[t]).is_current && monitor@.modes[t].id
                    == mode_id@),
        decreases mn - j,
    {
        proof {
            assert(monitor@.modes[j as int] == monitor.modes[j as int]@);
        }
        if monitor.modes[j].is_current && str_equal(monitor.modes[j].id.as_str(), mode_id.as_str())
         {
            return true;
        }
        j = j + 1;
    }
    false
}

/// Whether the first monitor on `connector` currently runs `mode_id`.
fn reports_mode_active(monitors: &Vec<Monitor>, connector: &String, mode_id: &String) -> (r: bool)
    ensures
        r == connector_reports_mode_active(
            monitors.deep_view(),
            ApplyMonitorAssignmentV { connector: connector@, mode_id: mode_id@ },
        ),
{
    let ghost mv = monitors.deep_view();
    let n = monitors.len();
    proof {
        assert(mv.skip(0) =~= mv);
    }
    let mut i: usize = 0;
    while i < n
        invariant
            n == monitors.len(),
            n == mv.len(),
            mv == monitors.deep_view(),
            i <= n,
            first_monitor_with_connector(mv, connector@) == match first_monitor_with_connector(
                mv.skip(i as int),
                connector@,
            ) {
                Some(k) => Some(k + i),
                None => None::<int>,
            },
        decreases n - i,
    {
        let ghost rest = mv.skip(i as int);
        proof {
            assert(rest[0] == mv[i as int]);
            assert(mv[i as int] == monitors[i as int]@);
            assert(rest.drop_first() =~= mv.skip(i + 1));
        }
        if str_equal(monitors[i].connector_info.connector.as_str(), connector.as_str()) {
            // This is the first monitor on the connector; its modes decide.
            proof {
                assert(first_monitor_with_connector(mv, connector@) == Some(i as int));
            }
            let r = monitor_runs_mode(&monitors[i], mode_id);
            proof {
                assert(monitors[i as int]@ == mv[i as int]);
            }
            return r;
        }
        i = i + 1;
    }
    proof {
        assert(mv.skip(n as int) =~= Seq::<MonitorV>::empty());
    }
    false
}

/// Whether `cur` realizes the intended descriptor `d` on this snapshot.
fn logical_matches(
    cur: &CurrentLogicalMonitor,
    d: &LogicalMonitorConfig,
    monitors: &Vec<Monitor>,
) -> (r: bool)
    ensures
        r == logical_monitor_matches(cur@, d@, monitors.deep_view()),
{
    if cur.x != d.x || cur.y != d.y {
        return false;
    }
    let scale_ok = if cur.scale_millis >= d.scale_millis {
        cur.scale_millis - d.scale_millis <= 1
    } else {
        d.scale_millis - cur.scale_millis <= 1
    };
    if !scale_ok {
        return false;
    }
    if cur.transform != d.transform || cur.primary != d.primary {
        return false;
    }
    if cur.assigned_monitors.len() != d.monitors.len() {
        return false;
    }
    let n = d.monitors.len();
    let mut ai: usize = 0;
    while ai < n
        invariant
            n == d.monitors.len(),
            ai <= n,
            cur@.assigned_monitors.len() == d@.monitors.len(),
            cur@.x == d@.x,
            cur@.y == d@.y,
            scale_within_tolerance(cur@.scale_millis, d@.scale_millis),
            cur@.transform == d@.transform,
            cur@.primary == d@.primary,
            forall|t: int|
                0 <= t < ai ==> assignment_realized(
                    cur@,
                    #[trigger] d@.monitors[t],
                    monitors.deep_view(),
                ),
        decreases n - ai,
    {
        let a = &d.monitors[ai];
        proof {
            assert(d@.monitors[ai as int] == d.monitors[ai as int]@);
        }
        if !has_connector(&cur.assigned_monitors, &a.connector) {
            proof {
                assert(!assignment_realized(cur@, d@.monitors[ai as int], monitors.deep_view()));
            }
            return false;
        }
        if !reports_mode_active(monitors, &a.connector, &a.mode_id) {
            proof {
                assert(d@.monitors[ai as int] == ApplyMonitorAssignmentV {
                    connector: a.connector@,
                    mode_id: a.mode_id@,
                });
                assert(!assignment_realized(cur@, d@.monitors[ai as int], monitors.deep_view()));
            }
            return false;
        }
        proof {
            assert(d@.monitors[ai as int] == ApplyMonitorAssignmentV {
                connector: a.connector@,
                mode_id: a.mode_id@,
            });
            assert(assignment_realized(cur@, d@.monitors[ai as int], monitors.deep_view()));
        }
        ai = ai + 1;
    }
    true
}

impl CurrentState {
    /// Checks that this snapshot reflects the intended layout: the
    /// same number of logical monitors, and each intended descriptor
    /// realized by some current logical monitor (geometry, scale
    /// within a thousandth, and every assigned monitor running the
    /// intended mode).
    pub fn verify_applied_config(&self, intended: &Vec<LogicalMonitorConfig>) -> (r: bool)
        ensures
            r == layout_verified(self@, intended.deep_view()),
    {
        if self.logical_monitors.len() != intended.len() {
            return false;
        }
        let n = intended.len();
        let mut i: usize = 0;
        while i < n
            invariant
                n == intended.len(),
                i <= n,
                self.logical_monitors.len() == n,
                forall|t: int|
                    0 <= t < i ==> descriptor_realized(self@, #[trigger] intended.deep_view()[t]),
            decreases n - i,
        {
            let m = self.logical_monitors.len();
            let mut j: usize = 0;
            let mut found: bool = false;
            while j < m
                invariant
                    m == self.logical_monitors.len(),
                    m == self@.logical_monitors.len(),
                    j <= m,
                    i < n,
                    n == intended.len(),
                    found ==> descriptor_realized(self@, intended.deep_view()[i as int]),
                    !found ==> forall|t: int|
                        0 <= t < j ==> !logical_monitor_matches(
                            #[trigger] self@.logical_monitors[t],
                            intended.deep_view()[i as int],
                            self@.monitors,
                        ),
                decreases m - j,
            {
                if !found {
                    proof {
                        assert(self@.logical_monitors[j as int] == self.logical_monitors[
                        j as int]@);
                        assert(intended.deep_view()[i as int] == intended[i as int]@);
                    }
                    if logical_matches(&self.logical_monitors[j], &intended[i], &self.monitors) {
                        found = true;
                    }
                }
                j = j + 1;
            }
            if !found {
                proof {
                    assert(!descriptor_realized(self@, intended.deep_view()[i as int]));
                }
                return false;
            }
            i = i + 1;
        }
        true
    }
}

/// One current logical monitor echoing one intended descriptor
/// verbatim: identical geometry and flags, and the same connectors in
/// the same order.
pub open spec fn echoes(cur: CurrentLogicalMonitorV, d: LogicalMonitorConfigV) -> bool {
    &&& cur.x == d.x
    &&& cur.y == d.y
    &&& cur.scale_millis == d.scale_millis
    &&& cur.transform == d.transform
    &&& cur.primary == d.primary
    &&& cur.assigned_monitors.len() == d.monitors.len()
    &&& forall|k: int|
        0 <= k < d.monitors.len() ==> (#[trigger] cur.assigned_monitors[k]).connector
            == d.monitors[k].connector
}

/// Law, round trip: a snapshot that echoes an intended layout back
/// unchanged — each descriptor reflected at its own position and every
/// assigned mode reported active — always verifies.
pub proof fn lemma_round_trip_verifies(st: CurrentStateV, ds: Seq<LogicalMonitorConfigV>)
    requires
        st.logical_monitors.len() == ds.len(),
        forall|i: int| 0 <= i < ds.len() ==> echoes(#[trigger] st.logical_monitors[i], ds[i]),
        forall|i: int, k: int|
            0 <= i < ds.len() && 0 <= k < ds[i].monitors.len() ==> connector_reports_mode_active(
                st.monitors,
                #[trigger] ds[i].monitors[k],
            ),
    ensures
        layout_verified(st, ds),
{
    assert forall|i: int| 0 <= i < ds.len() implies descriptor_realized(st, #[trigger] ds[i]) by {
        let cur = st.logical_monitors[i];
        let d = ds[i];
        assert(echoes(cur, d));
        assert forall|ai: int| 0 <= ai < d.monitors.len() implies assignment_realized(
            cur,
            #[trigger] d.monitors[ai],
            st.monitors,
        ) by {
            assert(cur.assigned_monitors[ai].connector == d.monitors[ai].connector);
            assert(connector_reports_mode_active(st.monitors, d.monitors[ai]));
        }
        assert(logical_monitor_matches(cur, d, st.monitors));
    }
}

/// Law, count mismatch: a snapshot with a different number of logical
/// monitors than intended never verifies.
pub proof fn lemma_count_mismatch_fails(st: CurrentStateV, ds: Seq<LogicalMonitorConfigV>)
    requires
        st.logical_monitors.len() != ds.len(),
    ensures
        !layout_verified(st, ds),
{
}

} // verus!
