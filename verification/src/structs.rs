//! The data model: physical monitors, their modes, logical monitor
//! descriptors, and full state snapshots, together with their
//! mathematical views.
//!
//! Every fractional quantity of the compositor's wire format is carried
//! here as an integer in thousandths: refresh rates in millihertz and
//! scale factors in thousandths of a unit (a scale of 1.0 is 1000).

use vstd::prelude::*;

verus! {

/// The identifying attributes of a physical connector.
#[derive(Debug, PartialEq, Eq)]
pub struct ConnectorInfo {
    pub connector: String,
    pub vendor: String,
    pub product: String,
    pub serial: String,
}

/// Mathematical view of [`ConnectorInfo`].
#[verifier::ext_equal]
pub struct ConnectorInfoV {
    pub connector: Seq<char>,
    pub vendor: Seq<char>,
    pub product: Seq<char>,
    pub serial: Seq<char>,
}

impl View for ConnectorInfo {
    type V = ConnectorInfoV;

    open spec fn view(&self) -> ConnectorInfoV {
        ConnectorInfoV {
            connector: self.connector@,
            vendor: self.vendor@,
            product: self.product@,
            serial: self.serial@,
        }
    }
}

impl DeepView for ConnectorInfo {
    type V = ConnectorInfoV;

    open spec fn deep_view(&self) -> ConnectorInfoV {
        self.view()
    }
}

impl Clone for ConnectorInfo {
    fn clone(&self) -> (res: Self)
        ensures
            res@ == self@,
    {
        ConnectorInfo {
            connector: self.connector.clone(),
            vendor: self.vendor.clone(),
            product: self.product.clone(),
            serial: self.serial.clone(),
        }
    }
}

/// One display mode supported by a physical monitor.
///
/// `id` is assigned by the compositor and must be echoed back verbatim
/// when the mode is selected; it is never synthesized here.
#[derive(Debug, PartialEq, Eq)]
pub struct Mode {
    pub id: String,
    pub width: u32,
    pub height: u32,
    /// Refresh rate in millihertz.
    pub refresh_millihz: u32,
    pub is_current: bool,
    pub is_preferred: bool,
    /// Preferred scale factor in thousandths (1000 is a scale of 1.0).
    pub preferred_scale_millis: u32,
    /// Supported scale factors in thousandths.
    pub supported_scales_millis: Vec<u32>,
}

/// Mathematical view of [`Mode`].
#[verifier::ext_equal]
pub struct ModeV {
    pub id: Seq<char>,
    pub width: u32,
    pub height: u32,
    pub refresh_millihz: u32,
    pub is_current: bool,
    pub is_preferred: bool,
    pub preferred_scale_millis: u32,
    pub supported_scales_millis: Seq<u32>,
}

impl ModeV {
    /// A mode that can be laid out: its scale is positive.
    pub open spec fn valid(self) -> bool {
        self.preferred_scale_millis >= 1
    }
}

impl View for Mode {
    type V = ModeV;

    open spec fn view(&self) -> ModeV {
        ModeV {
            id: self.id@,
            width: self.width,
            height: self.height,
            refresh_millihz: self.refresh_millihz,
            is_current: self.is_current,
            is_preferred: self.is_preferred,
            preferred_scale_millis: self.preferred_scale_millis,
            supported_scales_millis: self.supported_scales_millis@,
        }
    }
}

impl DeepView for Mode {
    type V = ModeV;

    open spec fn deep_view(&self) -> ModeV {
        self.view()
    }
}

impl Clone for Mode {
    fn clone(&self) -> (res: Self)
        ensures
            res@ == self@,
    {
        let res = Mode {
            id: self.id.clone(),
            width: self.width,
            height: self.height,
            refresh_millihz: self.refresh_millihz,
            is_current: self.is_current,
            is_preferred: self.is_preferred,
            preferred_scale_millis: self.preferred_scale_millis,
            supported_scales_millis: self.supported_scales_millis.clone(),
        };
        proof {
            assert(res.supported_scales_millis@ =~= self.supported_scales_millis@);
            assert(res@ =~= self@);
        }
        res
    }
}

impl Mode {
    pub fn is_preferred(&self) -> (r: bool)
        ensures
            r == self@.is_preferred,
    {
        self.is_preferred
    }
}

/// A physical monitor as reported in a state snapshot.
#[derive(Debug, PartialEq, Eq)]
pub struct Monitor {
    pub is_builtin: bool,
    pub is_underscanning: bool,
    /// Minimum refresh rate in millihertz, where the compositor reports one.
    pub min_refresh_millihz: Option<i32>,
    pub display_name: String,
    pub connector_info: ConnectorInfo,
    pub modes: Vec<Mode>,
}

/// Mathematical view of [`Monitor`].
#[verifier::ext_equal]
pub struct MonitorV {
    pub is_builtin: bool,
    pub is_underscanning: bool,
    pub min_refresh_millihz: Option<i32>,
    pub display_name: Seq<char>,
    pub connector_info: ConnectorInfoV,
    pub modes: Seq<ModeV>,
}

impl MonitorV {
    /// Every mode of the monitor can be laid out.
    pub open spec fn valid(self) -> bool {
        forall|i: int| 0 <= i < self.modes.len() ==> (#[trigger] self.modes[i]).valid()
    }
}

impl View for Monitor {
    type V = MonitorV;

    open spec fn view(&self) -> MonitorV {
        MonitorV {
            is_builtin: self.is_builtin,
            is_underscanning: self.is_underscanning,
            min_refresh_millihz: self.min_refresh_millihz,
            display_name: self.display_name@,
            connector_info: self.connector_info@,
            modes: self.modes.deep_view(),
        }
    }
}

impl DeepView for Monitor {
    type V = MonitorV;

    open spec fn deep_view(&self) -> MonitorV {
        self.view()
    }
}

impl Clone for Monitor {
    fn clone(&self) -> (res: Self)
        ensures
            res@ == self@,
    {
        let res = Monitor {
            is_builtin: self.is_builtin,
            is_underscanning: self.is_underscanning,
            min_refresh_millihz: self.min_refresh_millihz,
            display_name: self.display_name.clone(),
            connector_info: self.connector_info.clone(),
            modes: self.modes.clone(),
        };
        proof {
            assert(res.modes.deep_view() =~= self.modes.deep_view());
            assert(res@ =~= self@);
        }
        res
    }
}

impl Monitor {
    pub fn is_builtin(&self) -> (r: bool)
        ensures
            r == self@.is_builtin,
    {
        self.is_builtin
    }
}

/// One monitor-to-mode assignment inside a logical monitor that is
/// about to be applied.
#[derive(Debug, PartialEq, Eq)]
pub struct ApplyMonitorAssignment {
    pub connector: String,
    pub mode_id: String,
}

/// Mathematical view of [`ApplyMonitorAssignment`].
#[verifier::ext_equal]
pub struct ApplyMonitorAssignmentV {
    pub connector: Seq<char>,
    pub mode_id: Seq<char>,
}

impl View for ApplyMonitorAssignment {
    type V = ApplyMonitorAssignmentV;

    open spec fn view(&self) -> ApplyMonitorAssignmentV {
        ApplyMonitorAssignmentV { connector: self.connector@, mode_id: self.mode_id@ }
    }
}

impl DeepView for ApplyMonitorAssignment {
    type V = ApplyMonitorAssignmentV;

    open spec fn deep_view(&self) -> ApplyMonitorAssignmentV {
        self.view()
    }
}

impl Clone for ApplyMonitorAssignment {
    fn clone(&self) -> (res: Self)
        ensures
            res@ == self@,
    {
        ApplyMonitorAssignment {
            connector: self.connector.clone(),
            mode_id: self.mode_id.clone(),
        }
    }
}

/// A logical monitor descriptor to submit to the compositor.
#[derive(Debug, PartialEq, Eq)]
pub struct LogicalMonitorConfig {
    pub x: i64,
    pub y: i64,
    /// Scale factor in thousandths.
    pub scale_millis: u32,
    /// Rotation/flip code; this library only ever emits 0 (normal).
    pub transform: u32,
    pub primary: bool,
    pub monitors: Vec<ApplyMonitorAssignment>,
}

/// Mathematical view of [`LogicalMonitorConfig`].
#[verifier::ext_equal]
pub struct LogicalMonitorConfigV {
    pub x: i64,
    pub y: i64,
    pub scale_millis: u32,
    pub transform: u32,
    pub primary: bool,
    pub monitors: Seq<ApplyMonitorAssignmentV>,
}

impl View for LogicalMonitorConfig {
    type V = LogicalMonitorConfigV;

    open spec fn view(&self) -> LogicalMonitorConfigV {
        LogicalMonitorConfigV {
            x: self.x,
            y: self.y,
            scale_millis: self.scale_millis,
            transform: self.transform,
            primary: self.primary,
            monitors: self.monitors.deep_view(),
        }
    }
}

impl DeepView for LogicalMonitorConfig {
    type V = LogicalMonitorConfigV;

    open spec fn deep_view(&self) -> LogicalMonitorConfigV {
        self.view()
    }
}

impl Clone for LogicalMonitorConfig {
    fn clone(&self) -> (res: Self)
        ensures
            res@ == self@,
    {
        let res = LogicalMonitorConfig {
            x: self.x,
            y: self.y,
            scale_millis: self.scale_millis,
            transform: self.transform,
            primary: self.primary,
            monitors: self.monitors.clone(),
        };
        proof {
            assert(res.monitors.deep_view() =~= self.monitors.deep_view());
            assert(res@ =~= self@);
        }
        res
    }
}

/// A logical monitor as reported back by the compositor.
#[derive(Debug, PartialEq, Eq)]
pub struct CurrentLogicalMonitor {
    pub x: i64,
    pub y: i64,
    /// Scale factor in thousandths.
    pub scale_millis: u32,
    pub transform: u32,
    pub primary: bool,
    pub assigned_monitors: Vec<ConnectorInfo>,
}

/// Mathematical view of [`CurrentLogicalMonitor`].
#[verifier::ext_equal]
pub struct CurrentLogicalMonitorV {
    pub x: i64,
    pub y: i64,
    pub scale_millis: u32,
    pub transform: u32,
    pub primary: bool,
    pub assigned_monitors: Seq<ConnectorInfoV>,
}

impl View for CurrentLogicalMonitor {
    type V = CurrentLogicalMonitorV;

    open spec fn view(&self) -> CurrentLogicalMonitorV {
        CurrentLogicalMonitorV {
            x: self.x,
            y: self.y,
            scale_millis: self.scale_millis,
            transform: self.transform,
            primary: self.primary,
            assigned_monitors: self.assigned_monitors.deep_view(),
        }
    }
}

impl DeepView for CurrentLogicalMonitor {
    type V = CurrentLogicalMonitorV;

    open spec fn deep_view(&self) -> CurrentLogicalMonitorV {
        self.view()
    }
}

impl Clone for CurrentLogicalMonitor {
    fn clone(&self) -> (res: Self)
        ensures
            res@ == self@,
    {
        let res = CurrentLogicalMonitor {
            x: self.x,
            y: self.y,
            scale_millis: self.scale_millis,
            transform: self.transform,
            primary: self.primary,
            assigned_monitors: self.assigned_monitors.clone(),
        };
        proof {
            assert(res.assigned_monitors.deep_view() =~= self.assigned_monitors.deep_view());
            assert(res@ =~= self@);
        }
        res
    }
}

/// A full state snapshot: an optimistic-concurrency serial, the physical
/// monitors, and the logical monitors the compositor currently runs.
#[derive(Debug)]
pub struct CurrentState {
    pub serial: u32,
    pub monitors: Vec<Monitor>,
    pub logical_monitors: Vec<CurrentLogicalMonitor>,
}

/// Mathematical view of [`CurrentState`].
#[verifier::ext_equal]
pub struct CurrentStateV {
    pub serial: u32,
    pub monitors: Seq<MonitorV>,
    pub logical_monitors: Seq<CurrentLogicalMonitorV>,
}

impl View for CurrentState {
    type V = CurrentStateV;

    open spec fn view(&self) -> CurrentStateV {
        CurrentStateV {
            serial: self.serial,
            monitors: self.monitors.deep_view(),
            logical_monitors: self.logical_monitors.deep_view(),
        }
    }
}

impl DeepView for CurrentState {
    type V = CurrentStateV;

    open spec fn deep_view(&self) -> CurrentStateV {
        self.view()
    }
}

/// The full payload of an apply call: the echoed serial, the method
/// (1 is temporary, 2 is persistent) and the descriptors to submit.
#[derive(Debug)]
pub struct ApplyMonitorsConfig {
    pub serial: u32,
    pub method: u32,
    pub logical_monitors: Vec<LogicalMonitorConfig>,
}

/// The monitors of `ms` that are built-in panels, in snapshot order.
pub open spec fn builtin_of(ms: Seq<MonitorV>) -> Seq<MonitorV>
    decreases ms.len(),
{
    if ms.len() == 0 {
        Seq::empty()
    } else {
        let init = builtin_of(ms.drop_last());
        if ms.last().is_builtin {
            init.push(ms.last())
        } else {
            init
        }
    }
}

/// The monitors of `ms` that are external displays, in snapshot order.
pub open spec fn external_of(ms: Seq<MonitorV>) -> Seq<MonitorV>
    decreases ms.len(),
{
    if ms.len() == 0 {
        Seq::empty()
    } else {
        let init = external_of(ms.drop_last());
        if !ms.last().is_builtin {
            init.push(ms.last())
        } else {
            init
        }
    }
}

/// Every monitor of `ms` is valid (all scales positive).
pub open spec fn all_valid(ms: Seq<MonitorV>) -> bool {
    forall|i: int| 0 <= i < ms.len() ==> (#[trigger] ms[i]).valid()
}

/// Law: the partition is complete — every monitor lands in exactly one
/// of the two classes.
pub proof fn lemma_partition_lens(ms: Seq<MonitorV>)
    ensures
        builtin_of(ms).len() + external_of(ms).len() == ms.len(),
        builtin_of(ms).len() <= ms.len(),
        external_of(ms).len() <= ms.len(),
    decreases ms.len(),
{
    if ms.len() > 0 {
        lemma_partition_lens(ms.drop_last());
    }
}

/// Both partition classes keep monitor validity.
pub proof fn lemma_partition_valid(ms: Seq<MonitorV>)
    requires
        all_valid(ms),
    ensures
        all_valid(builtin_of(ms)),
        all_valid(external_of(ms)),
    decreases ms.len(),
{
    if ms.len() > 0 {
        assert(all_valid(ms.drop_last())) by {
            assert(forall|i: int| 0 <= i < ms.len() - 1 ==> ms.drop_last()[i] == #[trigger] ms[i]);
        }
        lemma_partition_valid(ms.drop_last());
    }
}

/// Law: classification is pure. The partition is a function of the
/// snapshot alone, so classifying the same monitor sequence any number
/// of times yields the identical internal and external subsets.
pub proof fn lemma_classification_idempotent(
    ms: Seq<MonitorV>,
    first: (Seq<MonitorV>, Seq<MonitorV>),
    second: (Seq<MonitorV>, Seq<MonitorV>),
)
    requires
        first == (builtin_of(ms), external_of(ms)),
        second == (builtin_of(ms), external_of(ms)),
    ensures
        first == second,
{
}

impl CurrentState {
    /// Partitions the snapshot's monitors into (internal, external)
    /// subsets, preserving snapshot order within each subset.
    pub fn classify(&self) -> (r: (Vec<Monitor>, Vec<Monitor>))
        ensures
            r.0.deep_view() == builtin_of(self.monitors.deep_view()),
            r.1.deep_view() == external_of(self.monitors.deep_view()),
    {
        classify_monitors(&self.monitors)
    }
}

/// Partitions `monitors` into (internal, external) subsets by the
/// built-in flag, preserving input order within each subset.
pub fn classify_monitors(monitors: &Vec<Monitor>) -> (r: (Vec<Monitor>, Vec<Monitor>))
    ensures
        r.0.deep_view() == builtin_of(monitors.deep_view()),
        r.1.deep_view() == external_of(monitors.deep_view()),
{
    let ghost all = monitors.deep_view();
    let mut internal: Vec<Monitor> = Vec::new();
    let mut external: Vec<Monitor> = Vec::new();
    let n = monitors.len();
    let mut i: usize = 0;
    while i < n
        invariant
            n == monitors.len(),
            i <= n,
            all == monitors.deep_view(),
            internal.deep_view() == builtin_of(all.take(i as int)),
            external.deep_view() == external_of(all.take(i as int)),
        decreases n - i,
    {
        proof {
            assert(all.take(i + 1).drop_last() =~= all.take(i as int));
            assert(all.take(i + 1).last() == all[i as int]);
            assert(all[i as int] == monitors[i as int].deep_view());
        }
        if monitors[i].is_builtin {
            internal.push(monitors[i].clone());
            proof {
                assert(internal.deep_view() =~= builtin_of(all.take(i + 1)));
                assert(external.deep_view() =~= external_of(all.take(i + 1)));
            }
        } else {
            external.push(monitors[i].clone());
            proof {
                assert(internal.deep_view() =~= builtin_of(all.take(i + 1)));
                assert(external.deep_view() =~= external_of(all.take(i + 1)));
            }
        }
        i = i + 1;
    }
    proof {
        assert(all.take(n as int) =~= all);
    }
    (internal, external)
}

} // verus!
