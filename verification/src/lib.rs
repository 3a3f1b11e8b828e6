//! Rule-driven selection and synthesis of logical monitor layouts.
//!
//! The library classifies connected physical displays into built-in and
//! external sets, resolves an ordered list of user rules against that
//! classification to pick a single target display mode, synthesizes a
//! logical-monitor layout (side-by-side packing or mirroring at the best
//! common resolution), and checks that an applied configuration matches
//! the intended one.
//!
//! Fractional quantities reported by the compositor (refresh rates and
//! scale factors) are carried as integers in thousandths: a refresh rate
//! in millihertz, a scale factor in thousandths of a unit.

use vstd::prelude::*;

mod applied;
mod cli;
mod detection;
mod errors;
mod mirror;
mod pattern;
mod resolve;
mod structs;
mod strutil;
mod synth;

pub use applied::{
    assignment_realized, connector_reports_mode_active, descriptor_realized, echoes,
    first_monitor_with_connector, layout_verified, lemma_count_mismatch_fails,
    lemma_round_trip_verifies, logical_monitor_matches, scale_within_tolerance,
};
pub use cli::{
    Cli, DisplayCommand, DisplayCommandV, DisplayRule, DisplayRuleV, empty_pattern,
    rules_from_patterns, rules_of_command,
};
pub use detection::{DbusConfig, DesktopEnvironment};
pub use errors::Error;
pub use mirror::{
    best_candidate_index, build_mirrored, common_candidates, first_external_index,
    first_matching_resolution, mirror_assignment_ok, mirror_descriptor_ok, mirror_mode_choice,
    mirror_outcome_ok, mirror_scale_of, pixel_count, reference_index, resolution_common,
    supports_resolution,
};
pub use pattern::{
    MonitorPattern, MonitorPatternV, lemma_empty_pattern_matches_all,
    lemma_pattern_field_conjunction, name_only_pattern, pattern_is_empty, pattern_matches,
    pattern_of_string,
};
pub use resolve::{
    Resolution, any_match, cascade_choice, lemma_cascade_first_match_wins,
    lemma_single_external_rule, mode_available, needs_both_classes, pool_of, reports, resolution,
    rule_fires, single_rule_resolution,
};
pub use structs::{
    ApplyMonitorAssignment, ApplyMonitorAssignmentV, ApplyMonitorsConfig, ConnectorInfo,
    ConnectorInfoV, CurrentLogicalMonitor, CurrentLogicalMonitorV, CurrentState, CurrentStateV,
    LogicalMonitorConfig, LogicalMonitorConfigV, Mode, ModeV, Monitor, MonitorV, all_valid,
    builtin_of, classify_monitors, external_of, lemma_classification_idempotent,
    lemma_partition_lens, lemma_partition_valid,
};
pub use strutil::{
    find_char, is_space_char, is_substring, lower_of, str_equal, trim_back, trim_front, trimmed,
};
pub use synth::{
    MAX_LAYOUT_MONITORS, MAX_LOGICAL_WIDTH, build_joined_or_individual, first_preferred,
    joined_descriptor_ok, joined_layout_ok, joined_outcome_ok, logical_width_of, picked_mode,
    usable_of, x_offset,
};

verus! {

/// The target display mode a rule resolves to.
#[derive(Clone, Copy, Debug, PartialEq, Eq, Structural)]
pub enum DisplayMode {
    External,
    Internal,
    Join,
    Mirror,
}

} // verus!
