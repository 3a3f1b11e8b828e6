//! Structured errors produced by the resolution and synthesis core.

use vstd::prelude::*;

use crate::DisplayMode;
use crate::cli::DisplayRule;

verus! {

/// Everything that can go wrong while resolving rules or synthesizing a
/// layout. Each variant carries the context a caller needs to decide
/// whether the failure is benign (skip this round) or fatal.
#[derive(Debug)]
pub enum Error {
    /// Reserved for malformed pattern syntax; pattern parsing is total,
    /// so this kind is never produced today.
    InvalidPattern(String),
    /// The candidate pool for the requested mode is empty.
    NoMonitorsAvailable(DisplayMode),
    /// Join or Mirror was requested but both device classes are not present.
    InsufficientMonitorsAvailable { available: usize, required: usize, mode: DisplayMode },
    /// Mirroring was requested but no resolution is shared by all targets.
    /// Joining the monitors side by side may work instead.
    NoCommonResolutionsAvailable,
    /// An ordered rule list was exhausted without any rule firing.
    NoMonitorsMatch(Vec<DisplayRule>),
    /// The session's desktop environment exposes no known configuration service.
    UnsupportedDesktop(String),
}

} // verus!
