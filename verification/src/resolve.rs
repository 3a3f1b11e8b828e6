//! The rule resolver: picks exactly one target display mode from an
//! ordered rule list and the current monitor snapshot.
//!
//! A single explicit rule surfaces precise errors (which constraint
//! failed); a multi-rule cascade is best effort, where a rule that
//! cannot fire silently falls through to the next and only total
//! exhaustion is reported.

use vstd::prelude::*;

use crate::DisplayMode;
use crate::cli::{DisplayRule, DisplayRuleV};
use crate::errors::Error;
use crate::pattern::{MonitorPattern, MonitorPatternV, pattern_is_empty, pattern_matches};
use crate::structs::{CurrentState, Monitor, MonitorV, builtin_of, external_of};

verus! {

/// The outcome of rule resolution, at the specification level.
pub enum Resolution {
    /// Exactly this mode was picked.
    Chosen(DisplayMode),
    /// The candidate pool for the requested mode is empty.
    NoMonitors(DisplayMode),
    /// Join or Mirror was requested without both device classes present.
    Insufficient { available: usize, mode: DisplayMode },
    /// No rule fired, or a single rule's filter selected no monitor.
    NoMatch,
}

/// The candidate pool a rule of the given mode is matched against:
/// the external set, the internal set, or all monitors for the modes
/// that span both classes.
pub open spec fn pool_of(mode: DisplayMode, monitors: Seq<MonitorV>) -> Seq<MonitorV> {
    match mode {
        DisplayMode::External => external_of(monitors),
        DisplayMode::Internal => builtin_of(monitors),
        DisplayMode::Join => monitors,
        DisplayMode::Mirror => monitors,
    }
}

/// True when some monitor of `pool` is selected by `p`.
pub open spec fn any_match(p: MonitorPatternV, pool: Seq<MonitorV>) -> bool {
    exists|i: int| 0 <= i < pool.len() && pattern_matches(p, #[trigger] pool[i])
}

/// Whether the mode requires both a built-in and an external monitor.
pub open spec fn needs_both_classes(mode: DisplayMode) -> bool {
    mode == DisplayMode::Join || mode == DisplayMode::Mirror
}

/// Availability of a mode irrespective of any pattern: External needs
/// an external monitor, Internal a built-in one, Join and Mirror one
/// of each class.
pub open spec fn mode_available(mode: DisplayMode, monitors: Seq<MonitorV>) -> bool {
    match mode {
        DisplayMode::External => external_of(monitors).len() > 0,
        DisplayMode::Internal => builtin_of(monitors).len() > 0,
        DisplayMode::Join | DisplayMode::Mirror => builtin_of(monitors).len() > 0 && external_of(
            monitors,
        ).len() > 0,
    }
}

/// Whether one rule of a cascade fires on the snapshot: a rule with a
/// filter fires when its pool holds a matching monitor (and, for Join
/// and Mirror, both classes are present); a default rule with the
/// empty pattern fires when its mode is available at all.
pub open spec fn rule_fires(rule: DisplayRuleV, monitors: Seq<MonitorV>) -> bool {
    if !pattern_is_empty(rule.pattern) {
        let pool = pool_of(rule.mode, monitors);
        pool.len() > 0 && any_match(rule.pattern, pool) && (needs_both_classes(rule.mode)
            ==> builtin_of(monitors).len() > 0 && external_of(monitors).len() > 0)
    } else {
        mode_available(rule.mode, monitors)
    }
}

/// The mode chosen by a rule cascade: the mode of the first rule that
/// fires, if any. Strictly first-match-wins.
pub open spec fn cascade_choice(rules: Seq<DisplayRuleV>, monitors: Seq<MonitorV>) -> Option<
    DisplayMode,
>
    decreases rules.len(),
{
    if rules.len() == 0 {
        None
    } else if rule_fires(rules[0], monitors) {
        Some(rules[0].mode)
    } else {
        cascade_choice(rules.drop_first(), monitors)
    }
}

/// Resolution of a single explicit rule, with precise failures: an
/// empty pool, a filter that selects nothing, or a missing device
/// class for Join and Mirror.
pub open spec fn single_rule_resolution(rule: DisplayRuleV, monitors: Seq<MonitorV>) -> Resolution {
    let pool = pool_of(rule.mode, monitors);
    if pool.len() == 0 {
        Resolution::NoMonitors(rule.mode)
    } else if !pattern_is_empty(rule.pattern) && !any_match(rule.pattern, pool) {
        Resolution::NoMatch
    } else if needs_both_classes(rule.mode) && !(builtin_of(monitors).len() > 0 && external_of(
        monitors,
    ).len() > 0) {
        Resolution::Insufficient { available: monitors.len() as usize, mode: rule.mode }
    } else {
        Resolution::Chosen(rule.mode)
    }
}

/// Full resolution policy: no rules defaults to External when an
/// external monitor is present and Internal otherwise; one rule is
/// resolved with precise errors; several rules run as a cascade whose
/// exhaustion is the only failure.
pub open spec fn resolution(rules: Seq<DisplayRuleV>, monitors: Seq<MonitorV>) -> Resolution {
    if rules.len() == 0 {
        Resolution::Chosen(
            if external_of(monitors).len() > 0 {
                DisplayMode::External
            } else {
                DisplayMode::Internal
            },
        )
    } else if rules.len() == 1 {
        single_rule_resolution(rules[0], monitors)
    } else {
        match cascade_choice(rules, monitors) {
            Some(m) => Resolution::Chosen(m),
            None => Resolution::NoMatch,
        }
    }
}

/// True when `r` reports exactly the outcome `res` demands for `rules`.
pub open spec fn reports(
    r: Result<DisplayMode, Error>,
    res: Resolution,
    rules: Seq<DisplayRuleV>,
) -> bool {
    match res {
        Resolution::Chosen(m) => r == Ok::<DisplayMode, Error>(m),
        Resolution::NoMonitors(m) => r == Err::<DisplayMode, Error>(Error::NoMonitorsAvailable(m)),
        Resolution::Insufficient { available, mode } => r == Err::<DisplayMode, Error>(
            Error::InsufficientMonitorsAvailable { available, required: 2, mode },
        ),
        Resolution::NoMatch => r matches Err(Error::NoMonitorsMatch(rs)) && rs.deep_view()
            == rules,
    }
}

/// Whether some monitor of `pool` is selected by `p`.
fn any_monitor_matches(p: &MonitorPattern, pool: &Vec<Monitor>) -> (r: bool)
    ensures
        r == any_match(p@, pool.deep_view()),
{
    let n = pool.len();
    let mut i: usize = 0;
    while i < n
        invariant
            n == pool.len(),
            i <= n,
            forall|j: int| 0 <= j < i ==> !pattern_matches(p@, #[trigger] pool.deep_view()[j]),
        decreases n - i,
    {
        if p.matches(&pool[i]) {
            proof {
                assert(pool.deep_view()[i as int] == pool[i as int]@);
            }
            return true;
        }
        proof {
            assert(pool.deep_view()[i as int] == pool[i as int]@);
        }
        i = i + 1;
    }
    false
}

/// Deep copy of a rule list.
fn clone_rules(rules: &Vec<DisplayRule>) -> (r: Vec<DisplayRule>)
    ensures
        r.deep_view() == rules.deep_view(),
{
    let mut out: Vec<DisplayRule> = Vec::new();
    let n = rules.len();
    let mut i: usize = 0;
    proof {
        assert(out.deep_view() =~= rules.deep_view().take(0));
    }
    while i < n
        invariant
            n == rules.len(),
            i <= n,
            out.len() == i,
            out.deep_view() == rules.deep_view().take(i as int),
        decreases n - i,
    {
        let ghost before = out.deep_view();
        let copied = rules[i].clone();
        proof {
            assert(copied@ == rules[i as int]@);
        }
        out.push(copied);
        proof {
            let dv = rules.deep_view();
            assert(dv[i as int] == rules[i as int]@);
            assert forall|k: int| 0 <= k < i + 1 implies out.deep_view()[k] == dv.take(i + 1)[k] by {
                if k < i {
                    assert(before[k] == dv.take(i as int)[k]);
                } else {
                    assert(out@[k] == copied);
                }
            }
            assert(out.deep_view() =~= dv.take(i + 1));
        }
        i = i + 1;
    }
    proof {
        assert(rules.deep_view().take(n as int) =~= rules.deep_view());
    }
    out
}

impl CurrentState {
    /// Resolves the ordered rule list against this snapshot's monitors
    /// and picks exactly one target mode, or reports why none applies.
    pub fn determine_mode(&self, rules: &Vec<DisplayRule>) -> (r: Result<DisplayMode, Error>)
        ensures
            reports(r, resolution(rules.deep_view(), self.monitors.deep_view()), rules.deep_view()),
    {
        let ghost rv = rules.deep_view();
        let ghost mv = self.monitors.deep_view();
        let (internal, external) = self.classify();

        if rules.len() == 0 {
            if external.len() > 0 {
                return Ok(DisplayMode::External);
            } else {
                return Ok(DisplayMode::Internal);
            }
        }
        if rules.len() == 1 {
            let rule = &rules[0];
            proof {
                assert(rv[0] == rules[0]@);
            }
            let pool: &Vec<Monitor> = match rule.mode {
                DisplayMode::External => &external,
                DisplayMode::Internal => &internal,
                DisplayMode::Join => &self.monitors,
                DisplayMode::Mirror => &self.monitors,
            };
            proof {
                assert(pool.deep_view() == pool_of(rv[0].mode, mv));
            }
            if pool.len() == 0 {
                return Err(Error::NoMonitorsAvailable(rule.mode));
            }
            if !rule.pattern.is_empty() {
                let found = any_monitor_matches(&rule.pattern, pool);
                if !found {
                    return Err(Error::NoMonitorsMatch(clone_rules(rules)));
                }
            }
            match rule.mode {
                DisplayMode::Join | DisplayMode::Mirror => {
                    if internal.len() == 0 || external.len() == 0 {
                        return Err(
                            Error::InsufficientMonitorsAvailable {
                                available: self.monitors.len(),
                                required: 2,
                                mode: rule.mode,
                            },
                        );
                    }
                },
                _ => {},
            }
            return Ok(rule.mode);
        }

        // A cascade: try each rule in order, first match wins.
        let n = rules.len();
        let mut i: usize = 0;
        proof {
            assert(rv.skip(0) =~= rv);
        }
        while i < n
            invariant
                n == rules.len(),
                2 <= n,
                i <= n,
                rv == rules.deep_view(),
                mv == self.monitors.deep_view(),
                internal.deep_view() == builtin_of(mv),
                external.deep_view() == external_of(mv),
                cascade_choice(rv, mv) == cascade_choice(rv.skip(i as int), mv),
            decreases n - i,
        {
            let rule = &rules[i];
            proof {
                assert(rv[i as int] == rules[i as int]@);
            }
            let fired: bool;
            if !rule.pattern.is_empty() {
                let pool: &Vec<Monitor> = match rule.mode {
                    DisplayMode::External => &external,
                    DisplayMode::Internal => &internal,
                    DisplayMode::Join => &self.monitors,
                    DisplayMode::Mirror => &self.monitors,
                };
                proof {
                    assert(pool.deep_view() == pool_of(rv[i as int].mode, mv));
                }
                if pool.len() == 0 {
                    fired = false;
                } else if any_monitor_matches(&rule.pattern, pool) {
                    match rule.mode {
                        DisplayMode::Join | DisplayMode::Mirror => {
                            fired = internal.len() > 0 && external.len() > 0;
                        },
                        _ => {
                            fired = true;
                        },
                    }
                } else {
                    fired = false;
                }
            } else {
                match rule.mode {
                    DisplayMode::External => {
                        fired = external.len() > 0;
                    },
                    DisplayMode::Internal => {
                        fired = internal.len() > 0;
                    },
                    DisplayMode::Join | DisplayMode::Mirror => {
                        fired = internal.len() > 0 && external.len() > 0;
                    },
                }
            }
            proof {
                assert(fired == rule_fires(rv[i as int], mv));
                assert(rv.skip(i as int)[0] == rv[i as int]);
            }
            if fired {
                return Ok(rule.mode);
            }
            proof {
                assert(rv.skip(i as int).drop_first() =~= rv.skip(i + 1));
            }
            i = i + 1;
        }
        proof {
            assert(rv.skip(n as int) =~= Seq::<DisplayRuleV>::empty());
        }
        Err(Error::NoMonitorsMatch(clone_rules(rules)))
    }
}

/// Law: a single default External rule is deterministic. When an
/// external monitor is present, resolution picks External; with no
/// external monitor it fails with exactly NoMonitors(External).
pub proof fn lemma_single_external_rule(rules: Seq<DisplayRuleV>, monitors: Seq<MonitorV>)
    requires
        rules.len() == 1,
        rules[0].mode == DisplayMode::External,
        pattern_is_empty(rules[0].pattern),
    ensures
        external_of(monitors).len() > 0 ==> resolution(rules, monitors) == Resolution::Chosen(
            DisplayMode::External,
        ),
        external_of(monitors).len() == 0 ==> resolution(rules, monitors) == Resolution::NoMonitors(
            DisplayMode::External,
        ),
{
}

/// Law: a cascade is strictly first-match-wins. The first rule decides
/// when it fires; a rule that does not fire is skipped and the rest of
/// the cascade decides as if the rule were absent.
pub proof fn lemma_cascade_first_match_wins(rules: Seq<DisplayRuleV>, monitors: Seq<MonitorV>)
    requires
        rules.len() > 0,
    ensures
        rule_fires(rules[0], monitors) ==> cascade_choice(rules, monitors) == Some(rules[0].mode),
        !rule_fires(rules[0], monitors) ==> cascade_choice(rules, monitors) == cascade_choice(
            rules.drop_first(),
            monitors,
        ),
{
}

} // verus!
