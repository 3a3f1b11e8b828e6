//! Display rules and the command surface that produces them: a rule is
//! a target mode paired with a monitor-selection pattern, and a command
//! expands into the ordered rule list that the resolver consumes.

use vstd::prelude::*;

use crate::DisplayMode;
use crate::errors::Error;
use crate::pattern::{MonitorPattern, MonitorPatternV, pattern_of_string};

verus! {

/// One display rule: apply `mode` when `pattern` selects a monitor.
#[derive(Debug, PartialEq, Eq)]
pub struct DisplayRule {
    pub mode: DisplayMode,
    pub pattern: MonitorPattern,
}

/// Mathematical view of [`DisplayRule`].
#[verifier::ext_equal]
pub struct DisplayRuleV {
    pub mode: DisplayMode,
    pub pattern: MonitorPatternV,
}

impl View for DisplayRule {
    type V = DisplayRuleV;

    open spec fn view(&self) -> DisplayRuleV {
        DisplayRuleV { mode: self.mode, pattern: self.pattern@ }
    }
}

impl DeepView for DisplayRule {
    type V = DisplayRuleV;

    open spec fn deep_view(&self) -> DisplayRuleV {
        self.view()
    }
}

impl Clone for DisplayRule {
    fn clone(&self) -> (res: Self)
        ensures
            res@ == self@,
    {
        DisplayRule { mode: self.mode, pattern: self.pattern.clone() }
    }
}

/// The parsed command line: global switches plus one display command.
#[derive(Debug)]
pub struct Cli {
    /// Watch for monitor configuration changes and re-apply the rules.
    pub watch: bool,
    /// Dry-run mode: report what would be done without applying it.
    pub test: bool,
    /// The display command to execute.
    pub command: DisplayCommand,
}

/// A display command: either a status query, one explicit mode with an
/// optional filter pattern, a pattern test, or an ordered rule cascade.
#[derive(Debug)]
pub enum DisplayCommand {
    /// Show the current monitor configuration.
    Status { modes: bool },
    /// Use only the external monitors.
    External(MonitorPattern),
    /// Use only the internal monitors.
    Internal(MonitorPattern),
    /// Enable internal and external monitors side by side.
    Join(MonitorPattern),
    /// Mirror internal and external monitors.
    Mirror(MonitorPattern),
    /// Test pattern matching against the current monitors.
    Test(MonitorPattern),
    /// Run multiple rules in sequence, first match wins.
    Auto {
        /// Optional descriptive name for this rule set.
        name: Option<String>,
        /// Use the external display when one of these patterns matches.
        external: Vec<String>,
        /// Use the internal display when one of these patterns matches.
        internal: Vec<String>,
        /// Join displays when one of these patterns matches.
        join: Vec<String>,
        /// Mirror displays when one of these patterns matches.
        mirror: Vec<String>,
        /// Default mode when no pattern matches.
        default: DisplayMode,
    },
}

/// Mathematical view of [`DisplayCommand`].
#[verifier::ext_equal]
pub enum DisplayCommandV {
    Status { modes: bool },
    External(MonitorPatternV),
    Internal(MonitorPatternV),
    Join(MonitorPatternV),
    Mirror(MonitorPatternV),
    Test(MonitorPatternV),
    Auto {
        name: Option<Seq<char>>,
        external: Seq<Seq<char>>,
        internal: Seq<Seq<char>>,
        join: Seq<Seq<char>>,
        mirror: Seq<Seq<char>>,
        default: DisplayMode,
    },
}

impl View for DisplayCommand {
    type V = DisplayCommandV;

    open spec fn view(&self) -> DisplayCommandV {
        match self {
            DisplayCommand::Status { modes } => DisplayCommandV::Status { modes: *modes },
            DisplayCommand::External(p) => DisplayCommandV::External(p@),
            DisplayCommand::Internal(p) => DisplayCommandV::Internal(p@),
            DisplayCommand::Join(p) => DisplayCommandV::Join(p@),
            DisplayCommand::Mirror(p) => DisplayCommandV::Mirror(p@),
            DisplayCommand::Test(p) => DisplayCommandV::Test(p@),
            DisplayCommand::Auto { name, external, internal, join, mirror, default } => {
                DisplayCommandV::Auto {
                    name: name.deep_view(),
                    external: external.deep_view(),
                    internal: internal.deep_view(),
                    join: join.deep_view(),
                    mirror: mirror.deep_view(),
                    default: *default,
                }
            },
        }
    }
}

/// The empty pattern at the view level.
pub open spec fn empty_pattern() -> MonitorPatternV {
    MonitorPatternV { connector: None, vendor: None, product: None, serial: None, name: None }
}

/// The rules contributed by one pattern list, all with the same mode,
/// in list order.
pub open spec fn rules_from_patterns(mode: DisplayMode, pats: Seq<Seq<char>>) -> Seq<DisplayRuleV> {
    pats.map_values(|s: Seq<char>| DisplayRuleV { mode: mode, pattern: pattern_of_string(s) })
}

/// The ordered rule list a command expands to. A single explicit mode
/// becomes one rule with its filter pattern; an Auto cascade becomes
/// its mirror, join, external and internal rules in that order,
/// followed by a default rule whose empty pattern always applies.
pub open spec fn rules_of_command(cmd: DisplayCommandV) -> Seq<DisplayRuleV> {
    match cmd {
        DisplayCommandV::Status { .. } => Seq::empty(),
        DisplayCommandV::Test(_) => Seq::empty(),
        DisplayCommandV::External(p) => seq![DisplayRuleV { mode: DisplayMode::External, pattern: p }],
        DisplayCommandV::Internal(p) => seq![DisplayRuleV { mode: DisplayMode::Internal, pattern: p }],
        DisplayCommandV::Join(p) => seq![DisplayRuleV { mode: DisplayMode::Join, pattern: p }],
        DisplayCommandV::Mirror(p) => seq![DisplayRuleV { mode: DisplayMode::Mirror, pattern: p }],
        DisplayCommandV::Auto { external, internal, join, mirror, default, .. } => {
            rules_from_patterns(DisplayMode::Mirror, mirror) + rules_from_patterns(
                DisplayMode::Join,
                join,
            ) + rules_from_patterns(DisplayMode::External, external) + rules_from_patterns(
                DisplayMode::Internal,
                internal,
            ) + seq![DisplayRuleV { mode: default, pattern: empty_pattern() }]
        },
    }
}

/// Parses each pattern string of `pats` and appends a rule with `mode`
/// for it to `rules`.
fn push_rules(rules: &mut Vec<DisplayRule>, mode: DisplayMode, pats: &Vec<String>)
    ensures
        final(rules).deep_view() == old(rules).deep_view() + rules_from_patterns(
            mode,
            pats.deep_view(),
        ),
{
    let ghost orig = old(rules).deep_view();
    let ghost pv = pats.deep_view();
    let n = pats.len();
    let mut i: usize = 0;
    proof {
        assert(rules.deep_view() =~= orig + rules_from_patterns(mode, pv.take(0)));
    }
    while i < n
        invariant
            n == pats.len(),
            i <= n,
            pv == pats.deep_view(),
            rules.deep_view() == orig + rules_from_patterns(mode, pv.take(i as int)),
        decreases n - i,
    {
        let ghost before = rules.deep_view();
        let rule = DisplayRule { mode: mode, pattern: MonitorPattern::from_str(pats[i].as_str()) };
        rules.push(rule);
        proof {
            assert(pv[i as int] == pats[i as int]@);
            assert(rules.deep_view() =~= before.push(rule@));
            assert(pv.take(i + 1).drop_last() =~= pv.take(i as int));
            assert(pv.take(i + 1).last() == pv[i as int]);
            assert(rules_from_patterns(mode, pv.take(i + 1)) =~= rules_from_patterns(
                mode,
                pv.take(i as int),
            ).push(rule@));
            assert(rules.deep_view() =~= orig + rules_from_patterns(mode, pv.take(i + 1)));
        }
        i = i + 1;
    }
    proof {
        assert(pv.take(n as int) =~= pv);
    }
}

impl DisplayCommand {
    /// Expands this command into its ordered rule list. Status and Test
    /// commands carry no rules and are excluded.
    pub fn rules(&self) -> (r: Result<Vec<DisplayRule>, Error>)
        requires
            !(self@ is Status),
            !(self@ is Test),
        ensures
            r matches Ok(rs) && rs.deep_view() == rules_of_command(self@),
    {
        match self {
            DisplayCommand::Status { .. } => vstd::pervasive::unreached(),
            DisplayCommand::Test(_) => vstd::pervasive::unreached(),
            DisplayCommand::External(pattern) => {
                let mut rs: Vec<DisplayRule> = Vec::new();
                rs.push(DisplayRule { mode: DisplayMode::External, pattern: pattern.clone() });
                proof {
                    assert(rs.deep_view() =~= rules_of_command(self@));
                }
                Ok(rs)
            },
            DisplayCommand::Internal(pattern) => {
                let mut rs: Vec<DisplayRule> = Vec::new();
                rs.push(DisplayRule { mode: DisplayMode::Internal, pattern: pattern.clone() });
                proof {
                    assert(rs.deep_view() =~= rules_of_command(self@));
                }
                Ok(rs)
            },
            DisplayCommand::Join(pattern) => {
                let mut rs: Vec<DisplayRule> = Vec::new();
                rs.push(DisplayRule { mode: DisplayMode::Join, pattern: pattern.clone() });
                proof {
                    assert(rs.deep_view() =~= rules_of_command(self@));
                }
                Ok(rs)
            },
            DisplayCommand::Mirror(pattern) => {
                let mut rs: Vec<DisplayRule> = Vec::new();
                rs.push(DisplayRule { mode: DisplayMode::Mirror, pattern: pattern.clone() });
                proof {
                    assert(rs.deep_view() =~= rules_of_command(self@));
                }
                Ok(rs)
            },
            DisplayCommand::Auto { external, internal, join, mirror, default, .. } => {
                let mut rs: Vec<DisplayRule> = Vec::new();
                push_rules(&mut rs, DisplayMode::Mirror, mirror);
                push_rules(&mut rs, DisplayMode::Join, join);
                push_rules(&mut rs, DisplayMode::External, external);
                push_rules(&mut rs, DisplayMode::Internal, internal);
                let fallback = DisplayRule { mode: *default, pattern: MonitorPattern::default() };
                proof {
                    assert(fallback.pattern@ =~= empty_pattern());
                }
                rs.push(fallback);
                proof {
                    assert(rs.deep_view() =~= rules_of_command(self@));
                }
                Ok(rs)
            },
        }
    }
}

} // verus!
