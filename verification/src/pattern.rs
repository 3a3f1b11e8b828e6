//! Monitor-selection patterns: the predicate a rule uses to decide
//! whether it applies to a given monitor, and the total parser that
//! turns a free-form `field=value` string into a pattern.

use vstd::prelude::*;
use vstd::string::StrSliceExecFns;

use crate::strutil::{
    find_char, find_char_in, is_substring, str_contains, str_equal, trim_str, trimmed,
};
use crate::structs::MonitorV;
use crate::structs::Monitor;

verus! {

/// A monitor-selection predicate. `connector` and `vendor` are exact
/// matches; `product`, `serial` and `name` are substring matches. A
/// pattern with no field set matches every monitor and is the sentinel
/// used for default rules.
#[derive(Debug, PartialEq, Eq)]
pub struct MonitorPattern {
    /// Exact match by connector name (e.g. DP-6, HDMI-1).
    pub connector: Option<String>,
    /// Exact match by vendor code (e.g. ACR, DEL).
    pub vendor: Option<String>,
    /// Substring match by product name.
    pub product: Option<String>,
    /// Substring match by serial number.
    pub serial: Option<String>,
    /// Substring match by display name.
    pub name: Option<String>,
}

/// Mathematical view of [`MonitorPattern`].
#[verifier::ext_equal]
pub struct MonitorPatternV {
    pub connector: Option<Seq<char>>,
    pub vendor: Option<Seq<char>>,
    pub product: Option<Seq<char>>,
    pub serial: Option<Seq<char>>,
    pub name: Option<Seq<char>>,
}

impl View for MonitorPattern {
    type V = MonitorPatternV;

    open spec fn view(&self) -> MonitorPatternV {
        MonitorPatternV {
            connector: self.connector.deep_view(),
            vendor: self.vendor.deep_view(),
            product: self.product.deep_view(),
            serial: self.serial.deep_view(),
            name: self.name.deep_view(),
        }
    }
}

impl DeepView for MonitorPattern {
    type V = MonitorPatternV;

    open spec fn deep_view(&self) -> MonitorPatternV {
        self.view()
    }
}

/// Clones one optional string field.
fn clone_opt_string(o: &Option<String>) -> (r: Option<String>)
    ensures
        r.deep_view() == o.deep_view(),
{
    match o {
        Option::None => Option::None,
        Option::Some(s) => Option::Some(s.clone()),
    }
}

impl Clone for MonitorPattern {
    fn clone(&self) -> (res: Self)
        ensures
            res@ == self@,
    {
        let res = MonitorPattern {
            connector: clone_opt_string(&self.connector),
            vendor: clone_opt_string(&self.vendor),
            product: clone_opt_string(&self.product),
            serial: clone_opt_string(&self.serial),
            name: clone_opt_string(&self.name),
        };
        proof {
            assert(res@ =~= self@);
        }
        res
    }
}

impl Default for MonitorPattern {
    /// The empty pattern: no field set, matches every monitor.
    fn default() -> (r: Self)
        ensures
            pattern_is_empty(r@),
    {
        MonitorPattern { connector: None, vendor: None, product: None, serial: None, name: None }
    }
}

/// True when no field of the pattern is set.
pub open spec fn pattern_is_empty(p: MonitorPatternV) -> bool {
    p.connector is None && p.vendor is None && p.product is None && p.serial is None
        && p.name is None
}

/// Whether `p` selects `m`: either `p` is the empty pattern, or every
/// set field matches — connector and vendor exactly, product, serial
/// and display name as substrings. Set fields are conjoined; there is
/// no disjunction within one pattern.
pub open spec fn pattern_matches(p: MonitorPatternV, m: MonitorV) -> bool {
    pattern_is_empty(p) || ((match p.connector {
        Some(c) => m.connector_info.connector == c,
        None => true,
    }) && (match p.vendor {
        Some(v) => m.connector_info.vendor == v,
        None => true,
    }) && (match p.product {
        Some(s) => is_substring(s, m.connector_info.product),
        None => true,
    }) && (match p.serial {
        Some(s) => is_substring(s, m.connector_info.serial),
        None => true,
    }) && (match p.name {
        Some(s) => is_substring(s, m.display_name),
        None => true,
    }))
}

/// The pattern denoted by a free-form string. `field=value` (splitting
/// at the first `=`, trimming both sides) sets exactly that one field
/// when the field name is recognized; any other shape degrades to a
/// name-only pattern holding the whole input string.
pub open spec fn pattern_of_string(s: Seq<char>) -> MonitorPatternV {
    match find_char(s, '=') {
        None => name_only_pattern(s),
        Some(i) => {
            let field = trimmed(s.take(i));
            let value = trimmed(s.skip(i + 1));
            if field == "connector"@ {
                MonitorPatternV {
                    connector: Some(value),
                    vendor: None,
                    product: None,
                    serial: None,
                    name: None,
                }
            } else if field == "vendor"@ {
                MonitorPatternV {
                    connector: None,
                    vendor: Some(value),
                    product: None,
                    serial: None,
                    name: None,
                }
            } else if field == "product"@ {
                MonitorPatternV {
                    connector: None,
                    vendor: None,
                    product: Some(value),
                    serial: None,
                    name: None,
                }
            } else if field == "serial"@ {
                MonitorPatternV {
                    connector: None,
                    vendor: None,
                    product: None,
                    serial: Some(value),
                    name: None,
                }
            } else if field == "name"@ {
                MonitorPatternV {
                    connector: None,
                    vendor: None,
                    product: None,
                    serial: None,
                    name: Some(value),
                }
            } else {
                name_only_pattern(s)
            }
        },
    }
}

/// A pattern whose only set field is a name filter holding `s`.
pub open spec fn name_only_pattern(s: Seq<char>) -> MonitorPatternV {
    MonitorPatternV { connector: None, vendor: None, product: None, serial: None, name: Some(s) }
}

impl MonitorPattern {
    /// True when no field of the pattern is set.
    pub fn is_empty(&self) -> (r: bool)
        ensures
            r == pattern_is_empty(self@),
    {
        self.connector.is_none() && self.vendor.is_none() && self.product.is_none()
            && self.serial.is_none() && self.name.is_none()
    }

    /// Whether this pattern selects `monitor`.
    pub fn matches(&self, monitor: &Monitor) -> (r: bool)
        ensures
            r == pattern_matches(self@, monitor@),
    {
        if self.is_empty() {
            return true;
        }
        let connector_ok = match &self.connector {
            Option::None => true,
            Option::Some(p) => str_equal(monitor.connector_info.connector.as_str(), p.as_str()),
        };
        let vendor_ok = match &self.vendor {
            Option::None => true,
            Option::Some(p) => str_equal(monitor.connector_info.vendor.as_str(), p.as_str()),
        };
        let product_ok = match &self.product {
            Option::None => true,
            Option::Some(p) => str_contains(monitor.connector_info.product.as_str(), p.as_str()),
        };
        let serial_ok = match &self.serial {
            Option::None => true,
            Option::Some(p) => str_contains(monitor.connector_info.serial.as_str(), p.as_str()),
        };
        let name_ok = match &self.name {
            Option::None => true,
            Option::Some(p) => str_contains(monitor.display_name.as_str(), p.as_str()),
        };
        connector_ok && vendor_ok && product_ok && serial_ok && name_ok
    }

    /// Parses a free-form string into a pattern. Total: every input,
    /// including the empty string, multiple `=` signs or an
    /// unrecognized field prefix, yields a pattern rather than an
    /// error.
    pub fn from_str(pattern: &str) -> (r: MonitorPattern)
        ensures
            r@ == pattern_of_string(pattern@),
    {
        let n = pattern.unicode_len();
        let eq_pos = find_char_in(pattern, '=');
        let r = match eq_pos {
            Option::None => MonitorPattern {
                connector: None,
                vendor: None,
                product: None,
                serial: None,
                name: Some(pattern.to_owned()),
            },
            Option::Some(i) => {
                let field_raw = pattern.substring_char(0, i);
                let value_raw = pattern.substring_char(i + 1, n);
                proof {
                    assert(field_raw@ =~= pattern@.take(i as int));
                    assert(value_raw@ =~= pattern@.skip(i + 1));
                }
                let field = trim_str(field_raw);
                let value = trim_str(value_raw);
                if str_equal(field, "connector") {
                    MonitorPattern {
                        connector: Some(value.to_owned()),
                        vendor: None,
                        product: None,
                        serial: None,
                        name: None,
                    }
                } else if str_equal(field, "vendor") {
                    MonitorPattern {
                        connector: None,
                        vendor: Some(value.to_owned()),
                        product: None,
                        serial: None,
                        name: None,
                    }
                } else if str_equal(field, "product") {
                    MonitorPattern {
                        connector: None,
                        vendor: None,
                        product: Some(value.to_owned()),
                        serial: None,
                        name: None,
                    }
                } else if str_equal(field, "serial") {
                    MonitorPattern {
                        connector: None,
                        vendor: None,
                        product: None,
                        serial: Some(value.to_owned()),
                        name: None,
                    }
                } else if str_equal(field, "name") {
                    MonitorPattern {
                        connector: None,
                        vendor: None,
                        product: None,
                        serial: None,
                        name: Some(value.to_owned()),
                    }
                } else {
                    MonitorPattern {
                        connector: None,
                        vendor: None,
                        product: None,
                        serial: None,
                        name: Some(pattern.to_owned()),
                    }
                }
            },
        };
        proof {
            assert(r@ =~= pattern_of_string(pattern@));
        }
        r
    }
}

/// Law: the empty pattern matches every monitor unconditionally.
pub proof fn lemma_empty_pattern_matches_all(p: MonitorPatternV, m: MonitorV)
    requires
        pattern_is_empty(p),
    ensures
        pattern_matches(p, m),
{
}

/// Law: set fields are conjoined. A pattern with exactly a connector
/// and a product filter set matches a monitor exactly when both the
/// exact connector equality and the product substring test hold on
/// their own.
pub proof fn lemma_pattern_field_conjunction(p: MonitorPatternV, m: MonitorV)
    requires
        p.connector is Some,
        p.product is Some,
        p.vendor is None,
        p.serial is None,
        p.name is None,
    ensures
        pattern_matches(p, m) <==> (m.connector_info.connector == p.connector.unwrap()
            && is_substring(p.product.unwrap(), m.connector_info.product)),
{
}

} // verus!
