use monitorctl::{ConnectorInfo, Mode, Monitor, MonitorPattern};

fn sample_mode(id: &str, width: u32, height: u32) -> Mode {
    Mode {
        id: id.to_string(),
        width,
        height,
        refresh_millihz: 60_000,
        is_current: false,
        is_preferred: false,
        preferred_scale_millis: 1000,
        supported_scales_millis: vec![1000],
    }
}

fn sample_monitor(builtin: bool, connector: &str, vendor: &str, product: &str, serial: &str, name: &str) -> Monitor {
    Monitor {
        is_builtin: builtin,
        is_underscanning: false,
        min_refresh_millihz: None,
        display_name: name.to_string(),
        connector_info: ConnectorInfo {
            connector: connector.to_string(),
            vendor: vendor.to_string(),
            product: product.to_string(),
            serial: serial.to_string(),
        },
        modes: vec![sample_mode("1", 1920, 1080)],
    }
}

fn blank_pattern() -> MonitorPattern {
    MonitorPattern { connector: None, vendor: None, product: None, serial: None, name: None }
}

#[test]
fn empty_pattern_matches_every_monitor() {
    let p = blank_pattern();
    let m1 = sample_monitor(false, "DP-6", "ACR", "ET430K", "0x7140025c", "Acer Technologies 42");
    let m2 = sample_monitor(true, "eDP-1", "BOE", "", "", "Built-in display");
    assert!(p.matches(&m1));
    assert!(p.matches(&m2));
    assert!(p.is_empty());
}

#[test]
fn default_pattern_is_empty() {
    let p = MonitorPattern::default();
    assert!(p.is_empty());
}

#[test]
fn field_conjunction_needs_both_fields() {
    let p = MonitorPattern {
        connector: Some("DP-6".to_string()),
        vendor: None,
        product: Some("Acer".to_string()),
        serial: None,
        name: None,
    };
    let both = sample_monitor(false, "DP-6", "ACR", "Acer ET430K", "1", "Acer");
    let connector_only = sample_monitor(false, "DP-6", "ACR", "Dell U2720Q", "1", "Dell");
    let product_only = sample_monitor(false, "HDMI-1", "ACR", "Acer ET430K", "1", "Acer");
    assert!(p.matches(&both));
    assert!(!p.matches(&connector_only));
    assert!(!p.matches(&product_only));
}

#[test]
fn connector_match_is_exact_not_substring() {
    let p = MonitorPattern {
        connector: Some("DP-1".to_string()),
        vendor: None,
        product: None,
        serial: None,
        name: None,
    };
    let m = sample_monitor(false, "DP-10", "ACR", "X", "1", "X");
    assert!(!p.matches(&m));
}

#[test]
fn product_match_is_substring() {
    let p = MonitorPattern {
        connector: None,
        vendor: None,
        product: Some("ET430K".to_string()),
        serial: None,
        name: None,
    };
    let hit = sample_monitor(false, "DP-6", "ACR", "Acer ET430K", "1", "Acer");
    let miss = sample_monitor(false, "DP-6", "ACR", "Acer ET431K", "1", "Acer");
    assert!(p.matches(&hit));
    assert!(!p.matches(&miss));
}

#[test]
fn serial_and_name_match_substrings() {
    let p = MonitorPattern {
        connector: None,
        vendor: None,
        product: None,
        serial: Some("0x714".to_string()),
        name: None,
    };
    let m = sample_monitor(false, "DP-6", "ACR", "X", "0x7140025c", "Acer Technologies 42");
    assert!(p.matches(&m));
    let q = MonitorPattern {
        connector: None,
        vendor: None,
        product: None,
        serial: None,
        name: Some("Technologies".to_string()),
    };
    assert!(q.matches(&m));
}

#[test]
fn from_str_parses_each_known_field() {
    let p = MonitorPattern::from_str("connector=DP-6");
    assert_eq!(p.connector.as_deref(), Some("DP-6"));
    assert!(p.vendor.is_none() && p.product.is_none() && p.serial.is_none() && p.name.is_none());

    let p = MonitorPattern::from_str("vendor=ACR");
    assert_eq!(p.vendor.as_deref(), Some("ACR"));

    let p = MonitorPattern::from_str("product=ET430K");
    assert_eq!(p.product.as_deref(), Some("ET430K"));

    let p = MonitorPattern::from_str("serial=0x714");
    assert_eq!(p.serial.as_deref(), Some("0x714"));

    let p = MonitorPattern::from_str("name=Acer");
    assert_eq!(p.name.as_deref(), Some("Acer"));
}

#[test]
fn from_str_trims_field_and_value() {
    let p = MonitorPattern::from_str(" connector = DP-1 ");
    assert_eq!(p.connector.as_deref(), Some("DP-1"));
    assert!(p.name.is_none());
}

#[test]
fn from_str_unrecognized_field_becomes_name_of_whole_string() {
    let p = MonitorPattern::from_str("foo=bar");
    assert_eq!(p.name.as_deref(), Some("foo=bar"));
    assert!(p.connector.is_none() && p.vendor.is_none() && p.product.is_none() && p.serial.is_none());
}

#[test]
fn from_str_without_equals_becomes_name() {
    let p = MonitorPattern::from_str("Acer");
    assert_eq!(p.name.as_deref(), Some("Acer"));
}

#[test]
fn from_str_empty_string_is_total() {
    let p = MonitorPattern::from_str("");
    assert_eq!(p.name.as_deref(), Some(""));
    assert!(!p.is_empty());
}

#[test]
fn from_str_splits_at_first_equals_only() {
    let p = MonitorPattern::from_str("name=a=b");
    assert_eq!(p.name.as_deref(), Some("a=b"));
}
