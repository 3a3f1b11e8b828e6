use monitorctl::{DesktopEnvironment, DisplayCommand, DisplayMode, Error, MonitorPattern};

fn no_field_pattern() -> MonitorPattern {
    MonitorPattern { connector: None, vendor: None, product: None, serial: None, name: None }
}

#[test]
fn explicit_command_becomes_single_rule() {
    let cmd = DisplayCommand::External(MonitorPattern {
        connector: Some("DP-6".to_string()),
        vendor: None,
        product: None,
        serial: None,
        name: None,
    });
    let rules = cmd.rules().unwrap();
    assert_eq!(rules.len(), 1);
    assert!(matches!(rules[0].mode, DisplayMode::External));
    assert_eq!(rules[0].pattern.connector.as_deref(), Some("DP-6"));
}

#[test]
fn mirror_command_becomes_single_mirror_rule() {
    let cmd = DisplayCommand::Mirror(no_field_pattern());
    let rules = cmd.rules().unwrap();
    assert_eq!(rules.len(), 1);
    assert!(matches!(rules[0].mode, DisplayMode::Mirror));
    assert!(rules[0].pattern.is_empty());
}

#[test]
fn auto_command_orders_rules_and_appends_default() {
    let cmd = DisplayCommand::Auto {
        name: Some("desk".to_string()),
        external: vec!["name=Acer".to_string()],
        internal: vec!["connector=eDP-1".to_string()],
        join: vec!["vendor=DEL".to_string()],
        mirror: vec!["product=ET430K".to_string()],
        default: DisplayMode::Internal,
    };
    let rules = cmd.rules().unwrap();
    assert_eq!(rules.len(), 5);
    // Mirror rules first, then join, external, internal, then the default.
    assert!(matches!(rules[0].mode, DisplayMode::Mirror));
    assert_eq!(rules[0].pattern.product.as_deref(), Some("ET430K"));
    assert!(matches!(rules[1].mode, DisplayMode::Join));
    assert_eq!(rules[1].pattern.vendor.as_deref(), Some("DEL"));
    assert!(matches!(rules[2].mode, DisplayMode::External));
    assert_eq!(rules[2].pattern.name.as_deref(), Some("Acer"));
    assert!(matches!(rules[3].mode, DisplayMode::Internal));
    assert_eq!(rules[3].pattern.connector.as_deref(), Some("eDP-1"));
    assert!(matches!(rules[4].mode, DisplayMode::Internal));
    assert!(rules[4].pattern.is_empty());
}

#[test]
fn auto_command_parses_unrecognized_pattern_as_name() {
    let cmd = DisplayCommand::Auto {
        name: None,
        external: vec!["foo=bar".to_string()],
        internal: vec![],
        join: vec![],
        mirror: vec![],
        default: DisplayMode::External,
    };
    let rules = cmd.rules().unwrap();
    assert_eq!(rules.len(), 2);
    assert_eq!(rules[0].pattern.name.as_deref(), Some("foo=bar"));
}

#[test]
fn detect_from_recognizes_gnome_case_insensitively() {
    assert_eq!(DesktopEnvironment::detect_from("GNOME", false), DesktopEnvironment::Gnome);
    assert_eq!(DesktopEnvironment::detect_from("gnome", false), DesktopEnvironment::Gnome);
    assert_eq!(
        DesktopEnvironment::detect_from("Ubuntu:GNOME", false),
        DesktopEnvironment::Gnome
    );
}

#[test]
fn detect_from_recognizes_cinnamon() {
    assert_eq!(
        DesktopEnvironment::detect_from("X-Cinnamon", false),
        DesktopEnvironment::Cinnamon
    );
}

#[test]
fn detect_from_falls_back_to_session_id_marker() {
    assert_eq!(DesktopEnvironment::detect_from("sway", true), DesktopEnvironment::Gnome);
}

#[test]
fn detect_from_keeps_unknown_lowercased_name() {
    assert_eq!(
        DesktopEnvironment::detect_from("KDE", false),
        DesktopEnvironment::Unknown("kde".to_string())
    );
}

#[test]
fn dbus_config_for_gnome() {
    let c = DesktopEnvironment::Gnome.dbus_config().unwrap();
    assert_eq!(c.service, "org.gnome.Mutter.DisplayConfig");
    assert_eq!(c.path, "/org/gnome/Mutter/DisplayConfig");
    assert_eq!(c.interface, "org.gnome.Mutter.DisplayConfig");
    assert_eq!(c.method, "ApplyMonitorsConfig");
}

#[test]
fn dbus_config_for_cinnamon() {
    let c = DesktopEnvironment::Cinnamon.dbus_config().unwrap();
    assert_eq!(c.service, "org.cinnamon.Muffin.DisplayConfig");
    assert_eq!(c.path, "/org/cinnamon/Muffin.DisplayConfig");
    assert_eq!(c.interface, "org.cinnamon.Muffin.DisplayConfig");
    assert_eq!(c.method, "ApplyMonitorsConfig");
}

#[test]
fn dbus_config_for_unknown_desktop_fails() {
    let e = DesktopEnvironment::Unknown("kde".to_string()).dbus_config().unwrap_err();
    match e {
        Error::UnsupportedDesktop(s) => assert_eq!(s, "kde"),
        other => panic!("unexpected error: {:?}", other),
    }
}
