use monitorctl::{
    ConnectorInfo, CurrentLogicalMonitor, CurrentState, DisplayMode, Error, Mode, Monitor,
    build_joined_or_individual, build_mirrored,
};

fn mode_full(
    id: &str,
    width: u32,
    height: u32,
    refresh_millihz: u32,
    is_current: bool,
    is_preferred: bool,
    scale_millis: u32,
) -> Mode {
    Mode {
        id: id.to_string(),
        width,
        height,
        refresh_millihz,
        is_current,
        is_preferred,
        preferred_scale_millis: scale_millis,
        supported_scales_millis: vec![scale_millis],
    }
}

fn monitor_with(builtin: bool, connector: &str, modes: Vec<Mode>) -> Monitor {
    Monitor {
        is_builtin: builtin,
        is_underscanning: false,
        min_refresh_millihz: None,
        display_name: format!("Monitor {}", connector),
        connector_info: ConnectorInfo {
            connector: connector.to_string(),
            vendor: "VEN".to_string(),
            product: "PROD".to_string(),
            serial: "SER".to_string(),
        },
        modes,
    }
}

#[test]
fn join_packs_scale_aware_left_to_right() {
    let m1 = monitor_with(
        true,
        "eDP-1",
        vec![mode_full("a", 1920, 1080, 60_000, true, true, 1000)],
    );
    let m2 = monitor_with(
        false,
        "DP-6",
        vec![mode_full("b", 3840, 2160, 60_000, false, true, 2000)],
    );
    let ds = build_joined_or_individual(&vec![m1, m2], DisplayMode::Join).unwrap();
    assert_eq!(ds.len(), 2);
    assert_eq!(ds[0].x, 0);
    assert_eq!(ds[0].y, 0);
    assert!(ds[0].primary);
    assert_eq!(ds[0].scale_millis, 1000);
    assert_eq!(ds[0].monitors.len(), 1);
    assert_eq!(ds[0].monitors[0].connector, "eDP-1");
    assert_eq!(ds[0].monitors[0].mode_id, "a");
    // round(3840 / 2.0) = 1920 logical units for the second monitor,
    // and the first contributed 1920, so the second sits at x = 1920.
    assert_eq!(ds[1].x, 1920);
    assert_eq!(ds[1].y, 0);
    assert!(!ds[1].primary);
    assert_eq!(ds[1].scale_millis, 2000);
    assert_eq!(ds[1].monitors[0].connector, "DP-6");
    assert_eq!(ds[1].monitors[0].mode_id, "b");
}

#[test]
fn join_prefers_flagged_mode_else_first() {
    let with_preferred = monitor_with(
        false,
        "DP-1",
        vec![
            mode_full("first", 1280, 720, 60_000, false, false, 1000),
            mode_full("pref", 1920, 1080, 60_000, false, true, 1000),
        ],
    );
    let without_preferred = monitor_with(
        false,
        "DP-2",
        vec![
            mode_full("head", 1600, 900, 60_000, false, false, 1000),
            mode_full("tail", 1920, 1080, 60_000, false, false, 1000),
        ],
    );
    let ds = build_joined_or_individual(
        &vec![with_preferred, without_preferred],
        DisplayMode::Join,
    )
    .unwrap();
    assert_eq!(ds[0].monitors[0].mode_id, "pref");
    assert_eq!(ds[1].monitors[0].mode_id, "head");
}

#[test]
fn join_skips_monitor_without_modes() {
    let empty = monitor_with(true, "eDP-1", vec![]);
    let full = monitor_with(false, "DP-6", vec![mode_full("b", 1920, 1080, 60_000, false, true, 1000)]);
    let ds = build_joined_or_individual(&vec![empty, full], DisplayMode::Join).unwrap();
    assert_eq!(ds.len(), 1);
    assert_eq!(ds[0].monitors[0].connector, "DP-6");
    assert!(ds[0].primary);
    assert_eq!(ds[0].x, 0);
}

#[test]
fn join_with_no_usable_monitor_fails() {
    let empty = monitor_with(true, "eDP-1", vec![]);
    let e = build_joined_or_individual(&vec![empty], DisplayMode::External).unwrap_err();
    assert!(matches!(e, Error::NoMonitorsAvailable(DisplayMode::External)));
}

#[test]
fn join_rounds_logical_width_to_nearest() {
    // 1920 / 1.5 = 1280 exactly; 1366 / 1.5 = 910.67 rounds to 911.
    let a = monitor_with(false, "DP-1", vec![mode_full("a", 1366, 768, 60_000, false, true, 1500)]);
    let b = monitor_with(false, "DP-2", vec![mode_full("b", 1920, 1080, 60_000, false, true, 1000)]);
    let ds = build_joined_or_individual(&vec![a, b], DisplayMode::Join).unwrap();
    assert_eq!(ds[1].x, 911);
}

#[test]
fn mirror_selects_only_common_resolution() {
    // Monitor A also has a larger mode, but only 1920x1080 is shared.
    let a = monitor_with(
        true,
        "eDP-1",
        vec![
            mode_full("a-big", 2560, 1440, 60_000, false, true, 1000),
            mode_full("a-fhd", 1920, 1080, 60_000, false, false, 1000),
        ],
    );
    let b = monitor_with(
        false,
        "DP-6",
        vec![mode_full("b-fhd", 1920, 1080, 60_000, false, true, 1000)],
    );
    let ds = build_mirrored(&vec![a, b]).unwrap();
    assert_eq!(ds.len(), 1);
    let d = &ds[0];
    assert_eq!(d.x, 0);
    assert_eq!(d.y, 0);
    assert!(d.primary);
    assert_eq!(d.transform, 0);
    assert_eq!(d.monitors.len(), 2);
    assert_eq!(d.monitors[0].connector, "eDP-1");
    assert_eq!(d.monitors[0].mode_id, "a-fhd");
    assert_eq!(d.monitors[1].connector, "DP-6");
    assert_eq!(d.monitors[1].mode_id, "b-fhd");
}

#[test]
fn mirror_fails_on_disjoint_resolutions() {
    let a = monitor_with(true, "eDP-1", vec![mode_full("a", 3840, 2160, 60_000, false, true, 1000)]);
    let b = monitor_with(false, "DP-6", vec![mode_full("b", 1920, 1080, 60_000, false, true, 1000)]);
    let e = build_mirrored(&vec![a, b]).unwrap_err();
    assert!(matches!(e, Error::NoCommonResolutionsAvailable));
}

#[test]
fn mirror_on_empty_set_reports_no_monitors() {
    let e = build_mirrored(&vec![]).unwrap_err();
    assert!(matches!(e, Error::NoMonitorsAvailable(DisplayMode::Mirror)));
}

#[test]
fn mirror_picks_highest_common_pixel_count() {
    let a = monitor_with(
        false,
        "DP-6",
        vec![
            mode_full("a-hd", 1280, 720, 60_000, false, false, 1000),
            mode_full("a-qhd", 2560, 1440, 60_000, false, true, 1000),
        ],
    );
    let b = monitor_with(
        true,
        "eDP-1",
        vec![
            mode_full("b-qhd", 2560, 1440, 60_000, false, true, 1000),
            mode_full("b-hd", 1280, 720, 60_000, false, false, 1000),
        ],
    );
    let ds = build_mirrored(&vec![a, b]).unwrap();
    assert_eq!(ds[0].monitors[0].mode_id, "a-qhd");
    assert_eq!(ds[0].monitors[1].mode_id, "b-qhd");
}

#[test]
fn mirror_prefers_highest_refresh_at_common_resolution() {
    let a = monitor_with(
        false,
        "DP-6",
        vec![
            mode_full("a-60", 1920, 1080, 60_000, false, true, 1000),
            mode_full("a-144", 1920, 1080, 144_000, false, false, 1000),
            mode_full("a-30", 1920, 1080, 30_000, false, false, 1000),
        ],
    );
    let b = monitor_with(true, "eDP-1", vec![mode_full("b-60", 1920, 1080, 60_000, false, true, 1000)]);
    let ds = build_mirrored(&vec![a, b]).unwrap();
    assert_eq!(ds[0].monitors[0].mode_id, "a-144");
}

#[test]
fn mirror_reference_is_first_external() {
    // The reference monitor decides the scale: the external monitor's
    // matching mode carries scale 2.0, the built-in one 1.0.
    let builtin = monitor_with(
        true,
        "eDP-1",
        vec![mode_full("b", 1920, 1080, 60_000, false, true, 1000)],
    );
    let external = monitor_with(
        false,
        "DP-6",
        vec![mode_full("e", 1920, 1080, 60_000, false, true, 2000)],
    );
    let ds = build_mirrored(&vec![builtin, external]).unwrap();
    assert_eq!(ds[0].scale_millis, 2000);
}

#[test]
fn mirror_scale_never_below_one() {
    let a = monitor_with(false, "DP-6", vec![mode_full("a", 1920, 1080, 60_000, false, true, 500)]);
    let b = monitor_with(true, "eDP-1", vec![mode_full("b", 1920, 1080, 60_000, false, true, 1000)]);
    let ds = build_mirrored(&vec![a, b]).unwrap();
    assert_eq!(ds[0].scale_millis, 1000);
}

#[test]
fn mirror_equal_pixel_counts_keep_reference_mode_order() {
    // 1920x1080 and 1080x1920 carry the same pixel count; the earlier
    // mode in the reference monitor's list is the documented tie-break.
    let a = monitor_with(
        false,
        "DP-6",
        vec![
            mode_full("a-wide", 1920, 1080, 60_000, false, true, 1000),
            mode_full("a-tall", 1080, 1920, 60_000, false, false, 1000),
        ],
    );
    let b = monitor_with(
        true,
        "eDP-1",
        vec![
            mode_full("b-tall", 1080, 1920, 60_000, false, false, 1000),
            mode_full("b-wide", 1920, 1080, 60_000, false, true, 1000),
        ],
    );
    let ds = build_mirrored(&vec![a, b]).unwrap();
    assert_eq!(ds[0].monitors[0].mode_id, "a-wide");
    assert_eq!(ds[0].monitors[1].mode_id, "b-wide");
}

#[test]
fn mirror_equal_refresh_rates_keep_latest_mode() {
    // Among equal refresh rates at the mirrored resolution, the later
    // mode in the monitor's list is the documented tie-break.
    let a = monitor_with(
        false,
        "DP-6",
        vec![
            mode_full("a-one", 1920, 1080, 60_000, false, true, 1000),
            mode_full("a-two", 1920, 1080, 60_000, false, false, 1000),
        ],
    );
    let b = monitor_with(true, "eDP-1", vec![mode_full("b", 1920, 1080, 60_000, false, true, 1000)]);
    let ds = build_mirrored(&vec![a, b]).unwrap();
    assert_eq!(ds[0].monitors[0].mode_id, "a-two");
}

#[test]
fn synthesize_layout_external_uses_external_pool() {
    let st = CurrentState {
        serial: 7,
        monitors: vec![
            monitor_with(true, "eDP-1", vec![mode_full("a", 1920, 1080, 60_000, true, true, 1000)]),
            monitor_with(false, "DP-6", vec![mode_full("b", 3840, 2160, 60_000, false, true, 1000)]),
        ],
        logical_monitors: vec![],
    };
    let ds = st.synthesize_layout(DisplayMode::External).unwrap();
    assert_eq!(ds.len(), 1);
    assert_eq!(ds[0].monitors[0].connector, "DP-6");
}

#[test]
fn synthesize_layout_internal_without_builtin_fails() {
    let st = CurrentState {
        serial: 7,
        monitors: vec![monitor_with(false, "DP-6", vec![mode_full("b", 1920, 1080, 60_000, false, true, 1000)])],
        logical_monitors: vec![],
    };
    let e = st.synthesize_layout(DisplayMode::Internal).unwrap_err();
    assert!(matches!(e, Error::NoMonitorsAvailable(DisplayMode::Internal)));
}

#[test]
fn verification_round_trip_accepts_echoed_layout() {
    let m1 = monitor_with(true, "eDP-1", vec![mode_full("a", 1920, 1080, 60_000, true, true, 1000)]);
    let m2 = monitor_with(false, "DP-6", vec![mode_full("b", 3840, 2160, 60_000, true, true, 2000)]);
    let ds = build_joined_or_individual(&vec![m1.clone(), m2.clone()], DisplayMode::Join).unwrap();

    // A simulated compositor echoing the layout back unchanged.
    let echoed: Vec<CurrentLogicalMonitor> = ds
        .iter()
        .map(|d| CurrentLogicalMonitor {
            x: d.x,
            y: d.y,
            scale_millis: d.scale_millis,
            transform: d.transform,
            primary: d.primary,
            assigned_monitors: d
                .monitors
                .iter()
                .map(|a| ConnectorInfo {
                    connector: a.connector.clone(),
                    vendor: String::new(),
                    product: String::new(),
                    serial: String::new(),
                })
                .collect(),
        })
        .collect();
    let st = CurrentState { serial: 8, monitors: vec![m1, m2], logical_monitors: echoed };
    assert!(st.verify_applied_config(&ds));

    // One logical monitor fewer must fail the whole check.
    let mut short = st;
    short.logical_monitors.pop();
    assert!(!short.verify_applied_config(&ds));
}

#[test]
fn verification_requires_intended_mode_to_be_active() {
    let stale = monitor_with(false, "DP-6", vec![mode_full("b", 1920, 1080, 60_000, false, true, 1000)]);
    let ds = build_joined_or_individual(&vec![stale.clone()], DisplayMode::External).unwrap();
    let echoed = vec![CurrentLogicalMonitor {
        x: 0,
        y: 0,
        scale_millis: 1000,
        transform: 0,
        primary: true,
        assigned_monitors: vec![stale.connector_info.clone()],
    }];
    // The monitor does not report mode "b" as current, so the check fails.
    let st = CurrentState { serial: 9, monitors: vec![stale], logical_monitors: echoed };
    assert!(!st.verify_applied_config(&ds));
}

#[test]
fn verification_tolerates_one_thousandth_of_scale() {
    let m = monitor_with(false, "DP-6", vec![mode_full("b", 1920, 1080, 60_000, true, true, 1000)]);
    let ds = build_joined_or_individual(&vec![m.clone()], DisplayMode::External).unwrap();
    let mut echoed = vec![CurrentLogicalMonitor {
        x: 0,
        y: 0,
        scale_millis: 1001,
        transform: 0,
        primary: true,
        assigned_monitors: vec![m.connector_info.clone()],
    }];
    let st = CurrentState { serial: 9, monitors: vec![m.clone()], logical_monitors: echoed.clone() };
    assert!(st.verify_applied_config(&ds));

    echoed[0].scale_millis = 1002;
    let st = CurrentState { serial: 9, monitors: vec![m], logical_monitors: echoed };
    assert!(!st.verify_applied_config(&ds));
}

#[test]
fn verification_accepts_reordered_logical_monitors() {
    let m1 = monitor_with(true, "eDP-1", vec![mode_full("a", 1920, 1080, 60_000, true, true, 1000)]);
    let m2 = monitor_with(false, "DP-6", vec![mode_full("b", 1280, 720, 60_000, true, true, 1000)]);
    let ds = build_joined_or_individual(&vec![m1.clone(), m2.clone()], DisplayMode::Join).unwrap();
    let mut echoed: Vec<CurrentLogicalMonitor> = ds
        .iter()
        .map(|d| CurrentLogicalMonitor {
            x: d.x,
            y: d.y,
            scale_millis: d.scale_millis,
            transform: d.transform,
            primary: d.primary,
            assigned_monitors: d
                .monitors
                .iter()
                .map(|a| ConnectorInfo {
                    connector: a.connector.clone(),
                    vendor: String::new(),
                    product: String::new(),
                    serial: String::new(),
                })
                .collect(),
        })
        .collect();
    echoed.reverse();
    let st = CurrentState { serial: 8, monitors: vec![m1, m2], logical_monitors: echoed };
    assert!(st.verify_applied_config(&ds));
}
