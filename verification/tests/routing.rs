use superpanels::app_state::RuntimeSnapshot;
use superpanels::bridge::{
    daemon_method, in_process_method, in_process_refusal, preview_fit, resolve_response, route, PreviewFit,
    unknown_method_message, unreachable_error, DaemonMethod, InProcessMethod, Route,
};
use superpanels::desktop_entry::{exec_value, needs_write, APP_ID};
use superpanels::dmabuf::{env_contains_ignore_case, should_reexec, Facts};
use superpanels::errors::IpcError;
use superpanels::notifications::{should_notify, Severity, Verbosity};
use superpanels::schedule::{
    boot_catch_up, cron_last_fire_between, cron_should_fire, rule_key, Schedule, ScheduleConfig,
    Trigger, WallClock, UTC_MAX_SECS, UTC_MIN_SECS,
};
use superpanels::tray::{
    build_menu, menu_action, profile_menu_id_for, MenuAction, MenuItemKind, TrayIconStyle,
    ID_PAUSE, ID_QUIT,
};
use superpanels::pool::{dedupe, under_folder};

#[test]
fn routing_prefers_the_daemon_then_the_fallback() {
    assert_eq!(route(true, "slideshow_next"), Route::Daemon);
    assert_eq!(route(false, "get_config"), Route::InProcess);
    assert_eq!(route(false, "slideshow_pause"), Route::Unreachable);
}

#[test]
fn unreachable_error_names_the_method() {
    match unreachable_error("slideshow_next") {
        IpcError::DaemonUnreachable(m) => assert_eq!(
            m,
            "no daemon is running — start one with `superpanels-daemon`; 'slideshow_next' has no in-process fallback"
        ),
        other => panic!("unexpected error {other:?}"),
    }
}

#[test]
fn daemon_reply_maps_to_payload_or_daemon_error() {
    assert_eq!(resolve_response(true, Some(5), None, 0).unwrap(), 5);
    assert_eq!(resolve_response(true, None, None, 0).unwrap(), 0);
    match resolve_response(false, Some(5), Some("boom".to_owned()), 0) {
        Err(IpcError::Daemon(m)) => assert_eq!(m, "boom"),
        other => panic!("unexpected {other:?}"),
    }
    match resolve_response::<i32>(false, None, None, 0) {
        Err(IpcError::Daemon(m)) => assert_eq!(m, "daemon error"),
        other => panic!("unexpected {other:?}"),
    }
}

#[test]
fn unknown_method_returns_failure() {
    assert_eq!(daemon_method("no_such_method"), DaemonMethod::Unknown);
    assert!(unknown_method_message("no_such_method").contains("unknown method"));
    assert_eq!(daemon_method("frobnicate"), DaemonMethod::Unknown);
    assert_eq!(daemon_method("apply_profile"), DaemonMethod::ApplyProfile);
    assert_eq!(daemon_method("set"), DaemonMethod::SetWallpaper);
    assert_eq!(unknown_method_message("frobnicate"), "unknown method: frobnicate");
}

#[test]
fn dispatch_unknown_method_returns_invalid_argument() {
    assert!(matches!(in_process_refusal("bogus"), Some(IpcError::InvalidArgument(_))));
    assert_eq!(in_process_method("redetect"), InProcessMethod::DetectMonitors);
    assert!(in_process_refusal("get_config").is_none());
    match in_process_refusal("frobnicate") {
        Some(IpcError::InvalidArgument(m)) => {
            assert_eq!(m, "method 'frobnicate' has no in-process implementation")
        }
        other => panic!("unexpected {other:?}"),
    }
    assert!(matches!(in_process_refusal("apply_profile"), Some(IpcError::Internal(_))));
    assert!(matches!(in_process_refusal("library_tag"), Some(IpcError::Internal(_))));
}

#[test]
fn errors_render_with_kind_and_message() {
    let e = IpcError::invalid("bad path");
    assert_eq!(e.kind(), "InvalidArgument");
    assert_eq!(e.message(), "bad path");
    assert_eq!(e.to_display_string(), "invalid argument: bad path");
    assert_eq!(IpcError::internal("x").to_display_string(), "internal: x");
}

#[test]
fn notification_gate_follows_verbosity() {
    assert!(should_notify(Severity::Error, Verbosity::ErrorsOnly));
    assert!(!should_notify(Severity::Success, Verbosity::ErrorsOnly));
    assert!(!should_notify(Severity::Error, Verbosity::Off));
    assert!(should_notify(Severity::Success, Verbosity::All));
}

#[test]
fn dmabuf_reexec_respects_an_existing_setting() {
    let facts = Facts { wayland: true, nvidia: true };
    assert!(should_reexec(false, &facts));
    assert!(!should_reexec(true, &facts));
    assert!(env_contains_ignore_case(Some("KDE:Wayland"), "wayland"));
    assert!(!env_contains_ignore_case(Some("x11"), "wayland"));
    assert!(!env_contains_ignore_case(None, "wayland"));
}

#[test]
fn desktop_entry_exec_and_rewrite_rules() {
    assert_eq!(exec_value(Some("/usr/bin/superpanels-gui")), "/usr/bin/superpanels-gui");
    assert_eq!(exec_value(Some("/a b/gui")), "\"/a b/gui\"");
    assert_eq!(exec_value(None), APP_ID);
    assert!(needs_write(None, b"x"));
    assert!(needs_write(Some(b"y"), b"x"));
    assert!(!needs_write(Some(b"x"), b"x"));
}

fn snap(active: Option<&str>, paused: bool) -> RuntimeSnapshot {
    RuntimeSnapshot {
        active_profile: active.map(str::to_owned),
        current_filename: None,
        paused,
    }
}

#[test]
fn tray_menu_lists_profiles_then_controls() {
    let items = build_menu(&vec!["home".to_owned(), "work".to_owned()], &snap(Some("work"), true));
    assert_eq!(items.len(), 11);
    assert_eq!(items[0].id, "tray.profile.home");
    assert_eq!(items[0].kind, MenuItemKind::Check { checked: false });
    assert_eq!(items[1].kind, MenuItemKind::Check { checked: true });
    assert_eq!(items[2].kind, MenuItemKind::Separator);
    assert_eq!(items[5].id, ID_PAUSE);
    assert_eq!(items[5].label, "Resume slideshow");
    assert_eq!(items[10].id, ID_QUIT);
    let empty = build_menu(&Vec::new(), &snap(None, false));
    assert_eq!(empty[0].id, "tray.profile.empty");
    assert!(!empty[0].enabled);
}

#[test]
fn tray_clicks_route_to_actions() {
    assert_eq!(menu_action(ID_PAUSE, &snap(None, false)), MenuAction::Pause { paused: true });
    assert_eq!(menu_action(ID_QUIT, &snap(None, false)), MenuAction::Quit);
    assert_eq!(
        menu_action("tray.profile.home", &snap(None, false)),
        MenuAction::ApplyProfile("home".to_owned())
    );
    assert_eq!(menu_action("tray.profile.empty", &snap(None, false)), MenuAction::Ignore);
    assert_eq!(profile_menu_id_for(&"家".to_owned()), "tray.profile.家");
    assert!(TrayIconStyle::White.is_template());
    assert!(!TrayIconStyle::Blue.is_template());
}

fn rule(name: Option<&str>, profile: &str, trigger: Trigger, enabled: bool) -> Schedule {
    Schedule {
        display_name: name.map(str::to_owned),
        profile: profile.to_owned(),
        trigger,
        enabled,
    }
}

#[test]
fn rule_keys_use_the_display_name_or_the_index() {
    let named = rule(Some("evening"), "dark", Trigger::Daily { hour: 18, minute: 0 }, true);
    let unnamed = rule(None, "dark", Trigger::Daily { hour: 18, minute: 0 }, true);
    assert_eq!(rule_key(&named, 3), "evening");
    assert_eq!(rule_key(&unnamed, 3), "schedule[3]");
}

#[test]
fn cron_rule_fires_within_the_lookback_window() {
    let now = WallClock { timestamp: 1_750_528_800, hour: 18, minute: 0 };
    assert!(cron_should_fire("0 0 18 * * *", now, None));
    let later = WallClock { timestamp: 1_750_528_920, hour: 18, minute: 2 };
    assert!(!cron_should_fire("0 0 18 * * *", later, None));
    assert!(!cron_should_fire("0 0 18 * * *", now, Some(1_750_528_800)));
    assert!(!cron_should_fire("not a cron", now, None));
}

#[test]
fn boot_catch_up_picks_the_latest_past_fire() {
    let cfg = ScheduleConfig {
        schedules: vec![
            rule(None, "morning", Trigger::Daily { hour: 8, minute: 0 }, true),
            rule(None, "noon", Trigger::Daily { hour: 12, minute: 0 }, true),
            rule(None, "evening", Trigger::Daily { hour: 18, minute: 0 }, true),
            rule(None, "off", Trigger::Daily { hour: 13, minute: 0 }, false),
        ],
        schedules_paused: false,
    };
    let fires = vec![Some(100), Some(200), Some(900), Some(300)];
    assert_eq!(boot_catch_up(&cfg, &fires, Some(0), 500).as_deref(), Some("noon"));
    let paused = ScheduleConfig { schedules: cfg.schedules.clone(), schedules_paused: true };
    assert_eq!(boot_catch_up(&paused, &fires, Some(0), 500), None);
    assert_eq!(boot_catch_up(&cfg, &vec![None, None, None, None], Some(0), 500), None);
}

// 2025-06-21T00:00:00Z and 18:00:00Z.
const DAY_START: i64 = 1_750_464_000;
const SIX_PM: i64 = 1_750_528_800;

#[test]
fn cron_last_fire_is_the_latest_fire_up_to_now() {
    assert_eq!(cron_last_fire_between("0 0 8 * * *", DAY_START, SIX_PM), Some(1_750_492_800));
    assert_eq!(cron_last_fire_between("0 0 */6 * * *", DAY_START, SIX_PM), Some(SIX_PM));
    assert_eq!(cron_last_fire_between("0 0 20 * * *", DAY_START, SIX_PM), None);
    assert_eq!(cron_last_fire_between("bogus", DAY_START, SIX_PM), None);
}

#[test]
fn boot_catch_up_computes_cron_fires_from_midnight() {
    let cfg = ScheduleConfig {
        schedules: vec![
            rule(None, "morning", Trigger::Daily { hour: 8, minute: 0 }, true),
            rule(None, "cron-noon", Trigger::Cron { expr: "0 0 12 * * *".to_owned() }, true),
            rule(None, "cron-late", Trigger::Cron { expr: "0 0 20 * * *".to_owned() }, true),
        ],
        schedules_paused: false,
    };
    let daily = vec![Some(1_750_492_800), None, None];
    assert_eq!(
        boot_catch_up(&cfg, &daily, Some(DAY_START), SIX_PM).as_deref(),
        Some("cron-noon")
    );
    assert_eq!(boot_catch_up(&cfg, &daily, None, SIX_PM).as_deref(), Some("morning"));
}

#[test]
fn folder_membership_and_dedupe() {
    assert!(under_folder("/walls/a.png", "/walls", false));
    assert!(!under_folder("/walls/sub/a.png", "/walls", false));
    assert!(under_folder("/walls/sub/a.png", "/walls", true));
    assert!(!under_folder("/wallsX/a.png", "/walls", true));
    assert_eq!(
        dedupe(vec!["/a".to_owned(), "/b".to_owned(), "/a".to_owned()]),
        vec!["/a".to_owned(), "/b".to_owned()]
    );
}

#[test]
fn preview_fit_names_and_default() {
    assert!(matches!(preview_fit(None), Ok(PreviewFit::Fill)));
    assert!(matches!(preview_fit(Some("fill")), Ok(PreviewFit::Fill)));
    assert!(matches!(preview_fit(Some("fit")), Ok(PreviewFit::Fit)));
    assert!(matches!(preview_fit(Some("stretch")), Ok(PreviewFit::Stretch)));
    assert!(matches!(preview_fit(Some("center")), Ok(PreviewFit::Center)));
    match preview_fit(Some("Fill")) {
        Err(IpcError::InvalidArgument(m)) => assert_eq!(m, "unknown fit `Fill`"),
        other => panic!("unexpected {other:?}"),
    }
}

#[test]
fn direct_children_are_counted_by_path_components() {
    assert!(under_folder("/walls//a.png", "/walls/", false));
    assert!(under_folder("/walls/./a.png/", "/walls", false));
    assert!(!under_folder("/walls/sub//a.png", "/walls", false));
    assert!(under_folder("/walls/sub//a.png", "/walls", true));
    assert!(!under_folder("/other/a.png", "/walls", true));
    assert_eq!(
        dedupe(vec!["/w/a.png".to_owned(), "/w//a.png".to_owned(), "/w/b.png".to_owned()]),
        vec!["/w/a.png".to_owned(), "/w/b.png".to_owned()]
    );
}

#[test]
fn utc_bounds_are_the_range_chrono_represents() {
    assert!(chrono::DateTime::from_timestamp(UTC_MIN_SECS, 0).is_some());
    assert!(chrono::DateTime::from_timestamp(UTC_MIN_SECS - 1, 0).is_none());
    assert!(chrono::DateTime::from_timestamp(UTC_MAX_SECS, 0).is_some());
    assert!(chrono::DateTime::from_timestamp(UTC_MAX_SECS + 1, 0).is_none());
}

#[test]
fn cron_search_starts_from_any_last_fire_chrono_represents() {
    let six_pm = WallClock { timestamp: 1_750_528_800, hour: 18, minute: 0 };
    // Last fires far outside the years the cron crate searches: the search
    // starts there and finds nothing, so the rule does not fire.
    assert!(!cron_should_fire("0 0 18 * * *", six_pm, Some(2_000_000_000_000)));
    assert!(!cron_should_fire("0 0 18 * * *", six_pm, Some(-2_000_000_000_000)));
    // A stored value no instant can have: the search starts 65 s ago.
    assert!(cron_should_fire("0 0 18 * * *", six_pm, Some(UTC_MAX_SECS + 1)));
    assert!(cron_should_fire("0 0 18 * * *", six_pm, Some(UTC_MIN_SECS - 1)));
    // A last fire in a year before the searched range: the first 18:00 of
    // 1970 is already past, so the rule fires.
    let seven_pm = WallClock { timestamp: 1_750_528_800 + 3600, hour: 19, minute: 0 };
    assert!(cron_should_fire("0 0 18 * * *", seven_pm, Some(-30_610_224_000)));
}
