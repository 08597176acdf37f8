use superpanels::window::{on_motion, on_press, on_release, DragGesture, GestureEffect, PressKind};
use superpanels::app_state::{AppState, RuntimeSnapshot};
use superpanels::autostart::{
    effective_enabled, entry_disabled, set_enabled_action, AutostartAction, DESKTOP_BODY,
    HIDDEN_BODY,
};
use superpanels::bridge::{has_in_process_fallback, should_fall_back_to_local_render};
use superpanels::desktop_entry::{desktop_body, quote_exec_path};
use superpanels::dmabuf::{nvidia_signal, warranted, wayland_session, Facts};
use superpanels::errors::IpcError;
use superpanels::notifications::Verbosity;
use superpanels::tray::{
    menu_signature, parse_profile_menu_id, tooltip_for, TrayIconStyle, ID_NEXT, ID_OPEN, ID_PAUSE,
    ID_PREV, ID_QUIT, ID_SETTINGS,
};
use superpanels::window::{exit_decision, wants_tray_mode, ExitDecision};

fn args(v: &[&str]) -> Vec<String> {
    v.iter().map(|s| (*s).to_owned()).collect()
}

#[test]
fn entry_disabled_honours_override_variants() {
    assert!(entry_disabled(HIDDEN_BODY));
    assert!(entry_disabled("[Desktop Entry]\nHidden=true\n"));
    assert!(entry_disabled("[Desktop Entry]\nHidden=True\n"));
    assert!(entry_disabled("[Desktop Entry]\nHidden = true \n"));
    assert!(entry_disabled("[Desktop Entry]\nX-GNOME-Autostart-enabled=false\n"));
}

#[test]
fn entry_disabled_false_for_an_enabling_entry() {
    assert!(!entry_disabled(DESKTOP_BODY));
    assert!(!entry_disabled("[Desktop Entry]\nHidden=false\n"));
    assert!(!entry_disabled("Exec=/opt/Hidden=true/superpanels-gui\n"));
}

#[test]
fn autostart_entry_launches_in_tray_mode() {
    assert!(DESKTOP_BODY.contains("superpanels-gui --tray"));
}

#[test]
fn slideshow_methods_have_no_in_process_fallback() {
    assert!(!has_in_process_fallback("slideshow_next"));
    assert!(!has_in_process_fallback("slideshow_prev"));
    assert!(!has_in_process_fallback("slideshow_pause"));
}

#[test]
fn other_methods_have_in_process_fallback() {
    assert!(has_in_process_fallback("detect_monitors"));
    assert!(has_in_process_fallback("apply_profile"));
    assert!(has_in_process_fallback("get_config"));
}

#[test]
fn library_thumbnail_fallback_only_fires_on_daemon_unreachable() {
    assert!(should_fall_back_to_local_render(&IpcError::DaemonUnreachable(
        "connection refused".to_owned()
    )));
    assert!(should_fall_back_to_local_render(&IpcError::DaemonUnreachable(
        "no daemon is running — start one with `superpanels-daemon`".to_owned()
    )));
    for daemon_msg in [
        "path '/etc/passwd' is outside the configured library roots",
        "path '/tmp/socket-bait.png' is outside the configured library roots",
        "path '/etc/connection-test/x.png' is outside the configured library roots",
        "path '/srv/eof-marker/y.jpg' is outside the configured library roots",
        "path '/var/transport-cache/z.webp' is outside the configured library roots",
        "path '/home/user/no daemon/img.png' is outside the configured library roots",
        "image: failed to decode bytes",
    ] {
        assert!(
            !should_fall_back_to_local_render(&IpcError::Daemon(daemon_msg.to_owned())),
            "logical Daemon rejection routed to fallback: {daemon_msg}"
        );
    }
    assert!(!should_fall_back_to_local_render(&IpcError::invalid("bad path")));
    assert!(!should_fall_back_to_local_render(&IpcError::Library(
        "scan failed".to_owned()
    )));
    assert!(!should_fall_back_to_local_render(&IpcError::Image(
        "decode failed".to_owned()
    )));
}

#[test]
fn quote_exec_path_passes_plain_paths_through() {
    assert_eq!(
        quote_exec_path("/usr/bin/superpanels-gui"),
        "/usr/bin/superpanels-gui"
    );
}

#[test]
fn quote_exec_path_quotes_and_escapes_special_chars() {
    assert_eq!(
        quote_exec_path("/home/a user/target/debug/superpanels-gui"),
        "\"/home/a user/target/debug/superpanels-gui\""
    );
    assert_eq!(quote_exec_path("/tmp/$x\"y"), "\"/tmp/\\$x\\\"y\"");
}

#[test]
fn desktop_body_names_match_the_wayland_app_id() {
    let body = desktop_body("superpanels-gui");
    assert!(body.contains("Icon=superpanels-gui\n"));
    assert!(body.contains("StartupWMClass=superpanels-gui\n"));
}

#[test]
fn desktop_body_execs_the_binary_directly() {
    let body = desktop_body("/usr/bin/superpanels-gui");
    assert!(body.contains("Exec=/usr/bin/superpanels-gui\n"));
    assert!(!body.contains("WEBKIT_DISABLE_DMABUF_RENDERER"));
}

#[test]
fn warranted_needs_both_wayland_and_nvidia() {
    assert!(warranted(&Facts { wayland: true, nvidia: true }));
    assert!(!warranted(&Facts { wayland: false, nvidia: true }));
    assert!(!warranted(&Facts { wayland: true, nvidia: false }));
}

#[test]
fn any_single_nvidia_probe_is_a_signal() {
    assert!(nvidia_signal(true, false, false));
    assert!(nvidia_signal(false, true, false));
    assert!(nvidia_signal(false, false, true));
    assert!(!nvidia_signal(false, false, false));
}

#[test]
fn module_alone_is_an_nvidia_signal() {
    assert!(nvidia_signal(false, false, true));
}

#[test]
fn session_type_wayland_is_a_wayland_signal() {
    assert!(wayland_session(Some("wayland"), None, false));
    assert!(wayland_session(Some("Wayland"), None, false));
}

#[test]
fn wayland_display_alone_is_a_wayland_signal() {
    assert!(wayland_session(None, Some("wayland-0"), false));
}

#[test]
fn default_socket_alone_is_a_wayland_signal() {
    assert!(wayland_session(None, None, true));
}

#[test]
fn empty_wayland_display_is_not_a_wayland_signal() {
    assert!(!wayland_session(None, Some(""), false));
}

#[test]
fn no_wayland_signal_when_nothing_is_set() {
    assert!(!wayland_session(None, None, false));
    assert!(!wayland_session(Some("x11"), None, false));
}

#[test]
fn tray_mode_detected_only_when_flag_present() {
    assert!(wants_tray_mode(&args(&["--tray"])));
    assert!(wants_tray_mode(&args(&["--verbose", "--tray"])));
    assert!(!wants_tray_mode(&args(&["--verbose"])));
    assert!(!wants_tray_mode(&Vec::<String>::new()));
    assert!(!wants_tray_mode(&args(&["--tray-ish"])));
}

#[test]
fn verbosity_from_setting_maps_strings() {
    assert_eq!(Verbosity::from_setting("off"), Verbosity::Off);
    assert_eq!(Verbosity::from_setting("errors"), Verbosity::ErrorsOnly);
    assert_eq!(Verbosity::from_setting("all"), Verbosity::All);
    assert_eq!(Verbosity::from_setting(""), Verbosity::ErrorsOnly);
    assert_eq!(Verbosity::from_setting("bogus"), Verbosity::ErrorsOnly);
}

#[test]
fn off_blocks_both_severities() {
    assert!(!Verbosity::Off.allows_success());
    assert!(!Verbosity::Off.allows_error());
}

#[test]
fn errors_only_allows_errors_blocks_success() {
    assert!(!Verbosity::ErrorsOnly.allows_success());
    assert!(Verbosity::ErrorsOnly.allows_error());
}

#[test]
fn all_allows_both_severities() {
    assert!(Verbosity::All.allows_success());
    assert!(Verbosity::All.allows_error());
}

#[test]
fn snapshot_is_default_until_set() {
    let s = AppState::new();
    let snap = s.snapshot();
    assert!(snap.active_profile.is_none());
    assert!(!snap.paused);
}

#[test]
fn shutdown_flag_is_off_by_default_and_latches_on_request() {
    let mut s = AppState::new();
    assert!(!s.shutting_down());
    s.request_shutdown();
    assert!(s.shutting_down());
    s.request_shutdown();
    assert!(s.shutting_down());
}

#[test]
fn pending_open_settings_latches_then_drains_once() {
    let mut s = AppState::new();
    assert!(!s.take_pending_open_settings());
    s.set_pending_open_settings();
    assert!(s.take_pending_open_settings());
    assert!(!s.take_pending_open_settings());
}

#[test]
fn pending_open_settings_consumed_by_live_event_then_boot_drain_is_false() {
    let mut s = AppState::new();
    s.set_pending_open_settings();
    assert!(s.take_pending_open_settings(), "live event consumes the flag");
    assert!(
        !s.take_pending_open_settings(),
        "next rebuilt window's boot handshake must not reopen settings"
    );
}

#[test]
fn set_snapshot_round_trips() {
    let mut s = AppState::new();
    s.set_snapshot(RuntimeSnapshot {
        active_profile: Some("home".into()),
        current_filename: Some("a.png".into()),
        paused: true,
    });
    let got = s.snapshot();
    assert_eq!(got.active_profile.as_deref(), Some("home"));
    assert_eq!(got.current_filename.as_deref(), Some("a.png"));
    assert!(got.paused);
}

fn snap(active: Option<&str>, file: Option<&str>, paused: bool) -> RuntimeSnapshot {
    RuntimeSnapshot {
        active_profile: active.map(str::to_owned),
        current_filename: file.map(str::to_owned),
        paused,
    }
}

#[test]
fn menu_signature_ignores_filename_changes() {
    let profiles = vec!["home".to_owned(), "work".to_owned()];
    let a = snap(Some("home"), Some("a.png"), false);
    let b = snap(Some("home"), Some("b.png"), false);
    assert_eq!(menu_signature(&a, &profiles), menu_signature(&b, &profiles));
}

#[test]
fn menu_signature_changes_when_active_profile_or_pause_or_list_changes() {
    let base = snap(Some("home"), Some("a.png"), false);
    let profiles = vec!["home".to_owned(), "work".to_owned()];
    let baseline = menu_signature(&base, &profiles);

    let switched = snap(Some("work"), Some("a.png"), false);
    assert_ne!(menu_signature(&switched, &profiles), baseline);

    let paused = snap(Some("home"), Some("a.png"), true);
    assert_ne!(menu_signature(&paused, &profiles), baseline);

    let renamed = vec!["house".to_owned(), "work".to_owned()];
    assert_ne!(menu_signature(&base, &renamed), baseline);

    let added = vec!["home".to_owned(), "work".to_owned(), "travel".to_owned()];
    assert_ne!(menu_signature(&base, &added), baseline);
}

#[test]
fn parse_profile_menu_id_extracts_name_after_prefix() {
    assert_eq!(
        parse_profile_menu_id("tray.profile.home").as_deref(),
        Some("home")
    );
    assert_eq!(
        parse_profile_menu_id("tray.profile.家.work").as_deref(),
        Some("家.work")
    );
}

#[test]
fn parse_profile_menu_id_rejects_empty_and_placeholder() {
    assert!(parse_profile_menu_id("tray.profile.").is_none());
    assert!(parse_profile_menu_id("tray.profile.empty").is_none());
}

#[test]
fn parse_profile_menu_id_rejects_unrelated_ids() {
    for id in [
        ID_NEXT,
        ID_PREV,
        ID_PAUSE,
        ID_OPEN,
        ID_SETTINGS,
        ID_QUIT,
        "tray.profileXhome",
        "",
    ] {
        assert!(
            parse_profile_menu_id(id).is_none(),
            "unexpected match for {id}"
        );
    }
}

#[test]
fn tooltip_includes_profile_only_when_no_filename() {
    let s = snap(Some("home"), None, false);
    assert_eq!(tooltip_for(&s), "Superpanels — home");
}

#[test]
fn tooltip_includes_profile_and_filename_when_present() {
    let s = snap(Some("home"), Some("a.png"), false);
    assert_eq!(tooltip_for(&s), "Superpanels — home — a.png");
}

#[test]
fn tooltip_falls_back_when_no_active_profile() {
    let s = snap(None, None, false);
    assert_eq!(tooltip_for(&s), "Superpanels — (no profile)");
}

#[test]
fn parse_accepts_known_styles_and_rejects_others() {
    assert_eq!(TrayIconStyle::parse("white"), Some(TrayIconStyle::White));
    assert_eq!(TrayIconStyle::parse("blue"), Some(TrayIconStyle::Blue));
    assert_eq!(TrayIconStyle::parse("White"), None);
    assert_eq!(TrayIconStyle::parse(""), None);
}

#[test]
fn as_str_round_trips_through_parse() {
    for style in [TrayIconStyle::White, TrayIconStyle::Blue] {
        assert_eq!(TrayIconStyle::parse(style.as_str()), Some(style));
    }
}

#[test]
fn none_code_stays_resident_some_code_quits() {
    assert_eq!(exit_decision(None), ExitDecision::StayResident);
    assert_eq!(exit_decision(Some(0)), ExitDecision::Quit);
    assert_eq!(exit_decision(Some(1)), ExitDecision::Quit);
    assert_eq!(exit_decision(Some(i32::MIN)), ExitDecision::Quit);
}

#[test]
fn autostart_follows_the_user_entry_over_the_system_one() {
    assert!(effective_enabled(None, true));
    assert!(!effective_enabled(None, false));
    assert!(!effective_enabled(Some(HIDDEN_BODY), true));
    assert!(effective_enabled(Some(DESKTOP_BODY), false));
}

#[test]
fn set_enabled_writes_or_removes_the_user_entry() {
    assert_eq!(set_enabled_action(false, true), AutostartAction::WriteDesktopEntry);
    assert_eq!(set_enabled_action(false, false), AutostartAction::RemoveUserEntry);
    assert_eq!(set_enabled_action(true, false), AutostartAction::WriteHiddenShadow);
    assert_eq!(set_enabled_action(true, true), AutostartAction::RemoveUserEntry);
}

#[test]
fn drag_gesture_swallows_the_release_of_a_stopped_press() {
    let idle = DragGesture { move_armed: false, swallow_release: false };
    // A right press is none of the window's business.
    let s = on_press(idle, false, PressKind::Single, true, true, false);
    assert_eq!((s.state, s.effect, s.stop), (idle, GestureEffect::Nothing, false));
    // A press in a drag region arms a move and stops.
    let s = on_press(idle, true, PressKind::Single, false, true, false);
    assert_eq!(s.effect, GestureEffect::ArmMove);
    assert!(s.stop && s.state.move_armed && s.state.swallow_release);
    // Small motion keeps it armed; travel past the threshold starts the move.
    let m = on_motion(s.state, true, false);
    assert_eq!((m.state, m.effect, m.stop), (s.state, GestureEffect::Nothing, false));
    let m = on_motion(m.state, true, true);
    assert_eq!(m.effect, GestureEffect::BeginMove);
    assert!(m.stop && !m.state.move_armed);
    // The release is swallowed and ends the gesture.
    let r = on_release(m.state, true);
    assert!(r.stop);
    assert_eq!(r.state, idle);
    // A press on a resize edge wins over the drag region.
    let s = on_press(idle, true, PressKind::Single, true, true, false);
    assert_eq!(s.effect, GestureEffect::BeginResize);
    // A double press in a drag region toggles maximize and disarms.
    let armed = DragGesture { move_armed: true, swallow_release: true };
    let d = on_press(armed, true, PressKind::Double, false, true, true);
    assert_eq!(d.effect, GestureEffect::Unmaximize);
    assert!(!d.state.move_armed && d.stop);
    assert_eq!(on_press(idle, true, PressKind::Double, false, true, false).effect, GestureEffect::Maximize);
    // A press that goes on to the page clears a stale swallow flag.
    let p = on_press(armed, true, PressKind::Single, false, false, false);
    assert!(!p.stop && !p.state.swallow_release && p.state.move_armed);
    assert!(!on_release(p.state, true).stop);
    // Releasing the button elsewhere disarms the move on the next motion.
    let m = on_motion(armed, false, true);
    assert!(!m.stop && !m.state.move_armed);
}
