use superpanels::daemon_flow::{canvas_profile_param, canvas_slideshow_pick, previous_image};
use superpanels::daemon_cli::{
    build_daemon_command, choose_initial_profile, kde_session_present, launch_mode, log_level,
    socket_dir_chmod_failure_is_fatal, unit_contents, DaemonCli, LaunchMode,
};
use superpanels::daemon_flow::{
    apply_target, canvas_slideshow_image, request_gate, catch_up_apply, clears_slideshow_after_apply,
    goto_path, monitor_wait_reply, needs_disk_scan, on_timer_tick, pause_request, picker_must_reset, picker_source,
    slideshow_target, source_update_plan, startup_delay_ms, startup_step, PickerChange, tick_target, timer_sync_publishes,
    validity_gate, ProfileKind, ProfileStamps, ProfileSummary, StartupStep, TickAction,
};
use superpanels::frame::{
    encode_frame, frame_header, header_len, read_frame_from, FrameError, FrameRead,
    MAX_FRAME_BYTES,
};
use superpanels::paths::{daemon_exe, sanitise_filename, DAEMON_BIN};
use superpanels::pool::{pool_from_cache, ImageSet, ImageSource, LibraryEntry};
use superpanels::schedule::{
    sleep_to_next_minute, Schedule, ScheduleChecker, ScheduleConfig, Trigger, WallClock,
};

fn cli_with(socket: Option<&str>, config: Option<&str>, verbose: u8, quiet: bool) -> DaemonCli {
    DaemonCli {
        foreground: false,
        socket: socket.map(str::to_owned),
        config: config.map(str::to_owned),
        install_unit: false,
        verbose,
        quiet,
    }
}

#[test]
fn build_command_prefers_setsid_and_passes_exe_as_first_arg() {
    let cmd = build_daemon_command(
        "/usr/bin/superpanels-daemon",
        &cli_with(None, None, 0, false),
        Some("/usr/bin/setsid"),
    );
    assert_eq!(cmd.program, "/usr/bin/setsid");
    assert_eq!(cmd.args, vec!["/usr/bin/superpanels-daemon", "--foreground"]);
    assert!(!cmd.own_process_group);
}

#[test]
fn build_command_without_setsid_execs_daemon_directly() {
    let cmd = build_daemon_command(
        "/usr/bin/superpanels-daemon",
        &cli_with(None, None, 0, false),
        None,
    );
    assert_eq!(cmd.program, "/usr/bin/superpanels-daemon");
    assert_eq!(cmd.args, vec!["--foreground"]);
    assert!(cmd.own_process_group);
}

#[test]
fn build_command_forwards_socket_config_and_verbosity() {
    let cli = cli_with(
        Some("/run/user/1000/sp.sock"),
        Some("/home/me/config.toml"),
        2,
        true,
    );
    let cmd = build_daemon_command("/usr/bin/superpanels-daemon", &cli, None);
    assert_eq!(
        cmd.args,
        vec![
            "--foreground",
            "--socket",
            "/run/user/1000/sp.sock",
            "--config",
            "/home/me/config.toml",
            "-v",
            "-v",
            "--quiet",
        ]
    );
}

#[test]
fn unit_contents_includes_exe_and_socket() {
    let text = unit_contents(
        "/usr/bin/superpanels-daemon",
        "/run/user/1000/superpanels/daemon.sock",
    );
    assert!(text.contains("/usr/bin/superpanels-daemon"), "missing exe: {text}");
    assert!(text.contains("daemon.sock"), "missing socket: {text}");
    assert!(text.contains("[Unit]"), "missing [Unit]: {text}");
    assert!(text.contains("[Service]"), "missing [Service]: {text}");
    assert!(text.contains("[Install]"), "missing [Install]: {text}");
}

#[test]
fn unit_contents_has_foreground_flag() {
    let text = unit_contents("/bin/sp", "/tmp/d.sock");
    assert!(text.contains("--foreground"), "missing --foreground: {text}");
}

#[test]
fn unit_contents_exec_line_is_exact() {
    let text = unit_contents("/bin/sp", "/tmp/d.sock");
    assert!(text.contains("\nExecStart=/bin/sp --foreground --socket /tmp/d.sock\n"));
    assert!(text.ends_with("WantedBy=graphical-session.target\n"));
}

fn names(v: &[&str]) -> Vec<String> {
    v.iter().map(|s| (*s).to_owned()).collect()
}

#[test]
fn default_profile_wins_over_resume() {
    let got = choose_initial_profile(Some("explicit"), Some("resumed"), &names(&["resumed"]));
    assert_eq!(got.as_deref(), Some("explicit"));
}

#[test]
fn resume_used_when_no_default_profile() {
    let got = choose_initial_profile(None, Some("resumed"), &names(&["resumed"]));
    assert_eq!(got.as_deref(), Some("resumed"));
}

#[test]
fn stale_resume_profile_is_dropped() {
    let got = choose_initial_profile(None, Some("deleted"), &names(&["other"]));
    assert_eq!(got, None);
}

#[test]
fn no_default_and_no_resume_yields_none() {
    let got = choose_initial_profile(None, None, &Vec::new());
    assert_eq!(got, None);
}

#[test]
fn launch_mode_follows_the_flags() {
    let mut cli = cli_with(None, None, 0, false);
    assert_eq!(launch_mode(&cli), LaunchMode::Background);
    cli.foreground = true;
    assert_eq!(launch_mode(&cli), LaunchMode::Foreground);
    cli.install_unit = true;
    assert_eq!(launch_mode(&cli), LaunchMode::InstallUnit);
}

#[test]
fn log_level_from_verbosity_and_quiet() {
    assert_eq!(log_level(0, false), "info");
    assert_eq!(log_level(1, false), "debug");
    assert_eq!(log_level(2, false), "trace");
    assert_eq!(log_level(7, false), "trace");
    assert_eq!(log_level(3, true), "error");
}

#[test]
fn kde_session_detection() {
    assert!(kde_session_present(true, None));
    assert!(kde_session_present(false, Some("KDE")));
    assert!(kde_session_present(false, Some("kde")));
    assert!(kde_session_present(false, Some("ubuntu:KDE")));
    assert!(kde_session_present(false, Some("KDE:plasma")));
    assert!(!kde_session_present(false, Some("GNOME")));
    assert!(!kde_session_present(false, Some("KDEX")));
    assert!(!kde_session_present(false, Some("X-KDE")));
    assert!(!kde_session_present(false, Some("")));
    assert!(!kde_session_present(false, None));
}

#[test]
fn socket_dir_chmod_failure_only_tolerated_under_runtime_dir() {
    assert!(!socket_dir_chmod_failure_is_fatal(
        "/run/user/1000/superpanels/daemon.sock",
        Some("/run/user/1000")
    ));
    assert!(socket_dir_chmod_failure_is_fatal(
        "/tmp/superpanels-1000/daemon.sock",
        Some("/run/user/1000")
    ));
    assert!(socket_dir_chmod_failure_is_fatal("/tmp/x/daemon.sock", None));
    assert!(socket_dir_chmod_failure_is_fatal("/tmp/x/daemon.sock", Some("")));
    assert!(socket_dir_chmod_failure_is_fatal(
        "/run/user/10000/daemon.sock",
        Some("/run/user/1000")
    ));
}

#[test]
fn sanitise_filename_removes_path_separators() {
    assert_eq!(sanitise_filename("DP-1/../etc/passwd"), "DP-1_.._etc_passwd");
}

#[test]
fn sanitise_filename_replaces_non_ascii_and_spaces() {
    assert_eq!(sanitise_filename("HDMI A:1 é"), "HDMI_A_1__");
    assert_eq!(sanitise_filename("ok.name_-1"), "ok.name_-1");
}

#[test]
fn locate_daemon_exe_returns_bare_name_when_sibling_absent() {
    assert_eq!(daemon_exe(Some("/opt/sp/superpanels-daemon"), false), DAEMON_BIN);
    assert_eq!(daemon_exe(None, false), DAEMON_BIN);
    assert_eq!(
        daemon_exe(Some("/opt/sp/superpanels-daemon"), true),
        "/opt/sp/superpanels-daemon"
    );
}

#[test]
fn read_frame_rejects_oversize_length_before_allocating() {
    let oversize = u32::try_from(MAX_FRAME_BYTES + 1).unwrap();
    let header = oversize.to_be_bytes();
    let err = match read_frame_from(&header) {
        Err(e) => e,
        Ok(_) => panic!("oversize header accepted"),
    };
    assert_eq!(err, FrameError::LengthOverCap { len: MAX_FRAME_BYTES + 1 });
    assert!(err.message().contains("exceeds"), "unexpected error: {}", err.message());
    assert_eq!(err.message(), "frame length 1048577 exceeds 1048576-byte cap");
}

#[test]
fn frame_round_trips_through_a_buffer() {
    let mut stream = encode_frame(b"hi").unwrap();
    stream.extend_from_slice(b"next");
    match read_frame_from(&stream).unwrap() {
        FrameRead::Frame { body, consumed } => {
            assert_eq!(body, b"hi".to_vec());
            assert_eq!(consumed, 6);
        }
        FrameRead::NeedMore => panic!("whole frame not read"),
    }
}

#[test]
fn frame_header_is_big_endian() {
    assert_eq!(frame_header(2).unwrap(), vec![0, 0, 0, 2]);
    assert_eq!(frame_header(0x0102_0304).unwrap(), vec![1, 2, 3, 4]);
    assert_eq!(header_len(&[1, 2, 3, 4]), 0x0102_0304);
    assert_eq!(frame_header(300).unwrap(), 300u32.to_be_bytes().to_vec());
}

#[test]
fn partial_frame_needs_more() {
    assert!(matches!(read_frame_from(&[0, 0]), Ok(FrameRead::NeedMore)));
    assert!(matches!(read_frame_from(&[0, 0, 0, 3, 7]), Ok(FrameRead::NeedMore)));
    assert_eq!(FrameError::BodyTooLong { len: 0 }.message(), "response exceeds 4 GiB");
}

fn rule(profile: &str, hour: u8, minute: u8) -> Schedule {
    Schedule {
        display_name: None,
        profile: profile.to_owned(),
        trigger: Trigger::Daily { hour, minute },
        enabled: true,
    }
}

fn at(timestamp: i64, hour: u32, minute: u32) -> WallClock {
    WallClock { timestamp, hour, minute }
}

#[test]
fn sleep_to_next_minute_lands_past_the_boundary() {
    assert_eq!(sleep_to_next_minute(30, 0), 30_000 + 250);
    assert_eq!(sleep_to_next_minute(59, 750), 250 + 250);
    assert_eq!(sleep_to_next_minute(0, 0), 60_000 + 250);
}

#[test]
fn daily_fires_at_matching_minute() {
    let mut checker = ScheduleChecker::new();
    let cfg = ScheduleConfig { schedules: vec![rule("dark", 18, 0)], schedules_paused: false };
    let result = checker.check_at(at(1_750_528_800, 18, 0), &cfg);
    assert_eq!(result, vec!["dark".to_owned()]);
}

#[test]
fn schedules_paused_blocks_fire() {
    let mut checker = ScheduleChecker::new();
    let cfg = ScheduleConfig { schedules: vec![rule("dark", 18, 0)], schedules_paused: true };
    let result = checker.check_at(at(1_750_528_800, 18, 0), &cfg);
    assert!(result.is_empty());
}

#[test]
fn daily_rule_fires_once_per_window() {
    let mut checker = ScheduleChecker::new();
    let cfg = ScheduleConfig { schedules: vec![rule("dark", 18, 0)], schedules_paused: false };
    assert_eq!(checker.check_at(at(1_750_528_800, 18, 0), &cfg), vec!["dark".to_owned()]);
    assert!(checker.check_at(at(1_750_528_830, 18, 0), &cfg).is_empty());
    assert!(checker.check_at(at(1_750_528_860, 18, 1), &cfg).is_empty());
}

fn entry(path: &str) -> LibraryEntry {
    LibraryEntry { path: path.to_owned(), tags: Vec::new(), favourite: false }
}

fn images(paths: &[&str]) -> ImageSet {
    ImageSet {
        sources: paths
            .iter()
            .map(|p| ImageSource::Image { path: (*p).to_owned() })
            .collect(),
    }
}

fn folder(path: &str, recursive: bool) -> ImageSet {
    ImageSet { sources: vec![ImageSource::Folder { path: path.to_owned(), recursive }] }
}

#[test]
fn pool_from_cache_serves_image_sources_directly() {
    let res = pool_from_cache(&images(&["/a.png", "/b.png"]), &Vec::new());
    assert_eq!(res.hits.len(), 2);
    assert!(res.uncovered.is_empty());
}

#[test]
fn pool_from_cache_reports_folder_with_no_cached_entries_as_uncovered() {
    let res = pool_from_cache(&folder("/walls", true), &vec![entry("/other/x.png")]);
    assert!(res.hits.is_empty());
    assert_eq!(res.uncovered.len(), 1);
}

#[test]
fn pool_from_cache_filters_by_folder_when_recursive() {
    let lib = vec![
        entry("/walls/a.png"),
        entry("/walls/sub/b.png"),
        entry("/elsewhere/c.png"),
    ];
    let res = pool_from_cache(&folder("/walls", true), &lib);
    assert_eq!(res.hits.len(), 2);
    assert!(res.uncovered.is_empty());
}

#[test]
fn pool_from_cache_excludes_subdirs_when_not_recursive() {
    let lib = vec![entry("/walls/a.png"), entry("/walls/sub/b.png")];
    let res = pool_from_cache(&folder("/walls", false), &lib);
    assert_eq!(res.hits, vec!["/walls/a.png".to_owned()]);
}

#[test]
fn pool_from_cache_unions_folders_and_images_without_duplicates() {
    let set = ImageSet {
        sources: vec![
            ImageSource::Folder { path: "/walls".to_owned(), recursive: false },
            ImageSource::Image { path: "/walls/a.png".to_owned() },
            ImageSource::Image { path: "/pick/c.png".to_owned() },
        ],
    };
    let lib = vec![entry("/walls/a.png"), entry("/walls/b.png")];
    let res = pool_from_cache(&set, &lib);
    assert_eq!(
        res.hits,
        vec![
            "/walls/a.png".to_owned(),
            "/walls/b.png".to_owned(),
            "/pick/c.png".to_owned(),
        ]
    );
}

#[test]
fn pool_from_cache_keeps_covered_hits_when_one_folder_is_uncovered() {
    let set = ImageSet {
        sources: vec![
            ImageSource::Folder { path: "/walls".to_owned(), recursive: true },
            ImageSource::Folder { path: "/not-indexed".to_owned(), recursive: true },
        ],
    };
    let res = pool_from_cache(&set, &vec![entry("/walls/a.png")]);
    assert_eq!(res.hits, vec!["/walls/a.png".to_owned()]);
    assert_eq!(
        res.uncovered,
        vec![ImageSource::Folder { path: "/not-indexed".to_owned(), recursive: true }]
    );
}

fn pool() -> Vec<String> {
    vec!["/walls/a.png".to_owned(), "/walls/b.png".to_owned()]
}

#[test]
fn canvas_slideshow_image_prefers_on_screen_image() {
    let resolved = canvas_slideshow_image(Some("p"), Some("p"), Some("/walls/b.png"), &pool());
    assert_eq!(resolved.as_deref(), Some("/walls/b.png"));
}

#[test]
fn canvas_slideshow_image_falls_back_when_profile_not_active() {
    let resolved = canvas_slideshow_image(Some("p"), Some("other"), Some("/walls/b.png"), &pool());
    assert_eq!(resolved.as_deref(), Some("/walls/a.png"));
}

#[test]
fn canvas_slideshow_image_falls_back_when_on_screen_left_the_pool() {
    let resolved =
        canvas_slideshow_image(Some("p"), Some("p"), Some("/walls/removed.png"), &pool());
    assert_eq!(resolved.as_deref(), Some("/walls/a.png"));
}

#[test]
fn canvas_slideshow_image_falls_back_without_active_name() {
    let resolved = canvas_slideshow_image(None, Some("p"), Some("/walls/b.png"), &pool());
    assert_eq!(resolved.as_deref(), Some("/walls/a.png"));
}

#[test]
fn canvas_slideshow_image_of_empty_pool_is_none() {
    assert_eq!(canvas_slideshow_image(Some("p"), Some("p"), Some("/x.png"), &Vec::new()), None);
}

fn profile(name: &str, kind: ProfileKind) -> ProfileSummary {
    ProfileSummary {
        name: name.to_owned(),
        kind,
        stamps: ProfileStamps { created_at: 0, updated_at: 0, last_applied_at: None },
    }
}

fn profiles() -> Vec<ProfileSummary> {
    vec![
        profile("still", ProfileKind::SpanSingle),
        profile("show", ProfileKind::SpanSlideshow),
        profile("each", ProfileKind::PerMonitor),
    ]
}

#[test]
fn apply_target_names_the_profile_or_refuses() {
    assert_eq!(apply_target(Some("show"), &profiles()), Ok(1));
    assert_eq!(
        apply_target(None, &profiles()),
        Err("params.name (string) required".to_owned())
    );
    assert_eq!(
        apply_target(Some("gone"), &profiles()),
        Err("profile 'gone' not found".to_owned())
    );
}

#[test]
fn validity_gate_skips_without_monitors() {
    assert_eq!(validity_gate("p", true, Some("[\"x\"]")), Ok(()));
    assert_eq!(validity_gate("p", false, None), Ok(()));
    assert_eq!(
        validity_gate("p", false, Some("[\"x\"]")),
        Err("profile 'p' is disabled: [\"x\"]".to_owned())
    );
}

#[test]
fn slideshow_step_refusals() {
    assert_eq!(slideshow_target(None, &profiles()), Err("no active profile".to_owned()));
    assert_eq!(
        slideshow_target(Some("gone"), &profiles()),
        Err("active profile no longer in config".to_owned())
    );
    assert_eq!(
        slideshow_target(Some("still"), &profiles()),
        Err("active profile has no slideshow".to_owned())
    );
    assert_eq!(slideshow_target(Some("show"), &profiles()), Ok(1));
}

#[test]
fn tick_skips_paused_or_missing_picker() {
    assert_eq!(tick_target(Some(true), Some("show"), &profiles()), None);
    assert_eq!(tick_target(None, Some("show"), &profiles()), None);
    assert_eq!(tick_target(Some(false), Some("show"), &profiles()), Some(1));
    assert_eq!(tick_target(Some(false), Some("each"), &profiles()), None);
}

#[test]
fn slideshow_pause_toggles_or_honours_explicit_value() {
    assert_eq!(pause_request(None, Some(false)), Ok(true));
    assert_eq!(pause_request(None, Some(true)), Ok(false));
    assert_eq!(pause_request(Some(true), Some(true)), Ok(true));
    assert_eq!(pause_request(Some(false), Some(true)), Ok(false));
    assert_eq!(pause_request(Some(true), None), Err("no active slideshow".to_owned()));
}

#[test]
fn goto_requires_a_path() {
    assert_eq!(goto_path(None), Err("missing 'path' param".to_owned()));
    assert_eq!(goto_path(Some("/walls/a.png")), Ok("/walls/a.png".to_owned()));
}

#[test]
fn picker_resets_only_for_another_profile() {
    assert!(!picker_must_reset(Some("show"), "show"));
    assert!(picker_must_reset(Some("other"), "show"));
    assert!(picker_must_reset(None, "show"));
}

#[test]
fn picker_built_only_for_a_slideshow_without_one() {
    assert_eq!(picker_source(false, &profiles(), "show"), Some(1));
    assert_eq!(picker_source(true, &profiles(), "show"), None);
    assert_eq!(picker_source(false, &profiles(), "still"), None);
    assert_eq!(picker_source(false, &profiles(), "gone"), None);
}

#[test]
fn slideshow_runtime_cleared_after_non_slideshow_apply() {
    assert!(!clears_slideshow_after_apply(&profiles(), "show"));
    assert!(clears_slideshow_after_apply(&profiles(), "still"));
    assert!(clears_slideshow_after_apply(&profiles(), "gone"));
}

#[test]
fn tick_uses_cache_unless_empty() {
    assert!(needs_disk_scan(&None));
    assert!(needs_disk_scan(&Some(Vec::new())));
    assert!(!needs_disk_scan(&Some(vec!["/a.png".to_owned()])));
}

#[test]
fn timer_rearms_on_changed_interval() {
    assert_eq!(on_timer_tick(Some(60), 60), TickAction::Advance);
    assert_eq!(on_timer_tick(Some(30), 60), TickAction::Rearm);
    assert_eq!(on_timer_tick(None, 60), TickAction::Rearm);
    assert!(!timer_sync_publishes(Some(60), Some(60)));
    assert!(timer_sync_publishes(Some(60), Some(30)));
    assert!(timer_sync_publishes(None, Some(30)));
    assert!(!timer_sync_publishes(None, None));
}

#[test]
fn boot_catch_up_skips_the_active_profile() {
    assert_eq!(catch_up_apply(Some("dark".to_owned()), Some("dark")), None);
    assert_eq!(catch_up_apply(Some("dark".to_owned()), Some("light")).as_deref(), Some("dark"));
    assert_eq!(catch_up_apply(Some("dark".to_owned()), None).as_deref(), Some("dark"));
    assert_eq!(catch_up_apply(None, Some("dark")), None);
}

#[test]
fn startup_apply_retries_with_backoff_then_gives_up() {
    assert_eq!(startup_delay_ms(0), 500);
    assert_eq!(startup_step(0, true), StartupStep::Done);
    assert_eq!(startup_step(0, false), StartupStep::Retry { delay_ms: 1500 });
    assert_eq!(startup_step(1, false), StartupStep::Retry { delay_ms: 3000 });
    assert_eq!(startup_step(2, false), StartupStep::GiveUp);
}

#[test]
fn malformed_or_foreign_requests_get_a_failure_reply() {
    assert_eq!(request_gate(Ok(1), 1), Ok(()));
    assert_eq!(
        request_gate(Ok(2), 1),
        Err("unsupported protocol version 2; expected 1".to_owned())
    );
    assert_eq!(
        request_gate(Err("expected value at line 1 column 1".to_owned()), 1),
        Err("malformed request: expected value at line 1 column 1".to_owned())
    );
}

#[test]
fn wait_for_monitor_change_fails_when_channel_uninitialised() {
    assert_eq!(
        monitor_wait_reply(false, true),
        Err("OS-rotation push channel not initialised".to_owned())
    );
    assert_eq!(monitor_wait_reply(true, true), Ok(true));
    assert_eq!(monitor_wait_reply(true, false), Ok(false));
}

#[test]
fn source_update_retunes_live_picker_and_rearms_timer() {
    let plan = source_update_plan(true, true, Some(5), Some(60));
    assert_eq!(plan.picker, PickerChange::Retune);
    assert!(plan.publish_timer);
}

#[test]
fn source_update_creates_picker_for_active_profile() {
    let plan = source_update_plan(true, false, Some(60), None);
    assert_eq!(plan.picker, PickerChange::Create);
    assert!(plan.publish_timer);
}

#[test]
fn source_update_keeps_timer_when_interval_unchanged() {
    let plan = source_update_plan(true, true, Some(60), Some(60));
    assert_eq!(plan.picker, PickerChange::Retune);
    assert!(!plan.publish_timer);
    let idle = source_update_plan(false, true, Some(5), Some(60));
    assert_eq!(idle.picker, PickerChange::Keep);
    assert!(!idle.publish_timer);
    let single = source_update_plan(true, true, None, Some(60));
    assert_eq!(single.picker, PickerChange::Drop);
    assert!(single.publish_timer);
}

#[test]
fn disabled_rules_never_fire_and_firing_rules_keep_config_order() {
    let mut checker = ScheduleChecker::new();
    let mut off = rule("never", 18, 0);
    off.enabled = false;
    let cfg = ScheduleConfig {
        schedules: vec![rule("b", 18, 0), off, rule("a", 18, 0)],
        schedules_paused: false,
    };
    assert_eq!(
        checker.check_at(at(1_750_528_800, 18, 0), &cfg),
        vec!["b".to_owned(), "a".to_owned()]
    );
    assert!(checker.check_at(at(1_750_528_859, 18, 0), &cfg).is_empty());
}

#[test]
fn pool_paths_compare_as_paths() {
    let pool = pool_from_cache(
        &images(&["/walls/a.png", "/walls//a.png", "/walls/./a.png", "/walls/b.png"]),
        &Vec::new(),
    );
    assert_eq!(pool.hits, vec!["/walls/a.png".to_owned(), "/walls/b.png".to_owned()]);
    let shown = canvas_slideshow_image(Some("p"), Some("p"), Some("/walls//b.png"), &pool.hits);
    assert_eq!(shown.as_deref(), Some("/walls//b.png"));
}

#[test]
fn canvas_and_previous_refusals() {
    assert_eq!(canvas_slideshow_pick(Some("p"), Some("p"), None, None), Err("slideshow pool is empty".to_owned()));
    assert_eq!(canvas_slideshow_pick(Some("p"), Some("p"), None, Some(&Vec::new())), Err("slideshow pool is empty".to_owned()));
    assert_eq!(
        canvas_slideshow_pick(Some("p"), Some("p"), Some("/walls/b.png"), Some(&pool())),
        Ok("/walls/b.png".to_owned())
    );
    assert_eq!(canvas_slideshow_pick(None, Some("p"), None, Some(&pool())), Ok("/walls/a.png".to_owned()));
    assert_eq!(canvas_profile_param::<u8>(None), Err("params.profile required".to_owned()));
    assert_eq!(canvas_profile_param(Some(7u8)), Ok(7));
    assert_eq!(previous_image(None), Err("no previous image in history".to_owned()));
    assert_eq!(previous_image(Some("/walls/a.png".to_owned())), Ok("/walls/a.png".to_owned()));
}
