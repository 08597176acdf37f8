use superpanels::library::{cached_thumbnail, respond_rendered};
use superpanels::thumbnail_cache::{Mtime, ThumbnailCache};
use superpanels::library::{
    affects_library, apply_tag, clamp_source_edge, delete_outcome, find_entry, inside_roots,
    library_source, remove_entries, require_roots, rescan_serves_db, roots_changed,
    thumbnail_payload, watcher_plan, EventKind, LibrarySource, WatcherPlan, SOURCE_THUMBNAIL_MAX_EDGE, THUMBNAIL_MIN_EDGE,
};
use superpanels::paths::{
    autostart_dir, data_dir, join, library_data_dir, state_dir, unit_dir, xdg_base,
};
use superpanels::pool::LibraryEntry;
use superpanels::daemon_flow::{ProfileKind, ProfileStamps, ProfileSummary};
use superpanels::profiles::{
    delete_profile, duplicate_profile, mark_applied, rename_profile, save_profile,
    topology_needs_recompute, update_source,
};
use superpanels::errors::IpcError;
use superpanels::window::{
    capture_state, corner_band, edge_band, release_url, restore_plan, runtime_snapshot_from,
    second_launch_shows_window, WindowState, TAO_BORDER_PER_SCALE,
};

fn fresh_entry() -> LibraryEntry {
    LibraryEntry { path: "/never/used.png".to_owned(), tags: Vec::new(), favourite: false }
}

#[test]
fn apply_tag_on_already_present_tag_is_noop() {
    let mut e = fresh_entry();
    e.tags.push("blue".to_owned());
    apply_tag(&mut e, "blue", true);
    assert_eq!(e.tags, vec!["blue"]);
    apply_tag(&mut e, "BLUE", true);
    assert_eq!(e.tags, vec!["blue"]);
}

#[test]
fn apply_tag_off_for_missing_tag_is_noop() {
    let mut e = fresh_entry();
    apply_tag(&mut e, "missing", false);
    assert!(e.tags.is_empty());
    e.tags.push("red".to_owned());
    apply_tag(&mut e, "blue", false);
    assert_eq!(e.tags, vec!["red"]);
}

#[test]
fn apply_tag_favourite_clears_when_off() {
    let mut e = fresh_entry();
    e.favourite = true;
    apply_tag(&mut e, "favourite", false);
    assert!(!e.favourite);
    apply_tag(&mut e, "favourite", false);
    assert!(!e.favourite);
    e.favourite = true;
    apply_tag(&mut e, "FAVOURITE", false);
    assert!(!e.favourite);
}

#[test]
fn apply_tag_ignores_blank_tag_after_trim() {
    let mut e = fresh_entry();
    apply_tag(&mut e, "   ", true);
    apply_tag(&mut e, "", true);
    assert!(e.tags.is_empty());
}

#[test]
fn apply_tag_stores_trimmed_lowercase_and_swap_removes() {
    let mut e = fresh_entry();
    apply_tag(&mut e, "  Sky ", true);
    apply_tag(&mut e, "sea", true);
    apply_tag(&mut e, "dusk", true);
    assert_eq!(e.tags, vec!["sky", "sea", "dusk"]);
    apply_tag(&mut e, "SKY", false);
    assert_eq!(e.tags, vec!["dusk", "sea"]);
    apply_tag(&mut e, "favourite", true);
    assert!(e.favourite);
    assert_eq!(e.tags, vec!["dusk", "sea"]);
}

#[test]
fn affects_library_drops_access_and_metadata_events() {
    assert!(affects_library(EventKind::Create));
    assert!(affects_library(EventKind::Remove));
    assert!(affects_library(EventKind::ModifyData));
    assert!(affects_library(EventKind::ModifyName));
    assert!(!affects_library(EventKind::Access));
    assert!(!affects_library(EventKind::ModifyMetadata));
    assert!(!affects_library(EventKind::ModifyAny));
    assert!(!affects_library(EventKind::ModifyOther));
    assert!(!affects_library(EventKind::Any));
    assert!(!affects_library(EventKind::Other));
}

#[test]
fn clamp_source_edge_bounds_a_webview_supplied_max_edge() {
    let default_edge = 256;
    assert_eq!(clamp_source_edge(None, default_edge), default_edge);
    assert_eq!(clamp_source_edge(Some(1536), default_edge), 1536);
    assert_eq!(clamp_source_edge(Some(0), default_edge), THUMBNAIL_MIN_EDGE);
    assert_eq!(clamp_source_edge(Some(u32::MAX), default_edge), SOURCE_THUMBNAIL_MAX_EDGE);
}

#[test]
fn no_roots_admit_nothing() {
    assert_eq!(require_roots(0), Err("library has no configured roots".to_owned()));
    assert_eq!(require_roots(2), Ok(()));
}

#[test]
fn inside_roots_admits_only_paths_under_a_root() {
    let roots = vec![None, Some("/home/me/walls".to_owned())];
    assert_eq!(
        inside_roots("w/a.png", Ok("/home/me/walls/a.png".to_owned()), &roots),
        Ok("/home/me/walls/a.png".to_owned())
    );
    assert_eq!(
        inside_roots("/etc/passwd", Ok("/etc/passwd".to_owned()), &roots),
        Err("path '/etc/passwd' is outside the configured library roots".to_owned())
    );
    assert_eq!(
        inside_roots("/home/me/wallsX/a.png", Ok("/home/me/wallsX/a.png".to_owned()), &roots),
        Err("path '/home/me/wallsX/a.png' is outside the configured library roots".to_owned())
    );
    assert_eq!(
        inside_roots("/gone.png", Err("No such file or directory".to_owned()), &roots),
        Err("rejecting path '/gone.png': No such file or directory".to_owned())
    );
    assert_eq!(
        inside_roots("/x/a.png", Ok("/x/a.png".to_owned()), &vec![None]),
        Err("path '/x/a.png' is outside the configured library roots".to_owned())
    );
}

fn entry(path: &str) -> LibraryEntry {
    LibraryEntry { path: path.to_owned(), tags: Vec::new(), favourite: false }
}

#[test]
fn library_delete_drops_canonical_and_raw_entries() {
    let mut lib = vec![entry("/w/a.png"), entry("w/a.png"), entry("/w/b.png")];
    assert!(remove_entries(&mut lib, "/w/a.png", "w/a.png"));
    assert_eq!(lib.len(), 1);
    assert_eq!(lib[0].path, "/w/b.png");
    assert!(!remove_entries(&mut lib, "/w/zzz.png", "zzz.png"));
    assert_eq!(lib.len(), 1);
    assert_eq!(delete_outcome("zzz.png", false, false), Err("path 'zzz.png' not in library".to_owned()));
    assert_eq!(delete_outcome("a.png", true, false), Ok(()));
}

#[test]
fn find_entry_matches_canonical_or_raw_path() {
    let lib = vec![entry("/w/a.png"), entry("legacy/b.png")];
    assert_eq!(find_entry(&lib, "/w/a.png", "a.png"), Some(0));
    assert_eq!(find_entry(&lib, "/w/b.png", "legacy/b.png"), Some(1));
    assert_eq!(find_entry(&lib, "/w/c.png", "c.png"), None);
}

#[test]
fn library_source_degrades_instead_of_failing() {
    assert_eq!(library_source(false, false, None), LibrarySource::Empty);
    assert_eq!(library_source(true, false, None), LibrarySource::FreshScan);
    assert_eq!(library_source(true, true, Some(3)), LibrarySource::DbRows);
    assert_eq!(library_source(true, true, Some(0)), LibrarySource::SeedFromScan);
    assert_eq!(library_source(true, true, None), LibrarySource::FreshScan);
    assert!(rescan_serves_db(true, true, true));
    assert!(!rescan_serves_db(true, false, true));
    assert!(!rescan_serves_db(false, true, true));
}

#[test]
fn thumbnail_payload_is_standard_base64() {
    let p = thumbnail_payload(&[0x89, b'P', b'N', b'G'], "image/png");
    assert_eq!(p.data, "iVBORw==");
    assert_eq!(p.mime, "image/png");
    assert_eq!(thumbnail_payload(b"hello", "image/png").data, "aGVsbG8=");
    assert_eq!(thumbnail_payload(&[], "image/png").data, "");
}

#[test]
fn xdg_dirs_prefer_the_variable_then_home() {
    assert_eq!(state_dir(Some("/xdg/state"), Some("/home/me")).as_deref(), Some("/xdg/state/superpanels"));
    assert_eq!(state_dir(Some(""), Some("/home/me")).as_deref(), Some("/home/me/.local/state/superpanels"));
    assert_eq!(state_dir(None, Some("/home/me/")).as_deref(), Some("/home/me/.local/state/superpanels"));
    assert_eq!(state_dir(None, None), None);
    assert_eq!(
        library_data_dir(None, Some("/home/me")).as_deref(),
        Some("/home/me/.local/share/superpanels")
    );
    assert_eq!(data_dir(Some("/d"), None).unwrap(), "/d");
    assert!(matches!(
        data_dir(None, None),
        Err(IpcError::Internal(m)) if m == "neither $XDG_DATA_HOME nor $HOME is set"
    ));
    assert_eq!(autostart_dir(None, Some("/home/me")).unwrap(), "/home/me/.config/autostart");
    assert!(matches!(
        autostart_dir(Some(""), None),
        Err(IpcError::Internal(m)) if m == "neither $XDG_CONFIG_HOME nor $HOME is set"
    ));
    assert_eq!(unit_dir(Some("/cfg"), None).unwrap(), "/cfg/systemd/user");
    assert_eq!(
        unit_dir(None, None),
        Err("could not determine systemd user unit directory ($HOME not set)".to_owned())
    );
    assert_eq!(xdg_base(Some("/v"), Some("/h"), ".x").as_deref(), Some("/v"));
}

#[test]
fn join_follows_unix_path_rules() {
    assert_eq!(join("/a", "b"), "/a/b");
    assert_eq!(join("/a/", "b"), "/a/b");
    assert_eq!(join("", "b"), "b");
    assert_eq!(join("/a", "/abs"), "/abs");
}

fn summaries(v: &[(&str, ProfileKind)]) -> Vec<ProfileSummary> {
    v.iter().map(|(n, k)| summary(n, *k)).collect()
}

fn stamps(created_at: i64, updated_at: i64, last_applied_at: Option<i64>) -> ProfileStamps {
    ProfileStamps { created_at, updated_at, last_applied_at }
}

fn summary(name: &str, kind: ProfileKind) -> ProfileSummary {
    ProfileSummary { name: name.to_owned(), kind, stamps: stamps(10, 20, Some(30)) }
}

fn names_of(v: &[ProfileSummary]) -> Vec<String> {
    v.iter().map(|p| p.name.clone()).collect()
}

#[test]
fn save_profile_upserts_by_name() {
    let mut ps = summaries(&[("home", ProfileKind::SpanSingle)]);
    save_profile(&mut ps, summary("home", ProfileKind::PerMonitor));
    assert_eq!(ps.len(), 1);
    assert_eq!(ps[0].kind, ProfileKind::PerMonitor);
    save_profile(&mut ps, summary("work", ProfileKind::Composite));
    assert_eq!(names_of(&ps), vec!["home", "work"]);
}

#[test]
fn duplicate_profile_copies_under_a_free_name() {
    let mut ps = summaries(&[("home", ProfileKind::SpanSlideshow), ("work", ProfileKind::SpanSingle)]);
    assert_eq!(duplicate_profile(&mut ps, Some("home"), Some("home 2"), 100), Ok(()));
    assert_eq!(names_of(&ps), vec!["home", "work", "home 2"]);
    assert_eq!(ps[2].kind, ProfileKind::SpanSlideshow);
    assert_eq!(ps[2].stamps, stamps(100, 100, None));
    assert_eq!(ps[0].stamps, stamps(10, 20, Some(30)));
    assert_eq!(
        duplicate_profile(&mut ps, Some("home"), Some("work"), 100),
        Err("profile 'work' already exists".to_owned())
    );
    assert_eq!(
        duplicate_profile(&mut ps, Some("nope"), Some("x"), 100),
        Err("profile 'nope' not found".to_owned())
    );
    assert_eq!(
        duplicate_profile(&mut ps, None, Some("x"), 100),
        Err("params.name (string) required".to_owned())
    );
    assert_eq!(
        duplicate_profile(&mut ps, Some("home"), None, 100),
        Err("params.new_name (string) required".to_owned())
    );
    assert_eq!(ps.len(), 3);
}

#[test]
fn rename_profile_moves_the_active_profile_along() {
    let mut ps = summaries(&[("home", ProfileKind::SpanSingle), ("work", ProfileKind::SpanSingle)]);
    let mut active = Some("home".to_owned());
    assert_eq!(rename_profile(&mut ps, &mut active, Some("home"), Some("house"), 100), Ok(()));
    assert_eq!(names_of(&ps), vec!["house", "work"]);
    assert_eq!(ps[0].stamps, stamps(10, 100, Some(30)));
    assert_eq!(active.as_deref(), Some("house"));
    assert_eq!(
        rename_profile(&mut ps, &mut active, Some("house"), Some("work"), 100),
        Err("profile 'work' already exists".to_owned())
    );
    assert_eq!(
        rename_profile(&mut ps, &mut active, Some("gone"), Some("new"), 100),
        Err("profile 'gone' not found".to_owned())
    );
    assert_eq!(rename_profile(&mut ps, &mut active, Some("work"), Some("office"), 100), Ok(()));
    assert_eq!(active.as_deref(), Some("house"));
}

#[test]
fn apply_stamps_last_applied_time() {
    let mut ps = summaries(&[("home", ProfileKind::SpanSingle), ("work", ProfileKind::SpanSingle)]);
    mark_applied(&mut ps, "work", 500);
    assert_eq!(ps[1].stamps, stamps(10, 20, Some(500)));
    assert_eq!(ps[0].stamps, stamps(10, 20, Some(30)));
    mark_applied(&mut ps, "gone", 600);
    assert_eq!(names_of(&ps), vec!["home", "work"]);
}

#[test]
fn topology_recomputed_when_asked_or_empty() {
    assert!(topology_needs_recompute(true, false));
    assert!(topology_needs_recompute(false, true));
    assert!(!topology_needs_recompute(false, false));
}

#[test]
fn delete_profile_of_unknown_name_is_refused() {
    let mut ps = summaries(&[("home", ProfileKind::SpanSingle)]);
    assert_eq!(delete_profile(&mut ps, Some("gone")), Err("profile 'gone' not found".to_owned()));
    assert_eq!(ps.len(), 1);
    assert_eq!(delete_profile(&mut ps, None), Err("params.name (string) required".to_owned()));
}

#[test]
fn delete_profile_removes_from_state() {
    let mut ps = summaries(&[("home", ProfileKind::SpanSingle), ("work", ProfileKind::Composite)]);
    assert_eq!(delete_profile(&mut ps, Some("home")), Ok(()));
    assert_eq!(names_of(&ps), vec!["work"]);
}

#[test]
fn edge_band_covers_taos_own_border_at_every_scale() {
    for scale in 1..=3 {
        assert!(edge_band(scale) > scale * TAO_BORDER_PER_SCALE);
        assert!(corner_band(scale) > edge_band(scale));
    }
    assert_eq!(edge_band(1), 6);
    assert_eq!(corner_band(1), 18);
    assert_eq!(edge_band(2), 11);
    assert_eq!(corner_band(2), 23);
}

#[test]
fn restore_applies_only_complete_geometry() {
    let s = WindowState { width: Some(1280), height: Some(800), x: Some(100), y: None, maximized: true };
    let p = restore_plan(&s);
    assert_eq!(p.size, Some((1280, 800)));
    assert_eq!(p.position, None);
    assert!(p.maximize);
}

#[test]
fn capture_then_restore_round_trips() {
    let s = capture_state(Some((1280, 800)), Some((100, 50)), Some(true));
    assert_eq!(s, WindowState { width: Some(1280), height: Some(800), x: Some(100), y: Some(50), maximized: true });
    let p = restore_plan(&s);
    assert_eq!(p.size, Some((1280, 800)));
    assert_eq!(p.position, Some((100, 50)));
    assert!(p.maximize);
    let blank = capture_state(None, None, None);
    assert_eq!(blank, WindowState::empty());
}

#[test]
fn release_url_targets_the_tag_or_the_index() {
    assert_eq!(
        release_url("https://github.com/o/superpanels", "1.2.3"),
        "https://github.com/o/superpanels/releases/tag/v1.2.3"
    );
    assert_eq!(
        release_url("https://github.com/o/superpanels", "0.0.0"),
        "https://github.com/o/superpanels/releases"
    );
}

#[test]
fn parse_runtime_snapshot_handles_minimal_payload() {
    let snap = runtime_snapshot_from(Some("home".to_owned()), Some(true), None);
    assert_eq!(snap.active_profile.as_deref(), Some("home"));
    assert!(snap.paused);
}

#[test]
fn parse_runtime_snapshot_defaults_when_fields_missing() {
    let snap = runtime_snapshot_from(None, None, None);
    assert!(snap.active_profile.is_none());
    assert!(!snap.paused);
}

#[test]
fn second_launch_stays_hidden_only_for_tray_relaunch() {
    assert!(second_launch_shows_window(&vec!["superpanels-gui".to_owned()]));
    assert!(!second_launch_shows_window(&vec!["superpanels-gui".to_owned(), "--tray".to_owned()]));
}

#[test]
fn update_profile_source_requires_a_span_profile() {
    let mut ps = summaries(&[("still", ProfileKind::SpanSingle), ("each", ProfileKind::PerMonitor)]);
    assert_eq!(update_source(&mut ps, Some("still"), true, 100), Ok(()));
    assert_eq!(ps[0].kind, ProfileKind::SpanSlideshow);
    assert_eq!(ps[0].stamps, stamps(10, 100, Some(30)));
    assert_eq!(
        update_source(&mut ps, Some("each"), true, 100),
        Err("source updates require a Span profile".to_owned())
    );
    assert_eq!(
        update_source(&mut ps, Some("gone"), false, 100),
        Err("profile 'gone' not found".to_owned())
    );
    assert_eq!(
        update_source(&mut ps, None, false, 100),
        Err("params.profile (string) required".to_owned())
    );
    assert_eq!(ps[1].kind, ProfileKind::PerMonitor);
}

#[test]
fn refresh_watcher_is_noop_without_tx() {
    assert_eq!(watcher_plan(false, 0), WatcherPlan::Unchanged);
    assert_eq!(watcher_plan(false, 2), WatcherPlan::Unchanged);
    assert_eq!(watcher_plan(true, 0), WatcherPlan::DropOnly);
    assert_eq!(watcher_plan(true, 2), WatcherPlan::Rebuild);
}

#[test]
fn saving_a_config_rebuilds_the_watcher_only_when_roots_change() {
    let a = vec!["/w".to_owned(), "/x".to_owned()];
    assert!(!roots_changed(&a, &a.clone()));
    assert!(roots_changed(&a, &vec!["/w".to_owned()]));
    assert!(roots_changed(&a, &vec!["/w".to_owned(), "/y".to_owned()]));
}

#[test]
fn library_paths_compare_component_wise() {
    let lib = vec![entry("/w//a.png"), entry("./legacy/b.png")];
    assert_eq!(find_entry(&lib, "/w/a.png", "a.png"), Some(0));
    assert_eq!(find_entry(&lib, "/w/b.png", "./legacy//b.png"), Some(1));
    assert_eq!(find_entry(&lib, "/w/b.png", "legacy/b.png"), None);
    let mut lib = lib;
    assert!(remove_entries(&mut lib, "/w/./a.png", "a.png"));
    assert_eq!(lib.len(), 1);
}

#[test]
fn roots_compare_as_paths() {
    let a = vec!["/w".to_owned(), "/x/".to_owned()];
    assert!(!roots_changed(&a, &vec!["/w/.".to_owned(), "//x".to_owned()]));
    assert!(roots_changed(&a, &vec!["/x".to_owned(), "/w".to_owned()]));
}

#[test]
fn second_thumbnail_request_is_served_from_the_cache() {
    let mut cache = ThumbnailCache::new();
    let path = "/walls/img.png".to_owned();
    let mtime = Some(Mtime { secs: 1_750_000_000, nanos: 5 });
    assert!(cached_thumbnail(&mut cache, &path, mtime).is_none());
    let first = respond_rendered(
        &mut cache,
        path.clone(),
        mtime,
        Ok((vec![0x89, b'P', b'N', b'G'], "image/png".to_owned())),
    )
    .unwrap();
    assert_eq!(cache.len(), 1);
    let second = cached_thumbnail(&mut cache, &path, mtime).unwrap();
    assert_eq!(second.data, first.data);
    assert_eq!(second.data, "iVBORw==");
    assert_eq!(second.mime, "image/png");
    assert_eq!(cache.len(), 1);
}

#[test]
fn thumbnail_without_mtime_or_with_failed_render_caches_nothing() {
    let mut cache = ThumbnailCache::new();
    let path = "/walls/img.png".to_owned();
    let p = respond_rendered(&mut cache, path.clone(), None, Ok((b"hello".to_vec(), "image/png".to_owned())))
        .unwrap();
    assert_eq!(p.data, "aGVsbG8=");
    assert_eq!(cache.len(), 0);
    assert!(cached_thumbnail(&mut cache, &path, None).is_none());
    let e = respond_rendered(&mut cache, path, Some(Mtime { secs: 1, nanos: 0 }), Err("decode failed".to_owned()));
    assert_eq!(e.map(|p| p.data), Err("decode failed".to_owned()));
    assert_eq!(cache.len(), 0);
}
