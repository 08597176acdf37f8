//! Routing of IPC calls: the daemon's method table, the GUI's
//! daemon-first / in-process bridge decisions, and how a daemon reply maps
//! to a result.

use vstd::prelude::*;

use crate::errors::IpcError;
use crate::text::{push_str, str_eq};

verus! {

/// A method the daemon serves.
#[derive(Debug, Clone, Copy, PartialEq, Eq, Structural)]
pub enum DaemonMethod {
    Shutdown,
    SetWallpaper,
    ApplyProfile,
    ApplyCanvas,
    SlideshowNext,
    SlideshowPrev,
    SlideshowGoto,
    SlideshowPause,
    SlideshowPool,
    Redetect,
    WaitForMonitorChange,
    CurrentState,
    ListProfiles,
    SaveProfile,
    DeleteProfile,
    DuplicateProfile,
    RenameProfile,
    UpdateProfileMonitorState,
    UpdateProfileImageTransform,
    UpdateProfileSource,
    ListSchedules,
    SaveSchedules,
    SetSchedulesPaused,
    GetConfig,
    SaveConfig,
    SetMonitorPhysicalSize,
    DetectMonitors,
    PreviewCrop,
    LibraryList,
    LibraryThumbnail,
    LibraryTag,
    LibraryDelete,
    LibraryRescan,
    /// Not a daemon method.
    Unknown,
}

/// The daemon method named `m`.
pub open spec fn daemon_method_of(m: Seq<char>) -> DaemonMethod {
    if m == "shutdown"@ {
        DaemonMethod::Shutdown
    } else if m == "set"@ {
        DaemonMethod::SetWallpaper
    } else if m == "apply_profile"@ {
        DaemonMethod::ApplyProfile
    } else if m == "apply_canvas"@ {
        DaemonMethod::ApplyCanvas
    } else if m == "slideshow_next"@ {
        DaemonMethod::SlideshowNext
    } else if m == "slideshow_prev"@ {
        DaemonMethod::SlideshowPrev
    } else if m == "slideshow_goto"@ {
        DaemonMethod::SlideshowGoto
    } else if m == "slideshow_pause"@ {
        DaemonMethod::SlideshowPause
    } else if m == "slideshow_pool"@ {
        DaemonMethod::SlideshowPool
    } else if m == "redetect"@ {
        DaemonMethod::Redetect
    } else if m == "wait_for_monitor_change"@ {
        DaemonMethod::WaitForMonitorChange
    } else if m == "current_state"@ {
        DaemonMethod::CurrentState
    } else if m == "list_profiles"@ {
        DaemonMethod::ListProfiles
    } else if m == "save_profile"@ {
        DaemonMethod::SaveProfile
    } else if m == "delete_profile"@ {
        DaemonMethod::DeleteProfile
    } else if m == "duplicate_profile"@ {
        DaemonMethod::DuplicateProfile
    } else if m == "rename_profile"@ {
        DaemonMethod::RenameProfile
    } else if m == "update_profile_monitor_state"@ {
        DaemonMethod::UpdateProfileMonitorState
    } else if m == "update_profile_image_transform"@ {
        DaemonMethod::UpdateProfileImageTransform
    } else if m == "update_profile_source"@ {
        DaemonMethod::UpdateProfileSource
    } else if m == "list_schedules"@ {
        DaemonMethod::ListSchedules
    } else if m == "save_schedules"@ {
        DaemonMethod::SaveSchedules
    } else if m == "set_schedules_paused"@ {
        DaemonMethod::SetSchedulesPaused
    } else if m == "get_config"@ {
        DaemonMethod::GetConfig
    } else if m == "save_config"@ {
        DaemonMethod::SaveConfig
    } else if m == "set_monitor_physical_size"@ {
        DaemonMethod::SetMonitorPhysicalSize
    } else if m == "detect_monitors"@ {
        DaemonMethod::DetectMonitors
    } else if m == "preview_crop"@ {
        DaemonMethod::PreviewCrop
    } else if m == "library_list"@ {
        DaemonMethod::LibraryList
    } else if m == "library_thumbnail"@ {
        DaemonMethod::LibraryThumbnail
    } else if m == "library_tag"@ {
        DaemonMethod::LibraryTag
    } else if m == "library_delete"@ {
        DaemonMethod::LibraryDelete
    } else if m == "library_rescan"@ {
        DaemonMethod::LibraryRescan
    } else {
        DaemonMethod::Unknown
    }
}

/// The wire name each daemon method answers to (none for `Unknown`).
pub open spec fn method_wire_name(d: DaemonMethod) -> Seq<char> {
    match d {
        DaemonMethod::Shutdown => "shutdown"@,
        DaemonMethod::SetWallpaper => "set"@,
        DaemonMethod::ApplyProfile => "apply_profile"@,
        DaemonMethod::ApplyCanvas => "apply_canvas"@,
        DaemonMethod::SlideshowNext => "slideshow_next"@,
        DaemonMethod::SlideshowPrev => "slideshow_prev"@,
        DaemonMethod::SlideshowGoto => "slideshow_goto"@,
        DaemonMethod::SlideshowPause => "slideshow_pause"@,
        DaemonMethod::SlideshowPool => "slideshow_pool"@,
        DaemonMethod::Redetect => "redetect"@,
        DaemonMethod::WaitForMonitorChange => "wait_for_monitor_change"@,
        DaemonMethod::CurrentState => "current_state"@,
        DaemonMethod::ListProfiles => "list_profiles"@,
        DaemonMethod::SaveProfile => "save_profile"@,
        DaemonMethod::DeleteProfile => "delete_profile"@,
        DaemonMethod::DuplicateProfile => "duplicate_profile"@,
        DaemonMethod::RenameProfile => "rename_profile"@,
        DaemonMethod::UpdateProfileMonitorState => "update_profile_monitor_state"@,
        DaemonMethod::UpdateProfileImageTransform => "update_profile_image_transform"@,
        DaemonMethod::UpdateProfileSource => "update_profile_source"@,
        DaemonMethod::ListSchedules => "list_schedules"@,
        DaemonMethod::SaveSchedules => "save_schedules"@,
        DaemonMethod::SetSchedulesPaused => "set_schedules_paused"@,
        DaemonMethod::GetConfig => "get_config"@,
        DaemonMethod::SaveConfig => "save_config"@,
        DaemonMethod::SetMonitorPhysicalSize => "set_monitor_physical_size"@,
        DaemonMethod::DetectMonitors => "detect_monitors"@,
        DaemonMethod::PreviewCrop => "preview_crop"@,
        DaemonMethod::LibraryList => "library_list"@,
        DaemonMethod::LibraryThumbnail => "library_thumbnail"@,
        DaemonMethod::LibraryTag => "library_tag"@,
        DaemonMethod::LibraryDelete => "library_delete"@,
        DaemonMethod::LibraryRescan => "library_rescan"@,
        DaemonMethod::Unknown => Seq::empty(),
    }
}

/// Every wire name reaches the method of that name: a name the table knows
/// maps to the method whose wire name it is, so two different names never
/// reach the same method and no request is served by another's handler.
pub proof fn law_method_table_round_trips(m: Seq<char>)
    ensures
        daemon_method_of(m) != DaemonMethod::Unknown ==> method_wire_name(daemon_method_of(m)) == m,
{
}

/// Each method's wire name reaches that method: the table has an entry for
/// every method.
pub proof fn law_wire_name_reaches_its_method(d: DaemonMethod)
    requires
        d != DaemonMethod::Unknown,
    ensures
        daemon_method_of(method_wire_name(d)) == d,
{
    reveal_strlit("shutdown");
    reveal_strlit("set");
    reveal_strlit("apply_profile");
    reveal_strlit("apply_canvas");
    reveal_strlit("slideshow_next");
    reveal_strlit("slideshow_prev");
    reveal_strlit("slideshow_goto");
    reveal_strlit("slideshow_pause");
    reveal_strlit("slideshow_pool");
    reveal_strlit("redetect");
    reveal_strlit("wait_for_monitor_change");
    reveal_strlit("current_state");
    reveal_strlit("list_profiles");
    reveal_strlit("save_profile");
    reveal_strlit("delete_profile");
    reveal_strlit("duplicate_profile");
    reveal_strlit("rename_profile");
    reveal_strlit("update_profile_monitor_state");
    reveal_strlit("update_profile_image_transform");
    reveal_strlit("update_profile_source");
    reveal_strlit("list_schedules");
    reveal_strlit("save_schedules");
    reveal_strlit("set_schedules_paused");
    reveal_strlit("get_config");
    reveal_strlit("save_config");
    reveal_strlit("set_monitor_physical_size");
    reveal_strlit("detect_monitors");
    reveal_strlit("preview_crop");
    reveal_strlit("library_list");
    reveal_strlit("library_thumbnail");
    reveal_strlit("library_tag");
    reveal_strlit("library_delete");
    reveal_strlit("library_rescan");
    assert("shutdown"@.len() == 8);
    assert("set"@.len() == 3);
    assert("apply_profile"@.len() == 13);
    assert("apply_canvas"@.len() == 12);
    assert("slideshow_next"@.len() == 14);
    assert("slideshow_prev"@.len() == 14);
    assert("slideshow_goto"@.len() == 14);
    assert("slideshow_pause"@.len() == 15);
    assert("slideshow_pool"@.len() == 14);
    assert("redetect"@.len() == 8);
    assert("wait_for_monitor_change"@.len() == 23);
    assert("current_state"@.len() == 13);
    assert("list_profiles"@.len() == 13);
    assert("save_profile"@.len() == 12);
    assert("delete_profile"@.len() == 14);
    assert("duplicate_profile"@.len() == 17);
    assert("rename_profile"@.len() == 14);
    assert("update_profile_monitor_state"@.len() == 28);
    assert("update_profile_image_transform"@.len() == 30);
    assert("update_profile_source"@.len() == 21);
    assert("list_schedules"@.len() == 14);
    assert("save_schedules"@.len() == 14);
    assert("set_schedules_paused"@.len() == 20);
    assert("get_config"@.len() == 10);
    assert("save_config"@.len() == 11);
    assert("set_monitor_physical_size"@.len() == 25);
    assert("detect_monitors"@.len() == 15);
    assert("preview_crop"@.len() == 12);
    assert("library_list"@.len() == 12);
    assert("library_thumbnail"@.len() == 17);
    assert("library_tag"@.len() == 11);
    assert("library_delete"@.len() == 14);
    assert("library_rescan"@.len() == 14);
    assert("shutdown"@[0] != "redetect"@[0]);
    assert("apply_profile"@[0] != "current_state"@[0]);
    assert("apply_profile"@[0] != "list_profiles"@[0]);
    assert("apply_canvas"@[0] != "save_profile"@[0]);
    assert("apply_canvas"@[0] != "preview_crop"@[0]);
    assert("apply_canvas"@[0] != "library_list"@[0]);
    assert("slideshow_next"@[10] != "slideshow_prev"@[10]);
    assert("slideshow_next"@[10] != "slideshow_goto"@[10]);
    assert("slideshow_next"@[10] != "slideshow_pool"@[10]);
    assert("slideshow_next"@[0] != "delete_profile"@[0]);
    assert("slideshow_next"@[0] != "rename_profile"@[0]);
    assert("slideshow_next"@[0] != "list_schedules"@[0]);
    assert("slideshow_next"@[1] != "save_schedules"@[1]);
    assert("slideshow_next"@[0] != "library_delete"@[0]);
    assert("slideshow_next"@[0] != "library_rescan"@[0]);
    assert("slideshow_prev"@[10] != "slideshow_goto"@[10]);
    assert("slideshow_prev"@[11] != "slideshow_pool"@[11]);
    assert("slideshow_prev"@[0] != "delete_profile"@[0]);
    assert("slideshow_prev"@[0] != "rename_profile"@[0]);
    assert("slideshow_prev"@[0] != "list_schedules"@[0]);
    assert("slideshow_prev"@[1] != "save_schedules"@[1]);
    assert("slideshow_prev"@[0] != "library_delete"@[0]);
    assert("slideshow_prev"@[0] != "library_rescan"@[0]);
    assert("slideshow_goto"@[10] != "slideshow_pool"@[10]);
    assert("slideshow_goto"@[0] != "delete_profile"@[0]);
    assert("slideshow_goto"@[0] != "rename_profile"@[0]);
    assert("slideshow_goto"@[0] != "list_schedules"@[0]);
    assert("slideshow_goto"@[1] != "save_schedules"@[1]);
    assert("slideshow_goto"@[0] != "library_delete"@[0]);
    assert("slideshow_goto"@[0] != "library_rescan"@[0]);
    assert("slideshow_pause"@[0] != "detect_monitors"@[0]);
    assert("slideshow_pool"@[0] != "delete_profile"@[0]);
    assert("slideshow_pool"@[0] != "rename_profile"@[0]);
    assert("slideshow_pool"@[0] != "list_schedules"@[0]);
    assert("slideshow_pool"@[1] != "save_schedules"@[1]);
    assert("slideshow_pool"@[0] != "library_delete"@[0]);
    assert("slideshow_pool"@[0] != "library_rescan"@[0]);
    assert("current_state"@[0] != "list_profiles"@[0]);
    assert("save_profile"@[0] != "preview_crop"@[0]);
    assert("save_profile"@[0] != "library_list"@[0]);
    assert("delete_profile"@[0] != "rename_profile"@[0]);
    assert("delete_profile"@[0] != "list_schedules"@[0]);
    assert("delete_profile"@[0] != "save_schedules"@[0]);
    assert("delete_profile"@[0] != "library_delete"@[0]);
    assert("delete_profile"@[0] != "library_rescan"@[0]);
    assert("duplicate_profile"@[0] != "library_thumbnail"@[0]);
    assert("rename_profile"@[0] != "list_schedules"@[0]);
    assert("rename_profile"@[0] != "save_schedules"@[0]);
    assert("rename_profile"@[0] != "library_delete"@[0]);
    assert("rename_profile"@[0] != "library_rescan"@[0]);
    assert("list_schedules"@[0] != "save_schedules"@[0]);
    assert("list_schedules"@[2] != "library_delete"@[2]);
    assert("list_schedules"@[2] != "library_rescan"@[2]);
    assert("save_schedules"@[0] != "library_delete"@[0]);
    assert("save_schedules"@[0] != "library_rescan"@[0]);
    assert("save_config"@[0] != "library_tag"@[0]);
    assert("preview_crop"@[0] != "library_list"@[0]);
    assert("library_delete"@[8] != "library_rescan"@[8]);
    match d {
        DaemonMethod::Shutdown => {},
        DaemonMethod::SetWallpaper => {},
        DaemonMethod::ApplyProfile => {},
        DaemonMethod::ApplyCanvas => {},
        DaemonMethod::SlideshowNext => {},
        DaemonMethod::SlideshowPrev => {},
        DaemonMethod::SlideshowGoto => {},
        DaemonMethod::SlideshowPause => {},
        DaemonMethod::SlideshowPool => {},
        DaemonMethod::Redetect => {},
        DaemonMethod::WaitForMonitorChange => {},
        DaemonMethod::CurrentState => {},
        DaemonMethod::ListProfiles => {},
        DaemonMethod::SaveProfile => {},
        DaemonMethod::DeleteProfile => {},
        DaemonMethod::DuplicateProfile => {},
        DaemonMethod::RenameProfile => {},
        DaemonMethod::UpdateProfileMonitorState => {},
        DaemonMethod::UpdateProfileImageTransform => {},
        DaemonMethod::UpdateProfileSource => {},
        DaemonMethod::ListSchedules => {},
        DaemonMethod::SaveSchedules => {},
        DaemonMethod::SetSchedulesPaused => {},
        DaemonMethod::GetConfig => {},
        DaemonMethod::SaveConfig => {},
        DaemonMethod::SetMonitorPhysicalSize => {},
        DaemonMethod::DetectMonitors => {},
        DaemonMethod::PreviewCrop => {},
        DaemonMethod::LibraryList => {},
        DaemonMethod::LibraryThumbnail => {},
        DaemonMethod::LibraryTag => {},
        DaemonMethod::LibraryDelete => {},
        DaemonMethod::LibraryRescan => {},
        DaemonMethod::Unknown => {},
    }
}

/// Distinct wire names reach distinct methods.
pub proof fn law_method_table_injective(a: Seq<char>, b: Seq<char>)
    requires
        daemon_method_of(a) != DaemonMethod::Unknown,
        daemon_method_of(a) == daemon_method_of(b),
    ensures
        a == b,
{
    law_method_table_round_trips(a);
    law_method_table_round_trips(b);
}

/// Look up the daemon method named `m`.
pub fn daemon_method(m: &str) -> (r: DaemonMethod)
    ensures
        r == daemon_method_of(m@),
{
    if str_eq(m, "shutdown") {
        DaemonMethod::Shutdown
    } else if str_eq(m, "set") {
        DaemonMethod::SetWallpaper
    } else if str_eq(m, "apply_profile") {
        DaemonMethod::ApplyProfile
    } else if str_eq(m, "apply_canvas") {
        DaemonMethod::ApplyCanvas
    } else if str_eq(m, "slideshow_next") {
        DaemonMethod::SlideshowNext
    } else if str_eq(m, "slideshow_prev") {
        DaemonMethod::SlideshowPrev
    } else if str_eq(m, "slideshow_goto") {
        DaemonMethod::SlideshowGoto
    } else if str_eq(m, "slideshow_pause") {
        DaemonMethod::SlideshowPause
    } else if str_eq(m, "slideshow_pool") {
        DaemonMethod::SlideshowPool
    } else if str_eq(m, "redetect") {
        DaemonMethod::Redetect
    } else if str_eq(m, "wait_for_monitor_change") {
        DaemonMethod::WaitForMonitorChange
    } else if str_eq(m, "current_state") {
        DaemonMethod::CurrentState
    } else if str_eq(m, "list_profiles") {
        DaemonMethod::ListProfiles
    } else if str_eq(m, "save_profile") {
        DaemonMethod::SaveProfile
    } else if str_eq(m, "delete_profile") {
        DaemonMethod::DeleteProfile
    } else if str_eq(m, "duplicate_profile") {
        DaemonMethod::DuplicateProfile
    } else if str_eq(m, "rename_profile") {
        DaemonMethod::RenameProfile
    } else if str_eq(m, "update_profile_monitor_state") {
        DaemonMethod::UpdateProfileMonitorState
    } else if str_eq(m, "update_profile_image_transform") {
        DaemonMethod::UpdateProfileImageTransform
    } else if str_eq(m, "update_profile_source") {
        DaemonMethod::UpdateProfileSource
    } else if str_eq(m, "list_schedules") {
        DaemonMethod::ListSchedules
    } else if str_eq(m, "save_schedules") {
        DaemonMethod::SaveSchedules
    } else if str_eq(m, "set_schedules_paused") {
        DaemonMethod::SetSchedulesPaused
    } else if str_eq(m, "get_config") {
        DaemonMethod::GetConfig
    } else if str_eq(m, "save_config") {
        DaemonMethod::SaveConfig
    } else if str_eq(m, "set_monitor_physical_size") {
        DaemonMethod::SetMonitorPhysicalSize
    } else if str_eq(m, "detect_monitors") {
        DaemonMethod::DetectMonitors
    } else if str_eq(m, "preview_crop") {
        DaemonMethod::PreviewCrop
    } else if str_eq(m, "library_list") {
        DaemonMethod::LibraryList
    } else if str_eq(m, "library_thumbnail") {
        DaemonMethod::LibraryThumbnail
    } else if str_eq(m, "library_tag") {
        DaemonMethod::LibraryTag
    } else if str_eq(m, "library_delete") {
        DaemonMethod::LibraryDelete
    } else if str_eq(m, "library_rescan") {
        DaemonMethod::LibraryRescan
    } else {
        DaemonMethod::Unknown
    }
}

/// The failure text the daemon answers an unknown method with.
pub fn unknown_method_message(m: &str) -> (s: String)
    ensures
        s@ == "unknown method: "@ + m@,
{
    let mut s = String::new();
    push_str(&mut s, "unknown method: ");
    push_str(&mut s, m);
    s
}

/// Slideshow control needs live daemon state; every other method can be
/// served in-process when no daemon is up.
pub open spec fn has_fallback_spec(m: Seq<char>) -> bool {
    !(m == "slideshow_next"@ || m == "slideshow_prev"@ || m == "slideshow_pause"@)
}

/// Only live slideshow control lacks an in-process fallback: a method may
/// be served without the daemon exactly when it is not the daemon's
/// next, previous or pause step.
pub proof fn law_fallback_excludes_only_slideshow_control(m: Seq<char>)
    ensures
        has_fallback_spec(m) <==> !(daemon_method_of(m) == DaemonMethod::SlideshowNext
            || daemon_method_of(m) == DaemonMethod::SlideshowPrev || daemon_method_of(m)
            == DaemonMethod::SlideshowPause),
{
    law_method_table_round_trips(m);
    law_wire_name_reaches_its_method(DaemonMethod::SlideshowNext);
    law_wire_name_reaches_its_method(DaemonMethod::SlideshowPrev);
    law_wire_name_reaches_its_method(DaemonMethod::SlideshowPause);
}

/// Whether `method` may be attempted in-process when no daemon is up.
pub fn has_in_process_fallback(method: &str) -> (r: bool)
    ensures
        r == has_fallback_spec(method@),
{
    !(str_eq(method, "slideshow_next") || str_eq(method, "slideshow_prev") || str_eq(
        method,
        "slideshow_pause",
    ))
}

/// Where a GUI call goes.
#[derive(Debug, Clone, Copy, PartialEq, Eq, Structural)]
pub enum Route {
    /// To the daemon over its socket.
    Daemon,
    /// To the in-process implementation.
    InProcess,
    /// Nowhere: no daemon, and the method has no in-process fallback.
    Unreachable,
}

/// Daemon first when its socket accepts a connection; otherwise in-process
/// when the method allows it.
pub fn route(daemon_connected: bool, method: &str) -> (r: Route)
    ensures
        r == (if daemon_connected {
            Route::Daemon
        } else if has_fallback_spec(method@) {
            Route::InProcess
        } else {
            Route::Unreachable
        }),
{
    if daemon_connected {
        Route::Daemon
    } else if has_in_process_fallback(method) {
        Route::InProcess
    } else {
        Route::Unreachable
    }
}

/// The error for a call that no daemon can serve and has no fallback.
pub fn unreachable_error(method: &str) -> (e: IpcError)
    ensures
        e matches IpcError::DaemonUnreachable(s) && s@
            == "no daemon is running — start one with `superpanels-daemon`; '"@ + method@
            + "' has no in-process fallback"@,
{
    let mut s = String::new();
    push_str(&mut s, "no daemon is running — start one with `superpanels-daemon`; '");
    push_str(&mut s, method);
    push_str(&mut s, "' has no in-process fallback");
    IpcError::DaemonUnreachable(s)
}

/// The result of a daemon reply: its payload (`null` when absent) on
/// success, else a `Daemon` error with its message (`daemon error` when
/// absent). A logical rejection stays distinct from `DaemonUnreachable`.
pub fn resolve_response<T>(ok: bool, result: Option<T>, error: Option<String>, null: T) -> (r: Result<
    T,
    IpcError,
>)
    ensures
        ok ==> r == Ok::<T, IpcError>(
            match result {
                Some(v) => v,
                None => null,
            },
        ),
        !ok ==> (r matches Err(IpcError::Daemon(m)) && m@ == match error {
            Some(e) => e@,
            None => "daemon error"@,
        }),
{
    if ok {
        match result {
            Some(v) => Ok(v),
            None => Ok(null),
        }
    } else {
        match error {
            Some(e) => Err(IpcError::Daemon(e)),
            None => {
                let mut s = String::new();
                push_str(&mut s, "daemon error");
                Err(IpcError::Daemon(s))
            },
        }
    }
}

/// `library_thumbnail` may fall back to a local render only when the daemon
/// was unreachable; every other error, including the daemon's own refusal of
/// a path, propagates, so the library-roots check cannot be bypassed.
pub fn should_fall_back_to_local_render(err: &IpcError) -> (r: bool)
    ensures
        r == (*err is DaemonUnreachable),
{
    matches!(err, IpcError::DaemonUnreachable(_))
}

/// A method the in-process fallback knows.
#[derive(Debug, Clone, Copy, PartialEq, Eq, Structural)]
pub enum InProcessMethod {
    DetectMonitors,
    ListProfiles,
    ApplyProfile,
    ApplyCanvas,
    SaveProfile,
    DeleteProfile,
    PreviewCrop,
    LibraryList,
    LibraryThumbnail,
    LibraryTag,
    LibraryDelete,
    LibraryRescan,
    GetConfig,
    SaveConfig,
    SetMonitorPhysicalSize,
    CurrentState,
    /// Not served in-process.
    Unsupported,
}

/// The in-process method named `m` (`redetect` is served as detection).
pub open spec fn in_process_method_of(m: Seq<char>) -> InProcessMethod {
    if m == "detect_monitors"@ || m == "redetect"@ {
        InProcessMethod::DetectMonitors
    } else if m == "list_profiles"@ {
        InProcessMethod::ListProfiles
    } else if m == "apply_profile"@ {
        InProcessMethod::ApplyProfile
    } else if m == "apply_canvas"@ {
        InProcessMethod::ApplyCanvas
    } else if m == "save_profile"@ {
        InProcessMethod::SaveProfile
    } else if m == "delete_profile"@ {
        InProcessMethod::DeleteProfile
    } else if m == "preview_crop"@ {
        InProcessMethod::PreviewCrop
    } else if m == "library_list"@ {
        InProcessMethod::LibraryList
    } else if m == "library_thumbnail"@ {
        InProcessMethod::LibraryThumbnail
    } else if m == "library_tag"@ {
        InProcessMethod::LibraryTag
    } else if m == "library_delete"@ {
        InProcessMethod::LibraryDelete
    } else if m == "library_rescan"@ {
        InProcessMethod::LibraryRescan
    } else if m == "get_config"@ {
        InProcessMethod::GetConfig
    } else if m == "save_config"@ {
        InProcessMethod::SaveConfig
    } else if m == "set_monitor_physical_size"@ {
        InProcessMethod::SetMonitorPhysicalSize
    } else if m == "current_state"@ {
        InProcessMethod::CurrentState
    } else {
        InProcessMethod::Unsupported
    }
}

/// The daemon methods an in-process method stands in for.
pub open spec fn stands_in_for(local: InProcessMethod, d: DaemonMethod) -> bool {
    match local {
        InProcessMethod::DetectMonitors => d == DaemonMethod::DetectMonitors || d == DaemonMethod::Redetect,
        InProcessMethod::ListProfiles => d == DaemonMethod::ListProfiles,
        InProcessMethod::ApplyProfile => d == DaemonMethod::ApplyProfile,
        InProcessMethod::ApplyCanvas => d == DaemonMethod::ApplyCanvas,
        InProcessMethod::SaveProfile => d == DaemonMethod::SaveProfile,
        InProcessMethod::DeleteProfile => d == DaemonMethod::DeleteProfile,
        InProcessMethod::PreviewCrop => d == DaemonMethod::PreviewCrop,
        InProcessMethod::LibraryList => d == DaemonMethod::LibraryList,
        InProcessMethod::LibraryThumbnail => d == DaemonMethod::LibraryThumbnail,
        InProcessMethod::LibraryTag => d == DaemonMethod::LibraryTag,
        InProcessMethod::LibraryDelete => d == DaemonMethod::LibraryDelete,
        InProcessMethod::LibraryRescan => d == DaemonMethod::LibraryRescan,
        InProcessMethod::GetConfig => d == DaemonMethod::GetConfig,
        InProcessMethod::SaveConfig => d == DaemonMethod::SaveConfig,
        InProcessMethod::SetMonitorPhysicalSize => d == DaemonMethod::SetMonitorPhysicalSize,
        InProcessMethod::CurrentState => d == DaemonMethod::CurrentState,
        InProcessMethod::Unsupported => d == DaemonMethod::Unknown,
    }
}

/// The in-process fallback answers a request with the same operation the
/// daemon would run for it: whatever a method name selects in-process
/// stands in for the daemon method that name selects.
pub proof fn law_fallback_serves_the_same_operation(m: Seq<char>)
    ensures
        in_process_method_of(m) != InProcessMethod::Unsupported ==> stands_in_for(
            in_process_method_of(m),
            daemon_method_of(m),
        ),
{
    reveal_strlit("shutdown");
    reveal_strlit("set");
    reveal_strlit("apply_profile");
    reveal_strlit("apply_canvas");
    reveal_strlit("slideshow_next");
    reveal_strlit("slideshow_prev");
    reveal_strlit("slideshow_goto");
    reveal_strlit("slideshow_pause");
    reveal_strlit("slideshow_pool");
    reveal_strlit("redetect");
    reveal_strlit("wait_for_monitor_change");
    reveal_strlit("current_state");
    reveal_strlit("list_profiles");
    reveal_strlit("save_profile");
    reveal_strlit("delete_profile");
    reveal_strlit("duplicate_profile");
    reveal_strlit("rename_profile");
    reveal_strlit("update_profile_monitor_state");
    reveal_strlit("update_profile_image_transform");
    reveal_strlit("update_profile_source");
    reveal_strlit("list_schedules");
    reveal_strlit("save_schedules");
    reveal_strlit("set_schedules_paused");
    reveal_strlit("get_config");
    reveal_strlit("save_config");
    reveal_strlit("set_monitor_physical_size");
    reveal_strlit("detect_monitors");
    reveal_strlit("preview_crop");
    reveal_strlit("library_list");
    reveal_strlit("library_thumbnail");
    reveal_strlit("library_tag");
    reveal_strlit("library_delete");
    reveal_strlit("library_rescan");
    assert("shutdown"@.len() == 8);
    assert("set"@.len() == 3);
    assert("apply_profile"@.len() == 13);
    assert("apply_canvas"@.len() == 12);
    assert("slideshow_next"@.len() == 14);
    assert("slideshow_prev"@.len() == 14);
    assert("slideshow_goto"@.len() == 14);
    assert("slideshow_pause"@.len() == 15);
    assert("slideshow_pool"@.len() == 14);
    assert("redetect"@.len() == 8);
    assert("wait_for_monitor_change"@.len() == 23);
    assert("current_state"@.len() == 13);
    assert("list_profiles"@.len() == 13);
    assert("save_profile"@.len() == 12);
    assert("delete_profile"@.len() == 14);
    assert("duplicate_profile"@.len() == 17);
    assert("rename_profile"@.len() == 14);
    assert("update_profile_monitor_state"@.len() == 28);
    assert("update_profile_image_transform"@.len() == 30);
    assert("update_profile_source"@.len() == 21);
    assert("list_schedules"@.len() == 14);
    assert("save_schedules"@.len() == 14);
    assert("set_schedules_paused"@.len() == 20);
    assert("get_config"@.len() == 10);
    assert("save_config"@.len() == 11);
    assert("set_monitor_physical_size"@.len() == 25);
    assert("detect_monitors"@.len() == 15);
    assert("preview_crop"@.len() == 12);
    assert("library_list"@.len() == 12);
    assert("library_thumbnail"@.len() == 17);
    assert("library_tag"@.len() == 11);
    assert("library_delete"@.len() == 14);
    assert("library_rescan"@.len() == 14);
    assert("shutdown"@[0] != "redetect"@[0]);
    assert("apply_profile"@[0] != "current_state"@[0]);
    assert("apply_profile"@[0] != "list_profiles"@[0]);
    assert("apply_canvas"@[0] != "save_profile"@[0]);
    assert("apply_canvas"@[0] != "preview_crop"@[0]);
    assert("apply_canvas"@[0] != "library_list"@[0]);
    assert("slideshow_next"@[10] != "slideshow_prev"@[10]);
    assert("slideshow_next"@[10] != "slideshow_goto"@[10]);
    assert("slideshow_next"@[10] != "slideshow_pool"@[10]);
    assert("slideshow_next"@[0] != "delete_profile"@[0]);
    assert("slideshow_next"@[0] != "rename_profile"@[0]);
    assert("slideshow_next"@[0] != "list_schedules"@[0]);
    assert("slideshow_next"@[1] != "save_schedules"@[1]);
    assert("slideshow_next"@[0] != "library_delete"@[0]);
    assert("slideshow_next"@[0] != "library_rescan"@[0]);
    assert("slideshow_prev"@[10] != "slideshow_goto"@[10]);
    assert("slideshow_prev"@[11] != "slideshow_pool"@[11]);
    assert("slideshow_prev"@[0] != "delete_profile"@[0]);
    assert("slideshow_prev"@[0] != "rename_profile"@[0]);
    assert("slideshow_prev"@[0] != "list_schedules"@[0]);
    assert("slideshow_prev"@[1] != "save_schedules"@[1]);
    assert("slideshow_prev"@[0] != "library_delete"@[0]);
    assert("slideshow_prev"@[0] != "library_rescan"@[0]);
    assert("slideshow_goto"@[10] != "slideshow_pool"@[10]);
    assert("slideshow_goto"@[0] != "delete_profile"@[0]);
    assert("slideshow_goto"@[0] != "rename_profile"@[0]);
    assert("slideshow_goto"@[0] != "list_schedules"@[0]);
    assert("slideshow_goto"@[1] != "save_schedules"@[1]);
    assert("slideshow_goto"@[0] != "library_delete"@[0]);
    assert("slideshow_goto"@[0] != "library_rescan"@[0]);
    assert("slideshow_pause"@[0] != "detect_monitors"@[0]);
    assert("slideshow_pool"@[0] != "delete_profile"@[0]);
    assert("slideshow_pool"@[0] != "rename_profile"@[0]);
    assert("slideshow_pool"@[0] != "list_schedules"@[0]);
    assert("slideshow_pool"@[1] != "save_schedules"@[1]);
    assert("slideshow_pool"@[0] != "library_delete"@[0]);
    assert("slideshow_pool"@[0] != "library_rescan"@[0]);
    assert("current_state"@[0] != "list_profiles"@[0]);
    assert("save_profile"@[0] != "preview_crop"@[0]);
    assert("save_profile"@[0] != "library_list"@[0]);
    assert("delete_profile"@[0] != "rename_profile"@[0]);
    assert("delete_profile"@[0] != "list_schedules"@[0]);
    assert("delete_profile"@[0] != "save_schedules"@[0]);
    assert("delete_profile"@[0] != "library_delete"@[0]);
    assert("delete_profile"@[0] != "library_rescan"@[0]);
    assert("duplicate_profile"@[0] != "library_thumbnail"@[0]);
    assert("rename_profile"@[0] != "list_schedules"@[0]);
    assert("rename_profile"@[0] != "save_schedules"@[0]);
    assert("rename_profile"@[0] != "library_delete"@[0]);
    assert("rename_profile"@[0] != "library_rescan"@[0]);
    assert("list_schedules"@[0] != "save_schedules"@[0]);
    assert("list_schedules"@[2] != "library_delete"@[2]);
    assert("list_schedules"@[2] != "library_rescan"@[2]);
    assert("save_schedules"@[0] != "library_delete"@[0]);
    assert("save_schedules"@[0] != "library_rescan"@[0]);
    assert("save_config"@[0] != "library_tag"@[0]);
    assert("preview_crop"@[0] != "library_list"@[0]);
    assert("library_delete"@[8] != "library_rescan"@[8]);
}

/// Look up the in-process method named `m`.
pub fn in_process_method(m: &str) -> (r: InProcessMethod)
    ensures
        r == in_process_method_of(m@),
{
    if str_eq(m, "detect_monitors") || str_eq(m, "redetect") {
        InProcessMethod::DetectMonitors
    } else if str_eq(m, "list_profiles") {
        InProcessMethod::ListProfiles
    } else if str_eq(m, "apply_profile") {
        InProcessMethod::ApplyProfile
    } else if str_eq(m, "apply_canvas") {
        InProcessMethod::ApplyCanvas
    } else if str_eq(m, "save_profile") {
        InProcessMethod::SaveProfile
    } else if str_eq(m, "delete_profile") {
        InProcessMethod::DeleteProfile
    } else if str_eq(m, "preview_crop") {
        InProcessMethod::PreviewCrop
    } else if str_eq(m, "library_list") {
        InProcessMethod::LibraryList
    } else if str_eq(m, "library_thumbnail") {
        InProcessMethod::LibraryThumbnail
    } else if str_eq(m, "library_tag") {
        InProcessMethod::LibraryTag
    } else if str_eq(m, "library_delete") {
        InProcessMethod::LibraryDelete
    } else if str_eq(m, "library_rescan") {
        InProcessMethod::LibraryRescan
    } else if str_eq(m, "get_config") {
        InProcessMethod::GetConfig
    } else if str_eq(m, "save_config") {
        InProcessMethod::SaveConfig
    } else if str_eq(m, "set_monitor_physical_size") {
        InProcessMethod::SetMonitorPhysicalSize
    } else if str_eq(m, "current_state") {
        InProcessMethod::CurrentState
    } else {
        InProcessMethod::Unsupported
    }
}

/// The error the in-process fallback answers `method` with when it cannot
/// serve it: apply and library-mutation methods need daemon state, and
/// unknown methods are invalid. `None` for the methods it serves.
pub fn in_process_refusal(method: &str) -> (r: Option<IpcError>)
    ensures
        match in_process_method_of(method@) {
            InProcessMethod::ApplyProfile => r matches Some(IpcError::Internal(m)) && m@
                == "apply_profile in-process requires daemon-equivalent runtime state; start `superpanels-daemon` to apply profiles from the GUI"@,
            InProcessMethod::ApplyCanvas => r matches Some(IpcError::Internal(m)) && m@
                == "apply_canvas in-process requires daemon-equivalent runtime state; start `superpanels-daemon` to apply canvas state from the GUI"@,
            InProcessMethod::LibraryTag => r matches Some(IpcError::Internal(m)) && m@
                == "library_tag is not implemented in-process; requires daemon library state"@,
            InProcessMethod::LibraryDelete => r matches Some(IpcError::Internal(m)) && m@
                == "library_delete is not implemented in-process; requires daemon library state"@,
            InProcessMethod::Unsupported => r matches Some(IpcError::InvalidArgument(m)) && m@
                == "method '"@ + method@ + "' has no in-process implementation"@,
            _ => r is None,
        },
{
    match in_process_method(method) {
        InProcessMethod::ApplyProfile => Some(
            IpcError::internal(
                "apply_profile in-process requires daemon-equivalent runtime state; start `superpanels-daemon` to apply profiles from the GUI",
            ),
        ),
        InProcessMethod::ApplyCanvas => Some(
            IpcError::internal(
                "apply_canvas in-process requires daemon-equivalent runtime state; start `superpanels-daemon` to apply canvas state from the GUI",
            ),
        ),
        InProcessMethod::LibraryTag => Some(
            IpcError::internal(
                "library_tag is not implemented in-process; requires daemon library state",
            ),
        ),
        InProcessMethod::LibraryDelete => Some(
            IpcError::internal(
                "library_delete is not implemented in-process; requires daemon library state",
            ),
        ),
        InProcessMethod::Unsupported => {
            let mut s = String::new();
            push_str(&mut s, "method '");
            push_str(&mut s, method);
            push_str(&mut s, "' has no in-process implementation");
            Some(IpcError::InvalidArgument(s))
        },
        _ => None,
    }
}

/// How a preview crop fits the image to the canvas.
#[derive(Debug, Clone, Copy, PartialEq, Eq, Structural)]
pub enum PreviewFit {
    Fill,
    Fit,
    Stretch,
    Center,
}

/// The fit mode a preview request names: `fill` when it names none, one of
/// `fill`, `fit`, `stretch` and `center`, or an invalid-argument error.
pub open spec fn preview_fit_spec(name: Option<Seq<char>>) -> Result<PreviewFit, Seq<char>> {
    match name {
        None => Ok(PreviewFit::Fill),
        Some(n) => if n == "fill"@ {
            Ok(PreviewFit::Fill)
        } else if n == "fit"@ {
            Ok(PreviewFit::Fit)
        } else if n == "stretch"@ {
            Ok(PreviewFit::Stretch)
        } else if n == "center"@ {
            Ok(PreviewFit::Center)
        } else {
            Err("unknown fit `"@ + n + "`"@)
        },
    }
}

/// Parse the `fit` parameter of a preview request (absent means `fill`).
pub fn preview_fit(name: Option<&str>) -> (r: Result<PreviewFit, IpcError>)
    ensures
        match preview_fit_spec(
            match name {
                Some(n) => Some(n@),
                None => None,
            },
        ) {
            Ok(f) => r == Ok::<PreviewFit, IpcError>(f),
            Err(m) => r matches Err(IpcError::InvalidArgument(s)) && s@ == m,
        },
{
    match name {
        None => Ok(PreviewFit::Fill),
        Some(n) => if str_eq(n, "fill") {
            Ok(PreviewFit::Fill)
        } else if str_eq(n, "fit") {
            Ok(PreviewFit::Fit)
        } else if str_eq(n, "stretch") {
            Ok(PreviewFit::Stretch)
        } else if str_eq(n, "center") {
            Ok(PreviewFit::Center)
        } else {
            let mut s = String::new();
            push_str(&mut s, "unknown fit `");
            push_str(&mut s, n);
            push_str(&mut s, "`");
            Err(IpcError::InvalidArgument(s))
        },
    }
}

} // verus!
