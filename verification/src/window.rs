//! The GUI shell's decisions about its window and process: tray-only
//! launches, what an exit request means, how saved geometry is restored
//! and captured, how wide the resize bands are, which release page the
//! About panel opens, and what the runtime snapshot holds.

use vstd::prelude::*;

use crate::app_state::RuntimeSnapshot;
use crate::text::{push_str, str_eq};

verus! {

/// What an exit request does.
#[derive(Debug, Clone, Copy, PartialEq, Eq, Structural)]
pub enum ExitDecision {
    /// A deliberate quit (tray "Exit", programmatic exit or restart): stop
    /// the daemon we own and let the process exit.
    Quit,
    /// The last window closed to the tray: stay alive, keep the daemon.
    StayResident,
}

/// Decide an exit request from its exit code alone: the runtime fires one
/// without a code when the last window is destroyed (close-to-tray), and
/// with a code for a real exit.
pub fn exit_decision(code: Option<i32>) -> (d: ExitDecision)
    ensures
        d == (if code is Some {
            ExitDecision::Quit
        } else {
            ExitDecision::StayResident
        }),
{
    match code {
        Some(_) => ExitDecision::Quit,
        None => ExitDecision::StayResident,
    }
}

/// Whether the argument list holds the exact flag `--tray`.
pub open spec fn has_tray_flag(args: Seq<Seq<char>>) -> bool {
    exists|i: int| 0 <= i < args.len() && #[trigger] args[i] == "--tray"@
}

/// Whether the GUI was launched tray-only: the login-autostart entry passes
/// `--tray` so a session start brings up the tray and daemon without the
/// window. Only the whole argument counts, not a substring.
pub fn wants_tray_mode(args: &Vec<String>) -> (r: bool)
    ensures
        r == has_tray_flag(args@.map_values(|a: String| a@)),
{
    let ghost av = args@.map_values(|a: String| a@);
    let mut i: usize = 0;
    while i < args.len()
        invariant
            i <= args@.len(),
            av == args@.map_values(|a: String| a@),
            forall|j: int| 0 <= j < i ==> av[j] != "--tray"@,
        decreases args@.len() - i,
    {
        if str_eq(args[i].as_str(), "--tray") {
            assert(av[i as int] == "--tray"@);
            return true;
        }
        i += 1;
    }
    false
}

/// Whether a second launch brings the existing window forward: yes unless
/// it is an autostart `--tray` relaunch, which stays in the background.
/// Either way the launch recovers a dead daemon.
pub fn second_launch_shows_window(argv: &Vec<String>) -> (r: bool)
    ensures
        r == !has_tray_flag(argv@.map_values(|a: String| a@)),
{
    !wants_tray_mode(argv)
}

/// Saved window geometry.
#[derive(Debug, Clone, Copy, PartialEq, Eq, Structural)]
pub struct WindowState {
    pub width: Option<u32>,
    pub height: Option<u32>,
    pub x: Option<i32>,
    pub y: Option<i32>,
    pub maximized: bool,
}

impl WindowState {
    /// The geometry of a first launch: nothing saved.
    pub fn empty() -> (s: WindowState)
        ensures
            s.width is None && s.height is None && s.x is None && s.y is None && !s.maximized,
    {
        WindowState { width: None, height: None, x: None, y: None, maximized: false }
    }
}

/// What restoring saved geometry does to the window.
#[derive(Debug, Clone, Copy)]
pub struct RestorePlan {
    /// Resize to this, when both dimensions were saved.
    pub size: Option<(u32, u32)>,
    /// Move here, when both coordinates were saved.
    pub position: Option<(i32, i32)>,
    /// Maximize afterwards.
    pub maximize: bool,
}

/// The restore plan of `s`: a size or position is applied only when both
/// of its halves were saved.
pub open spec fn restore_spec(s: WindowState) -> RestorePlan {
    RestorePlan {
        size: match (s.width, s.height) {
            (Some(w), Some(h)) => Some((w, h)),
            _ => None,
        },
        position: match (s.x, s.y) {
            (Some(x), Some(y)) => Some((x, y)),
            _ => None,
        },
        maximize: s.maximized,
    }
}

/// Plan the restore of `s`.
pub fn restore_plan(s: &WindowState) -> (p: RestorePlan)
    ensures
        p == restore_spec(*s),
{
    let size = match (s.width, s.height) {
        (Some(w), Some(h)) => Some((w, h)),
        _ => None,
    };
    let position = match (s.x, s.y) {
        (Some(x), Some(y)) => Some((x, y)),
        _ => None,
    };
    RestorePlan { size, position, maximize: s.maximized }
}

/// The geometry captured on close; a query that failed leaves its fields
/// unset, and a failed maximized query reads as not maximized.
pub open spec fn capture_spec(
    size: Option<(u32, u32)>,
    position: Option<(i32, i32)>,
    maximized: Option<bool>,
) -> WindowState {
    WindowState {
        width: match size {
            Some(p) => Some(p.0),
            None => None,
        },
        height: match size {
            Some(p) => Some(p.1),
            None => None,
        },
        x: match position {
            Some(p) => Some(p.0),
            None => None,
        },
        y: match position {
            Some(p) => Some(p.1),
            None => None,
        },
        maximized: match maximized {
            Some(m) => m,
            None => false,
        },
    }
}

/// Capture the window's geometry on close.
pub fn capture_state(
    size: Option<(u32, u32)>,
    position: Option<(i32, i32)>,
    maximized: Option<bool>,
) -> (s: WindowState)
    ensures
        s == capture_spec(size, position, maximized),
{
    let (width, height) = match size {
        Some((w, h)) => (Some(w), Some(h)),
        None => (None, None),
    };
    let (x, y) = match position {
        Some((px, py)) => (Some(px), Some(py)),
        None => (None, None),
    };
    let maximized = match maximized {
        Some(m) => m,
        None => false,
    };
    WindowState { width, height, x, y, maximized }
}

/// Restoring what was captured puts the window back as it was: the same
/// size, position and maximized state; and what a failed query left unset
/// is not applied.
pub proof fn law_capture_then_restore(
    size: Option<(u32, u32)>,
    position: Option<(i32, i32)>,
    maximized: bool,
)
    ensures
        restore_spec(capture_spec(size, position, Some(maximized))) == (RestorePlan {
            size,
            position,
            maximize: maximized,
        }),
{
}

/// The minimum resize band along an edge, in pixels.
pub const EDGE_PX: i32 = 6;

/// The minimum resize square in a corner, in pixels.
pub const CORNER_PX: i32 = 18;

/// The width of the window system's own resize border per unit of scale.
pub const TAO_BORDER_PER_SCALE: i32 = 5;

/// The edge band at `scale`: wide enough to cover the window system's own
/// border at that scale, and never under `EDGE_PX`.
pub open spec fn edge_band_spec(scale: int) -> int {
    if EDGE_PX >= scale * TAO_BORDER_PER_SCALE + 1 {
        EDGE_PX as int
    } else {
        scale * TAO_BORDER_PER_SCALE + 1
    }
}

/// The edge band at `scale`.
pub fn edge_band(scale: i32) -> (b: i32)
    requires
        -429496729 <= scale <= 429496726,
    ensures
        b == edge_band_spec(scale as int),
{
    let own = scale * TAO_BORDER_PER_SCALE + 1;
    if EDGE_PX >= own {
        EDGE_PX
    } else {
        own
    }
}

/// The corner square at `scale`: 12 px beyond the edge band, and never
/// under `CORNER_PX`.
pub fn corner_band(scale: i32) -> (b: i32)
    requires
        -429496729 <= scale <= 429496726,
    ensures
        b == (if CORNER_PX >= edge_band_spec(scale as int) + 12 {
            CORNER_PX as int
        } else {
            edge_band_spec(scale as int) + 12
        }),
{
    let e = edge_band(scale);
    if CORNER_PX >= e + 12 {
        CORNER_PX
    } else {
        e + 12
    }
}

/// At every scale the edge band covers the window system's own border and
/// the corner square reaches past the edge band, so a press there is never
/// eaten before a resize can start.
pub proof fn law_bands_cover_border(scale: int)
    requires
        -429496729 <= scale <= 429496726,
    ensures
        edge_band_spec(scale) > scale * TAO_BORDER_PER_SCALE,
        edge_band_spec(scale) >= EDGE_PX,
        (if CORNER_PX >= edge_band_spec(scale) + 12 {
            CORNER_PX as int
        } else {
            edge_band_spec(scale) + 12
        }) > edge_band_spec(scale),
{
}

/// The release page the About panel opens for a build of `repo` at
/// `version`: the version's tag page, or the releases index for a dev
/// build (`0.0.0`, which has no tag). Both come from build metadata, never
/// from the webview.
pub open spec fn release_url_spec(repo: Seq<char>, version: Seq<char>) -> Seq<char> {
    if version == "0.0.0"@ {
        repo + "/releases"@
    } else {
        repo + "/releases/tag/v"@ + version
    }
}

/// Build the release page URL.
pub fn release_url(repo: &str, version: &str) -> (u: String)
    ensures
        u@ == release_url_spec(repo@, version@),
{
    let mut u = String::new();
    push_str(&mut u, repo);
    if str_eq(version, "0.0.0") {
        push_str(&mut u, "/releases");
    } else {
        push_str(&mut u, "/releases/tag/v");
        push_str(&mut u, version);
    }
    u
}

/// The runtime snapshot a `current_state` reply gives: the active profile
/// and the on-screen file when the reply names them, and the slideshow's
/// paused flag, false when absent.
pub fn runtime_snapshot_from(
    active_profile: Option<String>,
    slideshow_paused: Option<bool>,
    current_filename: Option<String>,
) -> (s: RuntimeSnapshot)
    ensures
        s.active_profile == active_profile,
        s.current_filename == current_filename,
        s.paused == match slideshow_paused {
            Some(p) => p,
            None => false,
        },
{
    RuntimeSnapshot {
        active_profile,
        current_filename,
        paused: match slideshow_paused {
            Some(p) => p,
            None => false,
        },
    }
}

/// The state of a press-to-move gesture on the window's drag regions: whether
/// a press armed a window move (the pointer position it started from stays
/// with the caller), and whether the next left release must be swallowed.
#[derive(Debug, Clone, Copy, PartialEq, Eq, Structural)]
pub struct DragGesture {
    pub move_armed: bool,
    pub swallow_release: bool,
}

/// What a pointer event asks the window to do.
#[derive(Debug, Clone, Copy, PartialEq, Eq, Structural)]
pub enum GestureEffect {
    /// Nothing for the window; the event may still go on to the page.
    Nothing,
    /// Start an interactive resize from the edge under the pointer.
    BeginResize,
    /// Remember the press position: a move starts once the pointer travels.
    ArmMove,
    /// Maximize the window.
    Maximize,
    /// Restore the maximized window.
    Unmaximize,
    /// Start an interactive window move.
    BeginMove,
}

/// The kind of a button press.
#[derive(Debug, Clone, Copy, PartialEq, Eq, Structural)]
pub enum PressKind {
    Single,
    Double,
    Other,
}

/// The outcome of one pointer event: the new gesture state, what the window
/// does, and whether the event stops here instead of reaching the page.
#[derive(Debug, Clone, Copy, PartialEq, Eq, Structural)]
pub struct GestureStep {
    pub state: DragGesture,
    pub effect: GestureEffect,
    pub stop: bool,
}

/// A button press. Only the left button counts. A single press on a resize
/// edge starts a resize; one in a drag region arms a move; a double press in
/// a drag region toggles maximize and disarms the move. A press that stops
/// here has its release swallowed too; one that goes on clears that flag.
pub open spec fn press_spec(
    g: DragGesture,
    left: bool,
    kind: PressKind,
    on_resize_edge: bool,
    in_drag_region: bool,
    maximized: bool,
) -> GestureStep {
    if !left {
        GestureStep { state: g, effect: GestureEffect::Nothing, stop: false }
    } else {
        let (armed, effect) = match kind {
            PressKind::Single => if on_resize_edge {
                (g.move_armed, GestureEffect::BeginResize)
            } else if in_drag_region {
                (true, GestureEffect::ArmMove)
            } else {
                (g.move_armed, GestureEffect::Nothing)
            },
            PressKind::Double => if in_drag_region {
                (false, if maximized {
                    GestureEffect::Unmaximize
                } else {
                    GestureEffect::Maximize
                })
            } else {
                (g.move_armed, GestureEffect::Nothing)
            },
            PressKind::Other => (g.move_armed, GestureEffect::Nothing),
        };
        let stop = effect != GestureEffect::Nothing;
        GestureStep { state: DragGesture { move_armed: armed, swallow_release: stop }, effect, stop }
    }
}

/// Decide a button press.
pub fn on_press(
    g: DragGesture,
    left: bool,
    kind: PressKind,
    on_resize_edge: bool,
    in_drag_region: bool,
    maximized: bool,
) -> (r: GestureStep)
    ensures
        r == press_spec(g, left, kind, on_resize_edge, in_drag_region, maximized),
{
    if !left {
        return GestureStep { state: g, effect: GestureEffect::Nothing, stop: false };
    }
    let (armed, effect) = match kind {
        PressKind::Single => if on_resize_edge {
            (g.move_armed, GestureEffect::BeginResize)
        } else if in_drag_region {
            (true, GestureEffect::ArmMove)
        } else {
            (g.move_armed, GestureEffect::Nothing)
        },
        PressKind::Double => if in_drag_region {
            (false, if maximized {
                GestureEffect::Unmaximize
            } else {
                GestureEffect::Maximize
            })
        } else {
            (g.move_armed, GestureEffect::Nothing)
        },
        PressKind::Other => (g.move_armed, GestureEffect::Nothing),
    };
    let stop = match effect {
        GestureEffect::Nothing => false,
        _ => true,
    };
    GestureStep { state: DragGesture { move_armed: armed, swallow_release: stop }, effect, stop }
}

/// Pointer motion. An armed move is dropped once the left button is no
/// longer held; it starts (and disarms) once the pointer has travelled the
/// move threshold from the press, measured by the caller.
pub open spec fn motion_spec(g: DragGesture, left_held: bool, past_threshold: bool) -> GestureStep {
    if !g.move_armed {
        GestureStep { state: g, effect: GestureEffect::Nothing, stop: false }
    } else if !left_held {
        GestureStep {
            state: DragGesture { move_armed: false, ..g },
            effect: GestureEffect::Nothing,
            stop: false,
        }
    } else if !past_threshold {
        GestureStep { state: g, effect: GestureEffect::Nothing, stop: false }
    } else {
        GestureStep {
            state: DragGesture { move_armed: false, ..g },
            effect: GestureEffect::BeginMove,
            stop: true,
        }
    }
}

/// Decide a pointer motion.
pub fn on_motion(g: DragGesture, left_held: bool, past_threshold: bool) -> (r: GestureStep)
    ensures
        r == motion_spec(g, left_held, past_threshold),
{
    if !g.move_armed {
        GestureStep { state: g, effect: GestureEffect::Nothing, stop: false }
    } else if !left_held {
        GestureStep {
            state: DragGesture { move_armed: false, swallow_release: g.swallow_release },
            effect: GestureEffect::Nothing,
            stop: false,
        }
    } else if !past_threshold {
        GestureStep { state: g, effect: GestureEffect::Nothing, stop: false }
    } else {
        GestureStep {
            state: DragGesture { move_armed: false, swallow_release: g.swallow_release },
            effect: GestureEffect::BeginMove,
            stop: true,
        }
    }
}

/// A button release. A left release after a press that stopped is swallowed
/// as well (the page would otherwise see a lone release and fabricate a
/// click) and ends the gesture; any left release clears the flag.
pub open spec fn release_spec(g: DragGesture, left: bool) -> GestureStep {
    if left && g.swallow_release {
        GestureStep {
            state: DragGesture { move_armed: false, swallow_release: false },
            effect: GestureEffect::Nothing,
            stop: true,
        }
    } else {
        GestureStep { state: g, effect: GestureEffect::Nothing, stop: false }
    }
}

/// Decide a button release.
pub fn on_release(g: DragGesture, left: bool) -> (r: GestureStep)
    ensures
        r == release_spec(g, left),
{
    if left && g.swallow_release {
        GestureStep {
            state: DragGesture { move_armed: false, swallow_release: false },
            effect: GestureEffect::Nothing,
            stop: true,
        }
    } else {
        GestureStep { state: g, effect: GestureEffect::Nothing, stop: false }
    }
}

/// A press the window takes for itself never leaks half a click to the
/// page: when a left press stops, the left release that follows it stops
/// too, whatever motion came in between.
pub proof fn law_stopped_press_swallows_release(
    g: DragGesture,
    kind: PressKind,
    on_resize_edge: bool,
    in_drag_region: bool,
    maximized: bool,
    motions: Seq<(bool, bool)>,
)
    requires
        press_spec(g, true, kind, on_resize_edge, in_drag_region, maximized).stop,
    ensures
        release_spec(
            motions_after(press_spec(g, true, kind, on_resize_edge, in_drag_region, maximized).state, motions),
            true,
        ).stop,
{
    lemma_motions_keep_swallow(
        press_spec(g, true, kind, on_resize_edge, in_drag_region, maximized).state,
        motions,
    );
}

/// The gesture state after a run of motions, each `(left_held, past_threshold)`.
pub open spec fn motions_after(g: DragGesture, motions: Seq<(bool, bool)>) -> DragGesture
    decreases motions.len(),
{
    if motions.len() == 0 {
        g
    } else {
        let m = motions.last();
        motion_spec(motions_after(g, motions.drop_last()), m.0, m.1).state
    }
}

proof fn lemma_motions_keep_swallow(g: DragGesture, motions: Seq<(bool, bool)>)
    ensures
        motions_after(g, motions).swallow_release == g.swallow_release,
    decreases motions.len(),
{
    if motions.len() > 0 {
        lemma_motions_keep_swallow(g, motions.drop_last());
    }
}

} // verus!
