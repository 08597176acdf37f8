//! The daemon's decisions around applies and the slideshow: which profile a
//! request targets and why it is refused, when the picker starts over, when
//! the timer fires or re-arms, and what startup re-applies. The I/O and the
//! picker itself run around these in the daemon's tasks.

use vstd::prelude::*;

use crate::pool::{has_path, path_key, same_path};
use crate::text::{decimal, opt_str, opt_view, push_decimal, push_str, str_eq};

verus! {

/// What a profile shows, as the apply and slideshow handlers dispatch on it.
#[derive(Debug, Clone, Copy, PartialEq, Eq, Structural)]
pub enum ProfileKind {
    /// One image spanned across every monitor.
    SpanSingle,
    /// A slideshow spanned across every monitor.
    SpanSlideshow,
    /// One image per monitor.
    PerMonitor,
    /// Layers composited onto the canvas.
    Composite,
}

/// When a profile was created, last changed, and last applied (Unix
/// seconds).
#[derive(Debug, Clone, Copy, PartialEq, Eq, Structural)]
pub struct ProfileStamps {
    pub created_at: i64,
    pub updated_at: i64,
    pub last_applied_at: Option<i64>,
}

/// The part of a stored profile the handlers decide on.
#[derive(Debug, Clone)]
pub struct ProfileSummary {
    pub name: String,
    pub kind: ProfileKind,
    pub stamps: ProfileStamps,
}

/// The names of `ps`, by value.
pub open spec fn names_of(ps: Seq<ProfileSummary>) -> Seq<Seq<char>> {
    ps.map_values(|p: ProfileSummary| p.name@)
}

/// The first index below `n` whose name is `name`.
pub open spec fn first_named_upto(names: Seq<Seq<char>>, name: Seq<char>, n: int) -> Option<int>
    decreases n,
{
    if n <= 0 {
        None
    } else {
        match first_named_upto(names, name, n - 1) {
            Some(i) => Some(i),
            None => if names[n - 1] == name {
                Some(n - 1)
            } else {
                None
            },
        }
    }
}

/// The first profile named `name`, as `Iterator::find` picks it.
pub open spec fn first_named(names: Seq<Seq<char>>, name: Seq<char>) -> Option<int> {
    first_named_upto(names, name, names.len() as int)
}

proof fn lemma_first_named_stays(names: Seq<Seq<char>>, name: Seq<char>, i: int, n: int)
    requires
        0 <= i < n,
        first_named_upto(names, name, i + 1) == Some(i),
    ensures
        first_named_upto(names, name, n) == Some(i),
    decreases n - i,
{
    if n > i + 1 {
        lemma_first_named_stays(names, name, i, n - 1);
    }
}

/// The first found index holds the name and no earlier one does.
pub proof fn lemma_first_named_found(names: Seq<Seq<char>>, name: Seq<char>, n: int)
    requires
        0 <= n <= names.len(),
    ensures
        match first_named_upto(names, name, n) {
            Some(i) => 0 <= i < n && names[i] == name && forall|j: int|
                0 <= j < i ==> names[j] != name,
            None => forall|j: int| 0 <= j < n ==> names[j] != name,
        },
    decreases n,
{
    if n > 0 {
        lemma_first_named_found(names, name, n - 1);
    }
}

/// Find the first profile named `name`.
pub fn find_profile(profiles: &Vec<ProfileSummary>, name: &str) -> (r: Option<usize>)
    ensures
        match first_named(names_of(profiles@), name@) {
            Some(i) => 0 <= i < profiles.len() && r == Some(i as usize),
            None => r is None,
        },
{
    let ghost names = names_of(profiles@);
    let mut i: usize = 0;
    while i < profiles.len()
        invariant
            i <= profiles@.len(),
            names == names_of(profiles@),
            first_named_upto(names, name@, i as int) is None,
        decreases profiles@.len() - i,
    {
        if str_eq(profiles[i].name.as_str(), name) {
            assert(names[i as int] == name@);
            proof {
                lemma_first_named_stays(names, name@, i as int, profiles@.len() as int);
            }
            return Some(i);
        }
        assert(names[i as int] != name@);
        i += 1;
    }
    None
}

/// The profile an `apply_profile` request with name parameter `name`
/// targets, or the message it is refused with.
pub open spec fn apply_target_spec(name: Option<Seq<char>>, ps: Seq<ProfileSummary>) -> Result<
    int,
    Seq<char>,
> {
    match name {
        None => Err("params.name (string) required"@),
        Some(n) => match first_named(names_of(ps), n) {
            Some(i) => Ok(i),
            None => Err("profile '"@ + n + "' not found"@),
        },
    }
}

/// Resolve the profile an `apply_profile` request names.
pub fn apply_target(name: Option<&str>, profiles: &Vec<ProfileSummary>) -> (r: Result<
    usize,
    String,
>)
    ensures
        match apply_target_spec(opt_str(name), profiles@) {
            Ok(i) => r == Ok::<usize, String>(i as usize),
            Err(m) => r matches Err(e) && e@ == m,
        },
{
    match name {
        None => {
            let mut s = String::new();
            push_str(&mut s, "params.name (string) required");
            Err(s)
        },
        Some(n) => match find_profile(profiles, n) {
            Some(i) => Ok(i),
            None => {
                let mut s = String::new();
                push_str(&mut s, "profile '");
                push_str(&mut s, n);
                push_str(&mut s, "' not found");
                Err(s)
            },
        },
    }
}

/// The validity gate of an apply: a profile the evaluation disabled is
/// refused, with its reasons, unless no monitors are known yet (then the
/// gate is skipped and layout reports what matters).
pub fn validity_gate(name: &str, monitors_empty: bool, disabled_reasons: Option<&str>) -> (r:
    Result<(), String>)
    ensures
        (monitors_empty || disabled_reasons is None) ==> r is Ok,
        !monitors_empty && disabled_reasons is Some ==> (r matches Err(m) && m@ == "profile '"@
            + name@ + "' is disabled: "@ + disabled_reasons->0@),
{
    if monitors_empty {
        return Ok(());
    }
    match disabled_reasons {
        None => Ok(()),
        Some(reasons) => {
            let mut s = String::new();
            push_str(&mut s, "profile '");
            push_str(&mut s, name);
            push_str(&mut s, "' is disabled: ");
            push_str(&mut s, reasons);
            Err(s)
        },
    }
}

/// Whether an apply of `name` must drop the current picker: one left over
/// from a different profile carries that profile's config and history.
pub fn picker_must_reset(active: Option<&str>, name: &str) -> (r: bool)
    ensures
        r == (opt_str(active) != Some(name@)),
{
    match active {
        Some(a) => !str_eq(a, name),
        None => true,
    }
}

/// The profile a manual slideshow step (next, goto, previous) works on, or
/// the message it is refused with.
pub open spec fn slideshow_target_spec(active: Option<Seq<char>>, ps: Seq<ProfileSummary>) -> Result<
    int,
    Seq<char>,
> {
    match active {
        None => Err("no active profile"@),
        Some(n) => match first_named(names_of(ps), n) {
            None => Err("active profile no longer in config"@),
            Some(i) => if ps[i].kind == ProfileKind::SpanSlideshow {
                Ok(i)
            } else {
                Err("active profile has no slideshow"@)
            },
        },
    }
}

fn message(m: &str) -> (s: String)
    ensures
        s@ == m@,
{
    let mut s = String::new();
    push_str(&mut s, m);
    s
}

/// Resolve the profile a manual slideshow step works on.
pub fn slideshow_target(active: Option<&str>, profiles: &Vec<ProfileSummary>) -> (r: Result<
    usize,
    String,
>)
    ensures
        match slideshow_target_spec(opt_str(active), profiles@) {
            Ok(i) => r == Ok::<usize, String>(i as usize),
            Err(m) => r matches Err(e) && e@ == m,
        },
{
    let name = match active {
        None => return Err(message("no active profile")),
        Some(n) => n,
    };
    match find_profile(profiles, name) {
        None => Err(message("active profile no longer in config")),
        Some(i) => {
            if profiles[i].kind == ProfileKind::SpanSlideshow {
                Ok(i)
            } else {
                Err(message("active profile has no slideshow"))
            }
        },
    }
}

/// The profile a timer tick advances: none while there is no picker or it
/// is paused, or when the active profile is gone or is no slideshow.
pub open spec fn tick_target_spec(
    picker_paused: Option<bool>,
    active: Option<Seq<char>>,
    ps: Seq<ProfileSummary>,
) -> Option<int> {
    match picker_paused {
        None => None,
        Some(true) => None,
        Some(false) => match slideshow_target_spec(active, ps) {
            Ok(i) => Some(i),
            Err(_) => None,
        },
    }
}

/// Decide what a timer tick advances; `picker_paused` is `None` when no
/// picker exists.
pub fn tick_target(
    picker_paused: Option<bool>,
    active: Option<&str>,
    profiles: &Vec<ProfileSummary>,
) -> (r: Option<usize>)
    ensures
        match tick_target_spec(picker_paused, opt_str(active), profiles@) {
            Some(i) => r == Some(i as usize),
            None => r is None,
        },
{
    match picker_paused {
        None => None,
        Some(true) => None,
        Some(false) => match slideshow_target(active, profiles) {
            Ok(i) => Some(i),
            Err(_) => None,
        },
    }
}

/// Whether a tick must walk the disk for its pool: the cache-only pool is
/// used when it resolved and is non-empty.
pub fn needs_disk_scan(cached_pool: &Option<Vec<String>>) -> (r: bool)
    ensures
        r == match cached_pool {
            Some(p) => p@.len() == 0,
            None => true,
        },
{
    match cached_pool {
        Some(p) => p.len() == 0,
        None => true,
    }
}

/// The paused state a `slideshow_pause` request leaves: the explicit value
/// when given, else the current one toggled; refused without a picker.
pub fn pause_request(explicit: Option<bool>, picker_paused: Option<bool>) -> (r: Result<
    bool,
    String,
>)
    ensures
        picker_paused is None ==> (r matches Err(m) && m@ == "no active slideshow"@),
        picker_paused matches Some(p) ==> r == Ok::<bool, String>(
            match explicit {
                Some(e) => e,
                None => !p,
            },
        ),
{
    match picker_paused {
        None => Err(message("no active slideshow")),
        Some(p) => match explicit {
            Some(e) => Ok(e),
            None => Ok(!p),
        },
    }
}

/// The path a `slideshow_goto` request names, or its refusal.
pub fn goto_path(path: Option<&str>) -> (r: Result<String, String>)
    ensures
        path is None ==> (r matches Err(m) && m@ == "missing 'path' param"@),
        path matches Some(p) ==> (r matches Ok(s) && s@ == p@),
{
    match path {
        None => Err(message("missing 'path' param")),
        Some(p) => Ok(message(p)),
    }
}

/// Whether a profile is a spanned slideshow.
pub open spec fn is_slideshow_named(ps: Seq<ProfileSummary>, name: Seq<char>) -> bool {
    exists|i: int| 0 <= i < ps.len() && #[trigger] ps[i].name@ == name && ps[i].kind
        == ProfileKind::SpanSlideshow
}

/// After an apply of `name`: whether the slideshow runtime must be cleared,
/// so `current_state` stops reporting a slideshow that is no longer shown.
pub fn clears_slideshow_after_apply(profiles: &Vec<ProfileSummary>, name: &str) -> (r: bool)
    ensures
        r == !is_slideshow_named(profiles@, name@),
{
    let mut i: usize = 0;
    while i < profiles.len()
        invariant
            i <= profiles@.len(),
            forall|j: int|
                0 <= j < i ==> !(#[trigger] profiles@[j].name@ == name@ && profiles@[j].kind
                    == ProfileKind::SpanSlideshow),
        decreases profiles@.len() - i,
    {
        if profiles[i].kind == ProfileKind::SpanSlideshow && str_eq(profiles[i].name.as_str(), name) {
            return false;
        }
        i += 1;
    }
    true
}

/// The profile whose config a fresh picker is built from: none when a
/// picker already exists or the named profile is missing or no slideshow.
pub fn picker_source(picker_present: bool, profiles: &Vec<ProfileSummary>, name: &str) -> (r:
    Option<usize>)
    ensures
        picker_present ==> r is None,
        !picker_present ==> match first_named(names_of(profiles@), name@) {
            Some(i) => if profiles@[i].kind == ProfileKind::SpanSlideshow {
                r == Some(i as usize)
            } else {
                r is None
            },
            None => r is None,
        },
{
    if picker_present {
        return None;
    }
    match find_profile(profiles, name) {
        Some(i) => {
            if profiles[i].kind == ProfileKind::SpanSlideshow {
                Some(i)
            } else {
                None
            }
        },
        None => None,
    }
}

/// What the timer does on a tick of the countdown armed with `armed`
/// seconds.
#[derive(Debug, Clone, Copy, PartialEq, Eq, Structural)]
pub enum TickAction {
    /// The control still holds the armed interval: advance the slideshow.
    Advance,
    /// The control changed while the countdown ran: re-arm from it.
    Rearm,
}

/// Decide a countdown tick against the control's current value.
pub fn on_timer_tick(current: Option<u64>, armed: u64) -> (r: TickAction)
    ensures
        r == (if current == Some(armed) {
            TickAction::Advance
        } else {
            TickAction::Rearm
        }),
{
    match current {
        Some(c) => if c == armed {
            TickAction::Advance
        } else {
            TickAction::Rearm
        },
        None => TickAction::Rearm,
    }
}

/// Whether syncing the timer with `interval` publishes it: only a changed
/// interval restarts the countdown, so edits that keep it do not push back
/// the next advance.
pub fn timer_sync_publishes(current: Option<u64>, interval: Option<u64>) -> (r: bool)
    ensures
        r == (current != interval),
{
    match (current, interval) {
        (Some(a), Some(b)) => a != b,
        (None, None) => false,
        _ => true,
    }
}

/// The image a canvas apply shows for a slideshow source: the one on
/// screen (the active picker's newest history entry) when the canvas
/// belongs to the active profile and that image is still in the pool, else
/// the pool's first image.
pub open spec fn canvas_image_spec(
    active_name: Option<Seq<char>>,
    state_active: Option<Seq<char>>,
    on_screen: Option<Seq<char>>,
    pool: Seq<Seq<char>>,
) -> Option<Seq<char>> {
    let shown = match (active_name, on_screen) {
        (Some(n), Some(p)) => if state_active == Some(n) && has_path(pool, p) {
            Some(p)
        } else {
            None
        },
        _ => None,
    };
    match shown {
        Some(p) => Some(p),
        None => if pool.len() > 0 {
            Some(pool[0])
        } else {
            None
        },
    }
}

fn pool_contains(pool: &Vec<String>, p: &str) -> (r: bool)
    ensures
        r == has_path(pool@.map_values(|s: String| s@), p@),
{
    let ghost pv = pool@.map_values(|s: String| s@);
    let mut i: usize = 0;
    while i < pool.len()
        invariant
            i <= pool@.len(),
            pv == pool@.map_values(|s: String| s@),
            forall|j: int| 0 <= j < i ==> path_key(#[trigger] pv[j]) != path_key(p@),
        decreases pool@.len() - i,
    {
        if same_path(pool[i].as_str(), p) {
            assert(path_key(pv[i as int]) == path_key(p@));
            return true;
        }
        i += 1;
    }
    false
}

/// Pick the image a canvas apply shows; `on_screen` is the picker's newest
/// history entry, if there is a picker with history.
pub fn canvas_slideshow_image(
    active_name: Option<&str>,
    state_active: Option<&str>,
    on_screen: Option<&str>,
    pool: &Vec<String>,
) -> (r: Option<String>)
    ensures
        opt_view(r) == canvas_image_spec(
            opt_str(active_name),
            opt_str(state_active),
            opt_str(on_screen),
            pool@.map_values(|s: String| s@),
        ),
{
    if let (Some(n), Some(p)) = (active_name, on_screen) {
        let same = match state_active {
            Some(a) => str_eq(a, n),
            None => false,
        };
        if same && pool_contains(pool, p) {
            return Some(message(p));
        }
    }
    if pool.len() > 0 {
        Some(message(pool[0].as_str()))
    } else {
        None
    }
}

/// The image a canvas apply of a slideshow source shows, or its refusal:
/// `pool` is what resolving the slideshow's sources gave (`None` when it
/// gave nothing), and an empty pool is refused.
pub fn canvas_slideshow_pick(
    active_name: Option<&str>,
    state_active: Option<&str>,
    on_screen: Option<&str>,
    pool: Option<&Vec<String>>,
) -> (r: Result<String, String>)
    ensures
        match pool {
            None => r matches Err(m) && m@ == "slideshow pool is empty"@,
            Some(p) => match canvas_image_spec(
                opt_str(active_name),
                opt_str(state_active),
                opt_str(on_screen),
                p@.map_values(|s: String| s@),
            ) {
                Some(img) => r matches Ok(s) && s@ == img,
                None => r matches Err(m) && m@ == "slideshow pool is empty"@,
            },
        },
{
    let p = match pool {
        None => return Err(message("slideshow pool is empty")),
        Some(p) => p,
    };
    match canvas_slideshow_image(active_name, state_active, on_screen, p) {
        Some(img) => Ok(img),
        None => Err(message("slideshow pool is empty")),
    }
}

/// A canvas apply needs the canvas itself: the `profile` parameter, or the
/// refusal when the request has none.
pub fn canvas_profile_param<T>(profile: Option<T>) -> (r: Result<T, String>)
    ensures
        match profile {
            Some(v) => r matches Ok(w) && w == v,
            None => r matches Err(m) && m@ == "params.profile required"@,
        },
{
    match profile {
        Some(v) => Ok(v),
        None => Err(message("params.profile required")),
    }
}

/// The image a "previous" step shows: the one the picker stepped back to,
/// or the refusal when its history holds no earlier image.
pub fn previous_image(stepped_back: Option<String>) -> (r: Result<String, String>)
    ensures
        match stepped_back {
            Some(p) => r matches Ok(q) && q@ == p@,
            None => r matches Err(m) && m@ == "no previous image in history"@,
        },
{
    match stepped_back {
        Some(p) => Ok(p),
        None => Err(message("no previous image in history")),
    }
}

/// The profile the boot catch-up applies: the schedule's target unless it
/// is already the active profile.
pub fn catch_up_apply(target: Option<String>, active: Option<&str>) -> (r: Option<String>)
    ensures
        match target {
            Some(t) => if opt_str(active) == Some(t@) {
                r is None
            } else {
                r == Some(t)
            },
            None => r is None,
        },
{
    match target {
        None => None,
        Some(t) => {
            let same = match active {
                Some(a) => str_eq(a, t.as_str()),
                None => false,
            };
            if same {
                None
            } else {
                Some(t)
            }
        },
    }
}

/// How many times startup tries to apply the initial profile.
pub const STARTUP_ATTEMPTS: usize = 3;

/// The wait before startup attempt `attempt` (counted from 0): 500, 1500
/// and 3000 ms, about 0.5 s, 2 s and 5 s after boot in all, so a compositor
/// still starting at login gets time to come up.
pub open spec fn startup_delay_spec(attempt: int) -> u64 {
    if attempt == 0 {
        500
    } else if attempt == 1 {
        1500
    } else {
        3000
    }
}

/// The wait before startup attempt `attempt`.
pub fn startup_delay_ms(attempt: usize) -> (ms: u64)
    requires
        attempt < STARTUP_ATTEMPTS,
    ensures
        ms == startup_delay_spec(attempt as int),
{
    if attempt == 0 {
        500
    } else if attempt == 1 {
        1500
    } else {
        3000
    }
}

/// What follows a startup apply attempt.
#[derive(Debug, Clone, Copy, PartialEq, Eq, Structural)]
pub enum StartupStep {
    /// The apply succeeded.
    Done,
    /// It failed; wait and try again.
    Retry { delay_ms: u64 },
    /// It failed on the last attempt: warn and stop.
    GiveUp,
}

/// Decide after startup attempt `attempt` (from 0) came back `ok` or not.
pub fn startup_step(attempt: usize, ok: bool) -> (r: StartupStep)
    requires
        attempt < STARTUP_ATTEMPTS,
    ensures
        ok ==> r == StartupStep::Done,
        !ok && attempt + 1 == STARTUP_ATTEMPTS ==> r == StartupStep::GiveUp,
        !ok && attempt + 1 < STARTUP_ATTEMPTS ==> r == (StartupStep::Retry {
            delay_ms: startup_delay_spec(attempt + 1),
        }),
{
    if ok {
        StartupStep::Done
    } else if attempt + 1 == STARTUP_ATTEMPTS {
        StartupStep::GiveUp
    } else {
        StartupStep::Retry { delay_ms: startup_delay_ms(attempt + 1) }
    }
}

/// A slideshow step is refused exactly when the timer would skip the
/// active profile too: a tick with an unpaused picker advances the profile
/// a manual step would, and nothing else.
pub proof fn law_tick_agrees_with_manual_step(active: Option<Seq<char>>, ps: Seq<ProfileSummary>)
    ensures
        tick_target_spec(Some(false), active, ps) == match slideshow_target_spec(active, ps) {
            Ok(i) => Some(i),
            Err(_) => None::<int>,
        },
        tick_target_spec(Some(true), active, ps) is None,
        tick_target_spec(None, active, ps) is None,
{
}

/// A canvas apply never shows an image outside the pool (paths compared as
/// `Path`'s `==` compares them), and shows one whenever the pool is not
/// empty.
pub proof fn law_canvas_image_in_pool(
    active_name: Option<Seq<char>>,
    state_active: Option<Seq<char>>,
    on_screen: Option<Seq<char>>,
    pool: Seq<Seq<char>>,
)
    ensures
        match canvas_image_spec(active_name, state_active, on_screen, pool) {
            Some(p) => has_path(pool, p),
            None => pool.len() == 0,
        },
{
    if pool.len() > 0 {
        assert(path_key(pool[0]) == path_key(pool[0]));
    }
}

/// How the daemon answers a framed request before dispatching it: a body
/// that is no request, or one of another protocol version, gets a failure
/// reply and the connection stays open for the next frame.
pub open spec fn request_gate_spec(parsed: Result<u64, Seq<char>>, expected: u64) -> Result<
    (),
    Seq<char>,
> {
    match parsed {
        Err(e) => Err("malformed request: "@ + e),
        Ok(v) => if v == expected {
            Ok(())
        } else {
            Err("unsupported protocol version "@ + decimal(v as nat) + "; expected "@ + decimal(
                expected as nat,
            ))
        },
    }
}

/// Screen a framed request: `parsed` is its protocol version, or the parse
/// error's text when the body is no request.
pub fn request_gate(parsed: Result<u64, String>, expected: u64) -> (r: Result<(), String>)
    ensures
        match request_gate_spec(
            match parsed {
                Ok(v) => Ok(v),
                Err(e) => Err(e@),
            },
            expected,
        ) {
            Ok(()) => r is Ok,
            Err(m) => r matches Err(s) && s@ == m,
        },
{
    match parsed {
        Err(e) => {
            let mut s = String::new();
            push_str(&mut s, "malformed request: ");
            push_str(&mut s, e.as_str());
            Err(s)
        },
        Ok(v) => if v == expected {
            Ok(())
        } else {
            let mut s = String::new();
            push_str(&mut s, "unsupported protocol version ");
            push_decimal(&mut s, v);
            push_str(&mut s, "; expected ");
            push_decimal(&mut s, expected);
            Err(s)
        },
    }
}

/// The reply to a `wait_for_monitor_change` long poll: refused when the push
/// channel was never set up, else whether anything (a change, or a lagged
/// or closed channel, all of which call for a re-check) arrived before the
/// safety timeout.
pub fn monitor_wait_reply(channel_present: bool, arrived_before_timeout: bool) -> (r: Result<
    bool,
    String,
>)
    ensures
        !channel_present ==> (r matches Err(m) && m@ == "OS-rotation push channel not initialised"@),
        channel_present ==> r == Ok::<bool, String>(arrived_before_timeout),
{
    if !channel_present {
        return Err(message("OS-rotation push channel not initialised"));
    }
    Ok(arrived_before_timeout)
}

/// What a source update does to the live slideshow picker.
#[derive(Debug, Clone, Copy, PartialEq, Eq, Structural)]
pub enum PickerChange {
    /// Leave it as it is (the updated profile is not the active one, or no
    /// slideshow runs either way).
    Keep,
    /// Hand the running picker the new source's settings; its history is
    /// cut to the new history size.
    Retune,
    /// Start a picker: the active profile became (or first runs as) a
    /// slideshow.
    Create,
    /// Drop the picker: the active profile no longer shows a slideshow.
    Drop,
}

/// The effects of replacing a profile's source on the live runtime.
#[derive(Debug, Clone, Copy, PartialEq, Eq, Structural)]
pub struct SourceUpdatePlan {
    pub picker: PickerChange,
    /// Whether the timer is sent the new interval.
    pub publish_timer: bool,
}

/// Plan a source update. `new_interval` is the new source's slideshow
/// interval in seconds (`None` for a single image) and `timer_current` the
/// interval the timer runs at. Only the active profile's runtime changes,
/// and the timer is told only when its interval changes, so an edit that
/// keeps the interval does not push back the next advance.
pub fn source_update_plan(
    profile_is_active: bool,
    picker_present: bool,
    new_interval: Option<u64>,
    timer_current: Option<u64>,
) -> (p: SourceUpdatePlan)
    ensures
        !profile_is_active ==> p.picker == PickerChange::Keep && !p.publish_timer,
        profile_is_active ==> p.publish_timer == (timer_current != new_interval),
        profile_is_active ==> p.picker == (match (new_interval, picker_present) {
            (Some(_), true) => PickerChange::Retune,
            (Some(_), false) => PickerChange::Create,
            (None, true) => PickerChange::Drop,
            (None, false) => PickerChange::Keep,
        }),
{
    if !profile_is_active {
        return SourceUpdatePlan { picker: PickerChange::Keep, publish_timer: false };
    }
    let picker = match (new_interval, picker_present) {
        (Some(_), true) => PickerChange::Retune,
        (Some(_), false) => PickerChange::Create,
        (None, true) => PickerChange::Drop,
        (None, false) => PickerChange::Keep,
    };
    SourceUpdatePlan { picker, publish_timer: timer_sync_publishes(timer_current, new_interval) }
}

} // verus!
