//! Whether to re-exec the GUI with the NVIDIA-on-Wayland WebKitGTK
//! workarounds. They are warranted only on a Wayland session with a sign
//! that NVIDIA drives the GL stack; elsewhere they force a slow render path.
//! An explicit `WEBKIT_DISABLE_DMABUF_RENDERER` setting always wins.

use vstd::prelude::*;

use crate::text::{
    chars_of, contains_chars, contains_seq, eq_ignore_ascii_case, eq_ignore_case, lower_chars,
    lower_seq,
};

verus! {

/// The variable that disables the DMABUF renderer; also the re-exec sentinel.
pub const DMABUF_VAR: &'static str = "WEBKIT_DISABLE_DMABUF_RENDERER";

/// NVIDIA's explicit-sync switch, set alongside.
pub const EXPLICIT_SYNC_VAR: &'static str = "__NV_DISABLE_EXPLICIT_SYNC";

/// Session facts the decision reads.
#[derive(Debug, Clone, Copy, PartialEq, Eq, Structural)]
pub struct Facts {
    pub wayland: bool,
    pub nvidia: bool,
}

/// Any single probe is an NVIDIA signal: the GLX vendor hint, a device
/// node, or the loaded kernel module.
pub fn nvidia_signal(glx_vendor_nvidia: bool, dev_node: bool, module_loaded: bool) -> (r: bool)
    ensures
        r == (glx_vendor_nvidia || dev_node || module_loaded),
{
    glx_vendor_nvidia || dev_node || module_loaded
}

/// The Wayland test: `XDG_SESSION_TYPE` is `wayland` (any case), or
/// `WAYLAND_DISPLAY` is non-empty, or the default `wayland-0` socket exists.
pub open spec fn wayland_session_spec(
    session_type: Option<Seq<char>>,
    wayland_display: Option<Seq<char>>,
    default_socket_exists: bool,
) -> bool {
    ||| session_type matches Some(t) && eq_ignore_case(t, "wayland"@)
    ||| wayland_display matches Some(d) && d.len() > 0
    ||| default_socket_exists
}

/// Whether the session looks like Wayland.
pub fn wayland_session(
    session_type: Option<&str>,
    wayland_display: Option<&str>,
    default_socket_exists: bool,
) -> (r: bool)
    ensures
        r == wayland_session_spec(
            match session_type {
                Some(t) => Some(t@),
                None => None,
            },
            match wayland_display {
                Some(d) => Some(d@),
                None => None,
            },
            default_socket_exists,
        ),
{
    let by_type = match session_type {
        Some(t) => {
            let cs = chars_of(t);
            let w = chars_of("wayland");
            eq_ignore_ascii_case(cs.as_slice(), w.as_slice())
        },
        None => false,
    };
    let by_display = match wayland_display {
        Some(d) => {
            let cs = chars_of(d);
            cs.len() > 0
        },
        None => false,
    };
    by_type || by_display || default_socket_exists
}

/// The workaround is warranted only on Wayland with an NVIDIA signal.
pub fn warranted(f: &Facts) -> (r: bool)
    ensures
        r == (f.wayland && f.nvidia),
{
    f.wayland && f.nvidia
}

/// Whether to re-exec with the workaround: not when the user (or a previous
/// re-exec) already set the variable, else exactly when warranted.
pub fn should_reexec(dmabuf_var_set: bool, facts: &Facts) -> (r: bool)
    ensures
        r == (!dmabuf_var_set && facts.wayland && facts.nvidia),
{
    if dmabuf_var_set {
        return false;
    }
    warranted(facts)
}

/// Whether an environment value, lower-cased, contains `needle`.
pub fn env_contains_ignore_case(value: Option<&str>, needle: &str) -> (r: bool)
    ensures
        r == match value {
            Some(v) => contains_seq(lower_seq(v@), needle@),
            None => false,
        },
{
    match value {
        None => false,
        Some(v) => {
            let cs = chars_of(v);
            let lowered = lower_chars(cs.as_slice());
            let n = chars_of(needle);
            contains_chars(lowered.as_slice(), n.as_slice())
        },
    }
}

} // verus!
