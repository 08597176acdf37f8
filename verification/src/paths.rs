//! Where the project keeps its files: the XDG base directories with their
//! `$HOME` fallbacks, joined the way a Unix path is joined, and file names
//! made safe for a cache directory.

use vstd::prelude::*;

use crate::errors::IpcError;
use crate::text::{chars_of, opt_str, opt_view, push_char, push_str};

verus! {

/// `base` joined with `part` as a Unix `PathBuf::push` joins them: an
/// absolute `part` replaces `base`; otherwise a `/` goes between them unless
/// `base` is empty or already ends in one.
pub open spec fn join_spec(base: Seq<char>, part: Seq<char>) -> Seq<char> {
    if part.len() > 0 && part[0] == '/' {
        part
    } else if base.len() == 0 || base.last() == '/' {
        base + part
    } else {
        base + "/"@ + part
    }
}

/// Join `part` onto `base`.
pub fn join(base: &str, part: &str) -> (r: String)
    ensures
        r@ == join_spec(base@, part@),
{
    let b = chars_of(base);
    let p = chars_of(part);
    let mut r = String::new();
    if p.len() > 0 && p[0] == '/' {
        push_str(&mut r, part);
        return r;
    }
    push_str(&mut r, base);
    if b.len() > 0 && b[b.len() - 1] != '/' {
        push_char(&mut r, '/');
        assert(seq!['/'] =~= "/"@) by {
            reveal_strlit("/");
        }
    }
    push_str(&mut r, part);
    r
}

/// An XDG base directory: the variable's value when it is set and not
/// empty, else `rel` under `$HOME`, else nothing.
pub open spec fn xdg_or_home(var: Option<Seq<char>>, home: Option<Seq<char>>, rel: Seq<char>) -> Option<
    Seq<char>,
> {
    match var {
        Some(v) if v.len() > 0 => Some(v),
        _ => match home {
            Some(h) => Some(join_spec(h, rel)),
            None => None,
        },
    }
}

/// Resolve an XDG base directory from the variable's value and `$HOME`.
pub fn xdg_base(var: Option<&str>, home: Option<&str>, rel: &str) -> (r: Option<String>)
    ensures
        opt_view(r) == xdg_or_home(opt_str(var), opt_str(home), rel@),
{
    if let Some(v) = var {
        if chars_of(v).len() > 0 {
            let mut s = String::new();
            push_str(&mut s, v);
            return Some(s);
        }
    }
    match home {
        Some(h) => Some(join(h, rel)),
        None => None,
    }
}

/// The project's state directory: `$XDG_STATE_HOME/superpanels`, else
/// `~/.local/state/superpanels`.
pub open spec fn state_dir_spec(xdg_state_home: Option<Seq<char>>, home: Option<Seq<char>>) -> Option<
    Seq<char>,
> {
    match xdg_or_home(xdg_state_home, home, ".local/state"@) {
        Some(b) => Some(join_spec(b, "superpanels"@)),
        None => None,
    }
}

/// Resolve the state directory (window geometry, slideshow state).
pub fn state_dir(xdg_state_home: Option<&str>, home: Option<&str>) -> (r: Option<String>)
    ensures
        opt_view(r) == state_dir_spec(opt_str(xdg_state_home), opt_str(home)),
{
    match xdg_base(xdg_state_home, home, ".local/state") {
        Some(b) => Some(join(b.as_str(), "superpanels")),
        None => None,
    }
}

/// The library database directory: `$XDG_DATA_HOME/superpanels`, else
/// `~/.local/share/superpanels`.
pub fn library_data_dir(xdg_data_home: Option<&str>, home: Option<&str>) -> (r: Option<String>)
    ensures
        opt_view(r) == match xdg_or_home(
            opt_str(xdg_data_home),
            opt_str(home),
            ".local/share"@,
        ) {
            Some(b) => Some(join_spec(b, "superpanels"@)),
            None => None,
        },
{
    match xdg_base(xdg_data_home, home, ".local/share") {
        Some(b) => Some(join(b.as_str(), "superpanels")),
        None => None,
    }
}

/// The user data directory (`$XDG_DATA_HOME`, else `~/.local/share`), or
/// an internal error when neither variable is set.
pub fn data_dir(xdg_data_home: Option<&str>, home: Option<&str>) -> (r: Result<String, IpcError>)
    ensures
        match xdg_or_home(opt_str(xdg_data_home), opt_str(home), ".local/share"@) {
            Some(d) => r matches Ok(s) && s@ == d,
            None => r matches Err(IpcError::Internal(m)) && m@
                == "neither $XDG_DATA_HOME nor $HOME is set"@,
        },
{
    match xdg_base(xdg_data_home, home, ".local/share") {
        Some(d) => Ok(d),
        None => Err(IpcError::internal("neither $XDG_DATA_HOME nor $HOME is set")),
    }
}

/// The login-autostart directory (`$XDG_CONFIG_HOME/autostart`, else
/// `~/.config/autostart`), or an internal error when neither variable is
/// set.
pub fn autostart_dir(xdg_config_home: Option<&str>, home: Option<&str>) -> (r: Result<
    String,
    IpcError,
>)
    ensures
        match xdg_or_home(opt_str(xdg_config_home), opt_str(home), ".config"@) {
            Some(b) => r matches Ok(s) && s@ == join_spec(b, "autostart"@),
            None => r matches Err(IpcError::Internal(m)) && m@
                == "neither $XDG_CONFIG_HOME nor $HOME is set"@,
        },
{
    match xdg_base(xdg_config_home, home, ".config") {
        Some(b) => Ok(join(b.as_str(), "autostart")),
        None => Err(IpcError::internal("neither $XDG_CONFIG_HOME nor $HOME is set")),
    }
}

/// The systemd user unit directory (`$XDG_CONFIG_HOME/systemd/user`, else
/// `~/.config/systemd/user`), or the reason it cannot be found.
pub fn unit_dir(xdg_config_home: Option<&str>, home: Option<&str>) -> (r: Result<String, String>)
    ensures
        match xdg_or_home(opt_str(xdg_config_home), opt_str(home), ".config"@) {
            Some(b) => r matches Ok(s) && s@ == join_spec(b, "systemd/user"@),
            None => r matches Err(m) && m@
                == "could not determine systemd user unit directory ($HOME not set)"@,
        },
{
    match xdg_base(xdg_config_home, home, ".config") {
        Some(b) => Ok(join(b.as_str(), "systemd/user")),
        None => {
            let mut m = String::new();
            push_str(&mut m, "could not determine systemd user unit directory ($HOME not set)");
            Err(m)
        },
    }
}

/// Whether a character may stay in a cache file name.
pub open spec fn filename_safe(c: char) -> bool {
    ('a' <= c <= 'z') || ('A' <= c <= 'Z') || ('0' <= c <= '9') || c == '.' || c == '_' || c
        == '-'
}

/// `name` with every character outside `[A-Za-z0-9._-]` replaced by `_`.
pub open spec fn sanitised(name: Seq<char>) -> Seq<char> {
    name.map_values(|c: char| if filename_safe(c) { c } else { '_' })
}

/// Make `name` safe as a file name: no path separators, nothing but ASCII
/// letters, digits, `.`, `_` and `-`.
pub fn sanitise_filename(name: &str) -> (r: String)
    ensures
        r@ == sanitised(name@),
{
    let cs = chars_of(name);
    let mut r = String::new();
    let mut i: usize = 0;
    while i < cs.len()
        invariant
            i <= cs@.len(),
            cs@ == name@,
            r@ == sanitised(name@.take(i as int)),
        decreases cs@.len() - i,
    {
        let c = cs[i];
        let safe = ('a' <= c && c <= 'z') || ('A' <= c && c <= 'Z') || ('0' <= c && c <= '9')
            || c == '.' || c == '_' || c == '-';
        if safe {
            push_char(&mut r, c);
        } else {
            push_char(&mut r, '_');
        }
        assert(sanitised(name@.take(i as int + 1)) =~= sanitised(name@.take(i as int)).push(
            if filename_safe(c) {
                c
            } else {
                '_'
            },
        ));
        i += 1;
    }
    assert(name@.take(cs@.len() as int) =~= name@);
    r
}

/// A sanitised name has no path separator, so it never leaves the cache
/// directory, and keeps the name's length.
pub proof fn law_sanitised_has_no_separator(name: Seq<char>)
    ensures
        sanitised(name).len() == name.len(),
        forall|i: int| 0 <= i < name.len() ==> #[trigger] sanitised(name)[i] != '/',
        forall|i: int| 0 <= i < name.len() ==> filename_safe(#[trigger] sanitised(name)[i]),
{
}

/// The daemon binary's name.
pub const DAEMON_BIN: &'static str = "superpanels-daemon";

/// The daemon binary to launch: the sibling of the running executable when
/// it exists there, else the bare name for a `$PATH` lookup.
pub fn daemon_exe(sibling: Option<&str>, sibling_exists: bool) -> (r: String)
    ensures
        r@ == match sibling {
            Some(s) if sibling_exists => s@,
            _ => DAEMON_BIN@,
        },
{
    let mut r = String::new();
    match sibling {
        Some(s) if sibling_exists => push_str(&mut r, s),
        _ => push_str(&mut r, DAEMON_BIN),
    }
    r
}

} // verus!
