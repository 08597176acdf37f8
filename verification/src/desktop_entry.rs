//! The app-menu `.desktop` entry that gives the window its taskbar icon on
//! Wayland, where the compositor matches the window's `app_id` against an
//! installed `<app_id>.desktop` entry.

use vstd::prelude::*;

use crate::text::{chars_of, push_char, push_str};

verus! {

/// The Wayland `app_id` (the binary name) and the entry's icon name.
pub const APP_ID: &'static str = "superpanels-gui";

/// Whether `c` may stand unquoted in an `Exec=` path.
pub open spec fn exec_plain_char(c: char) -> bool {
    ||| 'a' <= c && c <= 'z'
    ||| 'A' <= c && c <= 'Z'
    ||| '0' <= c && c <= '9'
    ||| c == '/' || c == '_' || c == '.' || c == '-' || c == '+'
}

/// Whether `c` must be backslash-escaped inside a quoted `Exec=` argument.
pub open spec fn exec_escaped_char(c: char) -> bool {
    c == '\\' || c == '"' || c == '`' || c == '$'
}

/// The escaped form of a text: a backslash before each of `\ " ` $`.
pub open spec fn exec_escape(s: Seq<char>) -> Seq<char>
    decreases s.len(),
{
    if s.len() == 0 {
        Seq::empty()
    } else {
        let c = s.last();
        exec_escape(s.drop_last()) + if exec_escaped_char(c) {
            seq!['\\', c]
        } else {
            seq![c]
        }
    }
}

/// A path quoted per the desktop-entry `Exec` rules: plain paths pass
/// through; anything else is double-quoted with `\ " ` $` escaped.
pub open spec fn quote_exec_spec(path: Seq<char>) -> Seq<char> {
    if forall|i: int| 0 <= i < path.len() ==> exec_plain_char(#[trigger] path[i]) {
        path
    } else {
        seq!['"'] + exec_escape(path) + seq!['"']
    }
}

fn is_plain_char(c: char) -> (r: bool)
    ensures
        r == exec_plain_char(c),
{
    ('a' <= c && c <= 'z') || ('A' <= c && c <= 'Z') || ('0' <= c && c <= '9') || c == '/' || c
        == '_' || c == '.' || c == '-' || c == '+'
}

/// Quote a path for the desktop-entry `Exec` key.
pub fn quote_exec_path(path: &str) -> (out: String)
    ensures
        out@ == quote_exec_spec(path@),
{
    let cs = chars_of(path);
    let mut plain = true;
    let mut i: usize = 0;
    while i < cs.len()
        invariant
            cs@ == path@,
            i <= cs@.len(),
            plain == forall|k: int| 0 <= k < i ==> exec_plain_char(#[trigger] cs@[k]),
        decreases cs@.len() - i,
    {
        if !is_plain_char(cs[i]) {
            plain = false;
        }
        i += 1;
    }
    if plain {
        let mut out = String::new();
        push_str(&mut out, path);
        assert(out@ =~= path@);
        return out;
    }
    let mut out = String::new();
    push_char(&mut out, '"');
    let mut j: usize = 0;
    while j < cs.len()
        invariant
            cs@ == path@,
            j <= cs@.len(),
            out@ == seq!['"'] + exec_escape(cs@.take(j as int)),
        decreases cs@.len() - j,
    {
        let c = cs[j];
        if c == '\\' || c == '"' || c == '`' || c == '$' {
            push_char(&mut out, '\\');
        }
        push_char(&mut out, c);
        proof {
            let t = cs@.take(j as int + 1);
            assert(t.drop_last() =~= cs@.take(j as int));
            assert(t.last() == c);
        }
        j += 1;
    }
    assert(cs@.take(cs@.len() as int) =~= cs@);
    push_char(&mut out, '"');
    out
}

/// The desktop entry text for a launcher `Exec=` value.
pub open spec fn desktop_body_spec(exec: Seq<char>) -> Seq<char> {
    "[Desktop Entry]\nType=Application\nName=Superpanels\nComment=Bezel-aware multi-monitor wallpaper manager\nExec="@
        + exec + "\nIcon="@ + APP_ID@ + "\nCategories=Graphics;Utility;\nTerminal=false\nStartupWMClass="@
        + APP_ID@ + "\n"@
}

/// The app-menu desktop entry. `Exec=` runs the binary directly (the DMABUF
/// workaround is applied by the binary itself), and `Icon=` and
/// `StartupWMClass=` name the Wayland `app_id`.
pub fn desktop_body(exec: &str) -> (out: String)
    ensures
        out@ == desktop_body_spec(exec@),
{
    let mut out = String::new();
    push_str(
        &mut out,
        "[Desktop Entry]\nType=Application\nName=Superpanels\nComment=Bezel-aware multi-monitor wallpaper manager\nExec=",
    );
    push_str(&mut out, exec);
    push_str(&mut out, "\nIcon=");
    push_str(&mut out, APP_ID);
    push_str(&mut out, "\nCategories=Graphics;Utility;\nTerminal=false\nStartupWMClass=");
    push_str(&mut out, APP_ID);
    push_str(&mut out, "\n");
    out
}

/// The `Exec=` value for the running binary: its path, quoted, or the bare
/// app id when the path could not be resolved.
pub fn exec_value(current_exe: Option<&str>) -> (out: String)
    ensures
        out@ == match current_exe {
            Some(p) => quote_exec_spec(p@),
            None => APP_ID@,
        },
{
    match current_exe {
        Some(p) => quote_exec_path(p),
        None => {
            let mut s = String::new();
            push_str(&mut s, APP_ID);
            s
        },
    }
}

/// Whether a file must be (re)written: only when its current bytes could
/// not be read or differ from the wanted ones, so repeat launches are no-ops.
pub fn needs_write(current: Option<&[u8]>, wanted: &[u8]) -> (r: bool)
    ensures
        r == match current {
            Some(c) => c@ != wanted@,
            None => true,
        },
{
    match current {
        None => true,
        Some(c) => {
            if c.len() != wanted.len() {
                return true;
            }
            let mut i: usize = 0;
            while i < c.len()
                invariant
                    current == Some(c),
                    c@.len() == wanted@.len(),
                    i <= c@.len(),
                    forall|k: int| 0 <= k < i ==> c@[k] == wanted@[k],
                decreases c@.len() - i,
            {
                if c[i] != wanted[i] {
                    assert(c@[i as int] != wanted@[i as int]);
                    return true;
                }
                i += 1;
            }
            assert(c@ =~= wanted@);
            false
        },
    }
}

} // verus!
