//! Login-autostart state for the GUI (tray + daemon at session start).
//!
//! Packaged installs ship an autostart entry in a system config dir, so
//! autostart is on by default and disabling writes a per-user `Hidden=true`
//! shadow. Without a system entry, enabling writes a full per-user entry and
//! disabling removes it. This module decides; the shell does the file I/O.

use vstd::prelude::*;

use crate::text::{
    chars_of, copy_range, eq_ignore_ascii_case, eq_ignore_case, find_char, lemma_trim_noop,
    is_space, lower_seq, split_once, trim, trimmed,
};

verus! {

/// File name of the autostart entry.
pub const FILE_NAME: &'static str = "superpanels.desktop";

/// The full per-user entry: launches the GUI in tray mode at login, with the
/// WebKitGTK DMABUF workaround in its `Exec=` line.
pub const DESKTOP_BODY: &'static str = "[Desktop Entry]\nType=Application\nName=Superpanels\nComment=Bezel-aware multi-monitor wallpaper manager\nExec=env WEBKIT_DISABLE_DMABUF_RENDERER=1 superpanels-gui --tray\nIcon=superpanels-gui\nCategories=Graphics;Utility;\nTerminal=false\nX-GNOME-Autostart-enabled=true\n";

/// The per-user shadow that suppresses a packaged system entry.
pub const HIDDEN_BODY: &'static str = "[Desktop Entry]\nType=Application\nName=Superpanels\nHidden=true\nX-GNOME-Autostart-enabled=false\n";

/// Whether one `key=value` line turns the entry off: `Hidden=true` or
/// `X-GNOME-Autostart-enabled=false`, keys and values trimmed and compared
/// ASCII-case-insensitively.
pub open spec fn line_disables(line: Seq<char>) -> bool {
    match split_once(line, '=') {
        None => false,
        Some((k, v)) => {
            let (k, v) = (trim(k), trim(v));
            ||| eq_ignore_case(k, "Hidden"@) && eq_ignore_case(v, "true"@)
            ||| eq_ignore_case(k, "X-GNOME-Autostart-enabled"@) && eq_ignore_case(v, "false"@)
        },
    }
}

/// `body[i..j]` is one line: it starts at the beginning of the text or just
/// after a newline, ends at the end or just before a newline, and holds no
/// newline. (A `\r` before the newline stays in the line; the trimming in
/// [`line_disables`] makes that immaterial.)
pub open spec fn is_line(body: Seq<char>, i: int, j: int) -> bool {
    &&& 0 <= i <= j <= body.len()
    &&& (i == 0 || body[i - 1] == '\n')
    &&& (j == body.len() || body[j] == '\n')
    &&& forall|k: int| i <= k < j ==> body[k] != '\n'
}

/// Whether a `.desktop` body marks the entry as off: some line disables it.
pub open spec fn entry_disabled_spec(body: Seq<char>) -> bool {
    exists|i: int, j: int| is_line(body, i, j) && line_disables(body.subrange(i, j))
}

fn line_disables_exec(line: &[char]) -> (r: bool)
    ensures
        r == line_disables(line@),
{
    let n = line.len();
    let eq = match find_char(line, '=') {
        None => return false,
        Some(i) => i,
    };
    assert(eq < n);
    let key = trimmed(copy_range(line, 0, eq).as_slice());
    let value = trimmed(copy_range(line, eq + 1, line.len()).as_slice());
    let hidden = chars_of("Hidden");
    let yes = chars_of("true");
    let gnome = chars_of("X-GNOME-Autostart-enabled");
    let no = chars_of("false");
    (eq_ignore_ascii_case(key.as_slice(), hidden.as_slice()) && eq_ignore_ascii_case(
        value.as_slice(),
        yes.as_slice(),
    )) || (eq_ignore_ascii_case(key.as_slice(), gnome.as_slice()) && eq_ignore_ascii_case(
        value.as_slice(),
        no.as_slice(),
    ))
}

/// Whether a `.desktop` body marks the entry as off (`Hidden=true` or
/// GNOME's `X-GNOME-Autostart-enabled=false` on some line). Parsed leniently
/// so an override written by any desktop's autostart UI is honoured.
pub fn entry_disabled(body: &str) -> (r: bool)
    ensures
        r == entry_disabled_spec(body@),
{
    let cs = chars_of(body);
    let n = cs.len();
    let mut start: usize = 0;
    let mut pos: usize = 0;
    while pos < n
        invariant
            cs@ == body@,
            n == cs@.len(),
            start <= pos <= n,
            start == 0 || cs@[start - 1] == '\n',
            forall|k: int| start <= k < pos ==> cs@[k] != '\n',
            forall|i: int, j: int|
                #![trigger is_line(cs@, i, j)]
                is_line(cs@, i, j) && j < pos ==> !line_disables(cs@.subrange(i, j)),
        decreases n - pos,
    {
        if cs[pos] == '\n' {
            let line = copy_range(cs.as_slice(), start, pos);
            assert(is_line(cs@, start as int, pos as int));
            if line_disables_exec(line.as_slice()) {
                return true;
            }
            assert forall|i: int, j: int|
                #![trigger is_line(cs@, i, j)]
                is_line(cs@, i, j) && j <= pos implies !line_disables(cs@.subrange(i, j)) by {
                if j == pos {
                    if i < start {
                        assert(cs@[start - 1] == '\n');
                    } else if i > start {
                        assert(cs@[i - 1] == '\n');
                    }
                }
            }
            start = pos + 1;
        }
        pos += 1;
    }
    let last = copy_range(cs.as_slice(), start, n);
    assert(is_line(cs@, start as int, n as int));
    if line_disables_exec(last.as_slice()) {
        return true;
    }
    assert forall|i: int, j: int| !(is_line(cs@, i, j) && line_disables(cs@.subrange(i, j))) by {
        if is_line(cs@, i, j) && j == n {
            if i < start {
                assert(cs@[start - 1] == '\n');
            } else if i > start {
                assert(cs@[i - 1] == '\n');
            }
        }
    }
    false
}

/// The effective autostart state: a user entry wins (enabled unless it
/// disables us); without one, autostart is on exactly when a system entry
/// exists. `user_body` is the user entry's text, `None` when it is absent
/// or unreadable.
pub open spec fn effective_enabled_spec(user_body: Option<Seq<char>>, system_present: bool) -> bool {
    match user_body {
        Some(body) => !entry_disabled_spec(body),
        None => system_present,
    }
}

/// The effective autostart state given the user entry's text (if it could
/// be read) and whether a system entry is present.
pub fn effective_enabled(user_body: Option<&str>, system_present: bool) -> (r: bool)
    ensures
        r == effective_enabled_spec(
            match user_body {
                Some(b) => Some(b@),
                None => None,
            },
            system_present,
        ),
{
    match user_body {
        Some(body) => !entry_disabled(body),
        None => system_present,
    }
}

/// What toggling autostart does to the per-user entry file.
#[derive(Debug, Clone, Copy, PartialEq, Eq, Structural)]
pub enum AutostartAction {
    /// Write [`DESKTOP_BODY`]: no system entry to rely on.
    WriteDesktopEntry,
    /// Write [`HIDDEN_BODY`]: suppress the packaged entry.
    WriteHiddenShadow,
    /// Remove the user file if it exists: the system entry (or its absence)
    /// already gives the requested state.
    RemoveUserEntry,
}

/// The file action that sets autostart to `enabled`.
pub fn set_enabled_action(system_present: bool, enabled: bool) -> (a: AutostartAction)
    ensures
        a == (if enabled && !system_present {
            AutostartAction::WriteDesktopEntry
        } else if !enabled && system_present {
            AutostartAction::WriteHiddenShadow
        } else {
            AutostartAction::RemoveUserEntry
        }),
{
    if enabled && !system_present {
        AutostartAction::WriteDesktopEntry
    } else if !enabled && system_present {
        AutostartAction::WriteHiddenShadow
    } else {
        AutostartAction::RemoveUserEntry
    }
}

/// The user file after an action: the body written, or none.
pub open spec fn user_file_after(a: AutostartAction) -> Option<Seq<char>> {
    match a {
        AutostartAction::WriteDesktopEntry => Some(DESKTOP_BODY@),
        AutostartAction::WriteHiddenShadow => Some(HIDDEN_BODY@),
        AutostartAction::RemoveUserEntry => None,
    }
}

/// The hidden shadow does disable the entry.
pub proof fn lemma_hidden_body_disables()
    ensures
        entry_disabled_spec(HIDDEN_BODY@),
{
    reveal_strlit("[Desktop Entry]\nType=Application\nName=Superpanels\nHidden=true\nX-GNOME-Autostart-enabled=false\n");
    reveal_strlit("Hidden");
    reveal_strlit("true");
    let body = HIDDEN_BODY@;
    // "Hidden=true" spans characters 50..61
    let line = body.subrange(50, 61);
    assert(body[49] == '\n');
    assert(body[61] == '\n');
    assert(is_line(body, 50, 61));
    assert(line[6] == '=');
    let k = choose|i: int| 0 <= i < line.len() && line[i] == '=' && forall|m: int|
        0 <= m < i ==> line[m] != '=';
    assert(k == 6) by {
        if k < 6 {
            assert(line[k] != '=');
        } else if k > 6 {
            assert(line[6] != '=');
        }
    }
    let key = line.subrange(0, 6);
    let value = line.subrange(7, 11);
    assert(key =~= "Hidden"@);
    assert(value =~= "true"@);
    lemma_trim_noop(key);
    lemma_trim_noop(value);
    assert(line_disables(line));
}

/// A `key=value` line whose first `=` sits at `e`, with no white space at
/// either end of the key or the value, disables nothing unless its key and
/// value have the lengths of one of the two disabling pairs.
proof fn lemma_line_not_disabling(line: Seq<char>, e: int)
    requires
        0 < e,
        e + 1 < line.len(),
        line[e] == '=',
        forall|m: int| 0 <= m < e ==> line[m] != '=',
        !is_space(line[0]),
        !is_space(line[e - 1]),
        !is_space(line[e + 1]),
        !is_space(line[line.len() - 1]),
        !(e == 6 && line.len() - e - 1 == 4),
        !(e == 25 && line.len() - e - 1 == 5),
    ensures
        !line_disables(line),
{
    reveal_strlit("Hidden");
    reveal_strlit("true");
    reveal_strlit("X-GNOME-Autostart-enabled");
    reveal_strlit("false");
    assert(0 <= e < line.len() && line[e] == '=' && forall|m: int| 0 <= m < e ==> line[m] != '=');
    let k = choose|i: int| 0 <= i < line.len() && line[i] == '=' && forall|m: int|
        0 <= m < i ==> line[m] != '=';
    assert(k == e) by {
        if k < e {
            assert(line[k] != '=');
        } else if k > e {
            assert(line[e] != '=');
        }
    }
    let key = line.subrange(0, e);
    let value = line.subrange(e + 1, line.len() as int);
    assert(split_once(line, '=') == Some((key, value)));
    lemma_trim_noop(key);
    lemma_trim_noop(value);
    assert(lower_seq(key).len() == key.len());
    assert(lower_seq(value).len() == value.len());
    assert(lower_seq("Hidden"@).len() == 6);
    assert(lower_seq("true"@).len() == 4);
    assert(lower_seq("X-GNOME-Autostart-enabled"@).len() == 25);
    assert(lower_seq("false"@).len() == 5);
}

/// The full desktop entry does not disable itself: none of its lines is
/// `Hidden=true` or `X-GNOME-Autostart-enabled=false`.
pub proof fn lemma_desktop_body_enables()
    ensures
        !entry_disabled_spec(DESKTOP_BODY@),
{
    reveal_strlit("[Desktop Entry]\nType=Application\nName=Superpanels\nComment=Bezel-aware multi-monitor wallpaper manager\nExec=env WEBKIT_DISABLE_DMABUF_RENDERER=1 superpanels-gui --tray\nIcon=superpanels-gui\nCategories=Graphics;Utility;\nTerminal=false\nX-GNOME-Autostart-enabled=true\n");
    let body = DESKTOP_BODY@;
    assert(body.len() == 263);
    assert forall|k: int| 0 <= k < 263 && body[k] == '\n' implies k == 15 || k == 32 || k == 49
        || k == 101 || k == 166 || k == 187 || k == 216 || k == 231 || k == 262 by {}
    assert forall|i: int, j: int| is_line(body, i, j) implies !line_disables(
        body.subrange(i, j),
    ) by {
        let line = body.subrange(i, j);
        if i == 0 {
            assert(body[15] == '\n');
            assert(j == 15);
            assert(forall|m: int| 0 <= m < line.len() ==> line[m] != '=');
        } else if i == 16 {
            assert(body[32] == '\n');
            assert(j == 32);
            lemma_line_not_disabling(line, 4);
        } else if i == 33 {
            assert(body[49] == '\n');
            assert(j == 49);
            lemma_line_not_disabling(line, 4);
        } else if i == 50 {
            assert(body[101] == '\n');
            assert(j == 101);
            lemma_line_not_disabling(line, 7);
        } else if i == 102 {
            assert(body[166] == '\n');
            assert(j == 166);
            lemma_line_not_disabling(line, 4);
        } else if i == 167 {
            assert(body[187] == '\n');
            assert(j == 187);
            lemma_line_not_disabling(line, 4);
        } else if i == 188 {
            assert(body[216] == '\n');
            assert(j == 216);
            lemma_line_not_disabling(line, 10);
        } else if i == 217 {
            assert(body[231] == '\n');
            assert(j == 231);
            lemma_line_not_disabling(line, 8);
        } else if i == 232 {
            assert(body[262] == '\n');
            assert(j == 262);
            lemma_line_not_disabling(line, 25);
        } else {
            assert(i == 263 && j == 263);
            assert(line.len() == 0);
        }
    }
}

/// The full desktop entry starts the GUI in tray mode with the WebKitGTK
/// DMABUF renderer switched off: one of its lines is exactly that `Exec=` line.
pub proof fn lemma_desktop_body_exec_line()
    ensures
        exists|i: int, j: int|
            is_line(DESKTOP_BODY@, i, j) && DESKTOP_BODY@.subrange(i, j)
                == "Exec=env WEBKIT_DISABLE_DMABUF_RENDERER=1 superpanels-gui --tray"@,
{
    reveal_strlit("[Desktop Entry]\nType=Application\nName=Superpanels\nComment=Bezel-aware multi-monitor wallpaper manager\nExec=env WEBKIT_DISABLE_DMABUF_RENDERER=1 superpanels-gui --tray\nIcon=superpanels-gui\nCategories=Graphics;Utility;\nTerminal=false\nX-GNOME-Autostart-enabled=true\n");
    reveal_strlit("Exec=env WEBKIT_DISABLE_DMABUF_RENDERER=1 superpanels-gui --tray");
    let body = DESKTOP_BODY@;
    assert(is_line(body, 102, 166));
    assert(body.subrange(102, 166) =~= "Exec=env WEBKIT_DISABLE_DMABUF_RENDERER=1 superpanels-gui --tray"@);
}

/// Toggling autostart reaches the requested state: after the chosen file
/// action, the effective state is `enabled`, whatever the system entry.
pub proof fn law_set_enabled_reaches_request(system_present: bool, enabled: bool)
    ensures
        effective_enabled_spec(
            user_file_after(
                if enabled && !system_present {
                    AutostartAction::WriteDesktopEntry
                } else if !enabled && system_present {
                    AutostartAction::WriteHiddenShadow
                } else {
                    AutostartAction::RemoveUserEntry
                },
            ),
            system_present,
        ) == enabled,
{
    lemma_hidden_body_disables();
    lemma_desktop_body_enables();
}

} // verus!
