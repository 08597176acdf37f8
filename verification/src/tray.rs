//! System-tray logic: the menu the tray shows, the cache signatures that
//! suppress no-op rebuilds, the tooltip text, menu-event routing, and the
//! persisted icon style.

use vstd::prelude::*;

use crate::app_state::RuntimeSnapshot;
use crate::text::{
    bool_text, chars_of, join, opt_view, push_joined, push_str, str_eq, strip_prefix_chars, string_of,
};

verus! {

/// Menu id of "Next".
pub const ID_NEXT: &'static str = "tray.slideshow.next";

/// Menu id of "Previous".
pub const ID_PREV: &'static str = "tray.slideshow.prev";

/// Menu id of the pause/resume toggle.
pub const ID_PAUSE: &'static str = "tray.slideshow.pause";

/// Menu id of "Open Superpanels".
pub const ID_OPEN: &'static str = "tray.open";

/// Menu id of "Settings…".
pub const ID_SETTINGS: &'static str = "tray.settings";

/// Menu id of "Quit".
pub const ID_QUIT: &'static str = "tray.quit";

/// Prefix of the per-profile menu ids.
pub const PROFILE_PREFIX: &'static str = "tray.profile.";

/// Menu id of the disabled "(no profiles)" placeholder.
pub const ID_NO_PROFILES: &'static str = "tray.profile.empty";

/// The text a `String` option holds, or the empty text.
pub open spec fn opt_text(o: Option<String>, default: Seq<char>) -> Seq<char> {
    match o {
        Some(s) => s@,
        None => default,
    }
}

/// The menu-rebuild key: active profile, pause state and the profile list.
/// The on-screen file name is deliberately absent, so a slideshow advance
/// does not rebuild the menu.
pub open spec fn menu_signature_spec(snap: RuntimeSnapshot, profiles: Seq<Seq<char>>) -> Seq<char> {
    opt_text(snap.active_profile, Seq::empty()) + "|"@ + bool_text(snap.paused) + "|"@ + join(
        profiles,
        "\n"@,
    )
}

/// The menu signature `"{active}|{paused}|{profiles joined by newline}"`.
pub fn menu_signature(snap: &RuntimeSnapshot, profiles: &Vec<String>) -> (sig: String)
    ensures
        sig@ == menu_signature_spec(*snap, profiles@.map_values(|p: String| p@)),
{
    let mut sig = String::new();
    if let Some(a) = &snap.active_profile {
        push_str(&mut sig, a.as_str());
    }
    push_str(&mut sig, "|");
    if snap.paused {
        push_str(&mut sig, "true");
    } else {
        push_str(&mut sig, "false");
    }
    push_str(&mut sig, "|");
    push_joined(&mut sig, profiles, "\n");
    sig
}

/// The tooltip: `Superpanels — <profile>` plus ` — <file>` when a file is
/// on screen; `(no profile)` stands in for a missing profile.
pub open spec fn tooltip_spec(snap: RuntimeSnapshot) -> Seq<char> {
    let profile = opt_text(snap.active_profile, "(no profile)"@);
    match snap.current_filename {
        Some(f) => "Superpanels — "@ + profile + " — "@ + f@,
        None => "Superpanels — "@ + profile,
    }
}

/// The tray tooltip for a snapshot.
pub fn tooltip_for(snap: &RuntimeSnapshot) -> (t: String)
    ensures
        t@ == tooltip_spec(*snap),
{
    let mut t = String::new();
    push_str(&mut t, "Superpanels — ");
    match &snap.active_profile {
        Some(p) => push_str(&mut t, p.as_str()),
        None => push_str(&mut t, "(no profile)"),
    }
    if let Some(f) = &snap.current_filename {
        push_str(&mut t, " — ");
        push_str(&mut t, f.as_str());
    }
    t
}

/// The profile named by a `tray.profile.<name>` menu id: the whole suffix
/// after the prefix, unless it is empty or the `empty` placeholder.
pub open spec fn profile_of_menu_id(id: Seq<char>) -> Option<Seq<char>> {
    let prefix = PROFILE_PREFIX@;
    if prefix.len() <= id.len() && id.subrange(0, prefix.len() as int) == prefix {
        let suffix = id.subrange(prefix.len() as int, id.len() as int);
        if suffix.len() == 0 || suffix == "empty"@ {
            None
        } else {
            Some(suffix)
        }
    } else {
        None
    }
}

/// Parse a `tray.profile.<name>` menu id.
pub fn parse_profile_menu_id(id: &str) -> (r: Option<String>)
    ensures
        match r {
            Some(name) => profile_of_menu_id(id@) == Some(name@),
            None => profile_of_menu_id(id@) is None,
        },
{
    let cs = chars_of(id);
    let prefix = chars_of(PROFILE_PREFIX);
    let suffix = match strip_prefix_chars(cs.as_slice(), prefix.as_slice()) {
        Some(s) => s,
        None => return None,
    };
    let empty = chars_of("empty");
    if suffix.len() == 0 || crate::text::chars_eq(suffix.as_slice(), empty.as_slice()) {
        return None;
    }
    Some(string_of(suffix.as_slice()))
}

/// The menu id of the entry for profile `name`.
pub open spec fn profile_menu_id(name: Seq<char>) -> Seq<char> {
    PROFILE_PREFIX@ + name
}

/// The menu id of a profile entry, `tray.profile.<name>`.
pub fn profile_menu_id_for(name: &String) -> (id: String)
    ensures
        id@ == profile_menu_id(name@),
{
    let mut id = String::new();
    push_str(&mut id, PROFILE_PREFIX);
    push_str(&mut id, name.as_str());
    id
}

/// A menu id built for a profile parses back to that profile, for every
/// name but the empty one and the `empty` placeholder.
pub proof fn law_profile_menu_id_round_trip(name: Seq<char>)
    requires
        name.len() > 0,
        name != "empty"@,
    ensures
        profile_of_menu_id(profile_menu_id(name)) == Some(name),
{
    let id = profile_menu_id(name);
    let n = PROFILE_PREFIX@.len() as int;
    assert(id.subrange(0, n) =~= PROFILE_PREFIX@);
    assert(id.subrange(n, id.len() as int) =~= name);
}

/// The menu signature does not depend on the on-screen file name.
pub proof fn law_menu_signature_ignores_filename(
    a: RuntimeSnapshot,
    b: RuntimeSnapshot,
    profiles: Seq<Seq<char>>,
)
    requires
        a.active_profile == b.active_profile,
        a.paused == b.paused,
    ensures
        menu_signature_spec(a, profiles) == menu_signature_spec(b, profiles),
{
}

/// A pause toggle always changes the menu signature, so the menu is rebuilt
/// with the other pause label.
pub proof fn law_menu_signature_follows_pause(
    a: RuntimeSnapshot,
    b: RuntimeSnapshot,
    profiles: Seq<Seq<char>>,
)
    requires
        a.active_profile == b.active_profile,
        a.paused != b.paused,
    ensures
        menu_signature_spec(a, profiles) != menu_signature_spec(b, profiles),
{
    reveal_strlit("true");
    reveal_strlit("false");
    assert(bool_text(a.paused).len() != bool_text(b.paused).len());
    assert(menu_signature_spec(a, profiles).len() != menu_signature_spec(b, profiles).len());
}

/// The kind of a tray menu entry.
#[derive(Debug, Clone, Copy, PartialEq, Eq, Structural)]
pub enum MenuItemKind {
    /// A plain clickable item.
    Plain,
    /// A check item, ticked when `checked`.
    Check { checked: bool },
    /// A separator line.
    Separator,
}

/// One entry of the tray menu, as the shell should build it.
#[derive(Debug)]
pub struct MenuItemSpec {
    pub id: String,
    pub label: String,
    pub enabled: bool,
    pub kind: MenuItemKind,
}

/// Abstract content of a menu entry: id, label, enabled, kind.
pub open spec fn item_view(m: MenuItemSpec) -> (Seq<char>, Seq<char>, bool, MenuItemKind) {
    (m.id@, m.label@, m.enabled, m.kind)
}

/// A plain entry.
pub open spec fn plain(id: Seq<char>, label: Seq<char>) -> (Seq<char>, Seq<char>, bool, MenuItemKind) {
    (id, label, true, MenuItemKind::Plain)
}

/// A separator.
pub open spec fn separator() -> (Seq<char>, Seq<char>, bool, MenuItemKind) {
    (Seq::empty(), Seq::empty(), true, MenuItemKind::Separator)
}

/// The profile section: one check entry per profile, ticked for the active
/// one, or the disabled placeholder when there are none.
pub open spec fn profile_section(profiles: Seq<Seq<char>>, active: Option<Seq<char>>) -> Seq<
    (Seq<char>, Seq<char>, bool, MenuItemKind),
> {
    if profiles.len() == 0 {
        seq![(ID_NO_PROFILES@, "(no profiles)"@, false, MenuItemKind::Plain)]
    } else {
        profiles.map_values(
            |name: Seq<char>|
                (
                    profile_menu_id(name),
                    name,
                    true,
                    MenuItemKind::Check { checked: active == Some(name) },
                ),
        )
    }
}

/// The whole tray menu: profiles, separator, Next / Previous / pause toggle,
/// separator, Open / Settings, separator, Quit.
pub open spec fn menu_spec(profiles: Seq<Seq<char>>, snap: RuntimeSnapshot) -> Seq<
    (Seq<char>, Seq<char>, bool, MenuItemKind),
> {
    let active = opt_view(snap.active_profile);
    let pause_label = if snap.paused {
        "Resume slideshow"@
    } else {
        "Pause slideshow"@
    };
    profile_section(profiles, active) + seq![
        separator(),
        plain(ID_NEXT@, "Next"@),
        plain(ID_PREV@, "Previous"@),
        plain(ID_PAUSE@, pause_label),
        separator(),
        plain(ID_OPEN@, "Open Superpanels"@),
        plain(ID_SETTINGS@, "Settings…"@),
        separator(),
        plain(ID_QUIT@, "Quit"@),
    ]
}

fn push_item(items: &mut Vec<MenuItemSpec>, id: &str, label: &str, enabled: bool, kind: MenuItemKind)
    ensures
        final(items)@.map_values(|m: MenuItemSpec| item_view(m)) == old(items)@.map_values(
            |m: MenuItemSpec| item_view(m),
        ).push((id@, label@, enabled, kind)),
{
    let mut i = String::new();
    push_str(&mut i, id);
    let mut l = String::new();
    push_str(&mut l, label);
    assert(i@ =~= id@);
    assert(l@ =~= label@);
    items.push(MenuItemSpec { id: i, label: l, enabled, kind });
    assert(items@.map_values(|m: MenuItemSpec| item_view(m)) =~= old(items)@.map_values(
        |m: MenuItemSpec| item_view(m),
    ).push((id@, label@, enabled, kind)));
}

/// The entries of the tray menu for `profiles` and `snap`, in order.
pub fn build_menu(profiles: &Vec<String>, snap: &RuntimeSnapshot) -> (items: Vec<MenuItemSpec>)
    ensures
        items@.map_values(|m: MenuItemSpec| item_view(m)) == menu_spec(
            profiles@.map_values(|p: String| p@),
            *snap,
        ),
{
    let ghost pv = profiles@.map_values(|p: String| p@);
    let ghost active = opt_view(snap.active_profile);
    let mut items: Vec<MenuItemSpec> = Vec::new();
    if profiles.len() == 0 {
        push_item(&mut items, ID_NO_PROFILES, "(no profiles)", false, MenuItemKind::Plain);
        assert(items@.map_values(|m: MenuItemSpec| item_view(m)) =~= profile_section(pv, active));
    } else {
        let mut i: usize = 0;
        while i < profiles.len()
            invariant
                pv == profiles@.map_values(|p: String| p@),
                active == opt_view(snap.active_profile),
                profiles@.len() > 0,
                i <= profiles@.len(),
                items@.map_values(|m: MenuItemSpec| item_view(m)) == profile_section(pv, active).take(
                    i as int,
                ),
            decreases profiles@.len() - i,
        {
            let name = &profiles[i];
            let checked = match &snap.active_profile {
                Some(a) => *a == *name,
                None => false,
            };
            let ghost before = items@.map_values(|m: MenuItemSpec| item_view(m));
            assert(pv[i as int] == name@);
            assert(checked == (active == Some(name@)));
            items.push(
                MenuItemSpec {
                    id: profile_menu_id_for(name),
                    label: name.clone(),
                    enabled: true,
                    kind: MenuItemKind::Check { checked },
                },
            );
            assert(items@.map_values(|m: MenuItemSpec| item_view(m)) =~= before.push(
                profile_section(pv, active)[i as int],
            ));
            assert(profile_section(pv, active).take(i as int + 1) =~= profile_section(
                pv,
                active,
            ).take(i as int).push(profile_section(pv, active)[i as int]));
            i += 1;
        }
        assert(profile_section(pv, active).take(profiles@.len() as int) =~= profile_section(
            pv,
            active,
        ));
    }
    let ghost section = items@.map_values(|m: MenuItemSpec| item_view(m));
    push_item(&mut items, "", "", true, MenuItemKind::Separator);
    push_item(&mut items, ID_NEXT, "Next", true, MenuItemKind::Plain);
    push_item(&mut items, ID_PREV, "Previous", true, MenuItemKind::Plain);
    if snap.paused {
        push_item(&mut items, ID_PAUSE, "Resume slideshow", true, MenuItemKind::Plain);
    } else {
        push_item(&mut items, ID_PAUSE, "Pause slideshow", true, MenuItemKind::Plain);
    }
    push_item(&mut items, "", "", true, MenuItemKind::Separator);
    push_item(&mut items, ID_OPEN, "Open Superpanels", true, MenuItemKind::Plain);
    push_item(&mut items, ID_SETTINGS, "Settings…", true, MenuItemKind::Plain);
    push_item(&mut items, "", "", true, MenuItemKind::Separator);
    push_item(&mut items, ID_QUIT, "Quit", true, MenuItemKind::Plain);
    proof {
        reveal_strlit("");
        assert(""@ =~= Seq::<char>::empty());
    }
    assert(items@.map_values(|m: MenuItemSpec| item_view(m)) =~= menu_spec(pv, *snap));
    items
}

/// What a tray menu click asks for.
#[derive(Debug, Clone, PartialEq, Eq)]
pub enum MenuAction {
    Quit,
    Open,
    /// Show the window and ask it to open the settings panel.
    Settings,
    Next,
    Prev,
    /// Set the slideshow pause state to `paused`.
    Pause { paused: bool },
    /// Apply the named profile.
    ApplyProfile(String),
    /// Nothing to do.
    Ignore,
}

/// The action a click on menu entry `id` asks for, given the snapshot the
/// tray last showed (the pause toggle flips its pause state).
pub open spec fn menu_action_spec(id: Seq<char>, snap: RuntimeSnapshot) -> MenuActionView {
    if id == ID_QUIT@ {
        MenuActionView::Quit
    } else if id == ID_OPEN@ {
        MenuActionView::Open
    } else if id == ID_SETTINGS@ {
        MenuActionView::Settings
    } else if id == ID_NEXT@ {
        MenuActionView::Next
    } else if id == ID_PREV@ {
        MenuActionView::Prev
    } else if id == ID_PAUSE@ {
        MenuActionView::Pause(!snap.paused)
    } else {
        match profile_of_menu_id(id) {
            Some(name) => MenuActionView::ApplyProfile(name),
            None => MenuActionView::Ignore,
        }
    }
}

/// Abstract content of a menu action.
pub enum MenuActionView {
    Quit,
    Open,
    Settings,
    Next,
    Prev,
    Pause(bool),
    ApplyProfile(Seq<char>),
    Ignore,
}

/// The abstract view of a menu action.
pub open spec fn action_view(a: MenuAction) -> MenuActionView {
    match a {
        MenuAction::Quit => MenuActionView::Quit,
        MenuAction::Open => MenuActionView::Open,
        MenuAction::Settings => MenuActionView::Settings,
        MenuAction::Next => MenuActionView::Next,
        MenuAction::Prev => MenuActionView::Prev,
        MenuAction::Pause { paused } => MenuActionView::Pause(paused),
        MenuAction::ApplyProfile(n) => MenuActionView::ApplyProfile(n@),
        MenuAction::Ignore => MenuActionView::Ignore,
    }
}

/// Route a tray menu click.
pub fn menu_action(id: &str, snap: &RuntimeSnapshot) -> (a: MenuAction)
    ensures
        action_view(a) == menu_action_spec(id@, *snap),
{
    if str_eq(id, ID_QUIT) {
        MenuAction::Quit
    } else if str_eq(id, ID_OPEN) {
        MenuAction::Open
    } else if str_eq(id, ID_SETTINGS) {
        MenuAction::Settings
    } else if str_eq(id, ID_NEXT) {
        MenuAction::Next
    } else if str_eq(id, ID_PREV) {
        MenuAction::Prev
    } else if str_eq(id, ID_PAUSE) {
        MenuAction::Pause { paused: !snap.paused }
    } else {
        match parse_profile_menu_id(id) {
            Some(name) => MenuAction::ApplyProfile(name),
            None => MenuAction::Ignore,
        }
    }
}

/// Every tray entry does what it says: clicking an entry labelled "Next"
/// steps the slideshow forward, "Previous" back, "Open Superpanels" opens
/// the window, "Settings…" the settings, "Quit" quits, "Pause slideshow"
/// pauses and "Resume slideshow" resumes; clicking a profile's check entry
/// applies the profile it names, and the disabled placeholder does nothing.
/// (Profile names are those a menu id can carry: not empty, not `empty`.)
pub proof fn law_menu_entries_do_what_they_say(profiles: Seq<Seq<char>>, snap: RuntimeSnapshot)
    requires
        forall|j: int| 0 <= j < profiles.len() ==> #[trigger] profiles[j].len() > 0 && profiles[j] != "empty"@,
    ensures
        forall|k: int|
            0 <= k < menu_spec(profiles, snap).len() ==> {
                let e = #[trigger] menu_spec(profiles, snap)[k];
                let a = menu_action_spec(e.0, snap);
                &&& (e.3 == MenuItemKind::Plain && e.1 == "Next"@ ==> a == MenuActionView::Next)
                &&& (e.3 == MenuItemKind::Plain && e.1 == "Previous"@ ==> a == MenuActionView::Prev)
                &&& (e.3 == MenuItemKind::Plain && e.1 == "Open Superpanels"@ ==> a == MenuActionView::Open)
                &&& (e.3 == MenuItemKind::Plain && e.1 == "Settings…"@ ==> a == MenuActionView::Settings)
                &&& (e.3 == MenuItemKind::Plain && e.1 == "Quit"@ ==> a == MenuActionView::Quit)
                &&& (e.3 == MenuItemKind::Plain && e.1 == "Pause slideshow"@ ==> a == MenuActionView::Pause(true))
                &&& (e.3 == MenuItemKind::Plain && e.1 == "Resume slideshow"@ ==> a == MenuActionView::Pause(false))
                &&& (e.3 is Check ==> a == MenuActionView::ApplyProfile(e.1))
                &&& (!e.2 ==> a == MenuActionView::Ignore)
            },
{
    reveal_strlit("tray.slideshow.next");
    reveal_strlit("tray.slideshow.prev");
    reveal_strlit("tray.slideshow.pause");
    reveal_strlit("tray.open");
    reveal_strlit("tray.settings");
    reveal_strlit("tray.quit");
    reveal_strlit("tray.profile.");
    reveal_strlit("tray.profile.empty");
    reveal_strlit("empty");
    reveal_strlit("(no profiles)");
    reveal_strlit("Next");
    reveal_strlit("Previous");
    reveal_strlit("Open Superpanels");
    reveal_strlit("Settings…");
    reveal_strlit("Quit");
    reveal_strlit("Pause slideshow");
    reveal_strlit("Resume slideshow");
    assert("tray.slideshow.next"@.len() == 19);
    assert("tray.slideshow.prev"@.len() == 19);
    assert("tray.slideshow.pause"@.len() == 20);
    assert("tray.open"@.len() == 9);
    assert("tray.settings"@.len() == 13);
    assert("tray.quit"@.len() == 9);
    assert("tray.profile."@.len() == 13);
    assert("tray.profile.empty"@.len() == 18);
    assert("empty"@.len() == 5);
    assert("(no profiles)"@.len() == 13);
    assert("Next"@.len() == 4);
    assert("Previous"@.len() == 8);
    assert("Open Superpanels"@.len() == 16);
    assert("Settings…"@.len() == 9);
    assert("Quit"@.len() == 4);
    assert("Pause slideshow"@.len() == 15);
    assert("Resume slideshow"@.len() == 16);
    assert("tray.slideshow.next"@[15] != "tray.slideshow.prev"@[15]);
    assert("tray.quit"@[5] != "tray.open"@[5]);
    assert("Next"@[0] != "Quit"@[0]);
    assert("Open Superpanels"@[0] != "Resume slideshow"@[0]);
    let menu = menu_spec(profiles, snap);
    let section = profile_section(profiles, opt_view(snap.active_profile));
    let tail = menu.subrange(section.len() as int, menu.len() as int);
    assert forall|k: int| 0 <= k < menu.len() implies {
        let e = #[trigger] menu[k];
        let a = menu_action_spec(e.0, snap);
        &&& (e.3 == MenuItemKind::Plain && e.1 == "Next"@ ==> a == MenuActionView::Next)
        &&& (e.3 == MenuItemKind::Plain && e.1 == "Previous"@ ==> a == MenuActionView::Prev)
        &&& (e.3 == MenuItemKind::Plain && e.1 == "Open Superpanels"@ ==> a == MenuActionView::Open)
        &&& (e.3 == MenuItemKind::Plain && e.1 == "Settings…"@ ==> a == MenuActionView::Settings)
        &&& (e.3 == MenuItemKind::Plain && e.1 == "Quit"@ ==> a == MenuActionView::Quit)
        &&& (e.3 == MenuItemKind::Plain && e.1 == "Pause slideshow"@ ==> a == MenuActionView::Pause(true))
        &&& (e.3 == MenuItemKind::Plain && e.1 == "Resume slideshow"@ ==> a == MenuActionView::Pause(false))
        &&& (e.3 is Check ==> a == MenuActionView::ApplyProfile(e.1))
        &&& (!e.2 ==> a == MenuActionView::Ignore)
    } by {
        if k < section.len() {
            if profiles.len() == 0 {
                let id = "tray.profile.empty"@;
                assert(menu[k] == section[k]);
                assert(id.subrange(0, 13) =~= "tray.profile."@);
                assert(id.subrange(13, 18) =~= "empty"@);
            } else {
                let name = profiles[k];
                assert(menu[k] == section[k]);
                law_profile_menu_id_round_trip(name);
                let id = profile_menu_id(name);
                assert(id[5] == 'p');
            }
        } else {
            let j = k - section.len();
            assert(menu[k] == tail[j]);
        }
    }
}

/// The tray lists one check entry per profile, in order, labelled with its
/// name; exactly the active profile's entry is ticked; and the menu always
/// ends with the nine fixed entries, so it is that much longer.
pub proof fn law_profile_entries_tick_the_active_one(profiles: Seq<Seq<char>>, snap: RuntimeSnapshot)
    requires
        profiles.len() > 0,
    ensures
        menu_spec(profiles, snap).len() == profiles.len() + 9,
        forall|k: int|
            0 <= k < profiles.len() ==> {
                let e = #[trigger] menu_spec(profiles, snap)[k];
                &&& e.1 == profiles[k]
                &&& e.2
                &&& (e.3 matches MenuItemKind::Check { checked } && (checked <==> opt_view(
                    snap.active_profile,
                ) == Some(profiles[k])))
            },
{
    let section = profile_section(profiles, opt_view(snap.active_profile));
    assert forall|k: int| 0 <= k < profiles.len() implies {
        let e = #[trigger] menu_spec(profiles, snap)[k];
        &&& e.1 == profiles[k]
        &&& e.2
        &&& (e.3 matches MenuItemKind::Check { checked } && (checked <==> opt_view(
            snap.active_profile,
        ) == Some(profiles[k])))
    } by {
        assert(menu_spec(profiles, snap)[k] == section[k]);
    }
}

/// Tray icon style: the white glyph or the blue app icon.
#[derive(Debug, Clone, Copy, PartialEq, Eq, Structural)]
pub enum TrayIconStyle {
    White,
    Blue,
}

/// The persisted name of a style.
pub open spec fn style_name(s: TrayIconStyle) -> Seq<char> {
    match s {
        TrayIconStyle::White => "white"@,
        TrayIconStyle::Blue => "blue"@,
    }
}

impl TrayIconStyle {
    /// The default style, the white glyph.
    pub fn default_style() -> (s: TrayIconStyle)
        ensures
            s == TrayIconStyle::White,
    {
        TrayIconStyle::White
    }

    /// Parse a persisted style name (exact, lower-case).
    pub fn parse(s: &str) -> (r: Option<TrayIconStyle>)
        ensures
            r == (if s@ == "white"@ {
                Some(TrayIconStyle::White)
            } else if s@ == "blue"@ {
                Some(TrayIconStyle::Blue)
            } else {
                None
            }),
    {
        if str_eq(s, "white") {
            Some(TrayIconStyle::White)
        } else if str_eq(s, "blue") {
            Some(TrayIconStyle::Blue)
        } else {
            None
        }
    }

    /// The persisted name of this style.
    pub fn as_str(self) -> (r: &'static str)
        ensures
            r@ == style_name(self),
    {
        match self {
            TrayIconStyle::White => "white",
            TrayIconStyle::Blue => "blue",
        }
    }

    /// Only the white glyph may be recoloured as a monochrome template.
    pub fn is_template(self) -> (r: bool)
        ensures
            r == (self == TrayIconStyle::White),
    {
        matches!(self, TrayIconStyle::White)
    }
}

/// Every style's name parses back to that style.
pub proof fn law_style_name_round_trip(s: TrayIconStyle)
    ensures
        (if style_name(s) == "white"@ {
            Some(TrayIconStyle::White)
        } else if style_name(s) == "blue"@ {
            Some(TrayIconStyle::Blue)
        } else {
            None
        }) == Some(s),
{
    reveal_strlit("white");
    reveal_strlit("blue");
    if s == TrayIconStyle::Blue {
        assert("blue"@ != "white"@) by {
            assert("blue"@[0] != "white"@[0]);
        }
    }
}

} // verus!
