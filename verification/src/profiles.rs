//! The stored profile list and the requests that change it: save (insert
//! or replace), duplicate, rename, source update, delete, and the stamp an
//! apply leaves. Each keeps profile names unique and refuses a request that
//! names no profile, or whose new name is already taken, with the message
//! the GUI shows.

use vstd::prelude::*;

use crate::daemon_flow::{
    find_profile, first_named, lemma_first_named_found, names_of, ProfileKind, ProfileStamps,
    ProfileSummary,
};
use crate::text::{opt_str, push_str, str_eq};

verus! {

/// A stored profile, by value: its name, what it shows, and its stamps.
pub type ProfileView = (Seq<char>, ProfileKind, ProfileStamps);

/// The stored profiles, by value.
pub open spec fn profiles_view(ps: Seq<ProfileSummary>) -> Seq<ProfileView> {
    ps.map_values(|p: ProfileSummary| (p.name@, p.kind, p.stamps))
}

/// One profile, by value.
pub open spec fn profile_view(p: ProfileSummary) -> ProfileView {
    (p.name@, p.kind, p.stamps)
}

/// The stamps of a profile changed at `now`: its update time moves, its
/// creation and last-apply times stay.
pub open spec fn touched(s: ProfileStamps, now: i64) -> ProfileStamps {
    ProfileStamps { updated_at: now, ..s }
}

/// The stamps of a fresh copy made at `now`: created and updated then,
/// never applied.
pub open spec fn fresh_stamps(now: i64) -> ProfileStamps {
    ProfileStamps { created_at: now, updated_at: now, last_applied_at: None }
}

/// The names of a list of profile views.
pub open spec fn view_names(v: Seq<ProfileView>) -> Seq<Seq<char>> {
    v.map_values(|p: ProfileView| p.0)
}

/// No two profiles share a name.
pub open spec fn unique_names(v: Seq<ProfileView>) -> bool {
    forall|i: int, j: int| 0 <= i < j < v.len() ==> #[trigger] v[i].0 != #[trigger] v[j].0
}

/// Whether some profile is named `n`.
pub open spec fn has_name(v: Seq<ProfileView>, n: Seq<char>) -> bool {
    exists|i: int| 0 <= i < v.len() && #[trigger] v[i].0 == n
}

/// Saving a profile: it replaces the first profile of its name, or is
/// appended when none has it.
pub open spec fn save_spec(v: Seq<ProfileView>, p: ProfileView) -> Seq<ProfileView> {
    match first_named(view_names(v), p.0) {
        Some(i) => v.update(i, p),
        None => v.push(p),
    }
}

/// Duplicating `name` as `new_name` at `now`: the copy, with fresh stamps,
/// is appended, or the reason the request is refused.
pub open spec fn duplicate_spec(
    v: Seq<ProfileView>,
    name: Option<Seq<char>>,
    new_name: Option<Seq<char>>,
    now: i64,
) -> Result<Seq<ProfileView>, Seq<char>> {
    match (name, new_name) {
        (None, _) => Err("params.name (string) required"@),
        (Some(_), None) => Err("params.new_name (string) required"@),
        (Some(n), Some(m)) => match first_named(view_names(v), n) {
            None => Err("profile '"@ + n + "' not found"@),
            Some(i) => if has_name(v, m) {
                Err("profile '"@ + m + "' already exists"@)
            } else {
                Ok(v.push((m, v[i].1, fresh_stamps(now))))
            },
        },
    }
}

/// Renaming `name` to `new_name` at `now`: the first profile of that name
/// takes the new one and is touched, or the reason the request is refused
/// (a taken new name is checked first).
pub open spec fn rename_spec(
    v: Seq<ProfileView>,
    name: Option<Seq<char>>,
    new_name: Option<Seq<char>>,
    now: i64,
) -> Result<Seq<ProfileView>, Seq<char>> {
    match (name, new_name) {
        (None, _) => Err("params.name (string) required"@),
        (Some(_), None) => Err("params.new_name (string) required"@),
        (Some(n), Some(m)) => if has_name(v, m) {
            Err("profile '"@ + m + "' already exists"@)
        } else {
            match first_named(view_names(v), n) {
                None => Err("profile '"@ + n + "' not found"@),
                Some(i) => Ok(v.update(i, (m, v[i].1, touched(v[i].2, now)))),
            }
        },
    }
}

/// The profiles not named `n`, in order.
pub open spec fn without_named(v: Seq<ProfileView>, n: Seq<char>) -> Seq<ProfileView>
    decreases v.len(),
{
    if v.len() == 0 {
        v
    } else {
        let rest = without_named(v.drop_last(), n);
        if v.last().0 == n {
            rest
        } else {
            rest.push(v.last())
        }
    }
}

/// Deleting `name`: every profile of that name goes, or the reason the
/// request is refused.
pub open spec fn delete_spec(v: Seq<ProfileView>, name: Option<Seq<char>>) -> Result<
    Seq<ProfileView>,
    Seq<char>,
> {
    match name {
        None => Err("params.name (string) required"@),
        Some(n) => if without_named(v, n).len() == v.len() {
            Err("profile '"@ + n + "' not found"@)
        } else {
            Ok(without_named(v, n))
        },
    }
}

proof fn lemma_view_names(ps: Seq<ProfileSummary>)
    ensures
        view_names(profiles_view(ps)) == names_of(ps),
{
    assert(view_names(profiles_view(ps)) =~= names_of(ps));
}

fn text(s: &str) -> (r: String)
    ensures
        r@ == s@,
{
    let mut r = String::new();
    push_str(&mut r, s);
    r
}

fn quoted(before: &str, name: &str, after: &str) -> (r: String)
    ensures
        r@ == before@ + name@ + after@,
{
    let mut r = String::new();
    push_str(&mut r, before);
    push_str(&mut r, name);
    push_str(&mut r, after);
    r
}

fn name_taken(profiles: &Vec<ProfileSummary>, n: &str) -> (r: bool)
    ensures
        r == has_name(profiles_view(profiles@), n@),
{
    let ghost v = profiles_view(profiles@);
    let mut i: usize = 0;
    while i < profiles.len()
        invariant
            i <= profiles@.len(),
            v == profiles_view(profiles@),
            forall|j: int| 0 <= j < i ==> v[j].0 != n@,
        decreases profiles@.len() - i,
    {
        if str_eq(profiles[i].name.as_str(), n) {
            assert(v[i as int].0 == n@);
            return true;
        }
        i += 1;
    }
    false
}

/// Save `p`: replace the profile of its name, or append it.
pub fn save_profile(profiles: &mut Vec<ProfileSummary>, p: ProfileSummary)
    ensures
        profiles_view(final(profiles)@) == save_spec(profiles_view(old(profiles)@), profile_view(p)),
{
    let ghost v = profiles_view(profiles@);
    proof {
        lemma_view_names(profiles@);
    }
    let ghost pv: ProfileView = profile_view(p);
    match find_profile(profiles, p.name.as_str()) {
        Some(i) => {
            profiles.set(i, p);
            assert(profiles_view(profiles@) =~= v.update(i as int, pv));
        },
        None => {
            profiles.push(p);
            assert(profiles_view(profiles@) =~= v.push(pv));
        },
    }
}

/// Duplicate the profile `name` as `new_name` at `now`.
pub fn duplicate_profile(
    profiles: &mut Vec<ProfileSummary>,
    name: Option<&str>,
    new_name: Option<&str>,
    now: i64,
) -> (r: Result<(), String>)
    ensures
        match duplicate_spec(profiles_view(old(profiles)@), opt_str(name), opt_str(new_name), now) {
            Ok(v) => r is Ok && profiles_view(final(profiles)@) == v,
            Err(m) => (r matches Err(e) && e@ == m) && final(profiles)@ == old(profiles)@,
        },
{
    let n = match name {
        None => return Err(text("params.name (string) required")),
        Some(n) => n,
    };
    let m = match new_name {
        None => return Err(text("params.new_name (string) required")),
        Some(m) => m,
    };
    let ghost v = profiles_view(profiles@);
    proof {
        lemma_view_names(profiles@);
    }
    let i = match find_profile(profiles, n) {
        None => return Err(quoted("profile '", n, "' not found")),
        Some(i) => i,
    };
    if name_taken(profiles, m) {
        return Err(quoted("profile '", m, "' already exists"));
    }
    let kind = profiles[i].kind;
    let stamps = ProfileStamps { created_at: now, updated_at: now, last_applied_at: None };
    profiles.push(ProfileSummary { name: text(m), kind, stamps });
    assert(profiles_view(profiles@) =~= v.push((m@, v[i as int].1, fresh_stamps(now))));
    Ok(())
}

/// Rename the profile `name` to `new_name` at `now`; the active profile
/// follows the rename. `active` is the daemon's active profile name.
pub fn rename_profile(
    profiles: &mut Vec<ProfileSummary>,
    active: &mut Option<String>,
    name: Option<&str>,
    new_name: Option<&str>,
    now: i64,
) -> (r: Result<(), String>)
    ensures
        match rename_spec(profiles_view(old(profiles)@), opt_str(name), opt_str(new_name), now) {
            Ok(v) => r is Ok && profiles_view(final(profiles)@) == v && match *old(active) {
                Some(a) => if Some(a@) == opt_str(name) {
                    *final(active) matches Some(b) && b@ == opt_str(new_name)->0
                } else {
                    *final(active) == *old(active)
                },
                None => *final(active) is None,
            },
            Err(m) => (r matches Err(e) && e@ == m) && final(profiles)@ == old(profiles)@
                && *final(active) == *old(active),
        },
{
    let n = match name {
        None => return Err(text("params.name (string) required")),
        Some(n) => n,
    };
    let m = match new_name {
        None => return Err(text("params.new_name (string) required")),
        Some(m) => m,
    };
    let ghost v = profiles_view(profiles@);
    proof {
        lemma_view_names(profiles@);
    }
    if name_taken(profiles, m) {
        return Err(quoted("profile '", m, "' already exists"));
    }
    let i = match find_profile(profiles, n) {
        None => return Err(quoted("profile '", n, "' not found")),
        Some(i) => i,
    };
    let kind = profiles[i].kind;
    let stamps = ProfileStamps { updated_at: now, ..profiles[i].stamps };
    profiles.set(i, ProfileSummary { name: text(m), kind, stamps });
    assert(profiles_view(profiles@) =~= v.update(i as int, (m@, v[i as int].1, touched(v[i as int].2, now))));
    let renamed = match active {
        Some(a) => str_eq(a.as_str(), n),
        None => false,
    };
    if renamed {
        *active = Some(text(m));
    }
    Ok(())
}

/// Delete every profile named `name`.
pub fn delete_profile(profiles: &mut Vec<ProfileSummary>, name: Option<&str>) -> (r: Result<
    (),
    String,
>)
    ensures
        match delete_spec(profiles_view(old(profiles)@), opt_str(name)) {
            Ok(v) => r is Ok && profiles_view(final(profiles)@) == v,
            Err(m) => (r matches Err(e) && e@ == m) && profiles_view(final(profiles)@)
                == profiles_view(old(profiles)@),
        },
{
    let n = match name {
        None => return Err(text("params.name (string) required")),
        Some(n) => n,
    };
    let ghost v = profiles_view(profiles@);
    let mut kept: Vec<ProfileSummary> = Vec::new();
    let mut taken: Vec<ProfileSummary> = Vec::new();
    std::mem::swap(&mut taken, profiles);
    let len = taken.len();
    let mut i: usize = 0;
    while i < len
        invariant
            len == v.len(),
            profiles_view(taken@) == v,
            i <= len,
            profiles_view(kept@) == without_named(v.take(i as int), n@),
        decreases len - i,
    {
        assert(v.take(i as int + 1).drop_last() =~= v.take(i as int));
        assert(v.take(i as int + 1).last() == v[i as int]);
        if !str_eq(taken[i].name.as_str(), n) {
            let ghost before = profiles_view(kept@);
            kept.push(
                ProfileSummary {
                    name: text(taken[i].name.as_str()),
                    kind: taken[i].kind,
                    stamps: taken[i].stamps,
                },
            );
            assert(profiles_view(kept@) =~= before.push(v[i as int]));
        }
        i += 1;
    }
    assert(v.take(len as int) =~= v);
    if kept.len() == len {
        *profiles = taken;
        Err(quoted("profile '", n, "' not found"))
    } else {
        *profiles = kept;
        Ok(())
    }
}

proof fn lemma_without_from(v: Seq<ProfileView>, n: Seq<char>, k: int)
    requires
        0 <= k < without_named(v, n).len(),
    ensures
        exists|j: int| 0 <= j < v.len() && without_named(v, n)[k] == #[trigger] v[j],
        without_named(v, n)[k].0 != n,
    decreases v.len(),
{
    let rest = without_named(v.drop_last(), n);
    if k < rest.len() {
        lemma_without_from(v.drop_last(), n, k);
        let j = choose|j: int|
            0 <= j < v.drop_last().len() && rest[k] == #[trigger] v.drop_last()[j];
        assert(v[j] == v.drop_last()[j]);
    } else {
        assert(without_named(v, n)[k] == v[v.len() - 1]);
    }
}

proof fn lemma_without_unique(v: Seq<ProfileView>, n: Seq<char>)
    requires
        unique_names(v),
    ensures
        unique_names(without_named(v, n)),
        without_named(v, n).len() <= v.len(),
    decreases v.len(),
{
    if v.len() > 0 {
        let d = v.drop_last();
        assert(unique_names(d)) by {
            assert forall|i: int, j: int| 0 <= i < j < d.len() implies #[trigger] d[i].0
                != #[trigger] d[j].0 by {
                assert(d[i] == v[i] && d[j] == v[j]);
            }
        }
        lemma_without_unique(d, n);
        let rest = without_named(d, n);
        if v.last().0 != n {
            let w = rest.push(v.last());
            assert forall|i: int, j: int| 0 <= i < j < w.len() implies #[trigger] w[i].0
                != #[trigger] w[j].0 by {
                if j == rest.len() {
                    lemma_without_from(d, n, i);
                    let k = choose|k: int| 0 <= k < d.len() && rest[i] == #[trigger] d[k];
                    assert(d[k] == v[k]);
                    assert(v[k].0 != v[v.len() - 1].0);
                } else {
                    assert(w[i] == rest[i] && w[j] == rest[j]);
                }
            }
        }
    }
}

proof fn lemma_first_named_view(v: Seq<ProfileView>, n: Seq<char>)
    ensures
        match first_named(view_names(v), n) {
            Some(i) => 0 <= i < v.len() && v[i].0 == n,
            None => !has_name(v, n),
        },
{
    lemma_first_named_found(view_names(v), n, v.len() as int);
    if first_named(view_names(v), n) is None {
        if has_name(v, n) {
            let i = choose|i: int| 0 <= i < v.len() && #[trigger] v[i].0 == n;
            assert(view_names(v)[i] == n);
        }
    }
}

/// Every request on the profile list keeps profile names unique: a save
/// replaces the profile of its name, a duplicate or rename refuses a taken
/// name, a source update or an apply stamp keeps the name, and a delete
/// only removes.
pub proof fn law_names_stay_unique(
    v: Seq<ProfileView>,
    p: ProfileView,
    name: Option<Seq<char>>,
    new_name: Option<Seq<char>>,
    slideshow: bool,
    now: i64,
)
    requires
        unique_names(v),
    ensures
        unique_names(save_spec(v, p)),
        update_source_spec(v, name, slideshow, now) matches Ok(w) ==> unique_names(w),
        unique_names(mark_applied_spec(v, p.0, now)),
        duplicate_spec(v, name, new_name, now) matches Ok(w) ==> unique_names(w),
        rename_spec(v, name, new_name, now) matches Ok(w) ==> unique_names(w),
        delete_spec(v, name) matches Ok(w) ==> unique_names(w),
{
    lemma_first_named_view(v, p.0);
    let s = save_spec(v, p);
    assert forall|i: int, j: int| 0 <= i < j < s.len() implies #[trigger] s[i].0
        != #[trigger] s[j].0 by {
        match first_named(view_names(v), p.0) {
            Some(k) => {
                if i == k {
                    assert(v[j].0 != v[k].0);
                } else if j == k {
                    assert(v[i].0 != v[k].0);
                } else {
                    assert(s[i] == v[i] && s[j] == v[j]);
                }
            },
            None => {
                if j == v.len() {
                    assert(s[i] == v[i]);
                    assert(v[i].0 != p.0);
                } else {
                    assert(s[i] == v[i] && s[j] == v[j]);
                }
            },
        }
    }
    let w = mark_applied_spec(v, p.0, now);
    assert forall|i: int| 0 <= i < w.len() implies #[trigger] w[i].0 == v[i].0 by {}
    assert forall|i: int, j: int| 0 <= i < j < w.len() implies #[trigger] w[i].0
        != #[trigger] w[j].0 by {
        assert(w[i].0 == v[i].0 && w[j].0 == v[j].0);
    }
    if let (Some(n), Some(m)) = (name, new_name) {
        lemma_first_named_view(v, n);
        if let Ok(w) = duplicate_spec(v, name, new_name, now) {
            assert forall|i: int, j: int| 0 <= i < j < w.len() implies #[trigger] w[i].0
                != #[trigger] w[j].0 by {
                if j == v.len() {
                    assert(w[i] == v[i]);
                    assert(v[i].0 != m);
                } else {
                    assert(w[i] == v[i] && w[j] == v[j]);
                }
            }
        }
        if let Ok(w) = rename_spec(v, name, new_name, now) {
            let k = first_named(view_names(v), n)->0;
            assert forall|i: int, j: int| 0 <= i < j < w.len() implies #[trigger] w[i].0
                != #[trigger] w[j].0 by {
                if i == k {
                    assert(w[j] == v[j]);
                    assert(v[j].0 != m);
                } else if j == k {
                    assert(w[i] == v[i]);
                    assert(v[i].0 != m);
                } else {
                    assert(w[i] == v[i] && w[j] == v[j]);
                }
            }
        }
    }
    if let Some(n) = name {
        lemma_without_unique(v, n);
        lemma_first_named_view(v, n);
        if let Ok(w) = update_source_spec(v, name, slideshow, now) {
            let k = first_named(view_names(v), n)->0;
            assert forall|i: int, j: int| 0 <= i < j < w.len() implies #[trigger] w[i].0
                != #[trigger] w[j].0 by {
                if i == k {
                    assert(w[j] == v[j]);
                } else if j == k {
                    assert(w[i] == v[i]);
                } else {
                    assert(w[i] == v[i] && w[j] == v[j]);
                }
            }
        }
    }
}

/// After a delete, no profile carries the deleted name.
pub proof fn law_delete_removes_name(v: Seq<ProfileView>, n: Seq<char>)
    ensures
        !has_name(without_named(v, n), n),
{
    if has_name(without_named(v, n), n) {
        let k = choose|k: int|
            0 <= k < without_named(v, n).len() && #[trigger] without_named(v, n)[k].0 == n;
        lemma_without_from(v, n, k);
    }
}

/// Saving stores the profile as given and leaves the others alone: when a
/// profile of its name exists, the first one is replaced in place and the
/// list keeps its length; otherwise the profile is appended.
pub proof fn law_save_replaces_or_appends(v: Seq<ProfileView>, p: ProfileView)
    ensures
        has_name(v, p.0) ==> {
            let w = save_spec(v, p);
            &&& w.len() == v.len()
            &&& exists|i: int|
                0 <= i < v.len() && #[trigger] v[i].0 == p.0 && w[i] == p && (forall|j: int|
                    0 <= j < i ==> v[j].0 != p.0) && (forall|j: int|
                    0 <= j < v.len() && j != i ==> #[trigger] w[j] == v[j])
        },
        !has_name(v, p.0) ==> save_spec(v, p) == v.push(p),
{
    let names = view_names(v);
    lemma_first_named_found(names, p.0, names.len() as int);
    match first_named(names, p.0) {
        Some(i) => {
            assert(v[i].0 == names[i]);
            assert forall|j: int| 0 <= j < i implies v[j].0 != p.0 by {
                assert(names[j] == v[j].0);
            }
        },
        None => {
            if has_name(v, p.0) {
                let k = choose|k: int| 0 <= k < v.len() && #[trigger] v[k].0 == p.0;
                assert(names[k] == v[k].0);
            }
        },
    }
}

/// A delete removes exactly the profiles of that name: what remains is the
/// list with those filtered out, every other profile kept unchanged and in
/// order; and it succeeds exactly when some profile has the name.
pub proof fn law_delete_keeps_every_other_profile(v: Seq<ProfileView>, n: Seq<char>)
    ensures
        without_named(v, n) == v.filter(|p: ProfileView| p.0 != n),
        delete_spec(v, Some(n)) is Ok <==> has_name(v, n),
    decreases v.len(),
{
    reveal(Seq::filter);
    if v.len() > 0 {
        law_delete_keeps_every_other_profile(v.drop_last(), n);
        assert(v.drop_last().filter(|p: ProfileView| p.0 != n) == without_named(v.drop_last(), n));
        if has_name(v, n) {
            let k = choose|k: int| 0 <= k < v.len() && #[trigger] v[k].0 == n;
            if k < v.len() - 1 {
                assert(v.drop_last()[k].0 == n);
            }
        }
        if has_name(v.drop_last(), n) {
            let k = choose|k: int| 0 <= k < v.drop_last().len() && #[trigger] v.drop_last()[k].0 == n;
            assert(v[k].0 == n);
        }
        v.drop_last().lemma_filter_len(|p: ProfileView| p.0 != n);
    }
}

/// Replacing the image source of the profile `name` at `now`: a spanned
/// profile becomes a slideshow or a single image and is touched; other
/// bodies refuse.
pub open spec fn update_source_spec(
    v: Seq<ProfileView>,
    name: Option<Seq<char>>,
    slideshow: bool,
    now: i64,
) -> Result<Seq<ProfileView>, Seq<char>> {
    match name {
        None => Err("params.profile (string) required"@),
        Some(n) => match first_named(view_names(v), n) {
            None => Err("profile '"@ + n + "' not found"@),
            Some(i) => if v[i].1 == ProfileKind::SpanSingle || v[i].1 == ProfileKind::SpanSlideshow {
                Ok(
                    v.update(
                        i,
                        (
                            n,
                            if slideshow {
                                ProfileKind::SpanSlideshow
                            } else {
                                ProfileKind::SpanSingle
                            },
                            touched(v[i].2, now),
                        ),
                    ),
                )
            } else {
                Err("source updates require a Span profile"@)
            },
        },
    }
}

/// Replace the image source of the profile `name` at `now`; `slideshow`
/// tells whether the new source is a slideshow.
pub fn update_source(
    profiles: &mut Vec<ProfileSummary>,
    name: Option<&str>,
    slideshow: bool,
    now: i64,
) -> (r: Result<(), String>)
    ensures
        match update_source_spec(profiles_view(old(profiles)@), opt_str(name), slideshow, now) {
            Ok(v) => r is Ok && profiles_view(final(profiles)@) == v,
            Err(m) => (r matches Err(e) && e@ == m) && final(profiles)@ == old(profiles)@,
        },
{
    let n = match name {
        None => return Err(text("params.profile (string) required")),
        Some(n) => n,
    };
    let ghost v = profiles_view(profiles@);
    proof {
        lemma_view_names(profiles@);
        lemma_first_named_view(v, n@);
    }
    let i = match find_profile(profiles, n) {
        None => return Err(quoted("profile '", n, "' not found")),
        Some(i) => i,
    };
    let kind = profiles[i].kind;
    if kind != ProfileKind::SpanSingle && kind != ProfileKind::SpanSlideshow {
        return Err(text("source updates require a Span profile"));
    }
    let new_kind = if slideshow {
        ProfileKind::SpanSlideshow
    } else {
        ProfileKind::SpanSingle
    };
    let stamps = ProfileStamps { updated_at: now, ..profiles[i].stamps };
    profiles.set(i, ProfileSummary { name: text(n), kind: new_kind, stamps });
    assert(profiles_view(profiles@) =~= v.update(i as int, (n@, new_kind, touched(v[i as int].2, now))));
    Ok(())
}

/// The stamp an apply of `name` at `now` leaves: the first profile of that
/// name records `now` as its last apply; without one nothing changes.
pub open spec fn mark_applied_spec(v: Seq<ProfileView>, name: Seq<char>, now: i64) -> Seq<ProfileView> {
    match first_named(view_names(v), name) {
        Some(i) => v.update(i, (v[i].0, v[i].1, ProfileStamps { last_applied_at: Some(now), ..v[i].2 })),
        None => v,
    }
}

/// Record that `name` was applied at `now`.
pub fn mark_applied(profiles: &mut Vec<ProfileSummary>, name: &str, now: i64)
    ensures
        profiles_view(final(profiles)@) == mark_applied_spec(profiles_view(old(profiles)@), name@, now),
{
    let ghost v = profiles_view(profiles@);
    proof {
        lemma_view_names(profiles@);
    }
    match find_profile(profiles, name) {
        Some(i) => {
            let stamps = ProfileStamps { last_applied_at: Some(now), ..profiles[i].stamps };
            let kind = profiles[i].kind;
            let n = text(profiles[i].name.as_str());
            profiles.set(i, ProfileSummary { name: n, kind, stamps });
            assert(profiles_view(profiles@) =~= v.update(
                i as int,
                (v[i as int].0, v[i as int].1, ProfileStamps { last_applied_at: Some(now), ..v[i as int].2 }),
            ));
        },
        None => {},
    }
}

/// Whether saving a profile recomputes its monitor-topology fingerprint
/// from the detected monitors: when the request asks for it, or when the
/// stored fingerprint is empty (the placeholder a new profile carries);
/// otherwise the fingerprint the client sent is kept.
pub fn topology_needs_recompute(recompute_requested: bool, stored_empty: bool) -> (r: bool)
    ensures
        r == (recompute_requested || stored_empty),
{
    recompute_requested || stored_empty
}

/// A rename changes one profile's name and nothing else of the list: it
/// succeeds exactly when `name` is stored and `new_name` is not; then the
/// first profile named `name` takes `new_name`, keeps its kind, its
/// creation and last-applied times, and records `now` as its update time,
/// and every other profile stays as it was.
pub proof fn law_rename_changes_only_the_name(
    v: Seq<ProfileView>,
    name: Seq<char>,
    new_name: Seq<char>,
    now: i64,
)
    ensures
        rename_spec(v, Some(name), Some(new_name), now) is Ok <==> (has_name(v, name) && !has_name(
            v,
            new_name,
        )),
        rename_spec(v, Some(name), Some(new_name), now) matches Ok(w) ==> {
            &&& w.len() == v.len()
            &&& exists|i: int|
                #![trigger w[i]]
                0 <= i < v.len() && v[i].0 == name && w[i].0 == new_name && w[i].1 == v[i].1
                    && w[i].2.created_at == v[i].2.created_at && w[i].2.last_applied_at
                    == v[i].2.last_applied_at && w[i].2.updated_at == now && (forall|j: int|
                    0 <= j < i ==> v[j].0 != name) && (forall|j: int|
                    0 <= j < v.len() && j != i ==> #[trigger] w[j] == v[j])
        },
{
    let names = view_names(v);
    lemma_first_named_found(names, name, names.len() as int);
    match first_named(names, name) {
        Some(i) => {
            assert(v[i].0 == names[i]);
            assert(has_name(v, name));
        },
        None => {
            if has_name(v, name) {
                let k = choose|k: int| 0 <= k < v.len() && #[trigger] v[k].0 == name;
                assert(names[k] == v[k].0);
            }
        },
    }
    if let Ok(w) = rename_spec(v, Some(name), Some(new_name), now) {
        let i = first_named(names, name)->0;
        assert(w[i].0 == new_name);
        assert forall|j: int| 0 <= j < i implies v[j].0 != name by {
            assert(names[j] == v[j].0);
        }
    }
}

/// Duplicating appends one copy and changes nothing else: it succeeds
/// exactly when `name` is stored and `new_name` is not; then the list gains
/// one last profile named `new_name`, of the kind of the first profile named
/// `name`, created and updated at `now` and never applied.
pub proof fn law_duplicate_appends_a_fresh_copy(
    v: Seq<ProfileView>,
    name: Seq<char>,
    new_name: Seq<char>,
    now: i64,
)
    ensures
        duplicate_spec(v, Some(name), Some(new_name), now) is Ok <==> (has_name(v, name)
            && !has_name(v, new_name)),
        duplicate_spec(v, Some(name), Some(new_name), now) matches Ok(w) ==> {
            &&& w.len() == v.len() + 1
            &&& w.take(v.len() as int) == v
            &&& w.last().0 == new_name
            &&& w.last().2.created_at == now
            &&& w.last().2.updated_at == now
            &&& w.last().2.last_applied_at is None
            &&& exists|i: int|
                0 <= i < v.len() && #[trigger] v[i].0 == name && w.last().1 == v[i].1 && forall|
                    j: int,
                | 0 <= j < i ==> v[j].0 != name
        },
{
    let names = view_names(v);
    lemma_first_named_found(names, name, names.len() as int);
    match first_named(names, name) {
        Some(i) => {
            assert(v[i].0 == names[i]);
            assert(has_name(v, name));
        },
        None => {
            if has_name(v, name) {
                let k = choose|k: int| 0 <= k < v.len() && #[trigger] v[k].0 == name;
                assert(names[k] == v[k].0);
            }
        },
    }
    if let Ok(w) = duplicate_spec(v, Some(name), Some(new_name), now) {
        let i = first_named(names, name)->0;
        assert(w.take(v.len() as int) =~= v);
        assert forall|j: int| 0 <= j < i implies v[j].0 != name by {
            assert(names[j] == v[j].0);
        }
    }
}

/// Marking a profile applied touches only its last-applied time: the list
/// keeps its length, every name, kind, creation and update time; the first
/// profile named `name` (if any) records `now` as applied, and every other
/// profile stays as it was.
pub proof fn law_mark_applied_touches_only_applied_time(v: Seq<ProfileView>, name: Seq<char>, now: i64)
    ensures
        ({
            let w = mark_applied_spec(v, name, now);
            &&& w.len() == v.len()
            &&& forall|j: int|
                0 <= j < v.len() ==> #[trigger] w[j].0 == v[j].0 && w[j].1 == v[j].1 && w[j].2.created_at
                    == v[j].2.created_at && w[j].2.updated_at == v[j].2.updated_at
            &&& forall|j: int|
                0 <= j < v.len() ==> (#[trigger] w[j].2.last_applied_at == Some(now) || w[j] == v[j])
            &&& has_name(v, name) ==> exists|i: int|
                0 <= i < v.len() && #[trigger] v[i].0 == name && w[i].2.last_applied_at == Some(now)
            &&& !has_name(v, name) ==> w == v
        }),
{
    let names = view_names(v);
    lemma_first_named_found(names, name, names.len() as int);
    match first_named(names, name) {
        Some(i) => {
            assert(v[i].0 == names[i]);
        },
        None => {
            if has_name(v, name) {
                let k = choose|k: int| 0 <= k < v.len() && #[trigger] v[k].0 == name;
                assert(names[k] == v[k].0);
            }
        },
    }
}

/// A source update changes one profile's kind and update time and nothing
/// else: for a stored Span profile, the first profile named `name` becomes
/// a slideshow exactly when `slideshow` is set (a single image otherwise),
/// keeps its name, creation and last-applied times, records `now` as its
/// update time, and every other profile stays as it was.
pub proof fn law_update_source_sets_only_the_kind(
    v: Seq<ProfileView>,
    name: Seq<char>,
    slideshow: bool,
    now: i64,
)
    ensures
        update_source_spec(v, Some(name), slideshow, now) matches Ok(w) ==> {
            &&& w.len() == v.len()
            &&& exists|i: int|
                #![trigger w[i]]
                0 <= i < v.len() && v[i].0 == name && w[i].0 == name && (v[i].1
                    == ProfileKind::SpanSingle || v[i].1 == ProfileKind::SpanSlideshow) && (w[i].1
                    == ProfileKind::SpanSlideshow <==> slideshow) && (w[i].1 == ProfileKind::SpanSingle
                    <==> !slideshow) && w[i].2.created_at == v[i].2.created_at
                    && w[i].2.last_applied_at == v[i].2.last_applied_at && w[i].2.updated_at == now
                    && (forall|j: int| 0 <= j < v.len() && j != i ==> #[trigger] w[j] == v[j])
        },
        !has_name(v, name) ==> update_source_spec(v, Some(name), slideshow, now) is Err,
{
    let names = view_names(v);
    lemma_first_named_found(names, name, names.len() as int);
    match first_named(names, name) {
        Some(i) => {
            assert(v[i].0 == names[i]);
            if let Ok(w) = update_source_spec(v, Some(name), slideshow, now) {
                assert(w[i].0 == name);
            }
        },
        None => {},
    }
}

} // verus!
