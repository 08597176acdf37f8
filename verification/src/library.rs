//! The image library's rules: how a tag is toggled on an entry, which
//! client paths are admitted (only those inside a configured root), how an
//! entry is found and dropped again, which file-system events warrant a
//! rescan, and how a thumbnail travels back to the GUI.

use vstd::prelude::*;

use base64::Engine;

use crate::pool::{path_key, path_relative, same_path, strip_path_prefix, LibraryEntry};
use crate::thumbnail_cache::{
    key_position, law_bounds, law_repeat_request_hits_cache, lemma_entry_within_total, put_result,
    EntryView, Mtime, ThumbnailCache, MAX_BYTES,
};
use crate::text::{
    chars_of, eq_ignore_ascii_case, eq_ignore_case, lower_chars, lower_seq, push_str,
    string_of, texts, trim, trimmed,
};

verus! {

/// The key a tag is stored under: trimmed and ASCII lower-cased.
pub open spec fn tag_key(tag: Seq<char>) -> Seq<char> {
    lower_seq(trim(tag))
}

/// The first tag below `n` that equals `key` up to ASCII case.
pub open spec fn first_tag_upto(tags: Seq<Seq<char>>, key: Seq<char>, n: int) -> Option<int>
    decreases n,
{
    if n <= 0 {
        None
    } else {
        match first_tag_upto(tags, key, n - 1) {
            Some(i) => Some(i),
            None => if eq_ignore_case(tags[n - 1], key) {
                Some(n - 1)
            } else {
                None
            },
        }
    }
}

/// The first tag equal to `key` up to ASCII case, as `Iterator::position`
/// finds it.
pub open spec fn first_tag(tags: Seq<Seq<char>>, key: Seq<char>) -> Option<int> {
    first_tag_upto(tags, key, tags.len() as int)
}

/// The tags after setting (`on`) or clearing a tag other than `favourite`:
/// a blank tag changes nothing; a new tag is appended; a cleared tag is
/// swap-removed (the last tag takes its place).
pub open spec fn tags_after(tags: Seq<Seq<char>>, tag: Seq<char>, on: bool) -> Seq<Seq<char>> {
    let key = tag_key(tag);
    if key.len() == 0 {
        tags
    } else {
        match (on, first_tag(tags, key)) {
            (true, None) => tags.push(key),
            (false, Some(i)) => tags.update(i, tags.last()).drop_last(),
            _ => tags,
        }
    }
}

/// Whether `tag` names the favourite flag rather than a tag.
pub open spec fn is_favourite_tag(tag: Seq<char>) -> bool {
    eq_ignore_case(tag, "favourite"@)
}

proof fn lemma_first_tag_stays(tags: Seq<Seq<char>>, key: Seq<char>, i: int, n: int)
    requires
        0 <= i < n,
        first_tag_upto(tags, key, i + 1) == Some(i),
    ensures
        first_tag_upto(tags, key, n) == Some(i),
    decreases n - i,
{
    if n > i + 1 {
        lemma_first_tag_stays(tags, key, i, n - 1);
    }
}

proof fn lemma_first_tag_bounds(tags: Seq<Seq<char>>, key: Seq<char>, n: int)
    requires
        0 <= n <= tags.len(),
    ensures
        match first_tag_upto(tags, key, n) {
            Some(i) => 0 <= i < n && eq_ignore_case(tags[i], key),
            None => forall|j: int| 0 <= j < n ==> !eq_ignore_case(#[trigger] tags[j], key),
        },
    decreases n,
{
    if n > 0 {
        lemma_first_tag_bounds(tags, key, n - 1);
    }
}

fn find_tag(tags: &Vec<String>, key: &[char]) -> (r: Option<usize>)
    ensures
        match first_tag(texts(tags@), key@) {
            Some(i) => 0 <= i < tags.len() && r == Some(i as usize),
            None => r is None,
        },
{
    let ghost ts = texts(tags@);
    let mut i: usize = 0;
    while i < tags.len()
        invariant
            i <= tags@.len(),
            ts == texts(tags@),
            first_tag_upto(ts, key@, i as int) is None,
        decreases tags@.len() - i,
    {
        let t = chars_of(tags[i].as_str());
        if eq_ignore_ascii_case(t.as_slice(), key) {
            assert(eq_ignore_case(ts[i as int], key@));
            proof {
                lemma_first_tag_stays(ts, key@, i as int, tags@.len() as int);
            }
            return Some(i);
        }
        i += 1;
    }
    None
}

/// Set (`on`) or clear `tag` on `entry`. `favourite`, in any letter case,
/// sets the favourite flag instead; other tags are stored trimmed and
/// lower-cased, at most once up to letter case.
pub fn apply_tag(entry: &mut LibraryEntry, tag: &str, on: bool)
    ensures
        final(entry).path == old(entry).path,
        is_favourite_tag(tag@) ==> final(entry).favourite == on && texts(final(entry).tags@)
            == texts(old(entry).tags@),
        !is_favourite_tag(tag@) ==> final(entry).favourite == old(entry).favourite && texts(
            final(entry).tags@,
        ) == tags_after(texts(old(entry).tags@), tag@, on),
{
    let tc = chars_of(tag);
    let fav = chars_of("favourite");
    proof {
        reveal_strlit("favourite");
    }
    if eq_ignore_ascii_case(tc.as_slice(), fav.as_slice()) {
        entry.favourite = on;
        return;
    }
    let t = trimmed(tc.as_slice());
    let key = lower_chars(t.as_slice());
    if key.len() == 0 {
        return;
    }
    let ghost ts = texts(entry.tags@);
    let position = find_tag(&entry.tags, key.as_slice());
    match (on, position) {
        (true, None) => {
            entry.tags.push(string_of(key.as_slice()));
            assert(texts(entry.tags@) =~= ts.push(key@));
        },
        (false, Some(idx)) => {
            entry.tags.swap_remove(idx);
            assert(texts(entry.tags@) =~= ts.update(idx as int, ts.last()).drop_last());
        },
        _ => {},
    }
}

/// Tagging is idempotent: setting a tag that is already set, or setting it
/// twice, leaves the tags as one setting does.
pub proof fn law_tag_on_idempotent(tags: Seq<Seq<char>>, tag: Seq<char>)
    ensures
        tags_after(tags_after(tags, tag, true), tag, true) == tags_after(tags, tag, true),
{
    let key = tag_key(tag);
    if key.len() > 0 {
        let once = tags_after(tags, tag, true);
        lemma_first_tag_bounds(tags, key, tags.len() as int);
        lemma_first_tag_bounds(once, key, once.len() as int);
        match first_tag(tags, key) {
            None => {
                assert(once[tags.len() as int] == key);
                assert(eq_ignore_case(once[tags.len() as int], key));
            },
            Some(i) => {},
        }
    }
}

/// After setting a non-blank tag, the entry carries it (up to letter
/// case); after clearing it on an entry that held it once, it is gone.
pub proof fn law_tag_set_then_present(tags: Seq<Seq<char>>, tag: Seq<char>)
    requires
        tag_key(tag).len() > 0,
    ensures
        first_tag(tags_after(tags, tag, true), tag_key(tag)) is Some,
{
    let key = tag_key(tag);
    let once = tags_after(tags, tag, true);
    lemma_first_tag_bounds(tags, key, tags.len() as int);
    lemma_first_tag_bounds(once, key, once.len() as int);
    if first_tag(tags, key) is None {
        assert(eq_ignore_case(once[tags.len() as int], key));
    }
}

/// Whether `canonical` lies inside one of the roots that canonicalised
/// (`None` marks a root that could not be canonicalised).
pub open spec fn admitted(canonical: Seq<char>, roots: Seq<Option<Seq<char>>>) -> bool {
    exists|i: int| 0 <= i < roots.len() && #[trigger] root_admits(roots[i], canonical)
}

/// Whether one root admits `canonical`: it canonicalised and is a prefix of
/// `canonical`, component by component.
pub open spec fn root_admits(root: Option<Seq<char>>, canonical: Seq<char>) -> bool {
    match root {
        Some(r) => path_relative(canonical, r) is Some,
        None => false,
    }
}

/// The roots' canonical forms, by value.
pub open spec fn roots_view(v: Seq<Option<String>>) -> Seq<Option<Seq<char>>> {
    v.map_values(|o: Option<String>| match o {
        Some(s) => Some(s@),
        None => None,
    })
}

/// The answer to a client path once it and the roots are canonicalised:
/// the canonical path when it lies inside a root, else the reason.
pub open spec fn inside_roots_spec(
    requested: Seq<char>,
    canonical: Result<Seq<char>, Seq<char>>,
    roots: Seq<Option<Seq<char>>>,
) -> Result<Seq<char>, Seq<char>> {
    match canonical {
        Err(e) => Err("rejecting path '"@ + requested + "': "@ + e),
        Ok(c) => if admitted(c, roots) {
            Ok(c)
        } else {
            Err("path '"@ + requested + "' is outside the configured library roots"@)
        },
    }
}

/// A library with no roots admits nothing; checked before any path is
/// canonicalised.
pub fn require_roots(root_count: usize) -> (r: Result<(), String>)
    ensures
        root_count == 0 ==> (r matches Err(m) && m@ == "library has no configured roots"@),
        root_count > 0 ==> r is Ok,
{
    if root_count == 0 {
        let mut m = String::new();
        push_str(&mut m, "library has no configured roots");
        Err(m)
    } else {
        Ok(())
    }
}

/// Admit a client path: `canonical` is its canonical form (or the error
/// text of a failed canonicalisation) and `root_canonicals` the roots'
/// canonical forms, `None` where a root failed to canonicalise. Fail-deny:
/// such a root admits nothing.
pub fn inside_roots(
    requested: &str,
    canonical: Result<String, String>,
    root_canonicals: &Vec<Option<String>>,
) -> (r: Result<String, String>)
    ensures
        match inside_roots_spec(
            requested@,
            match canonical {
                Ok(c) => Ok(c@),
                Err(e) => Err(e@),
            },
            roots_view(root_canonicals@),
        ) {
            Ok(c) => r matches Ok(s) && s@ == c,
            Err(m) => r matches Err(s) && s@ == m,
        },
{
    let c = match canonical {
        Err(e) => {
            let mut m = String::new();
            push_str(&mut m, "rejecting path '");
            push_str(&mut m, requested);
            push_str(&mut m, "': ");
            push_str(&mut m, e.as_str());
            return Err(m);
        },
        Ok(c) => c,
    };
    let ghost rv = roots_view(root_canonicals@);
    let mut i: usize = 0;
    while i < root_canonicals.len()
        invariant
            canonical == Ok::<String, String>(c),
            i <= root_canonicals@.len(),
            rv == roots_view(root_canonicals@),
            forall|j: int| 0 <= j < i ==> !#[trigger] root_admits(rv[j], c@),
        decreases root_canonicals@.len() - i,
    {
        match &root_canonicals[i] {
            Some(root) => {
                if strip_path_prefix(c.as_str(), root.as_str()).is_some() {
                    assert(root_admits(rv[i as int], c@));
                    return Ok(c);
                }
            },
            None => {},
        }
        i += 1;
    }
    let mut m = String::new();
    push_str(&mut m, "path '");
    push_str(&mut m, requested);
    push_str(&mut m, "' is outside the configured library roots");
    Err(m)
}

/// Fail-deny: a root that could not be canonicalised shrinks what is
/// admitted, never grows it; and only a path inside some root is admitted.
pub proof fn law_unreadable_root_admits_nothing(
    requested: Seq<char>,
    canonical: Result<Seq<char>, Seq<char>>,
    roots: Seq<Option<Seq<char>>>,
)
    ensures
        inside_roots_spec(requested, canonical, roots.push(None)) == inside_roots_spec(
            requested,
            canonical,
            roots,
        ),
        inside_roots_spec(requested, canonical, roots) matches Ok(c) ==> canonical == Ok::<
            Seq<char>,
            Seq<char>,
        >(c) && admitted(c, roots),
{
    if let Ok(c) = canonical {
        let more = roots.push(None);
        if admitted(c, more) {
            let i = choose|i: int| 0 <= i < more.len() && #[trigger] root_admits(more[i], c);
            assert(i < roots.len());
            assert(roots[i] == more[i]);
        }
        if admitted(c, roots) {
            let i = choose|i: int| 0 <= i < roots.len() && #[trigger] root_admits(roots[i], c);
            assert(more[i] == roots[i]);
        }
    }
}

/// What an entry holds, by value: its path, tags and favourite flag.
pub open spec fn entry_view(e: LibraryEntry) -> (Seq<char>, Seq<Seq<char>>, bool) {
    (e.path@, texts(e.tags@), e.favourite)
}

/// The entries of a library, by value.
pub open spec fn entries_view(lib: Seq<LibraryEntry>) -> Seq<(Seq<char>, Seq<Seq<char>>, bool)> {
    lib.map_values(|e: LibraryEntry| entry_view(e))
}

/// The entries left after dropping those whose path is `canonical` or the
/// raw client path (legacy entries indexed before canonicalisation), in
/// their order. Paths are compared as `Path`'s `==` compares them.
pub open spec fn entries_without(
    lib: Seq<(Seq<char>, Seq<Seq<char>>, bool)>,
    canonical: Seq<char>,
    raw: Seq<char>,
) -> Seq<(Seq<char>, Seq<Seq<char>>, bool)> {
    lib.filter(
        |e: (Seq<char>, Seq<Seq<char>>, bool)|
            path_key(e.0) != path_key(canonical) && path_key(e.0) != path_key(raw),
    )
}

/// Drop the entries for a deleted path from the cached library; whether any
/// was dropped.
pub fn remove_entries(library: &mut Vec<LibraryEntry>, canonical: &str, raw: &str) -> (removed:
    bool)
    ensures
        entries_view(final(library)@) == entries_without(entries_view(old(library)@), canonical@, raw@),
        removed == (final(library)@.len() < old(library)@.len()),
{
    let ghost old_lib = entries_view(library@);
    let mut kept: Vec<LibraryEntry> = Vec::new();
    let n = library.len();
    let mut taken: Vec<LibraryEntry> = Vec::new();
    std::mem::swap(&mut taken, library);
    let mut i: usize = 0;
    while i < n
        invariant
            n == old_lib.len(),
            entries_view(taken@) == old_lib,
            i <= n,
            entries_view(kept@) == entries_without(old_lib.take(i as int), canonical@, raw@),
        decreases n - i,
    {
        let e = &taken[i];
        let keep = !same_path(e.path.as_str(), canonical) && !same_path(e.path.as_str(), raw);
        proof {
            reveal(Seq::filter);
        }
        assert(old_lib.take(i as int + 1).drop_last() =~= old_lib.take(i as int));
        assert(old_lib.take(i as int + 1).last() == old_lib[i as int]);
        assert(old_lib[i as int] == entry_view(taken@[i as int]));
        if keep {
            let c = e.clone_entry();
            let ghost before = entries_view(kept@);
            kept.push(c);
            assert(entries_view(kept@) =~= before.push(entry_view(c)));
        }
        i += 1;
    }
    assert(old_lib.take(n as int) =~= old_lib);
    proof {
        old_lib.lemma_filter_len(
            |e: (Seq<char>, Seq<Seq<char>>, bool)|
                path_key(e.0) != path_key(canonical@) && path_key(e.0) != path_key(raw@),
        );
    }
    let removed = kept.len() < n;
    *library = kept;
    removed
}

/// The answer to a `library_delete` once the database and the cache were
/// asked: refused when neither held the path.
pub fn delete_outcome(raw: &str, removed_from_db: bool, removed_from_cache: bool) -> (r: Result<
    (),
    String,
>)
    ensures
        removed_from_db || removed_from_cache ==> r is Ok,
        !removed_from_db && !removed_from_cache ==> (r matches Err(m) && m@ == "path '"@ + raw@
            + "' not in library"@),
{
    if removed_from_db || removed_from_cache {
        Ok(())
    } else {
        Err(not_in_library(raw))
    }
}

/// The refusal for a path the library does not hold.
pub fn not_in_library(raw: &str) -> (m: String)
    ensures
        m@ == "path '"@ + raw@ + "' not in library"@,
{
    let mut m = String::new();
    push_str(&mut m, "path '");
    push_str(&mut m, raw);
    push_str(&mut m, "' not in library");
    m
}

/// Whether a library path names the canonical or the raw client path, as
/// `Path`'s `==` compares paths.
pub open spec fn names_target(path: Seq<char>, canonical: Seq<char>, raw: Seq<char>) -> bool {
    path_key(path) == path_key(canonical) || path_key(path) == path_key(raw)
}

/// The entry a `library_tag` request updates: the first whose path is the
/// canonical or the raw client path.
pub fn find_entry(library: &Vec<LibraryEntry>, canonical: &str, raw: &str) -> (r: Option<usize>)
    ensures
        match r {
            Some(i) => i < library@.len() && names_target(library@[i as int].path@, canonical@, raw@)
                && forall|j: int|
                0 <= j < i ==> !names_target(#[trigger] library@[j].path@, canonical@, raw@),
            None => forall|j: int|
                0 <= j < library@.len() ==> !names_target(#[trigger] library@[j].path@, canonical@, raw@),
        },
{
    let mut i: usize = 0;
    while i < library.len()
        invariant
            i <= library@.len(),
            forall|j: int|
                0 <= j < i ==> !names_target(#[trigger] library@[j].path@, canonical@, raw@),
        decreases library@.len() - i,
    {
        let p = library[i].path.as_str();
        if same_path(p, canonical) || same_path(p, raw) {
            return Some(i);
        }
        i += 1;
    }
    None
}

impl LibraryEntry {
    /// A copy of the entry.
    pub fn clone_entry(&self) -> (e: LibraryEntry)
        ensures
            e.path@ == self.path@,
            texts(e.tags@) == texts(self.tags@),
            e.favourite == self.favourite,
    {
        let mut tags: Vec<String> = Vec::new();
        let mut i: usize = 0;
        while i < self.tags.len()
            invariant
                i <= self.tags@.len(),
                texts(tags@) == texts(self.tags@.take(i as int)),
            decreases self.tags@.len() - i,
        {
            let mut t = String::new();
            push_str(&mut t, self.tags[i].as_str());
            tags.push(t);
            assert(texts(self.tags@.take(i as int + 1)) =~= texts(self.tags@.take(i as int)).push(
                self.tags@[i as int]@,
            ));
            assert(texts(tags@) =~= texts(self.tags@.take(i as int + 1)));
            i += 1;
        }
        assert(self.tags@.take(self.tags@.len() as int) =~= self.tags@);
        let mut path = String::new();
        push_str(&mut path, self.path.as_str());
        LibraryEntry { path, tags, favourite: self.favourite }
    }
}

/// A file-system event, as the library watcher classifies it.
#[derive(Debug, Clone, Copy, PartialEq, Eq, Structural)]
pub enum EventKind {
    /// An event of unknown kind.
    Any,
    /// A file was read, opened or closed.
    Access,
    /// A file or folder appeared.
    Create,
    /// Some change of unknown kind.
    ModifyAny,
    /// A file's content changed.
    ModifyData,
    /// A file's metadata (times, permissions) changed.
    ModifyMetadata,
    /// A file was renamed.
    ModifyName,
    /// Some other change.
    ModifyOther,
    /// A file or folder went away.
    Remove,
    /// An event the watcher backend does not classify.
    Other,
}

/// Whether an event can change the set of files a scan finds. Reads and
/// metadata changes are excluded, so the rescan's own reads (which may
/// bump access times) cannot feed the watcher into a rescan loop.
pub fn affects_library(kind: EventKind) -> (r: bool)
    ensures
        r == (kind == EventKind::Create || kind == EventKind::Remove || kind
            == EventKind::ModifyData || kind == EventKind::ModifyName),
{
    match kind {
        EventKind::Create | EventKind::Remove | EventKind::ModifyData | EventKind::ModifyName => true,
        _ => false,
    }
}

/// The smallest edge a thumbnail is rendered at.
pub const THUMBNAIL_MIN_EDGE: u32 = 64;

/// The largest edge the GUI may ask a source thumbnail for.
pub const SOURCE_THUMBNAIL_MAX_EDGE: u32 = 2048;

/// The edge a source thumbnail is rendered at: the requested edge (else the
/// grid default) held to `[THUMBNAIL_MIN_EDGE, SOURCE_THUMBNAIL_MAX_EDGE]`,
/// so a hostile or buggy webview cannot drive an unbounded decode.
pub fn clamp_source_edge(requested: Option<u32>, default_edge: u32) -> (e: u32)
    ensures
        ({
            let want = match requested {
                Some(r) => r,
                None => default_edge,
            };
            e == (if want < THUMBNAIL_MIN_EDGE {
                THUMBNAIL_MIN_EDGE
            } else if want > SOURCE_THUMBNAIL_MAX_EDGE {
                SOURCE_THUMBNAIL_MAX_EDGE
            } else {
                want
            })
        }),
{
    let want = match requested {
        Some(r) => r,
        None => default_edge,
    };
    if want < THUMBNAIL_MIN_EDGE {
        THUMBNAIL_MIN_EDGE
    } else if want > SOURCE_THUMBNAIL_MAX_EDGE {
        SOURCE_THUMBNAIL_MAX_EDGE
    } else {
        want
    }
}

/// The character of the standard base64 alphabet for a 6-bit value.
pub open spec fn base64_digit(v: int) -> char {
    if v < 26 {
        (65 + v) as char
    } else if v < 52 {
        (97 + v - 26) as char
    } else if v < 62 {
        (48 + v - 52) as char
    } else if v == 62 {
        '+'
    } else {
        '/'
    }
}

/// The standard, padded base64 text of `bytes` (RFC 4648, `+` and `/`, `=`
/// padding), as the `base64` crate's `STANDARD` engine encodes it: each
/// group of three bytes becomes four digits, and a last group of one or two
/// bytes is padded to four characters with `=`.
pub open spec fn base64_standard(bytes: Seq<u8>) -> Seq<char>
    decreases bytes.len(),
{
    if bytes.len() == 0 {
        Seq::empty()
    } else if bytes.len() == 1 {
        let a = bytes[0] as int;
        seq![base64_digit(a / 4), base64_digit((a % 4) * 16), '=', '=']
    } else if bytes.len() == 2 {
        let (a, b) = (bytes[0] as int, bytes[1] as int);
        seq![base64_digit(a / 4), base64_digit((a % 4) * 16 + b / 16), base64_digit((b % 16) * 4), '=']
    } else {
        let (a, b, c) = (bytes[0] as int, bytes[1] as int, bytes[2] as int);
        seq![
            base64_digit(a / 4),
            base64_digit((a % 4) * 16 + b / 16),
            base64_digit((b % 16) * 4 + c / 64),
            base64_digit(c % 64),
        ] + base64_standard(bytes.subrange(3, bytes.len() as int))
    }
}

/// Encode `bytes` with `base64::engine::general_purpose::STANDARD`, whose
/// output the contract states through `base64_standard`; the engine panics
/// only when the encoded length overflows `usize`, which the bound rules out.
#[verifier::external_body]
fn encode_base64(bytes: &[u8]) -> (s: String)
    requires
        bytes@.len() <= usize::MAX / 2,
    ensures
        s@ == base64_standard(bytes@),
{
    base64::engine::general_purpose::STANDARD.encode(bytes)
}

/// A rendered thumbnail as the GUI receives it.
#[derive(Debug, Clone)]
pub struct ThumbnailPayload {
    /// The image bytes in standard base64.
    pub data: String,
    /// The image's MIME type.
    pub mime: String,
}

/// Package rendered thumbnail bytes for the GUI.
pub fn thumbnail_payload(bytes: &[u8], mime: &str) -> (p: ThumbnailPayload)
    requires
        bytes@.len() <= usize::MAX / 2,
    ensures
        p.data@ == base64_standard(bytes@),
        p.mime@ == mime@,
{
    let mut m = String::new();
    push_str(&mut m, mime);
    ThumbnailPayload { data: encode_base64(bytes), mime: m }
}

/// What a thumbnail request finds in the cache for `path` at modification
/// time `mtime`: the cached payload, base64-encoded, with its MIME type. A
/// file whose modification time could not be read skips the cache.
pub open spec fn cached_payload_spec(s: Seq<EntryView>, path: Seq<char>, mtime: Option<Mtime>) -> Option<
    (Seq<char>, Seq<char>),
> {
    match mtime {
        None => None,
        Some(m) => match key_position(s, path, m) {
            Some(i) => Some((base64_standard(s[i].bytes), s[i].mime)),
            None => None,
        },
    }
}

/// The cache content after that lookup: a hit moves to the front.
pub open spec fn after_lookup_spec(s: Seq<EntryView>, path: Seq<char>, mtime: Option<Mtime>) -> Seq<
    EntryView,
> {
    match mtime {
        None => s,
        Some(m) => match key_position(s, path, m) {
            Some(i) => seq![s[i]] + s.remove(i),
            None => s,
        },
    }
}

/// Serve a thumbnail request from the cache when it holds the file at its
/// current modification time; `None` sends the request on to rendering.
pub fn cached_thumbnail(cache: &mut ThumbnailCache, path: &String, mtime: Option<Mtime>) -> (r: Option<
    ThumbnailPayload,
>)
    requires
        old(cache).wf(),
    ensures
        final(cache).wf(),
        final(cache)@ == after_lookup_spec(old(cache)@, path@, mtime),
        match cached_payload_spec(old(cache)@, path@, mtime) {
            Some((d, m)) => r matches Some(p) && p.data@ == d && p.mime@ == m,
            None => r is None,
        },
{
    let m = match mtime {
        None => return None,
        Some(m) => m,
    };
    let ghost s0 = cache@;
    proof {
        law_bounds(&*cache);
    }
    match cache.get(path, m) {
        None => None,
        Some(t) => {
            proof {
                let i = key_position(s0, path@, m)->0;
                lemma_entry_within_total(s0, i);
            }
            Some(thumbnail_payload(t.bytes.as_slice(), t.mime.as_str()))
        },
    }
}

/// Answer a thumbnail request from a fresh render: cache the rendered bytes
/// (when the file's modification time is known) and return them encoded; a
/// failed render is answered with its error and caches nothing.
pub fn respond_rendered(
    cache: &mut ThumbnailCache,
    path: String,
    mtime: Option<Mtime>,
    rendered: Result<(Vec<u8>, String), String>,
) -> (r: Result<ThumbnailPayload, String>)
    requires
        old(cache).wf(),
        rendered matches Ok((b, _)) ==> b@.len() <= usize::MAX / 2,
    ensures
        final(cache).wf(),
        match rendered {
            Ok((b, m)) => {
                &&& r matches Ok(p) && p.data@ == base64_standard(b@) && p.mime@ == m@
                &&& final(cache)@ == match mtime {
                    Some(t) => put_result(old(cache)@, path@, t, b@, m@),
                    None => old(cache)@,
                }
            },
            Err(e) => r matches Err(x) && x@ == e@ && final(cache)@ == old(cache)@,
        },
{
    match rendered {
        Ok((bytes, mime)) => {
            let p = thumbnail_payload(bytes.as_slice(), mime.as_str());
            if let Some(t) = mtime {
                cache.put(path, t, bytes, mime);
            }
            Ok(p)
        },
        Err(e) => Err(e),
    }
}

/// A second, identical thumbnail request is served from the cache with the
/// very payload the first one rendered, and leaves the cache as it was: once
/// a render of at most [`MAX_BYTES`] was cached for the file at its
/// modification time, the lookup hits the same base64 text and MIME type.
pub proof fn law_second_thumbnail_request_hits(
    c: &ThumbnailCache,
    path: Seq<char>,
    mtime: Mtime,
    bytes: Seq<u8>,
    mime: Seq<char>,
)
    requires
        c.wf(),
        bytes.len() <= MAX_BYTES,
    ensures
        ({
            let s1 = put_result(c@, path, mtime, bytes, mime);
            &&& cached_payload_spec(s1, path, Some(mtime)) == Some((base64_standard(bytes), mime))
            &&& after_lookup_spec(s1, path, Some(mtime)) == s1
        }),
{
    law_repeat_request_hits_cache(c, path, mtime, bytes, mime);
}

/// Where the daemon's cached library comes from at start-up.
#[derive(Debug, Clone, Copy, PartialEq, Eq, Structural)]
pub enum LibrarySource {
    /// No state directory: no database, an empty library.
    Empty,
    /// No database could be opened, or it could not be read: scan the
    /// roots once and serve that from memory.
    FreshScan,
    /// The database holds entries: serve them.
    DbRows,
    /// The database is empty (first run): scan, seed it, serve the result.
    SeedFromScan,
}

/// Decide the library's start-up source. `listed` is the number of entries
/// the opened database listed, `None` when listing failed. The library is
/// non-critical state, so every failure degrades instead of stopping.
pub fn library_source(state_dir_ready: bool, db_opened: bool, listed: Option<usize>) -> (s:
    LibrarySource)
    ensures
        s == (if !state_dir_ready {
            LibrarySource::Empty
        } else if !db_opened {
            LibrarySource::FreshScan
        } else {
            match listed {
                Some(n) => if n > 0 {
                    LibrarySource::DbRows
                } else {
                    LibrarySource::SeedFromScan
                },
                None => LibrarySource::FreshScan,
            }
        }),
{
    if !state_dir_ready {
        LibrarySource::Empty
    } else if !db_opened {
        LibrarySource::FreshScan
    } else {
        match listed {
            Some(n) => if n > 0 {
                LibrarySource::DbRows
            } else {
                LibrarySource::SeedFromScan
            },
            None => LibrarySource::FreshScan,
        }
    }
}

/// Whether a rescan serves the database's rows (which keep per-image tags
/// and favourites) rather than the bare scan: only when the database took
/// the new entries and could be read back.
pub fn rescan_serves_db(db_present: bool, write_ok: bool, reread_ok: bool) -> (r: bool)
    ensures
        r == (db_present && write_ok && reread_ok),
{
    db_present && write_ok && reread_ok
}

/// What refreshing the file-system watcher does.
#[derive(Debug, Clone, Copy, PartialEq, Eq, Structural)]
pub enum WatcherPlan {
    /// No event channel is wired in: leave things as they are.
    Unchanged,
    /// Drop the old watcher; with no roots there is nothing to watch.
    DropOnly,
    /// Drop the old watcher, then watch the current roots.
    Rebuild,
}

/// Plan a watcher refresh. The old watcher always goes first, so its
/// forwarder stops before a new one sends on the same channel.
pub fn watcher_plan(has_event_channel: bool, root_count: usize) -> (p: WatcherPlan)
    ensures
        p == (if !has_event_channel {
            WatcherPlan::Unchanged
        } else if root_count == 0 {
            WatcherPlan::DropOnly
        } else {
            WatcherPlan::Rebuild
        }),
{
    if !has_event_channel {
        WatcherPlan::Unchanged
    } else if root_count == 0 {
        WatcherPlan::DropOnly
    } else {
        WatcherPlan::Rebuild
    }
}

/// Whether two root lists name the same paths in the same order, paths
/// compared as `Path`'s `==` compares them.
pub open spec fn same_roots(a: Seq<Seq<char>>, b: Seq<Seq<char>>) -> bool {
    a.len() == b.len() && forall|k: int| 0 <= k < a.len() ==> path_key(#[trigger] a[k]) == path_key(b[k])
}

/// Whether saving a config changes the library roots, so the watcher must
/// be rebuilt to cover them.
pub fn roots_changed(old_roots: &Vec<String>, new_roots: &Vec<String>) -> (r: bool)
    ensures
        r == !same_roots(texts(old_roots@), texts(new_roots@)),
{
    if old_roots.len() != new_roots.len() {
        assert(texts(old_roots@).len() != texts(new_roots@).len());
        return true;
    }
    let ghost a = texts(old_roots@);
    let ghost b = texts(new_roots@);
    let mut i: usize = 0;
    while i < old_roots.len()
        invariant
            a == texts(old_roots@),
            b == texts(new_roots@),
            old_roots@.len() == new_roots@.len(),
            i <= old_roots@.len(),
            forall|k: int| 0 <= k < i ==> path_key(#[trigger] a[k]) == path_key(b[k]),
        decreases old_roots@.len() - i,
    {
        if !same_path(old_roots[i].as_str(), new_roots[i].as_str()) {
            assert(path_key(a[i as int]) != path_key(b[i as int]));
            return true;
        }
        i += 1;
    }
    false
}

} // verus!
