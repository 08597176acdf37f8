//! Slideshow pool resolution from the cached library index.
//!
//! [`pool_from_cache`] serves what it can from the in-memory library: image
//! sources always hit, folder sources hit through the cached entries under
//! them, and folders with no cached entry are reported back as uncovered so
//! the caller can walk only those on disk.

use std::path::Path;

use vstd::prelude::*;

verus! {

/// Relative path of `entry` under `folder`, as `Path::strip_prefix` computes
/// it (component-wise), or `None` when `folder` is not a prefix of `entry`.
pub uninterp spec fn path_relative(entry: Seq<char>, folder: Seq<char>) -> Option<Seq<char>>;


/// The pieces of `s` between `/` separators, as `str::split('/')` yields
/// them (empty pieces included).
pub open spec fn split_slash(s: Seq<char>) -> Seq<Seq<char>>
    decreases s.len(),
{
    if s.len() == 0 {
        seq![Seq::<char>::empty()]
    } else {
        let rest = split_slash(s.drop_first());
        if s[0] == '/' {
            seq![Seq::<char>::empty()] + rest
        } else {
            rest.update(0, seq![s[0]] + rest[0])
        }
    }
}

/// What `Path`'s `==` compares of a Unix path: the components that
/// `Path::components` yields under its documented normalisation. A root
/// when the path starts with `/`; a `.` kept only at the very start of a
/// relative path; then the pieces between separators, with empty pieces
/// (repeated or trailing separators) and `.` pieces dropped.
pub open spec fn path_key(s: Seq<char>) -> (bool, bool, Seq<Seq<char>>) {
    let absolute = s.len() > 0 && s[0] == '/';
    let leading_dot = !absolute && s.len() > 0 && s[0] == '.' && (s.len() == 1 || s[1] == '/');
    (
        absolute,
        leading_dot,
        split_slash(s).filter(|piece: Seq<char>| piece.len() > 0 && piece != seq!['.']),
    )
}

/// Number of components of a path, as `Path::components().count()` gives
/// it: the root, the leading `.` and the pieces that `path_key` keeps.
pub open spec fn path_component_count(p: Seq<char>) -> nat {
    let k = path_key(p);
    (if k.0 {
        1nat
    } else {
        0nat
    }) + (if k.1 {
        1nat
    } else {
        0nat
    }) + k.2.len()
}

/// Compares two paths with `Path`'s `==`, which compares their components;
/// the contract states the documented normalisation through `path_key`.
#[verifier::external_body]
pub(crate) fn same_path(a: &str, b: &str) -> (r: bool)
    ensures
        r == (path_key(a@) == path_key(b@)),
{
    Path::new(a) == Path::new(b)
}

/// Strips `folder` from `entry` with `Path::strip_prefix`, converting the
/// remainder back to a string. The result is named by `path_relative`.
#[verifier::external_body]
pub(crate) fn strip_path_prefix(entry: &str, folder: &str) -> (r: Option<String>)
    ensures
        match r {
            Some(s) => path_relative(entry@, folder@) == Some(s@),
            None => path_relative(entry@, folder@) is None,
        },
{
    Path::new(entry).strip_prefix(folder).ok().map(|rel| rel.to_string_lossy().into_owned())
}

/// Counts the components of `p` with `Path::components`; the contract
/// states the documented normalisation through `path_component_count`.
#[verifier::external_body]
fn count_components(p: &str) -> (n: usize)
    ensures
        n as nat == path_component_count(p@),
{
    Path::new(p).components().count()
}

/// One source of slideshow images.
#[derive(Debug, Clone, PartialEq, Eq)]
pub enum ImageSource {
    /// A single hand-picked image.
    Image { path: String },
    /// Every image in a folder, optionally including subfolders.
    Folder { path: String, recursive: bool },
}

/// The sources a slideshow draws from, in order.
#[derive(Debug, Clone)]
pub struct ImageSet {
    pub sources: Vec<ImageSource>,
}

/// A library index entry: its path and per-image metadata.
#[derive(Debug, Clone)]
pub struct LibraryEntry {
    pub path: String,
    pub tags: Vec<String>,
    pub favourite: bool,
}

/// Outcome of a cache-only resolution.
#[derive(Debug)]
pub struct CachePool {
    /// Paths served from image sources and cache-covered folders, deduped.
    pub hits: Vec<String>,
    /// Folder sources with no cached entry; only these need a disk walk.
    pub uncovered: Vec<ImageSource>,
}

/// Whether `entry` lies in `folder`: anywhere below it when `recursive`,
/// else as a direct child (exactly one relative component).
pub open spec fn in_folder(entry: Seq<char>, folder: Seq<char>, recursive: bool) -> bool {
    match path_relative(entry, folder) {
        None => false,
        Some(rel) => recursive || path_component_count(rel) == 1,
    }
}

/// Whether a library path lies in `folder`.
pub fn under_folder(entry: &str, folder: &str, recursive: bool) -> (r: bool)
    ensures
        r == in_folder(entry@, folder@, recursive),
{
    let rel = match strip_path_prefix(entry, folder) {
        None => return false,
        Some(rel) => rel,
    };
    if recursive {
        return true;
    }
    count_components(rel.as_str()) == 1
}

/// Whether `v` holds `p`, paths compared as `Path`'s `==` compares them.
pub open spec fn has_path(v: Seq<Seq<char>>, p: Seq<char>) -> bool {
    exists|k: int| 0 <= k < v.len() && path_key(#[trigger] v[k]) == path_key(p)
}

/// `paths` with later repeats removed, first occurrences kept in order; two
/// paths repeat each other when `Path`'s `==` finds them equal.
pub open spec fn dedup(paths: Seq<Seq<char>>) -> Seq<Seq<char>>
    decreases paths.len(),
{
    if paths.len() == 0 {
        Seq::empty()
    } else {
        let d = dedup(paths.drop_last());
        if has_path(d, paths.last()) {
            d
        } else {
            d.push(paths.last())
        }
    }
}

/// The paths of `v`, by value.
pub open spec fn paths_view(v: Seq<String>) -> Seq<Seq<char>> {
    v.map_values(|p: String| p@)
}

fn contains_path(v: &Vec<String>, p: &String) -> (r: bool)
    ensures
        r == has_path(paths_view(v@), p@),
{
    let ghost pv = paths_view(v@);
    let mut i: usize = 0;
    while i < v.len()
        invariant
            i <= v@.len(),
            pv == paths_view(v@),
            forall|k: int| 0 <= k < i ==> path_key(#[trigger] pv[k]) != path_key(p@),
        decreases v@.len() - i,
    {
        if same_path(v[i].as_str(), p.as_str()) {
            assert(path_key(pv[i as int]) == path_key(p@));
            return true;
        }
        i += 1;
    }
    false
}

/// Keep the first occurrence of each path, in order, so the picker never
/// sees the same image twice.
pub fn dedupe(paths: Vec<String>) -> (out: Vec<String>)
    ensures
        paths_view(out@) == dedup(paths_view(paths@)),
{
    let ghost pv = paths_view(paths@);
    let mut out: Vec<String> = Vec::new();
    let mut i: usize = 0;
    assert(pv.take(0) =~= Seq::<Seq<char>>::empty());
    assert(paths_view(out@) =~= Seq::<Seq<char>>::empty());
    while i < paths.len()
        invariant
            pv == paths_view(paths@),
            i <= paths@.len(),
            paths_view(out@) == dedup(pv.take(i as int)),
        decreases paths@.len() - i,
    {
        let p = &paths[i];
        assert(pv.take(i as int + 1).drop_last() =~= pv.take(i as int));
        assert(pv.take(i as int + 1).last() == p@);
        if !contains_path(&out, p) {
            let ghost before = paths_view(out@);
            out.push(p.clone());
            assert(paths_view(out@) =~= before.push(p@));
        }
        i += 1;
    }
    assert(pv.take(paths@.len() as int) =~= pv);
    out
}

/// Abstract content of an image source.
pub enum SourceView {
    Image(Seq<char>),
    Folder(Seq<char>, bool),
}

/// The abstract view of a source.
pub open spec fn source_view(s: ImageSource) -> SourceView {
    match s {
        ImageSource::Image { path } => SourceView::Image(path@),
        ImageSource::Folder { path, recursive } => SourceView::Folder(path@, recursive),
    }
}

/// The sources of a set, by value.
pub open spec fn sources_view(v: Seq<ImageSource>) -> Seq<SourceView> {
    v.map_values(|s: ImageSource| source_view(s))
}

/// The cached library paths, by value.
pub open spec fn library_paths(lib: Seq<LibraryEntry>) -> Seq<Seq<char>> {
    lib.map_values(|e: LibraryEntry| e.path@)
}

/// The first `n` library paths that lie in `folder`, in library order.
pub open spec fn folder_hits(lib: Seq<Seq<char>>, folder: Seq<char>, recursive: bool, n: nat) -> Seq<
    Seq<char>,
>
    decreases n,
{
    if n == 0 || n > lib.len() {
        Seq::empty()
    } else {
        let h = folder_hits(lib, folder, recursive, (n - 1) as nat);
        if in_folder(lib[n - 1], folder, recursive) {
            h.push(lib[n - 1])
        } else {
            h
        }
    }
}

/// What one source contributes before de-duplication.
pub open spec fn source_hits(src: SourceView, lib: Seq<Seq<char>>) -> Seq<Seq<char>> {
    match src {
        SourceView::Image(p) => seq![p],
        SourceView::Folder(p, r) => folder_hits(lib, p, r, lib.len()),
    }
}

/// Hits of the first `n` sources, in source order, before de-duplication.
pub open spec fn raw_hits(sources: Seq<SourceView>, lib: Seq<Seq<char>>, n: nat) -> Seq<Seq<char>>
    decreases n,
{
    if n == 0 || n > sources.len() {
        Seq::empty()
    } else {
        raw_hits(sources, lib, (n - 1) as nat) + source_hits(sources[n - 1], lib)
    }
}

/// Folder sources among the first `n` with no cached entry, in order.
pub open spec fn uncovered_sources(sources: Seq<SourceView>, lib: Seq<Seq<char>>, n: nat) -> Seq<
    SourceView,
>
    decreases n,
{
    if n == 0 || n > sources.len() {
        Seq::empty()
    } else {
        let u = uncovered_sources(sources, lib, (n - 1) as nat);
        match sources[n - 1] {
            SourceView::Folder(p, r) => if folder_hits(lib, p, r, lib.len()).len() == 0 {
                u.push(sources[n - 1])
            } else {
                u
            },
            SourceView::Image(_) => u,
        }
    }
}

fn clone_source(s: &ImageSource) -> (r: ImageSource)
    ensures
        source_view(r) == source_view(*s),
{
    match s {
        ImageSource::Image { path } => ImageSource::Image { path: path.clone() },
        ImageSource::Folder { path, recursive } => ImageSource::Folder {
            path: path.clone(),
            recursive: *recursive,
        },
    }
}

/// Serve as much of `images` as possible from the cached library without
/// touching disk. Image sources always hit; a folder source hits through the
/// cached entries under it, and one with no cached entry is reported as
/// uncovered instead of failing the whole resolution.
pub fn pool_from_cache(images: &ImageSet, cached_library: &Vec<LibraryEntry>) -> (r: CachePool)
    ensures
        paths_view(r.hits@) == dedup(
            raw_hits(
                sources_view(images.sources@),
                library_paths(cached_library@),
                images.sources@.len() as nat,
            ),
        ),
        sources_view(r.uncovered@) == uncovered_sources(
            sources_view(images.sources@),
            library_paths(cached_library@),
            images.sources@.len() as nat,
        ),
{
    let ghost srcs = sources_view(images.sources@);
    let ghost lib = library_paths(cached_library@);
    let mut hits: Vec<String> = Vec::new();
    let mut uncovered: Vec<ImageSource> = Vec::new();
    let mut i: usize = 0;
    assert(paths_view(hits@) =~= Seq::<Seq<char>>::empty());
    assert(sources_view(uncovered@) =~= Seq::<SourceView>::empty());
    while i < images.sources.len()
        invariant
            srcs == sources_view(images.sources@),
            lib == library_paths(cached_library@),
            i <= images.sources@.len(),
            paths_view(hits@) == raw_hits(srcs, lib, i as nat),
            sources_view(uncovered@) == uncovered_sources(srcs, lib, i as nat),
        decreases images.sources@.len() - i,
    {
        let source = &images.sources[i];
        assert(srcs[i as int] == source_view(*source));
        match source {
            ImageSource::Image { path } => {
                let ghost before = paths_view(hits@);
                hits.push(path.clone());
                assert(paths_view(hits@) =~= before + seq![path@]);
            },
            ImageSource::Folder { path, recursive } => {
                let ghost before = paths_view(hits@);
                let start = hits.len();
                let mut j: usize = 0;
                while j < cached_library.len()
                    invariant
                        lib == library_paths(cached_library@),
                        j <= cached_library@.len(),
                        start == before.len(),
                        paths_view(hits@) == before + folder_hits(lib, path@, *recursive, j as nat),
                    decreases cached_library@.len() - j,
                {
                    let e = &cached_library[j];
                    assert(lib[j as int] == e.path@);
                    if under_folder(e.path.as_str(), path.as_str(), *recursive) {
                        let ghost mid = paths_view(hits@);
                        hits.push(e.path.clone());
                        assert(paths_view(hits@) =~= mid.push(e.path@));
                    }
                    j += 1;
                }
                assert(paths_view(hits@) == before + source_hits(srcs[i as int], lib));
                if hits.len() == start {
                    let ghost ub = sources_view(uncovered@);
                    uncovered.push(clone_source(source));
                    assert(sources_view(uncovered@) =~= ub.push(srcs[i as int]));
                }
            },
        }
        i += 1;
    }
    CachePool { hits: dedupe(hits), uncovered }
}

/// A resolved pool names each image once, and names exactly the images its
/// sources reach: folder and image sources are unioned without duplicates,
/// each image under the spelling it first came with.
pub proof fn law_pool_hits_unique_and_complete(raw: Seq<Seq<char>>)
    ensures
        forall|i: int, j: int|
            0 <= i < dedup(raw).len() && 0 <= j < dedup(raw).len() && i != j ==> path_key(
                #[trigger] dedup(raw)[i],
            ) != path_key(#[trigger] dedup(raw)[j]),
        forall|p: Seq<char>| #[trigger] has_path(dedup(raw), p) <==> has_path(raw, p),
        forall|k: int| 0 <= k < dedup(raw).len() ==> raw.contains(#[trigger] dedup(raw)[k]),
    decreases raw.len(),
{
    if raw.len() > 0 {
        let front = raw.drop_last();
        let last = raw.last();
        law_pool_hits_unique_and_complete(front);
        let d0 = dedup(front);
        let d = dedup(raw);
        assert forall|p: Seq<char>| has_path(front, p) implies #[trigger] has_path(raw, p) by {
            let k = choose|k: int| 0 <= k < front.len() && path_key(#[trigger] front[k]) == path_key(p);
            assert(raw[k] == front[k]);
        }
        assert forall|p: Seq<char>| #[trigger] has_path(raw, p) implies has_path(front, p) || path_key(last) == path_key(p) by {
            let k = choose|k: int| 0 <= k < raw.len() && path_key(#[trigger] raw[k]) == path_key(p);
            if k < raw.len() - 1 {
                assert(front[k] == raw[k]);
            }
        }
        assert forall|k: int| 0 <= k < d0.len() implies raw.contains(#[trigger] d0[k]) by {
            assert(front.contains(d0[k]));
            let m = choose|m: int| 0 <= m < front.len() && front[m] == d0[k];
            assert(raw[m] == front[m]);
        }
        assert(raw[raw.len() - 1] == last);
        if has_path(d0, last) {
            assert(d == d0);
            assert forall|p: Seq<char>| #[trigger] has_path(d, p) <==> has_path(raw, p) by {
                if path_key(last) == path_key(p) {
                    let k = choose|k: int| 0 <= k < d0.len() && path_key(#[trigger] d0[k]) == path_key(last);
                    assert(path_key(d0[k]) == path_key(p));
                }
            }
        } else {
            assert(d == d0.push(last));
            assert forall|i: int, j: int|
                0 <= i < d.len() && 0 <= j < d.len() && i != j implies path_key(#[trigger] d[i])
                != path_key(#[trigger] d[j]) by {
                if i < d0.len() && j < d0.len() {
                    assert(d[i] == d0[i] && d[j] == d0[j]);
                } else if i < d0.len() {
                    assert(d[i] == d0[i]);
                } else {
                    assert(d[j] == d0[j]);
                }
            }
            assert forall|p: Seq<char>| #[trigger] has_path(d, p) <==> has_path(raw, p) by {
                if has_path(d, p) {
                    let k = choose|k: int| 0 <= k < d.len() && path_key(#[trigger] d[k]) == path_key(p);
                    if k < d0.len() {
                        assert(d0[k] == d[k]);
                    }
                }
                if has_path(d0, p) {
                    let k = choose|k: int| 0 <= k < d0.len() && path_key(#[trigger] d0[k]) == path_key(p);
                    assert(d[k] == d0[k]);
                }
                if path_key(last) == path_key(p) {
                    assert(d[d0.len() as int] == last);
                }
            }
            assert forall|k: int| 0 <= k < d.len() implies raw.contains(#[trigger] d[k]) by {
                if k < d0.len() {
                    assert(d[k] == d0[k]);
                } else {
                    assert(d[k] == raw[raw.len() - 1]);
                }
            }
        }
    }
}

} // verus!
