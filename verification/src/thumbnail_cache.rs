//! In-process LRU for rendered library thumbnails.
//!
//! Keyed on `(canonical path, mtime)` so a write to the source file
//! invalidates the cache the next time the daemon stats it. Bounded by both
//! [`MAX_ENTRIES`] and [`MAX_BYTES`] so a long slideshow over a large library
//! cannot grow the resident set without limit.

use std::collections::VecDeque;

use vstd::prelude::*;

use crate::pool::{path_key, same_path};

verus! {

/// Maximum number of cached thumbnails.
pub const MAX_ENTRIES: usize = 64;

/// Maximum total cached bytes (encoded PNG): 16 MiB.
pub const MAX_BYTES: usize = 16777216;

/// A file modification time, as seconds and nanoseconds from the Unix epoch.
#[derive(Debug, Clone, Copy, PartialEq, Eq, Structural)]
pub struct Mtime {
    pub secs: i64,
    pub nanos: u32,
}

/// Cache key: the canonical source path and its modification time.
#[derive(Debug)]
pub struct CacheKey {
    pub path: String,
    pub mtime: Mtime,
}

/// A cached thumbnail: encoded image bytes and their MIME type.
#[derive(Debug)]
pub struct CachedThumbnail {
    pub bytes: Vec<u8>,
    pub mime: String,
}

/// The abstract content of one cache entry.
pub struct EntryView {
    pub path: Seq<char>,
    pub mtime: Mtime,
    pub bytes: Seq<u8>,
    pub mime: Seq<char>,
}

/// Abstract view of a stored `(key, payload)` pair.
pub open spec fn entry_view(e: (CacheKey, CachedThumbnail)) -> EntryView {
    EntryView { path: e.0.path@, mtime: e.0.mtime, bytes: e.1.bytes@, mime: e.1.mime@ }
}

/// Total payload bytes of a run of entries.
pub open spec fn total_bytes(s: Seq<EntryView>) -> nat
    decreases s.len(),
{
    if s.len() == 0 {
        0
    } else {
        total_bytes(s.drop_last()) + s.last().bytes.len()
    }
}

/// Whether entry `e` carries the key `(path, mtime)`: the same path, as
/// `Path`'s `==` compares paths, and the same modification time.
pub open spec fn has_key(e: EntryView, path: Seq<char>, mtime: Mtime) -> bool {
    path_key(e.path) == path_key(path) && e.mtime == mtime
}

/// Position of the entry keyed `(path, mtime)`, if one is cached.
pub open spec fn key_position(s: Seq<EntryView>, path: Seq<char>, mtime: Mtime) -> Option<int> {
    if exists|i: int| 0 <= i < s.len() && has_key(s[i], path, mtime) {
        Some(choose|i: int| 0 <= i < s.len() && has_key(s[i], path, mtime))
    } else {
        None
    }
}

/// No two entries share a key.
pub open spec fn keys_unique(s: Seq<EntryView>) -> bool {
    forall|i: int, j: int|
        0 <= i < s.len() && 0 <= j < s.len() && i != j ==> !has_key(
            s[i],
            s[j].path,
            s[j].mtime,
        )
}

/// Drop least-recently-used entries (from the back) until both bounds hold.
pub open spec fn evict(s: Seq<EntryView>) -> Seq<EntryView>
    decreases s.len(),
{
    if s.len() > MAX_ENTRIES || total_bytes(s) > MAX_BYTES {
        if s.len() == 0 {
            s
        } else {
            evict(s.drop_last())
        }
    } else {
        s
    }
}

/// The cache content after `put(path, mtime, bytes, mime)` on content `s`:
/// an over-cap payload is dropped; otherwise any entry with the same key is
/// replaced by the new one at the front, then the back is evicted.
pub open spec fn put_result(
    s: Seq<EntryView>,
    path: Seq<char>,
    mtime: Mtime,
    bytes: Seq<u8>,
    mime: Seq<char>,
) -> Seq<EntryView> {
    if bytes.len() > MAX_BYTES {
        s
    } else {
        let base = match key_position(s, path, mtime) {
            Some(i) => s.remove(i),
            None => s,
        };
        evict(seq![EntryView { path, mtime, bytes, mime }] + base)
    }
}

/// Bounded LRU of thumbnails. The front of `entries` is the most recently used.
pub struct ThumbnailCache {
    entries: VecDeque<(CacheKey, CachedThumbnail)>,
    bytes_in_use: usize,
}

impl View for ThumbnailCache {
    type V = Seq<EntryView>;

    closed spec fn view(&self) -> Seq<EntryView> {
        self.entries@.map_values(|e: (CacheKey, CachedThumbnail)| entry_view(e))
    }
}

/// A fresh copy of `bytes`.
pub fn copy_bytes(bytes: &Vec<u8>) -> (out: Vec<u8>)
    ensures
        out@ == bytes@,
{
    let mut out: Vec<u8> = Vec::new();
    let mut i: usize = 0;
    while i < bytes.len()
        invariant
            i <= bytes@.len(),
            out@ == bytes@.take(i as int),
        decreases bytes@.len() - i,
    {
        out.push(bytes[i]);
        assert(out@ == bytes@.take(i as int + 1));
        i += 1;
    }
    assert(out@ =~= bytes@);
    out
}

proof fn lemma_total_push_front(e: EntryView, s: Seq<EntryView>)
    ensures
        total_bytes(seq![e] + s) == e.bytes.len() + total_bytes(s),
    decreases s.len(),
{
    if s.len() == 0 {
        assert(seq![e] + s =~= seq![e]);
        assert(seq![e].drop_last() =~= Seq::<EntryView>::empty());
        assert(total_bytes(Seq::<EntryView>::empty()) == 0);
        assert(total_bytes(seq![e]) == e.bytes.len());
    } else {
        lemma_total_push_front(e, s.drop_last());
        assert((seq![e] + s).drop_last() =~= seq![e] + s.drop_last());
        assert((seq![e] + s).last() == s.last());
    }
}

proof fn lemma_total_remove(s: Seq<EntryView>, i: int)
    requires
        0 <= i < s.len(),
    ensures
        total_bytes(s.remove(i)) + s[i].bytes.len() == total_bytes(s),
    decreases s.len(),
{
    if i == s.len() - 1 {
        assert(s.remove(i) =~= s.drop_last());
    } else {
        lemma_total_remove(s.drop_last(), i);
        assert(s.remove(i).drop_last() =~= s.drop_last().remove(i));
        assert(s.remove(i).last() == s.last());
    }
}

proof fn lemma_evict_bounds(s: Seq<EntryView>)
    ensures
        evict(s).len() <= MAX_ENTRIES,
        total_bytes(evict(s)) <= MAX_BYTES,
        evict(s).len() <= s.len(),
        evict(s) == s.subrange(0, evict(s).len() as int),
    decreases s.len(),
{
    if s.len() > MAX_ENTRIES || total_bytes(s) > MAX_BYTES {
        if s.len() == 0 {
        } else {
            lemma_evict_bounds(s.drop_last());
            assert(s.drop_last().subrange(0, evict(s).len() as int) =~= s.subrange(
                0,
                evict(s).len() as int,
            ));
        }
    } else {
        assert(s.subrange(0, s.len() as int) =~= s);
    }
}

proof fn lemma_unique_at(s: Seq<EntryView>, i: int, j: int)
    requires
        keys_unique(s),
        0 <= i < s.len(),
        0 <= j < s.len(),
        i != j,
    ensures
        !has_key(s[i], s[j].path, s[j].mtime),
{
}

proof fn lemma_unique_promote(s: Seq<EntryView>, i: int)
    requires
        keys_unique(s),
        0 <= i < s.len(),
    ensures
        keys_unique(seq![s[i]] + s.remove(i)),
{
    let t = seq![s[i]] + s.remove(i);
    assert forall|a: int, b: int| 0 <= a < t.len() && 0 <= b < t.len() && a != b implies !has_key(
        t[a],
        t[b].path,
        t[b].mtime,
    ) by {
        let ia = if a == 0 {
            i
        } else if a - 1 < i {
            a - 1
        } else {
            a
        };
        let ib = if b == 0 {
            i
        } else if b - 1 < i {
            b - 1
        } else {
            b
        };
        assert(t[a] == s[ia]);
        assert(t[b] == s[ib]);
        lemma_unique_at(s, ia, ib);
    }
}

proof fn lemma_unique_insert_fresh(e: EntryView, base: Seq<EntryView>)
    requires
        keys_unique(base),
        forall|k: int| 0 <= k < base.len() ==> !has_key(#[trigger] base[k], e.path, e.mtime),
    ensures
        keys_unique(seq![e] + base),
{
    let t = seq![e] + base;
    assert forall|a: int, b: int| 0 <= a < t.len() && 0 <= b < t.len() && a != b implies !has_key(
        t[a],
        t[b].path,
        t[b].mtime,
    ) by {
        if a == 0 {
            assert(t[b] == base[b - 1]);
        } else if b == 0 {
            assert(t[a] == base[a - 1]);
        } else {
            lemma_unique_at(base, a - 1, b - 1);
        }
    }
}

proof fn lemma_unique_remove(s: Seq<EntryView>, i: int)
    requires
        keys_unique(s),
        0 <= i < s.len(),
    ensures
        keys_unique(s.remove(i)),
        forall|k: int|
            0 <= k < s.remove(i).len() ==> !has_key(#[trigger] s.remove(i)[k], s[i].path, s[i].mtime),
{
    let t = s.remove(i);
    assert forall|k: int| 0 <= k < t.len() implies !has_key(#[trigger] t[k], s[i].path, s[i].mtime) by {
        let ik = if k < i {
            k
        } else {
            k + 1
        };
        assert(t[k] == s[ik]);
        lemma_unique_at(s, ik, i);
    }
    assert forall|a: int, b: int| 0 <= a < t.len() && 0 <= b < t.len() && a != b implies !has_key(
        t[a],
        t[b].path,
        t[b].mtime,
    ) by {
        let ia = if a < i {
            a
        } else {
            a + 1
        };
        let ib = if b < i {
            b
        } else {
            b + 1
        };
        assert(t[a] == s[ia]);
        assert(t[b] == s[ib]);
        lemma_unique_at(s, ia, ib);
    }
}

proof fn lemma_unique_prefix(s: Seq<EntryView>, n: int)
    requires
        keys_unique(s),
        0 <= n <= s.len(),
    ensures
        keys_unique(s.subrange(0, n)),
{
    let t = s.subrange(0, n);
    assert forall|a: int, b: int| 0 <= a < t.len() && 0 <= b < t.len() && a != b implies !has_key(
        t[a],
        t[b].path,
        t[b].mtime,
    ) by {
        lemma_unique_at(s, a, b);
    }
}

proof fn lemma_key_position_some(s: Seq<EntryView>, path: Seq<char>, mtime: Mtime)
    requires
        key_position(s, path, mtime) is Some,
    ensures
        0 <= key_position(s, path, mtime)->0 < s.len(),
        has_key(s[key_position(s, path, mtime)->0], path, mtime),
{
}

proof fn lemma_key_position_none(s: Seq<EntryView>, path: Seq<char>, mtime: Mtime)
    requires
        key_position(s, path, mtime) is None,
    ensures
        forall|k: int| 0 <= k < s.len() ==> !has_key(#[trigger] s[k], path, mtime),
{
}

impl ThumbnailCache {
    /// The cache invariant: the byte counter matches the stored payloads,
    /// both bounds hold, and no key is stored twice.
    pub closed spec fn wf(&self) -> bool {
        &&& self.bytes_in_use == total_bytes(self@)
        &&& self@.len() <= MAX_ENTRIES
        &&& total_bytes(self@) <= MAX_BYTES
        &&& keys_unique(self@)
    }

    /// An empty cache.
    pub fn new() -> (c: ThumbnailCache)
        ensures
            c.wf(),
            c@ == Seq::<EntryView>::empty(),
    {
        let c = ThumbnailCache { entries: VecDeque::new(), bytes_in_use: 0 };
        assert(c@ =~= Seq::<EntryView>::empty());
        c
    }

    /// Number of cached thumbnails.
    pub fn len(&self) -> (n: usize)
        ensures
            n == self@.len(),
    {
        self.entries.len()
    }

    /// Total payload bytes currently cached.
    pub fn bytes_in_use(&self) -> (n: usize)
        requires
            self.wf(),
        ensures
            n == total_bytes(self@),
    {
        self.bytes_in_use
    }

    /// Look up the thumbnail cached for `(path, mtime)` and promote the entry
    /// to most-recently-used on a hit.
    pub fn get(&mut self, path: &String, mtime: Mtime) -> (r: Option<CachedThumbnail>)
        requires
            old(self).wf(),
        ensures
            final(self).wf(),
            match key_position(old(self)@, path@, mtime) {
                Some(i) => {
                    &&& r matches Some(t) && t.bytes@ == old(self)@[i].bytes && t.mime@ == old(
                        self,
                    )@[i].mime
                    &&& final(self)@ == seq![old(self)@[i]] + old(self)@.remove(i)
                },
                None => r is None && final(self)@ == old(self)@,
            },
    {
        let ghost s0 = self@;
        match self.find(path, mtime) {
            None => None,
            Some(pos) => {
                proof {
                    lemma_key_position_some(s0, path@, mtime);
                }
                let removed = self.entries.remove(pos);
                match removed {
                    None => None,
                    Some(entry) => {
                        assert(self@ =~= s0.remove(pos as int));
                        let cloned = CachedThumbnail {
                            bytes: copy_bytes(&entry.1.bytes),
                            mime: entry.1.mime.clone(),
                        };
                        self.entries.push_front(entry);
                        assert(self@ =~= seq![s0[pos as int]] + s0.remove(pos as int));
                        proof {
                            lemma_total_remove(s0, pos as int);
                            lemma_total_push_front(s0[pos as int], s0.remove(pos as int));
                            lemma_unique_promote(s0, pos as int);
                        }
                        Some(cloned)
                    },
                }
            },
        }
    }

    /// Insert (or overwrite) the thumbnail for `(path, mtime)` and evict
    /// least-recently-used entries until both bounds hold. A payload larger
    /// than [`MAX_BYTES`] is dropped, since caching it would evict everything.
    pub fn put(&mut self, path: String, mtime: Mtime, bytes: Vec<u8>, mime: String)
        requires
            old(self).wf(),
        ensures
            final(self).wf(),
            final(self)@ == put_result(old(self)@, path@, mtime, bytes@, mime@),
    {
        if bytes.len() > MAX_BYTES {
            return;
        }
        let ghost s0 = self@;
        let ghost new_entry = EntryView { path: path@, mtime, bytes: bytes@, mime: mime@ };
        let found = self.find(&path, mtime);
        if let Some(pos) = found {
            proof {
                lemma_key_position_some(s0, path@, mtime);
                lemma_total_remove(s0, pos as int);
                lemma_unique_remove(s0, pos as int);
            }
            let removed = self.entries.remove(pos);
            if let Some(old_entry) = removed {
                assert(self@ =~= s0.remove(pos as int));
                self.bytes_in_use = self.bytes_in_use - old_entry.1.bytes.len();
            }
        } else {
            proof {
                lemma_key_position_none(s0, path@, mtime);
            }
        }
        let ghost base = self@;
        assert(base == match key_position(s0, path@, mtime) {
            Some(i) => s0.remove(i),
            None => s0,
        });
        assert(self.bytes_in_use == total_bytes(base));
        let n = bytes.len();
        self.bytes_in_use = self.bytes_in_use + n;
        self.entries.push_front((CacheKey { path, mtime }, CachedThumbnail { bytes, mime }));
        assert(self@ =~= seq![new_entry] + base);
        proof {
            lemma_total_push_front(new_entry, base);
            lemma_unique_insert_fresh(new_entry, base);
        }
        let ghost full = self@;
        while self.entries.len() > MAX_ENTRIES || self.bytes_in_use > MAX_BYTES
            invariant
                self.bytes_in_use == total_bytes(self@),
                evict(self@) == evict(full),
                self@.len() <= full.len(),
                self@ == full.subrange(0, self@.len() as int),
                keys_unique(full),
            ensures
                self.bytes_in_use == total_bytes(self@),
                evict(self@) == evict(full),
                self@ == full.subrange(0, self@.len() as int),
                !(self@.len() > MAX_ENTRIES || total_bytes(self@) > MAX_BYTES),
            decreases self@.len(),
        {
            let ghost cur = self@;
            let popped = self.entries.pop_back();
            match popped {
                Some(last) => {
                    assert(self@ =~= cur.drop_last());
                    assert(cur.last() == entry_view(last));
                    self.bytes_in_use = self.bytes_in_use - last.1.bytes.len();
                    assert(full.subrange(0, self@.len() as int) =~= cur.drop_last());
                },
                None => {
                    assert(cur.len() == 0);
                    assert(total_bytes(cur) == 0);
                    break;
                },
            }
        }
        proof {
            lemma_evict_bounds(full);
            lemma_unique_prefix(full, self@.len() as int);
            assert(evict(self@) == self@);
        }
    }

    fn find(&self, path: &String, mtime: Mtime) -> (r: Option<usize>)
        requires
            keys_unique(self@),
        ensures
            r matches Some(i) ==> key_position(self@, path@, mtime) == Some(i as int),
            r matches Some(i) ==> i < self@.len() && has_key(self@[i as int], path@, mtime),
            r is None ==> key_position(self@, path@, mtime) is None,
    {
        let mut i: usize = 0;
        let n = self.entries.len();
        while i < n
            invariant
                n == self@.len(),
                keys_unique(self@),
                i <= n,
                forall|k: int| 0 <= k < i ==> !has_key(#[trigger] self@[k], path@, mtime),
            decreases n - i,
        {
            let e = &self.entries[i];
            if e.0.mtime == mtime && same_path(e.0.path.as_str(), path.as_str()) {
                assert(has_key(self@[i as int], path@, mtime));
                proof {
                    let j = choose|j: int| 0 <= j < self@.len() && has_key(self@[j], path@, mtime);
                    if j != i {
                        lemma_unique_at(self@, j, i as int);
                    }
                }
                return Some(i);
            }
            i += 1;
        }
        None
    }
}

proof fn lemma_evict_keeps_front(s: Seq<EntryView>)
    requires
        s.len() >= 1,
        s[0].bytes.len() <= MAX_BYTES,
    ensures
        evict(s).len() >= 1,
    decreases s.len(),
{
    if s.len() > MAX_ENTRIES || total_bytes(s) > MAX_BYTES {
        if s.len() == 1 {
            assert(s.drop_last() =~= Seq::<EntryView>::empty());
            assert(total_bytes(Seq::<EntryView>::empty()) == 0);
            assert(s.last() == s[0]);
            assert(total_bytes(s) == s[0].bytes.len());
        } else {
            lemma_evict_keeps_front(s.drop_last());
        }
    }
}

/// Every cache the operations produce respects both bounds, and stores each
/// `(path, mtime)` key at most once.
pub proof fn law_bounds(c: &ThumbnailCache)
    requires
        c.wf(),
    ensures
        c@.len() <= MAX_ENTRIES,
        total_bytes(c@) <= MAX_BYTES,
        keys_unique(c@),
{
}

/// A write followed by a read of the same key gives back what was written:
/// after `put` of a payload within [`MAX_BYTES`], the new entry sits at the
/// front and is the one entry with that key.
pub proof fn law_get_after_put(
    c: &ThumbnailCache,
    path: Seq<char>,
    mtime: Mtime,
    bytes: Seq<u8>,
    mime: Seq<char>,
)
    requires
        c.wf(),
        bytes.len() <= MAX_BYTES,
    ensures
        key_position(put_result(c@, path, mtime, bytes, mime), path, mtime) == Some(0int),
        put_result(c@, path, mtime, bytes, mime)[0] == (EntryView { path, mtime, bytes, mime }),
        keys_unique(put_result(c@, path, mtime, bytes, mime)),
{
    let s = c@;
    let e = EntryView { path, mtime, bytes, mime };
    let base = match key_position(s, path, mtime) {
        Some(i) => s.remove(i),
        None => s,
    };
    match key_position(s, path, mtime) {
        Some(i) => {
            lemma_key_position_some(s, path, mtime);
            lemma_unique_remove(s, i);
        },
        None => {
            lemma_key_position_none(s, path, mtime);
        },
    }
    lemma_unique_insert_fresh(e, base);
    let full = seq![e] + base;
    lemma_evict_bounds(full);
    lemma_evict_keeps_front(full);
    let r = evict(full);
    assert(r[0] == full[0]);
    lemma_unique_prefix(full, r.len() as int);
    assert(has_key(r[0], path, mtime));
    let j = choose|j: int| 0 <= j < r.len() && has_key(r[j], path, mtime);
    if j != 0 {
        lemma_unique_at(r, j, 0);
    }
}

/// A repeated request is served from the cache unchanged: after a miss
/// stores a rendered payload within [`MAX_BYTES`], a `get` of the same key
/// hits that very payload (same bytes, same MIME type) and leaves the cache
/// content, and so its length, as it was.
pub proof fn law_repeat_request_hits_cache(
    c: &ThumbnailCache,
    path: Seq<char>,
    mtime: Mtime,
    bytes: Seq<u8>,
    mime: Seq<char>,
)
    requires
        c.wf(),
        bytes.len() <= MAX_BYTES,
    ensures
        ({
            let s1 = put_result(c@, path, mtime, bytes, mime);
            &&& key_position(s1, path, mtime) == Some(0int)
            &&& s1[0].bytes == bytes
            &&& s1[0].mime == mime
            &&& seq![s1[0]] + s1.remove(0) == s1
        }),
{
    law_get_after_put(c, path, mtime, bytes, mime);
    let s1 = put_result(c@, path, mtime, bytes, mime);
    assert(seq![s1[0]] + s1.remove(0) =~= s1);
}

/// One entry's payload never exceeds the total of all of them.
pub proof fn lemma_entry_within_total(s: Seq<EntryView>, i: int)
    requires
        0 <= i < s.len(),
    ensures
        s[i].bytes.len() <= total_bytes(s),
{
    lemma_total_remove(s, i);
}

/// A payload larger than [`MAX_BYTES`] is rejected without evicting anything.
pub proof fn law_oversized_put_is_noop(
    s: Seq<EntryView>,
    path: Seq<char>,
    mtime: Mtime,
    bytes: Seq<u8>,
    mime: Seq<char>,
)
    requires
        bytes.len() > MAX_BYTES,
    ensures
        put_result(s, path, mtime, bytes, mime) == s,
{
}

/// Eviction only ever removes least-recently-used entries: the content after
/// `put` is a non-empty prefix of "new entry, then the old entries minus the
/// overwritten one, in their old recency order".
pub proof fn law_put_evicts_from_the_back(
    s: Seq<EntryView>,
    path: Seq<char>,
    mtime: Mtime,
    bytes: Seq<u8>,
    mime: Seq<char>,
)
    requires
        bytes.len() <= MAX_BYTES,
    ensures
        ({
            let base = match key_position(s, path, mtime) {
                Some(i) => s.remove(i),
                None => s,
            };
            let full = seq![EntryView { path, mtime, bytes, mime }] + base;
            let r = put_result(s, path, mtime, bytes, mime);
            &&& 1 <= r.len() <= full.len()
            &&& r == full.subrange(0, r.len() as int)
        }),
{
    let base = match key_position(s, path, mtime) {
        Some(i) => s.remove(i),
        None => s,
    };
    let full = seq![EntryView { path, mtime, bytes, mime }] + base;
    lemma_evict_bounds(full);
    lemma_evict_keeps_front(full);
}

/// A hit moves the entry to the front without adding or losing any entry.
pub proof fn law_get_only_reorders(s: Seq<EntryView>, i: int)
    requires
        0 <= i < s.len(),
    ensures
        (seq![s[i]] + s.remove(i)).to_multiset() == s.to_multiset(),
        (seq![s[i]] + s.remove(i)).len() == s.len(),
        total_bytes(seq![s[i]] + s.remove(i)) == total_bytes(s),
{
    broadcast use vstd::seq_lib::group_to_multiset_ensures;

    lemma_total_remove(s, i);
    lemma_total_push_front(s[i], s.remove(i));
    assert(s.remove(i) =~= s.subrange(0, i) + s.subrange(i + 1, s.len() as int));
    assert(s =~= s.subrange(0, i) + (seq![s[i]] + s.subrange(i + 1, s.len() as int)));
    vstd::seq_lib::lemma_multiset_commutative(s.subrange(0, i), seq![s[i]] + s.subrange(i + 1, s.len() as int));
    vstd::seq_lib::lemma_multiset_commutative(seq![s[i]], s.subrange(i + 1, s.len() as int));
    vstd::seq_lib::lemma_multiset_commutative(seq![s[i]], s.remove(i));
    vstd::seq_lib::lemma_multiset_commutative(s.subrange(0, i), s.subrange(i + 1, s.len() as int));
}

} // verus!
