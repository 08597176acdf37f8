use superpanels::thumbnail_cache::{Mtime, ThumbnailCache, MAX_BYTES, MAX_ENTRIES};

fn fixture(name: &str) -> String {
    format!("/walls/{name}.png")
}

fn epoch() -> Mtime {
    Mtime { secs: 0, nanos: 0 }
}

fn png() -> String {
    "image/png".to_owned()
}

#[test]
fn miss_then_hit_returns_cached_bytes() {
    let mut c = ThumbnailCache::new();
    assert!(c.get(&fixture("a"), epoch()).is_none());
    c.put(fixture("a"), epoch(), vec![1, 2, 3], png());
    let hit = c.get(&fixture("a"), epoch()).unwrap();
    assert_eq!(hit.bytes, vec![1, 2, 3]);
    assert_eq!(hit.mime, "image/png");
}

#[test]
fn mtime_change_invalidates_cache() {
    let mut c = ThumbnailCache::new();
    c.put(fixture("a"), epoch(), vec![1, 2, 3], png());
    let later = Mtime { secs: 60, nanos: 0 };
    assert!(c.get(&fixture("a"), later).is_none());
    assert!(c.get(&fixture("a"), epoch()).is_some());
}

#[test]
fn entries_are_evicted_oldest_first_above_count_cap() {
    let mut c = ThumbnailCache::new();
    for i in 0..MAX_ENTRIES + 5 {
        c.put(fixture(&format!("e{i}")), epoch(), vec![0u8; 8], png());
    }
    assert_eq!(c.len(), MAX_ENTRIES);
    for i in 0..5 {
        assert!(
            c.get(&fixture(&format!("e{i}")), epoch()).is_none(),
            "expected e{i} to have been evicted"
        );
    }
}

#[test]
fn byte_cap_evicts_until_under_limit() {
    let mut c = ThumbnailCache::new();
    let big = vec![0u8; 5 * 1024 * 1024];
    c.put(fixture("a"), epoch(), big.clone(), png());
    c.put(fixture("b"), epoch(), big.clone(), png());
    c.put(fixture("c"), epoch(), big.clone(), png());
    c.put(fixture("d"), epoch(), big, png());
    assert!(c.bytes_in_use() <= MAX_BYTES);
    assert!(c.get(&fixture("d"), epoch()).is_some());
    assert!(c.get(&fixture("a"), epoch()).is_none());
}

#[test]
fn put_overwrites_existing_entry_without_double_counting_bytes() {
    let mut c = ThumbnailCache::new();
    c.put(fixture("a"), epoch(), vec![0u8; 1024], png());
    let after_first = c.bytes_in_use();
    c.put(fixture("a"), epoch(), vec![0u8; 2048], png());
    assert_eq!(c.bytes_in_use(), after_first - 1024 + 2048);
    assert_eq!(c.len(), 1);
}

#[test]
fn payload_larger_than_cap_is_dropped_without_evicting_others() {
    let mut c = ThumbnailCache::new();
    c.put(fixture("a"), epoch(), vec![0u8; 1024], png());
    c.put(fixture("huge"), epoch(), vec![0u8; MAX_BYTES + 1], png());
    assert!(c.get(&fixture("huge"), epoch()).is_none());
    assert!(c.get(&fixture("a"), epoch()).is_some());
}

#[test]
fn get_promotes_to_mru() {
    let mut c = ThumbnailCache::new();
    for i in 0..MAX_ENTRIES {
        c.put(fixture(&format!("e{i}")), epoch(), vec![0u8; 8], png());
    }
    let _ = c.get(&fixture("e0"), epoch());
    c.put(fixture("new"), epoch(), vec![0u8; 8], png());
    assert!(
        c.get(&fixture("e0"), epoch()).is_some(),
        "e0 should still be cached after promotion"
    );
    assert!(
        c.get(&fixture("e1"), epoch()).is_none(),
        "e1 should have been evicted"
    );
}

#[test]
fn new_cache_is_empty() {
    let c = ThumbnailCache::new();
    assert_eq!(c.len(), 0);
    assert_eq!(c.bytes_in_use(), 0);
}

#[test]
fn bytes_in_use_sums_distinct_entries() {
    let mut c = ThumbnailCache::new();
    c.put(fixture("a"), epoch(), vec![0u8; 10], png());
    c.put(fixture("b"), epoch(), vec![0u8; 32], png());
    assert_eq!(c.bytes_in_use(), 42);
    assert_eq!(c.len(), 2);
}

#[test]
fn payload_exactly_at_cap_is_kept_alone() {
    let mut c = ThumbnailCache::new();
    c.put(fixture("a"), epoch(), vec![0u8; 16], png());
    c.put(fixture("cap"), epoch(), vec![0u8; MAX_BYTES], png());
    assert_eq!(c.bytes_in_use(), MAX_BYTES);
    assert!(c.get(&fixture("a"), epoch()).is_none());
    assert!(c.get(&fixture("cap"), epoch()).is_some());
}

#[test]
fn repeated_request_hits_the_same_payload_without_growing() {
    let mut c = ThumbnailCache::new();
    assert!(c.get(&fixture("img"), epoch()).is_none());
    c.put(fixture("img"), epoch(), vec![0x89, b'P', b'N', b'G'], png());
    assert_eq!(c.len(), 1);
    let first = c.get(&fixture("img"), epoch()).unwrap();
    let second = c.get(&fixture("img"), epoch()).unwrap();
    assert_eq!(first.bytes, second.bytes);
    assert_eq!(first.mime, second.mime);
    assert_eq!(c.len(), 1);
    assert_eq!(c.bytes_in_use(), 4);
}

#[test]
fn keys_compare_paths_component_wise() {
    let mut c = ThumbnailCache::new();
    c.put("/walls/a.png".to_owned(), epoch(), vec![1], png());
    assert!(c.get(&"/walls//a.png".to_owned(), epoch()).is_some());
    c.put("/walls/./a.png".to_owned(), epoch(), vec![2, 3], png());
    assert_eq!(c.len(), 1);
    assert_eq!(c.bytes_in_use(), 2);
    assert_eq!(c.get(&"/walls/a.png/".to_owned(), epoch()).unwrap().bytes, vec![2, 3]);
    assert!(c.get(&"/walls/b/../a.png".to_owned(), epoch()).is_none());
}
