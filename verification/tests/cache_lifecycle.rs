use strokes::cache::BufferCache;
use strokes::cache::Span;
use strokes::cache::UploadAction;

#[test]
fn a_fresh_cache_is_empty_and_skips_its_upload() {
    let mut cache: BufferCache<u32> = BufferCache::new();
    assert_eq!(cache.length(), 0);
    assert_eq!(cache.capacity(), 0);
    assert!(cache.is_empty());
    assert_eq!(cache.update(), UploadAction::Skip);
    assert_eq!(cache.capacity(), 0);
}

#[test]
fn clear_append_length_reports_exactly_what_was_appended() {
    let mut cache: BufferCache<u32> = BufferCache::new();
    cache.append(&vec![1, 2, 3, 4, 5]);
    cache.update();
    assert_eq!(cache.capacity(), 5);

    cache.clear();
    let span = cache.append(&vec![7, 8, 9]);
    assert_eq!(cache.length(), 3);
    assert_eq!(span, Span { start: 0, end: 3 });

    // A further clear resets the length without reducing the capacity.
    cache.clear();
    assert_eq!(cache.length(), 0);
    assert_eq!(cache.capacity(), 5);
}

#[test]
fn append_returns_consecutive_half_open_spans() {
    let mut cache: BufferCache<u8> = BufferCache::new();
    let first = cache.append(&vec![10, 20]);
    let second = cache.append(&vec![30, 40, 50]);
    let third = cache.append(&Vec::new());
    assert_eq!(first, Span { start: 0, end: 2 });
    assert_eq!(second, Span { start: 2, end: 5 });
    assert_eq!(third, Span { start: 5, end: 5 });
    assert_eq!(cache.staged_items(), &vec![10, 20, 30, 40, 50]);
}

#[test]
fn update_twice_reuploads_identical_contents() {
    let mut cache: BufferCache<u32> = BufferCache::new();
    cache.append(&vec![6, 6, 6]);
    let first = cache.update();
    assert_eq!(first, UploadAction::Grow { new_capacity: 3 });
    let staged_after_first = cache.staged_items().clone();

    // No append in between: the second update writes the same contents in
    // place and never reallocates.
    let second = cache.update();
    assert_eq!(second, UploadAction::Write);
    assert_eq!(cache.staged_items(), &staged_after_first);
    assert_eq!(cache.capacity(), 3);
}

#[test]
fn capacity_doubles_or_grows_to_exact_need() {
    let mut cache: BufferCache<u32> = BufferCache::new();
    cache.append(&vec![0, 0, 0]);
    assert_eq!(cache.update(), UploadAction::Grow { new_capacity: 3 });

    // 7 staged elements outgrow capacity 3: doubling gives 6, the exact
    // need 7 is larger and wins.
    cache.clear();
    cache.append(&vec![0, 0, 0, 0, 0, 0, 0]);
    assert_eq!(cache.update(), UploadAction::Grow { new_capacity: 7 });

    // 8 staged elements outgrow capacity 7: doubling to 14 wins over 8.
    cache.clear();
    cache.append(&vec![0, 0, 0, 0, 0, 0, 0, 0]);
    assert_eq!(cache.update(), UploadAction::Grow { new_capacity: 14 });

    // Contents that fit are written in place; the capacity never shrinks.
    cache.clear();
    cache.append(&vec![1]);
    assert_eq!(cache.update(), UploadAction::Write);
    assert_eq!(cache.capacity(), 14);
}

#[test]
fn an_emptied_cache_skips_but_keeps_its_buffer() {
    let mut cache: BufferCache<u16> = BufferCache::new();
    cache.append(&vec![1, 2]);
    cache.update();
    cache.clear();
    assert_eq!(cache.update(), UploadAction::Skip);
    assert_eq!(cache.capacity(), 2);
    assert!(cache.is_empty());
}
