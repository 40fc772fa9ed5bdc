use bytes::Bytes;
use spqtify::embeds::bounded_cache::{BoundedCache, CacheInsertResult};
use spqtify::embeds::cache_manager::{
    cache_write_analytics, CacheAnalyticsEvent, CacheSkipReason, MetadataCache, VideoCache,
};
use spqtify::embeds::VideoKind;

fn bytes_with_size(size: usize) -> Bytes {
    Bytes::from(vec![0; size])
}

fn test_cache(max_size_bytes: u64) -> VideoCache {
    VideoCache::new(max_size_bytes)
}

#[test]
fn evicts_least_recently_accessed_when_over_capacity() {
    let mut cache = test_cache(10);

    cache.cache_video_bytes("a".to_string(), bytes_with_size(4), VideoKind::Track);
    cache.cache_video_bytes("b".to_string(), bytes_with_size(4), VideoKind::Track);

    let _ = cache.get_video_bytes("a");

    cache.cache_video_bytes("c".to_string(), bytes_with_size(4), VideoKind::Track);

    assert!(cache.has_id("a"));
    assert!(!cache.has_id("b"));
    assert!(cache.has_id("c"));
}

#[test]
fn skips_oversized_entries() {
    let mut cache = test_cache(10);

    cache.cache_video_bytes("large".to_string(), bytes_with_size(11), VideoKind::Track);

    assert!(!cache.has_id("large"));
    assert!(cache.get_video_bytes("large").is_none());
}

#[test]
fn disabled_cache_always_misses_and_writes_noop() {
    let mut cache = test_cache(0);

    cache.cache_video_bytes("a".to_string(), bytes_with_size(4), VideoKind::Track);

    assert!(!cache.has_id("a"));
    assert!(cache.get_video_bytes("a").is_none());
}

#[test]
fn upsert_replaces_and_keeps_new_entry_under_pressure() {
    let mut cache = test_cache(10);

    cache.cache_video_bytes("a".to_string(), bytes_with_size(4), VideoKind::Track);
    cache.cache_video_bytes("b".to_string(), bytes_with_size(4), VideoKind::Track);

    cache.cache_video_bytes("a".to_string(), bytes_with_size(7), VideoKind::Episode);

    assert!(cache.has_id("a"));
    assert!(!cache.has_id("b"));
    let (bytes, video_kind) = cache.get_video_bytes("a").unwrap();
    assert_eq!(bytes.len(), 7);
    assert_eq!(video_kind, VideoKind::Episode);
}

#[test]
fn metadata_cache_uses_the_same_lru_eviction() {
    let mut cache = MetadataCache::new(10);
    cache.insert("a".to_string(), bytes_with_size(4));
    cache.insert("b".to_string(), bytes_with_size(4));
    let _ = cache.get("a");

    cache.insert("c".to_string(), bytes_with_size(4));

    assert!(cache.get("a").is_some());
    assert!(cache.get("b").is_none());
    assert!(cache.get("c").is_some());
}

#[test]
fn disabled_metadata_cache_always_misses() {
    let mut cache = MetadataCache::new(0);
    cache.insert("a".to_string(), bytes_with_size(4));

    assert!(cache.get("a").is_none());
}

#[test]
fn cache_write_reports_skips_updates_and_evictions() {
    let mut cache = test_cache(10);
    let events = cache.cache_video_bytes("a".to_string(), bytes_with_size(4), VideoKind::Track);
    assert_eq!(
        events,
        vec![CacheAnalyticsEvent::Updated {
            current_size_bytes: 4,
            max_size_bytes: 10,
            entry_count: 1,
            incoming_size_bytes: 4,
            replaced_existing: false,
        }]
    );
    cache.cache_video_bytes("b".to_string(), bytes_with_size(4), VideoKind::Album);
    let events = cache.cache_video_bytes("c".to_string(), bytes_with_size(9), VideoKind::Playlist);
    assert_eq!(
        events,
        vec![
            CacheAnalyticsEvent::Updated {
                current_size_bytes: 9,
                max_size_bytes: 10,
                entry_count: 1,
                incoming_size_bytes: 9,
                replaced_existing: false,
            },
            CacheAnalyticsEvent::Evicted {
                eviction_count: 2,
                current_size_bytes: 9,
                max_size_bytes: 10,
                entry_count: 1,
            },
        ]
    );
    let events = cache.cache_video_bytes("d".to_string(), bytes_with_size(11), VideoKind::Track);
    assert_eq!(
        events,
        vec![CacheAnalyticsEvent::WriteSkipped {
            reason: CacheSkipReason::Oversized,
            incoming_size_bytes: 11,
            max_size_bytes: 10,
        }]
    );
    let mut disabled = test_cache(0);
    let events = disabled.cache_video_bytes("a".to_string(), bytes_with_size(1), VideoKind::Track);
    assert_eq!(
        events,
        vec![CacheAnalyticsEvent::WriteSkipped {
            reason: CacheSkipReason::Disabled,
            incoming_size_bytes: 1,
            max_size_bytes: 0,
        }]
    );
    assert_eq!(CacheSkipReason::Disabled.as_str(), "disabled");
    assert_eq!(CacheSkipReason::Oversized.as_str(), "oversized");
}

#[test]
fn bounded_cache_reports_insert_outcomes() {
    let mut cache: BoundedCache<u32> = BoundedCache::new(10);
    match cache.insert("a".to_string(), 6, 1) {
        CacheInsertResult::Stored { current_size_bytes, entry_count, replaced_existing, evictions, .. } => {
            assert_eq!((current_size_bytes, entry_count, replaced_existing, evictions), (6, 1, false, 0));
        }
        _ => panic!("expected a stored entry"),
    }
    match cache.insert("a".to_string(), 3, 2) {
        CacheInsertResult::Stored { current_size_bytes, replaced_existing, evictions, .. } => {
            assert_eq!((current_size_bytes, replaced_existing, evictions), (3, true, 0));
        }
        _ => panic!("expected a stored entry"),
    }
    assert_eq!(cache.peek("a"), Some(&2));
    assert!(matches!(cache.insert("b".to_string(), 11, 3), CacheInsertResult::Oversized { max_size_bytes: 10 }));
    assert_eq!(cache.current_size_bytes(), 3);
    assert_eq!(cache.len(), 1);
    let mut off: BoundedCache<u32> = BoundedCache::new(0);
    assert!(matches!(off.insert("a".to_string(), 0, 1), CacheInsertResult::Disabled));
    assert_eq!(off.len(), 0);
}

#[test]
fn hit_moves_entry_to_most_recently_used() {
    let mut cache: BoundedCache<u32> = BoundedCache::new(3);
    cache.insert("a".to_string(), 1, 1);
    cache.insert("b".to_string(), 1, 2);
    cache.insert("c".to_string(), 1, 3);
    assert!(cache.touch("a"));
    assert!(!cache.touch("z"));
    cache.insert("d".to_string(), 2, 4);
    assert!(cache.contains_key("a"));
    assert!(!cache.contains_key("b"));
    assert!(!cache.contains_key("c"));
    assert!(cache.contains_key("d"));
    assert_eq!(cache.current_size_bytes(), 3);
    assert_eq!(cache.max_size_bytes(), 3);
    let events = cache_write_analytics(5, &CacheInsertResult::Disabled);
    assert_eq!(events.len(), 1);
}
