use vstd::prelude::*;

use crate::embeds::bounded_cache::{
    after_insert, after_touch, has_key, insert_result, key_index, law_hit_becomes_most_recently_used,
    lemma_key_index, BoundedCache, CacheInsertResult, EntryView,
};
use crate::embeds::VideoKind;
use crate::payload::{bytes_clone, bytes_contents, bytes_len};

verus! {

/// A cached preview video.
pub struct CachedVideoData {
    pub bytes: bytes::Bytes,
    pub video_kind: VideoKind,
}

/// Why a video was not written to the cache.
#[derive(Clone, Copy, Debug, PartialEq, Eq, Structural)]
pub enum CacheSkipReason {
    Disabled,
    Oversized,
}

impl CacheSkipReason {
    /// The reason as analytics events report it.
    pub fn as_str(self) -> (s: &'static str)
        ensures
            s@ == match self {
                CacheSkipReason::Disabled => "disabled"@,
                CacheSkipReason::Oversized => "oversized"@,
            },
    {
        match self {
            CacheSkipReason::Disabled => "disabled",
            CacheSkipReason::Oversized => "oversized",
        }
    }
}

/// An analytics event that a cache write calls for.
#[derive(Clone, Copy, Debug, PartialEq, Eq, Structural)]
pub enum CacheAnalyticsEvent {
    WriteSkipped { reason: CacheSkipReason, incoming_size_bytes: u64, max_size_bytes: u64 },
    Updated {
        current_size_bytes: u64,
        max_size_bytes: u64,
        entry_count: usize,
        incoming_size_bytes: u64,
        replaced_existing: bool,
    },
    Evicted {
        eviction_count: u64,
        current_size_bytes: u64,
        max_size_bytes: u64,
        entry_count: usize,
    },
}

/// The analytics events reported for a write of `incoming` bytes with outcome `r`:
/// a skip, or an update followed by an eviction report when anything was evicted.
pub open spec fn cache_write_events(incoming: u64, r: CacheInsertResult) -> Seq<CacheAnalyticsEvent> {
    match r {
        CacheInsertResult::Disabled => seq![
            CacheAnalyticsEvent::WriteSkipped {
                reason: CacheSkipReason::Disabled,
                incoming_size_bytes: incoming,
                max_size_bytes: 0,
            },
        ],
        CacheInsertResult::Oversized { max_size_bytes } => seq![
            CacheAnalyticsEvent::WriteSkipped {
                reason: CacheSkipReason::Oversized,
                incoming_size_bytes: incoming,
                max_size_bytes,
            },
        ],
        CacheInsertResult::Stored {
            current_size_bytes,
            max_size_bytes,
            entry_count,
            replaced_existing,
            evictions,
        } => {
            let updated = CacheAnalyticsEvent::Updated {
                current_size_bytes,
                max_size_bytes,
                entry_count,
                incoming_size_bytes: incoming,
                replaced_existing,
            };
            if evictions > 0 {
                seq![
                    updated,
                    CacheAnalyticsEvent::Evicted {
                        eviction_count: evictions,
                        current_size_bytes,
                        max_size_bytes,
                        entry_count,
                    },
                ]
            } else {
                seq![updated]
            }
        },
    }
}

/// The analytics events for a cache write (see `cache_write_events`).
pub fn cache_write_analytics(incoming: u64, r: &CacheInsertResult) -> (v: Vec<CacheAnalyticsEvent>)
    ensures
        v@ == cache_write_events(incoming, *r),
{
    let mut v: Vec<CacheAnalyticsEvent> = Vec::new();
    match r {
        CacheInsertResult::Disabled => {
            v.push(
                CacheAnalyticsEvent::WriteSkipped {
                    reason: CacheSkipReason::Disabled,
                    incoming_size_bytes: incoming,
                    max_size_bytes: 0,
                },
            );
        },
        CacheInsertResult::Oversized { max_size_bytes } => {
            v.push(
                CacheAnalyticsEvent::WriteSkipped {
                    reason: CacheSkipReason::Oversized,
                    incoming_size_bytes: incoming,
                    max_size_bytes: *max_size_bytes,
                },
            );
        },
        CacheInsertResult::Stored {
            current_size_bytes,
            max_size_bytes,
            entry_count,
            replaced_existing,
            evictions,
        } => {
            v.push(
                CacheAnalyticsEvent::Updated {
                    current_size_bytes: *current_size_bytes,
                    max_size_bytes: *max_size_bytes,
                    entry_count: *entry_count,
                    incoming_size_bytes: incoming,
                    replaced_existing: *replaced_existing,
                },
            );
            if *evictions > 0 {
                v.push(
                    CacheAnalyticsEvent::Evicted {
                        eviction_count: *evictions,
                        current_size_bytes: *current_size_bytes,
                        max_size_bytes: *max_size_bytes,
                        entry_count: *entry_count,
                    },
                );
            }
        },
    }
    assert(v@ =~= cache_write_events(incoming, *r));
    v
}

/// The in-memory cache of rendered preview videos, bounded by a byte budget and
/// evicting the least recently used videos first.
pub struct VideoCache {
    cache: BoundedCache<CachedVideoData>,
}

impl View for VideoCache {
    type V = Seq<EntryView<CachedVideoData>>;

    closed spec fn view(&self) -> Seq<EntryView<CachedVideoData>> {
        self.cache@
    }
}

impl VideoCache {
    /// The byte budget.
    pub closed spec fn max_size(&self) -> u64 {
        self.cache.max_size()
    }

    pub closed spec fn wf(&self) -> bool {
        self.cache.wf()
    }

    /// An empty video cache with the given byte budget (zero disables it).
    pub fn new(max_size_bytes: u64) -> (c: VideoCache)
        ensures
            c.wf(),
            c@ == Seq::<EntryView<CachedVideoData>>::empty(),
            c.max_size() == max_size_bytes,
    {
        VideoCache { cache: BoundedCache::new(max_size_bytes) }
    }

    /// Whether a video is cached under `video_id`.
    pub fn has_id(&self, video_id: &str) -> (b: bool)
        requires
            self.wf(),
        ensures
            b == has_key(self@, video_id@),
    {
        self.cache.contains_key(video_id)
    }

    /// The cached video for `video_id` and its kind; a hit makes it the most
    /// recently used video.
    pub fn get_video_bytes(&mut self, video_id: &str) -> (r: Option<(bytes::Bytes, VideoKind)>)
        requires
            old(self).wf(),
        ensures
            final(self).wf(),
            final(self).max_size() == old(self).max_size(),
            final(self)@ == after_touch(old(self)@, video_id@),
            match r {
                Some((b, k)) => {
                    let e = old(self)@[key_index(old(self)@, video_id@)];
                    &&& has_key(old(self)@, video_id@)
                    &&& bytes_contents(b) == bytes_contents(e.1.bytes)
                    &&& k == e.1.video_kind
                },
                None => !has_key(old(self)@, video_id@),
            },
    {
        proof {
            old(self).cache.lemma_wf_inv();
        }
        if !self.cache.touch(video_id) {
            return None;
        }
        let ghost s = self@;
        proof {
            law_hit_becomes_most_recently_used(old(self)@, old(self).max_size(), video_id@);
            lemma_key_index(s, video_id@, s.len() - 1);
        }
        match self.cache.peek(video_id) {
            None => None,
            Some(cached) => Some((bytes_clone(&cached.bytes), cached.video_kind)),
        }
    }

    /// Caches `video_bytes` under `video_id`, charged their length, and returns
    /// the analytics events the write calls for.
    pub fn cache_video_bytes(
        &mut self,
        video_id: String,
        video_bytes: bytes::Bytes,
        video_kind: VideoKind,
    ) -> (events: Vec<CacheAnalyticsEvent>)
        requires
            old(self).wf(),
        ensures
            final(self).wf(),
            final(self).max_size() == old(self).max_size(),
            final(self)@ == after_insert(
                old(self)@,
                old(self).max_size(),
                video_id@,
                bytes_contents(video_bytes).len() as u64,
                CachedVideoData { bytes: video_bytes, video_kind },
            ),
            events@ == cache_write_events(
                bytes_contents(video_bytes).len() as u64,
                insert_result(
                    old(self)@,
                    old(self).max_size(),
                    video_id@,
                    bytes_contents(video_bytes).len() as u64,
                    CachedVideoData { bytes: video_bytes, video_kind },
                ),
            ),
    {
        let incoming_size = bytes_len(&video_bytes) as u64;
        let result = self.cache.insert(
            video_id,
            incoming_size,
            CachedVideoData { bytes: video_bytes, video_kind },
        );
        cache_write_analytics(incoming_size, &result)
    }
}

/// The in-memory cache of fetched metadata bodies, bounded by a byte budget and
/// evicting the least recently used bodies first.
pub struct MetadataCache {
    cache: BoundedCache<bytes::Bytes>,
}

impl View for MetadataCache {
    type V = Seq<EntryView<bytes::Bytes>>;

    closed spec fn view(&self) -> Seq<EntryView<bytes::Bytes>> {
        self.cache@
    }
}

impl MetadataCache {
    /// The byte budget.
    pub closed spec fn max_size(&self) -> u64 {
        self.cache.max_size()
    }

    pub closed spec fn wf(&self) -> bool {
        self.cache.wf()
    }

    /// An empty metadata cache with the given byte budget (zero disables it).
    pub fn new(max_size_bytes: u64) -> (c: Self)
        ensures
            c.wf(),
            c@ == Seq::<EntryView<bytes::Bytes>>::empty(),
            c.max_size() == max_size_bytes,
    {
        MetadataCache { cache: BoundedCache::new(max_size_bytes) }
    }

    /// The body cached under `key`; a hit makes it the most recently used.
    pub fn get(&mut self, key: &str) -> (r: Option<bytes::Bytes>)
        requires
            old(self).wf(),
        ensures
            final(self).wf(),
            final(self).max_size() == old(self).max_size(),
            final(self)@ == after_touch(old(self)@, key@),
            match r {
                Some(b) => has_key(old(self)@, key@) && bytes_contents(b) == bytes_contents(
                    old(self)@[key_index(old(self)@, key@)].1,
                ),
                None => !has_key(old(self)@, key@),
            },
    {
        proof {
            old(self).cache.lemma_wf_inv();
        }
        if !self.cache.touch(key) {
            return None;
        }
        let ghost s = self@;
        proof {
            law_hit_becomes_most_recently_used(old(self)@, old(self).max_size(), key@);
            lemma_key_index(s, key@, s.len() - 1);
        }
        match self.cache.peek(key) {
            None => None,
            Some(cached) => Some(bytes_clone(cached)),
        }
    }

    /// Caches `bytes` under `key`, charged their length.
    pub fn insert(&mut self, key: String, bytes: bytes::Bytes)
        requires
            old(self).wf(),
        ensures
            final(self).wf(),
            final(self).max_size() == old(self).max_size(),
            final(self)@ == after_insert(
                old(self)@,
                old(self).max_size(),
                key@,
                bytes_contents(bytes).len() as u64,
                bytes,
            ),
    {
        let size = bytes_len(&bytes) as u64;
        let _ = self.cache.insert(key, size, bytes);
    }
}

} // verus!
