use vstd::prelude::*;

use crate::embeds::image_client::{og_image_error_message, GeneratedOgImage, OgImageError};
use crate::embeds::renderer::{renderer_error_message, RendererError};
use crate::embeds::spotify_metadata::{
    metadata_error_message, SpotifyMetadataError, SpotifyPreviewMetadata,
};
use crate::embeds::video_source::{
    video_source_error_message, video_source_message_spec, VideoSourceError,
};
use crate::text::append_str;
use crate::embeds::VideoKind;
use crate::payload::{bytes_contents, bytes_len};
use crate::text::{strip_suffix, strip_suffix_seq, trim, trim_seq};

verus! {

/// Where a served preview came from.
#[derive(Clone, Copy, Debug, PartialEq, Eq, Structural)]
pub enum CacheStatus {
    /// The in-memory cache held it.
    Hit,
    /// The remote store held it; it is now cached.
    Hydrated,
    /// It was rendered for this request.
    Rendered,
}

/// The label under which analytics report where a served preview came from.
pub fn served_source_label(cache_status: CacheStatus) -> (s: &'static str)
    ensures
        s@ == match cache_status {
            CacheStatus::Hit => "memory"@,
            CacheStatus::Hydrated => "source"@,
            CacheStatus::Rendered => "rendered"@,
        },
{
    match cache_status {
        CacheStatus::Hit => "memory",
        CacheStatus::Hydrated => "source",
        CacheStatus::Rendered => "rendered",
    }
}

/// A preview video ready to be sent.
pub struct ServedPreview {
    pub video_bytes: bytes::Bytes,
    pub mime: &'static str,
    pub cache_status: CacheStatus,
}

/// What rendering a preview needs, already fetched.
pub struct PreloadedPreviewInput {
    pub track_id: String,
    pub video_kind: VideoKind,
    pub preview_url: String,
    pub og_bytes: bytes::Bytes,
}

/// Why a preview could not be served or generated.
#[derive(Clone, Debug, PartialEq, Eq)]
pub enum PreviewGenerationError {
    InvalidInput(&'static str),
    Metadata(SpotifyMetadataError),
    Image(OgImageError),
    Source(VideoSourceError),
    Renderer(RendererError),
    GenerationFailed,
}

/// The message of a preview error.
pub open spec fn preview_error_message(e: PreviewGenerationError) -> Seq<char> {
    match e {
        PreviewGenerationError::InvalidInput(what) => "invalid input: "@ + what@,
        PreviewGenerationError::Metadata(e) => "spotify metadata failed: "@ + metadata_error_message(e),
        PreviewGenerationError::Image(e) => "og image generation failed: "@ + og_image_error_message(e),
        PreviewGenerationError::Source(e) => "video source failed: "@ + video_source_message_spec(e),
        PreviewGenerationError::Renderer(e) => "renderer failed: "@ + renderer_error_message(e),
        PreviewGenerationError::GenerationFailed => "video generation failed"@,
    }
}

impl PreviewGenerationError {
    /// The error's message.
    pub fn message(&self) -> (s: String)
        ensures
            s@ == preview_error_message(*self),
    {
        let mut s = String::new();
        match self {
            PreviewGenerationError::InvalidInput(what) => {
                append_str(&mut s, "invalid input: ");
                append_str(&mut s, what);
            },
            PreviewGenerationError::Metadata(e) => {
                append_str(&mut s, "spotify metadata failed: ");
                append_str(&mut s, e.message());
            },
            PreviewGenerationError::Image(e) => {
                append_str(&mut s, "og image generation failed: ");
                append_str(&mut s, e.message());
            },
            PreviewGenerationError::Source(e) => {
                append_str(&mut s, "video source failed: ");
                let m = video_source_error_message(e);
                append_str(&mut s, m.as_str());
            },
            PreviewGenerationError::Renderer(e) => {
                append_str(&mut s, "renderer failed: ");
                append_str(&mut s, e.message());
            },
            PreviewGenerationError::GenerationFailed => {
                append_str(&mut s, "video generation failed");
            },
        }
        s
    }
}

/// The id that a requested id stands for: without a trailing `.mp4`, trimmed;
/// none when nothing is left.
pub open spec fn normalized_track_id(raw: Seq<char>) -> Seq<char> {
    trim_seq(
        match strip_suffix_seq(raw, ".mp4"@) {
            Some(s) => s,
            None => raw,
        },
    )
}

/// The id that a requested id stands for; an id that is empty once normalized is
/// invalid input.
pub fn normalize_track_id(raw_track_id: &str) -> (r: Result<String, PreviewGenerationError>)
    ensures
        match r {
            Ok(id) => id@ == normalized_track_id(raw_track_id@) && id@.len() > 0,
            Err(e) => normalized_track_id(raw_track_id@).len() == 0 && e
                == PreviewGenerationError::InvalidInput("track_id is empty"),
        },
{
    let stripped = match strip_suffix(raw_track_id, ".mp4") {
        Some(s) => s,
        None => crate::text::owned(raw_track_id),
    };
    let value = trim(stripped.as_str());
    if value.as_str().is_empty() {
        return Err(PreviewGenerationError::InvalidInput("track_id is empty"));
    }
    Ok(value)
}

/// A duration in whole milliseconds, saturated to `u64::MAX`.
pub fn elapsed_millis(duration_millis: u128) -> (r: u64)
    ensures
        r == if duration_millis <= u64::MAX {
            duration_millis as u64
        } else {
            u64::MAX
        },
{
    if duration_millis <= u64::MAX as u128 {
        duration_millis as u64
    } else {
        u64::MAX
    }
}

/// What a fetch from the remote store means for hydration: the bytes when it held
/// the video, nothing when it did not, and an error when it failed otherwise.
pub fn classify_source_fetch(fetched: Result<bytes::Bytes, VideoSourceError>) -> (r: Result<
    Option<bytes::Bytes>,
    PreviewGenerationError,
>)
    ensures
        match fetched {
            Ok(b) => r == Ok::<Option<bytes::Bytes>, PreviewGenerationError>(Some(b)),
            Err(VideoSourceError::NotFound(_)) => r == Ok::<
                Option<bytes::Bytes>,
                PreviewGenerationError,
            >(None),
            Err(e) => r == Err::<Option<bytes::Bytes>, PreviewGenerationError>(
                PreviewGenerationError::Source(e),
            ),
        },
{
    match fetched {
        Ok(b) => Ok(Some(b)),
        Err(VideoSourceError::NotFound(id)) => Ok(None),
        Err(e) => Err(PreviewGenerationError::Source(e)),
    }
}

/// Whether a freshly rendered preview is uploaded to the remote store: unless the
/// store is known to hold it already.
pub fn should_upload_rendered(has_video: &Result<bool, VideoSourceError>) -> (b: bool)
    ensures
        b == !(has_video matches Ok(true)),
{
    match has_video {
        Ok(true) => false,
        _ => true,
    }
}

// ---------------------------------------------------------------------------
// Generations in flight
/// The ids whose preview is being rendered right now. The first request for an
/// id leads the render; requests that arrive while it runs wait for it.
pub struct InflightGenerations {
    ids: Vec<String>,
}

impl View for InflightGenerations {
    type V = Set<Seq<char>>;

    closed spec fn view(&self) -> Set<Seq<char>> {
        Set::new(|x: Seq<char>| exists|i: int| 0 <= i < self.ids@.len() && self.ids@[i]@ == x)
    }
}

impl InflightGenerations {
    pub closed spec fn wf(&self) -> bool {
        forall|i: int, j: int|
            0 <= i < j < self.ids@.len() ==> #[trigger] self.ids@[i]@ != #[trigger] self.ids@[j]@
    }

    /// No generation in flight.
    pub fn new() -> (g: Self)
        ensures
            g.wf(),
            g@ == Set::<Seq<char>>::empty(),
    {
        let g = InflightGenerations { ids: Vec::new() };
        assert(g@ =~= Set::<Seq<char>>::empty());
        g
    }

    fn find(&self, id: &String) -> (r: Option<usize>)
        ensures
            match r {
                Some(i) => i < self.ids@.len() && self.ids@[i as int]@ == id@,
                None => !self@.contains(id@),
            },
    {
        let n = self.ids.len();
        for i in 0..n
            invariant
                n == self.ids@.len(),
                forall|j: int| 0 <= j < i ==> self.ids@[j]@ != id@,
        {
            if self.ids[i] == *id {
                return Some(i);
            }
        }
        None
    }

    /// Whether a generation for `id` is in flight.
    pub fn is_in_flight(&self, id: &str) -> (b: bool)
        ensures
            b == self@.contains(id@),
    {
        let k = crate::text::owned(id);
        self.find(&k).is_some()
    }

    /// Registers a request for `id`'s preview. Returns true when the caller leads
    /// the generation, i.e. none was in flight for `id`; the id is in flight after.
    pub fn begin(&mut self, id: &str) -> (leader: bool)
        requires
            old(self).wf(),
        ensures
            final(self).wf(),
            leader == generation_leads(old(self)@, id@),
            final(self)@ == old(self)@.insert(id@),
    {
        let k = crate::text::owned(id);
        match self.find(&k) {
            Some(_) => {
                assert(self@ =~= old(self)@.insert(id@));
                false
            },
            None => {
                let ghost before = self.ids@;
                self.ids.push(k);
                assert forall|i: int, j: int|
                    0 <= i < j < self.ids@.len() implies #[trigger] self.ids@[i]@
                    != #[trigger] self.ids@[j]@ by {
                    if j == before.len() {
                        assert(old(self)@.contains(before[i]@));
                    } else {
                        assert(self.ids@[i] == before[i]);
                        assert(self.ids@[j] == before[j]);
                    }
                }
                assert forall|x: Seq<char>| #[trigger] self@.contains(x) <==> old(self)@.insert(
                    id@,
                ).contains(x) by {
                    if self@.contains(x) {
                        let i = choose|i: int| 0 <= i < self.ids@.len() && self.ids@[i]@ == x;
                        if i < before.len() {
                            assert(self.ids@[i] == before[i]);
                        }
                    }
                    if old(self)@.contains(x) {
                        let i = choose|i: int| 0 <= i < before.len() && before[i]@ == x;
                        assert(self.ids@[i] == before[i]);
                    }
                    if x == id@ {
                        assert(self.ids@[before.len() as int]@ == x);
                    }
                }
                assert(self@ =~= old(self)@.insert(id@));
                true
            },
        }
    }

    /// Ends the generation for `id`. Returns whether it was in flight.
    pub fn finish(&mut self, id: &str) -> (was_in_flight: bool)
        requires
            old(self).wf(),
        ensures
            final(self).wf(),
            was_in_flight == old(self)@.contains(id@),
            final(self)@ == old(self)@.remove(id@),
    {
        let k = crate::text::owned(id);
        match self.find(&k) {
            None => {
                assert(self@ =~= old(self)@.remove(id@));
                false
            },
            Some(i) => {
                let ghost before = self.ids@;
                self.ids.remove(i);
                assert(self.ids@ =~= before.remove(i as int));
                assert forall|a: int, b: int|
                    0 <= a < b < self.ids@.len() implies #[trigger] self.ids@[a]@
                    != #[trigger] self.ids@[b]@ by {
                    let a2 = if a < i { a } else { a + 1 };
                    let b2 = if b < i { b } else { b + 1 };
                    assert(self.ids@[a] == before[a2]);
                    assert(self.ids@[b] == before[b2]);
                }
                assert forall|x: Seq<char>| #[trigger] self@.contains(x) <==> old(self)@.remove(
                    id@,
                ).contains(x) by {
                    if self@.contains(x) {
                        let j = choose|j: int| 0 <= j < self.ids@.len() && self.ids@[j]@ == x;
                        let j2 = if j < i { j } else { j + 1 };
                        assert(self.ids@[j] == before[j2]);
                        assert(j2 != i);
                    }
                    if old(self)@.contains(x) && x != id@ {
                        let j = choose|j: int| 0 <= j < before.len() && before[j]@ == x;
                        assert(j != i);
                        let j2 = if j < i { j } else { j - 1 };
                        assert(self.ids@[j2] == before[j]);
                    }
                }
                assert(self@ =~= old(self)@.remove(id@));
                true
            },
        }
    }
}

/// A request for `id` leads the generation when none is in flight for it.
pub open spec fn generation_leads(in_flight: Set<Seq<char>>, id: Seq<char>) -> bool {
    !in_flight.contains(id)
}

/// Single flight: while a generation for `id` is in flight, every further request
/// for `id` waits instead of leading another one.
pub proof fn law_single_flight(in_flight: Set<Seq<char>>, id: Seq<char>)
    ensures
        !generation_leads(in_flight.insert(id), id),
{
}

/// Once the leader finishes, the next request for the id leads a new generation.
pub proof fn law_finish_allows_next_leader(in_flight: Set<Seq<char>>, id: Seq<char>)
    ensures
        generation_leads(in_flight.remove(id), id),
{
}

/// Generations of different ids do not wait for each other.
pub proof fn law_ids_are_independent(in_flight: Set<Seq<char>>, id: Seq<char>, other: Seq<char>)
    requires
        id != other,
    ensures
        generation_leads(in_flight.insert(other), id) == generation_leads(in_flight, id),
        generation_leads(in_flight.remove(other), id) == generation_leads(in_flight, id),
{
}

// ---------------------------------------------------------------------------
// A trace of generations in flight
/// One operation on the generations in flight: a request registering for an id,
/// or a leader ending the generation of an id.
pub enum FlightOp {
    Begin(Seq<char>),
    Finish(Seq<char>),
}

/// The ids in flight after the operations `ops`, from none, as
/// `InflightGenerations::begin` and `InflightGenerations::finish` change them.
pub open spec fn in_flight_after(ops: Seq<FlightOp>) -> Set<Seq<char>>
    decreases ops.len(),
{
    if ops.len() == 0 {
        Set::empty()
    } else {
        let before = in_flight_after(ops.drop_last());
        match ops.last() {
            FlightOp::Begin(id) => before.insert(id),
            FlightOp::Finish(id) => before.remove(id),
        }
    }
}

/// Operation `i` of `ops` is a request that leads the generation of `id`.
pub open spec fn leads_at(ops: Seq<FlightOp>, i: int, id: Seq<char>) -> bool {
    &&& 0 <= i < ops.len()
    &&& ops[i] == FlightOp::Begin(id)
    &&& generation_leads(in_flight_after(ops.take(i)), id)
}

proof fn lemma_in_flight_until_finish(ops: Seq<FlightOp>, i: int, id: Seq<char>, k: int)
    requires
        0 <= i < k <= ops.len(),
        ops[i] == FlightOp::Begin(id),
        forall|m: int| i < m < k ==> ops[m] != FlightOp::Finish(id),
    ensures
        in_flight_after(ops.take(k)).contains(id),
    decreases k - i,
{
    let t = ops.take(k);
    assert(t.drop_last() =~= ops.take(k - 1));
    assert(t.last() == ops[k - 1]);
    if k > i + 1 {
        lemma_in_flight_until_finish(ops, i, id, k - 1);
    }
}

/// Single flight over any interleaving of requests: between two requests that
/// both lead the generation of the same id, the first leader's generation has
/// been finished. So at most one request renders an id at any time.
pub proof fn law_one_leader_at_a_time(ops: Seq<FlightOp>, id: Seq<char>, i: int, j: int)
    requires
        i < j,
        leads_at(ops, i, id),
        leads_at(ops, j, id),
    ensures
        exists|k: int| i < k < j && ops[k] == FlightOp::Finish(id),
{
    if !(exists|k: int| i < k < j && ops[k] == FlightOp::Finish(id)) {
        lemma_in_flight_until_finish(ops, i, id, j);
    }
}

// ---------------------------------------------------------------------------
// Analytics of serving and generating
/// An analytics event that serving or generating a preview calls for.
#[derive(Clone, Debug)]
pub enum PreviewAnalyticsEvent {
    /// The cache held the preview.
    CacheHit { video_id: String, video_kind: VideoKind, size_bytes: usize },
    /// The preview was served; `cache_status` is where it came from.
    Served {
        video_id: String,
        video_kind: VideoKind,
        size_bytes: usize,
        cache_status: &'static str,
    },
    /// The remote store held the preview.
    SourceHit { video_id: String, video_kind: VideoKind, size_bytes: usize },
    /// A preview was rendered, in `duration_ms`.
    Generated { video_id: String, video_kind: VideoKind, size_bytes: usize, duration_ms: u64 },
    /// A render failed after `duration_ms`.
    GenerationFailed { video_id: String, video_kind: VideoKind, duration_ms: u64 },
}

/// `e` reports a cache hit on `id`.
pub open spec fn is_cache_hit_event(
    e: PreviewAnalyticsEvent,
    id: Seq<char>,
    kind: VideoKind,
    size: nat,
) -> bool {
    e matches PreviewAnalyticsEvent::CacheHit { video_id, video_kind, size_bytes } && video_id@
        == id && video_kind == kind && size_bytes == size
}

/// `e` reports `id` served from `status`'s place, under its label.
pub open spec fn is_served_event(
    e: PreviewAnalyticsEvent,
    id: Seq<char>,
    kind: VideoKind,
    size: nat,
    status: CacheStatus,
) -> bool {
    e matches PreviewAnalyticsEvent::Served { video_id, video_kind, size_bytes, cache_status }
        && video_id@ == id && video_kind == kind && size_bytes == size && cache_status@
        == served_label_spec(status)
}

/// `e` reports that the remote store held `id`.
pub open spec fn is_source_hit_event(
    e: PreviewAnalyticsEvent,
    id: Seq<char>,
    kind: VideoKind,
    size: nat,
) -> bool {
    e matches PreviewAnalyticsEvent::SourceHit { video_id, video_kind, size_bytes } && video_id@
        == id && video_kind == kind && size_bytes == size
}

/// The label of a cache status in the served event.
pub open spec fn served_label_spec(status: CacheStatus) -> Seq<char> {
    match status {
        CacheStatus::Hit => "memory"@,
        CacheStatus::Hydrated => "source"@,
        CacheStatus::Rendered => "rendered"@,
    }
}

/// A duration in milliseconds, saturated to `u64::MAX`.
pub open spec fn saturated_millis(ms: u128) -> u64 {
    if ms <= u64::MAX {
        ms as u64
    } else {
        u64::MAX
    }
}

fn served_event(id: &str, kind: VideoKind, b: &bytes::Bytes, status: CacheStatus) -> (e:
    PreviewAnalyticsEvent)
    ensures
        is_served_event(e, id@, kind, bytes_contents(*b).len(), status),
{
    PreviewAnalyticsEvent::Served {
        video_id: crate::text::owned(id),
        video_kind: kind,
        size_bytes: bytes_len(b),
        cache_status: served_source_label(status),
    }
}

// ---------------------------------------------------------------------------
// Hydration from the remote store
/// What hydrating a preview from the remote store learned from its last step.
pub enum HydrateEvent {
    /// The store's answer for the id, and the kind of video, when the caller knows it.
    Fetched(Result<bytes::Bytes, VideoSourceError>, Option<VideoKind>),
    /// The stored video, and the Spotify metadata looked up for its kind.
    KindLookedUp(bytes::Bytes, Result<(SpotifyPreviewMetadata, VideoKind), SpotifyMetadataError>),
}

/// The next step of hydrating a preview.
pub enum HydrateAction {
    /// Look up the kind of media of the id, keeping the stored video.
    LookupKind(bytes::Bytes),
    /// Report the event, cache the video under the id with its kind, and return
    /// them.
    Store(PreviewAnalyticsEvent, bytes::Bytes, VideoKind),
    /// Hydration is over: nothing was stored, or it failed.
    Done(Result<Option<(bytes::Bytes, VideoKind)>, PreviewGenerationError>),
}

/// Hydrating `id`: a store that does not hold it gives nothing, another store
/// error fails; a stored video gets its kind, from the caller or else from the
/// Spotify metadata (whose failure fails), and is then reported and cached.
pub open spec fn hydrate_next_is(id: Seq<char>, event: HydrateEvent, a: HydrateAction) -> bool {
    match event {
        HydrateEvent::Fetched(Ok(b), Some(k)) => a matches HydrateAction::Store(e, b2, k2) && b2
            == b && k2 == k && is_source_hit_event(e, id, k, bytes_contents(b).len()),
        HydrateEvent::Fetched(Ok(b), None) => a == HydrateAction::LookupKind(b),
        HydrateEvent::Fetched(Err(VideoSourceError::NotFound(_)), _) => a == HydrateAction::Done(
            Ok(None),
        ),
        HydrateEvent::Fetched(Err(e), _) => a == HydrateAction::Done(
            Err(PreviewGenerationError::Source(e)),
        ),
        HydrateEvent::KindLookedUp(b, Ok((_, k))) => a matches HydrateAction::Store(e, b2, k2) && b2
            == b && k2 == k && is_source_hit_event(e, id, k, bytes_contents(b).len()),
        HydrateEvent::KindLookedUp(_, Err(e)) => a == HydrateAction::Done(
            Err(PreviewGenerationError::Metadata(e)),
        ),
    }
}

fn source_hit(id: &str, b: bytes::Bytes, k: VideoKind) -> (a: HydrateAction)
    ensures
        a matches HydrateAction::Store(e, b2, k2) && b2 == b && k2 == k && is_source_hit_event(
            e,
            id@,
            k,
            bytes_contents(b).len(),
        ),
{
    let e = PreviewAnalyticsEvent::SourceHit {
        video_id: crate::text::owned(id),
        video_kind: k,
        size_bytes: bytes_len(&b),
    };
    HydrateAction::Store(e, b, k)
}

/// The next step of hydrating the preview of `id` (see `hydrate_next_is`).
pub fn hydrate_step(id: &str, event: HydrateEvent) -> (a: HydrateAction)
    ensures
        hydrate_next_is(id@, event, a),
{
    match event {
        HydrateEvent::Fetched(fetched, known_kind) => match classify_source_fetch(fetched) {
            Ok(Some(b)) => match known_kind {
                Some(k) => source_hit(id, b, k),
                None => HydrateAction::LookupKind(b),
            },
            Ok(None) => HydrateAction::Done(Ok(None)),
            Err(e) => HydrateAction::Done(Err(e)),
        },
        HydrateEvent::KindLookedUp(b, Ok((_, k))) => source_hit(id, b, k),
        HydrateEvent::KindLookedUp(_, Err(e)) => HydrateAction::Done(
            Err(PreviewGenerationError::Metadata(e)),
        ),
    }
}

// ---------------------------------------------------------------------------
// Rendering and caching
/// What to do once a render has ended.
pub enum RenderOutcomeAction {
    /// Report the failure and fail with the error; nothing is cached.
    Fail(PreviewGenerationError, PreviewAnalyticsEvent),
    /// Report the render, cache the video under the id with its kind, and then
    /// hand it to the background upload (see `upload_step`).
    Store(PreviewAnalyticsEvent, String, bytes::Bytes, VideoKind),
}

/// The end of a render of `id` of kind `kind` that took `elapsed_ms`: a failure is
/// reported with its duration and fails as a renderer error; a rendered video is
/// reported with its size and duration and cached.
pub open spec fn render_outcome_is(
    id: Seq<char>,
    kind: VideoKind,
    rendered: Result<bytes::Bytes, RendererError>,
    elapsed_ms: u128,
    a: RenderOutcomeAction,
) -> bool {
    match rendered {
        Err(e) => a matches RenderOutcomeAction::Fail(err, ev) && err
            == PreviewGenerationError::Renderer(e) && is_generation_failed_event(
            ev,
            id,
            kind,
            saturated_millis(elapsed_ms),
        ),
        Ok(b) => a matches RenderOutcomeAction::Store(ev, id2, b2, k2) && id2@ == id && b2 == b
            && k2 == kind && is_generated_event(
            ev,
            id,
            kind,
            bytes_contents(b).len(),
            saturated_millis(elapsed_ms),
        ),
    }
}

/// `e` reports that rendering `id` failed after `ms`.
pub open spec fn is_generation_failed_event(
    e: PreviewAnalyticsEvent,
    id: Seq<char>,
    kind: VideoKind,
    ms: u64,
) -> bool {
    e matches PreviewAnalyticsEvent::GenerationFailed { video_id, video_kind, duration_ms }
        && video_id@ == id && video_kind == kind && duration_ms == ms
}

/// `e` reports that `id` was rendered, `size` bytes in `ms`.
pub open spec fn is_generated_event(
    e: PreviewAnalyticsEvent,
    id: Seq<char>,
    kind: VideoKind,
    size: nat,
    ms: u64,
) -> bool {
    e matches PreviewAnalyticsEvent::Generated { video_id, video_kind, size_bytes, duration_ms }
        && video_id@ == id && video_kind == kind && size_bytes == size && duration_ms == ms
}

/// What follows the render of `track_id` (see `render_outcome_is`).
pub fn render_outcome_step(
    track_id: &str,
    kind: VideoKind,
    rendered: Result<bytes::Bytes, RendererError>,
    elapsed_ms: u128,
) -> (a: RenderOutcomeAction)
    ensures
        render_outcome_is(track_id@, kind, rendered, elapsed_ms, a),
{
    let ms = elapsed_millis(elapsed_ms);
    match rendered {
        Err(e) => RenderOutcomeAction::Fail(
            PreviewGenerationError::Renderer(e),
            PreviewAnalyticsEvent::GenerationFailed {
                video_id: crate::text::owned(track_id),
                video_kind: kind,
                duration_ms: ms,
            },
        ),
        Ok(b) => {
            let ev = PreviewAnalyticsEvent::Generated {
                video_id: crate::text::owned(track_id),
                video_kind: kind,
                size_bytes: bytes_len(&b),
                duration_ms: ms,
            };
            RenderOutcomeAction::Store(ev, crate::text::owned(track_id), b, kind)
        },
    }
}

/// What the background work after a render does.
#[derive(Clone, Copy, Debug, PartialEq, Eq, Structural)]
pub enum UploadAction {
    /// Upload the rendered video to the remote store, then remove the render's
    /// working directory.
    UploadThenRemoveOutput,
    /// Only remove the render's working directory.
    RemoveOutput,
}

/// The background work after a render, given whether the remote store already
/// holds the video: upload unless it is known to be there; the working directory
/// is removed either way.
pub fn upload_step(has_video: &Result<bool, VideoSourceError>) -> (a: UploadAction)
    ensures
        a == if has_video matches Ok(true) {
            UploadAction::RemoveOutput
        } else {
            UploadAction::UploadThenRemoveOutput
        },
{
    if should_upload_rendered(has_video) {
        UploadAction::UploadThenRemoveOutput
    } else {
        UploadAction::RemoveOutput
    }
}

// ---------------------------------------------------------------------------
// The generation flow
/// What the generation of a preview learned from its last step.
pub enum GenerateEvent {
    /// The request, with the id as it came.
    Requested(PreloadedPreviewInput),
    /// Whether the cache holds the preview.
    CacheChecked(bool),
    /// Whether the remote store held the preview (it is then cached), or why
    /// reading it failed.
    Hydrated(Result<bool, PreviewGenerationError>),
    /// Whether this request leads the generation (see `InflightGenerations::begin`).
    Registered(bool),
    /// After the leader finished: whether the cache holds the preview.
    WaitedCacheChecked(bool),
    /// After the leader finished: whether the remote store held the preview.
    WaitedHydrated(Result<bool, PreviewGenerationError>),
    /// How the leader's render and caching ended.
    Rendered(Result<(), PreviewGenerationError>),
}

/// The next step of the generation of a preview.
pub enum GenerateAction {
    /// Look in the cache for this input's preview; its id is normalized.
    CheckCache(PreloadedPreviewInput),
    /// Try the remote store.
    Hydrate,
    /// Register the request among the generations in flight.
    Register,
    /// Wait for the leader to finish, then look in the cache.
    WaitThenCheckCache,
    /// Try the remote store after waiting.
    HydrateAfterWait,
    /// Render the preview and cache it.
    Render,
    /// End the generation in flight, wake the waiters, and return the result.
    FinishLeading(Result<(), PreviewGenerationError>),
    /// Return the result.
    Done(Result<(), PreviewGenerationError>),
}

/// The generation flow: an id that is empty once normalized fails before anything
/// is looked at; a cached or stored preview needs nothing; otherwise the first
/// request renders it while later ones wait and then look again, failing when the
/// preview is still nowhere.
pub open spec fn generate_next_is(event: GenerateEvent, a: GenerateAction) -> bool {
    match event {
        GenerateEvent::Requested(input) => if normalized_track_id(input.track_id@).len() == 0 {
            a == GenerateAction::Done(Err(PreviewGenerationError::InvalidInput("track_id is empty")))
        } else {
            a matches GenerateAction::CheckCache(i) && i.track_id@ == normalized_track_id(
                input.track_id@,
            ) && i.video_kind == input.video_kind && i.preview_url == input.preview_url
                && i.og_bytes == input.og_bytes
        },
        GenerateEvent::CacheChecked(true) => a == GenerateAction::Done(Ok(())),
        GenerateEvent::CacheChecked(false) => a == GenerateAction::Hydrate,
        GenerateEvent::Hydrated(Ok(true)) => a == GenerateAction::Done(Ok(())),
        GenerateEvent::Hydrated(Ok(false)) => a == GenerateAction::Register,
        GenerateEvent::Hydrated(Err(e)) => a == GenerateAction::Done(Err(e)),
        GenerateEvent::Registered(true) => a == GenerateAction::Render,
        GenerateEvent::Registered(false) => a == GenerateAction::WaitThenCheckCache,
        GenerateEvent::WaitedCacheChecked(true) => a == GenerateAction::Done(Ok(())),
        GenerateEvent::WaitedCacheChecked(false) => a == GenerateAction::HydrateAfterWait,
        GenerateEvent::WaitedHydrated(Ok(true)) => a == GenerateAction::Done(Ok(())),
        GenerateEvent::WaitedHydrated(Ok(false)) => a == GenerateAction::Done(
            Err(PreviewGenerationError::GenerationFailed),
        ),
        GenerateEvent::WaitedHydrated(Err(e)) => a == GenerateAction::Done(Err(e)),
        GenerateEvent::Rendered(r) => a == GenerateAction::FinishLeading(r),
    }
}

/// The next step of the generation flow (see `generate_next_is`).
pub fn generate_step(event: GenerateEvent) -> (a: GenerateAction)
    ensures
        generate_next_is(event, a),
{
    match event {
        GenerateEvent::Requested(input) => {
            let PreloadedPreviewInput { track_id, video_kind, preview_url, og_bytes } = input;
            match normalize_track_id(track_id.as_str()) {
                Err(e) => GenerateAction::Done(Err(e)),
                Ok(id) => GenerateAction::CheckCache(
                    PreloadedPreviewInput { track_id: id, video_kind, preview_url, og_bytes },
                ),
            }
        },
        GenerateEvent::CacheChecked(true) => GenerateAction::Done(Ok(())),
        GenerateEvent::CacheChecked(false) => GenerateAction::Hydrate,
        GenerateEvent::Hydrated(Ok(true)) => GenerateAction::Done(Ok(())),
        GenerateEvent::Hydrated(Ok(false)) => GenerateAction::Register,
        GenerateEvent::Hydrated(Err(e)) => GenerateAction::Done(Err(e)),
        GenerateEvent::Registered(true) => GenerateAction::Render,
        GenerateEvent::Registered(false) => GenerateAction::WaitThenCheckCache,
        GenerateEvent::WaitedCacheChecked(true) => GenerateAction::Done(Ok(())),
        GenerateEvent::WaitedCacheChecked(false) => GenerateAction::HydrateAfterWait,
        GenerateEvent::WaitedHydrated(Ok(true)) => GenerateAction::Done(Ok(())),
        GenerateEvent::WaitedHydrated(Ok(false)) => GenerateAction::Done(
            Err(PreviewGenerationError::GenerationFailed),
        ),
        GenerateEvent::WaitedHydrated(Err(e)) => GenerateAction::Done(Err(e)),
        GenerateEvent::Rendered(r) => GenerateAction::FinishLeading(r),
    }
}

/// Only the leader renders: no other step of the generation flow leads to a render.
pub proof fn law_only_leader_renders(event: GenerateEvent, a: GenerateAction)
    requires
        generate_next_is(event, a),
    ensures
        (a is Render) <==> (event == GenerateEvent::Registered(true)),
{
}

/// A leader's render always ends its generation in flight, whatever the outcome,
/// so waiters are always woken, and the leader returns its render's result.
pub proof fn law_leader_always_finishes(r: Result<(), PreviewGenerationError>, a: GenerateAction)
    requires
        generate_next_is(GenerateEvent::Rendered(r), a),
    ensures
        a == GenerateAction::FinishLeading(r),
{
}

/// A woken waiter succeeds exactly when the cache or the remote store then holds
/// the preview; when neither does, it fails with `GenerationFailed`.
pub proof fn law_waiter_needs_the_leaders_preview(
    cached: bool,
    stored: Result<bool, PreviewGenerationError>,
    a1: GenerateAction,
    a2: GenerateAction,
)
    requires
        generate_next_is(GenerateEvent::WaitedCacheChecked(cached), a1),
        generate_next_is(GenerateEvent::WaitedHydrated(stored), a2),
    ensures
        cached ==> a1 == GenerateAction::Done(Ok(())),
        !cached ==> a1 is HydrateAfterWait,
        (a2 == GenerateAction::Done(Ok(()))) <==> (stored == Ok::<bool, PreviewGenerationError>(
            true,
        )),
        stored == Ok::<bool, PreviewGenerationError>(false) ==> a2 == GenerateAction::Done(
            Err(PreviewGenerationError::GenerationFailed),
        ),
{
}

/// An invalid id ends the generation at once, before the cache, the store, the
/// renderer or the generations in flight are consulted.
pub proof fn law_invalid_id_fails_first(input: PreloadedPreviewInput, a: GenerateAction)
    requires
        generate_next_is(GenerateEvent::Requested(input), a),
        normalized_track_id(input.track_id@).len() == 0,
    ensures
        a matches GenerateAction::Done(Err(PreviewGenerationError::InvalidInput(_))),
{
}

// ---------------------------------------------------------------------------
// Serving a preview
/// What serving a preview learned from its last step.
pub enum ServeEvent {
    /// The request, with the id as it came.
    Requested(String),
    /// The cached preview of the id and its kind, if the cache holds it.
    CacheLookup(String, Option<(bytes::Bytes, VideoKind)>),
    /// The stored preview of the id and its kind, if the remote store held it (it
    /// is then cached), or why reading it failed.
    Hydration(String, Result<Option<(bytes::Bytes, VideoKind)>, PreviewGenerationError>),
    /// The Spotify metadata of the id, with the kind of media it is.
    Metadata(String, Result<(SpotifyPreviewMetadata, VideoKind), SpotifyMetadataError>),
    /// The og image made for the metadata.
    OgImage(String, SpotifyPreviewMetadata, VideoKind, Result<GeneratedOgImage, OgImageError>),
    /// How generating the preview ended.
    Generated(String, Result<(), PreviewGenerationError>),
    /// The rendered preview of the id and its kind, if the cache now holds it.
    RenderedLookup(String, Option<(bytes::Bytes, VideoKind)>),
}

/// The next step of serving a preview.
pub enum ServeAction {
    /// Look in the cache for this (normalized) id.
    LookupCache(String),
    /// Try the remote store for the id.
    HydrateFromSource(String),
    /// Fetch the Spotify metadata of the id.
    FetchMetadata(String),
    /// Make the og image for the metadata.
    GenerateOgImage(String, SpotifyPreviewMetadata, VideoKind),
    /// Generate the preview (see `generate_step`); the id is the one served.
    EnsureGenerated(String, PreloadedPreviewInput),
    /// Look for the rendered preview of the id in the cache.
    LookupRendered(String),
    /// Report these analytics events, in order, and send the preview.
    Serve(ServedPreview, Vec<PreviewAnalyticsEvent>),
    /// Answer with the error.
    Fail(PreviewGenerationError),
}

/// `a` serves `b` of kind `k` for `id` from `status`'s place, with the events
/// that the place calls for: a cache hit and then the served event for the cache;
/// only the served event otherwise.
pub open spec fn serves(
    a: ServeAction,
    id: Seq<char>,
    b: bytes::Bytes,
    k: VideoKind,
    status: CacheStatus,
) -> bool {
    a matches ServeAction::Serve(p, events) && p == ServedPreview {
        video_bytes: b,
        mime: "video/mp4",
        cache_status: status,
    } && if status == CacheStatus::Hit {
        &&& events@.len() == 2
        &&& is_cache_hit_event(events@[0], id, k, bytes_contents(b).len())
        &&& is_served_event(events@[1], id, k, bytes_contents(b).len(), status)
    } else {
        &&& events@.len() == 1
        &&& is_served_event(events@[0], id, k, bytes_contents(b).len(), status)
    }
}

/// Serving a preview: an id that is empty once normalized fails; then from the
/// cache, else from the remote store, else render it from the Spotify metadata
/// and an og image and serve what the cache then holds.
pub open spec fn serve_next_is(event: ServeEvent, a: ServeAction) -> bool {
    match event {
        ServeEvent::Requested(raw) => if normalized_track_id(raw@).len() == 0 {
            a == ServeAction::Fail(PreviewGenerationError::InvalidInput("track_id is empty"))
        } else {
            a matches ServeAction::LookupCache(id) && id@ == normalized_track_id(raw@)
        },
        ServeEvent::CacheLookup(id, Some((b, k))) => serves(a, id@, b, k, CacheStatus::Hit),
        ServeEvent::CacheLookup(id, None) => a == ServeAction::HydrateFromSource(id),
        ServeEvent::Hydration(id, Ok(Some((b, k)))) => serves(a, id@, b, k, CacheStatus::Hydrated),
        ServeEvent::Hydration(id, Ok(None)) => a == ServeAction::FetchMetadata(id),
        ServeEvent::Hydration(_, Err(e)) => a == ServeAction::Fail(e),
        ServeEvent::Metadata(id, Ok((m, k))) => a == ServeAction::GenerateOgImage(id, m, k),
        ServeEvent::Metadata(_, Err(e)) => a == ServeAction::Fail(
            PreviewGenerationError::Metadata(e),
        ),
        ServeEvent::OgImage(id, m, k, Ok(img)) => a == ServeAction::EnsureGenerated(
            id,
            PreloadedPreviewInput {
                track_id: m.media_id,
                video_kind: k,
                preview_url: m.preview_url,
                og_bytes: img.image_bytes,
            },
        ),
        ServeEvent::OgImage(_, _, _, Err(e)) => a == ServeAction::Fail(
            PreviewGenerationError::Image(e),
        ),
        ServeEvent::Generated(id, Ok(())) => a == ServeAction::LookupRendered(id),
        ServeEvent::Generated(_, Err(e)) => a == ServeAction::Fail(e),
        ServeEvent::RenderedLookup(id, Some((b, k))) => serves(
            a,
            id@,
            b,
            k,
            CacheStatus::Rendered,
        ),
        ServeEvent::RenderedLookup(_, None) => a == ServeAction::Fail(
            PreviewGenerationError::GenerationFailed,
        ),
    }
}

fn serve(id: &str, b: bytes::Bytes, k: VideoKind, status: CacheStatus) -> (a: ServeAction)
    ensures
        serves(a, id@, b, k, status),
{
    let mut events: Vec<PreviewAnalyticsEvent> = Vec::new();
    if status == CacheStatus::Hit {
        events.push(
            PreviewAnalyticsEvent::CacheHit {
                video_id: crate::text::owned(id),
                video_kind: k,
                size_bytes: bytes_len(&b),
            },
        );
    }
    events.push(served_event(id, k, &b, status));
    ServeAction::Serve(ServedPreview { video_bytes: b, mime: "video/mp4", cache_status: status }, events)
}

/// The next step of serving a preview (see `serve_next_is`).
pub fn serve_step(event: ServeEvent) -> (a: ServeAction)
    ensures
        serve_next_is(event, a),
{
    match event {
        ServeEvent::Requested(raw) => match normalize_track_id(raw.as_str()) {
            Ok(id) => ServeAction::LookupCache(id),
            Err(e) => ServeAction::Fail(e),
        },
        ServeEvent::CacheLookup(id, Some((b, k))) => serve(id.as_str(), b, k, CacheStatus::Hit),
        ServeEvent::CacheLookup(id, None) => ServeAction::HydrateFromSource(id),
        ServeEvent::Hydration(id, Ok(Some((b, k)))) => serve(
            id.as_str(),
            b,
            k,
            CacheStatus::Hydrated,
        ),
        ServeEvent::Hydration(id, Ok(None)) => ServeAction::FetchMetadata(id),
        ServeEvent::Hydration(_, Err(e)) => ServeAction::Fail(e),
        ServeEvent::Metadata(id, Ok((m, k))) => ServeAction::GenerateOgImage(id, m, k),
        ServeEvent::Metadata(_, Err(e)) => ServeAction::Fail(PreviewGenerationError::Metadata(e)),
        ServeEvent::OgImage(id, m, k, Ok(img)) => ServeAction::EnsureGenerated(
            id,
            PreloadedPreviewInput {
                track_id: m.media_id,
                video_kind: k,
                preview_url: m.preview_url,
                og_bytes: img.image_bytes,
            },
        ),
        ServeEvent::OgImage(_, _, _, Err(e)) => ServeAction::Fail(PreviewGenerationError::Image(e)),
        ServeEvent::Generated(id, Ok(())) => ServeAction::LookupRendered(id),
        ServeEvent::Generated(_, Err(e)) => ServeAction::Fail(e),
        ServeEvent::RenderedLookup(id, Some((b, k))) => serve(
            id.as_str(),
            b,
            k,
            CacheStatus::Rendered,
        ),
        ServeEvent::RenderedLookup(_, None) => ServeAction::Fail(
            PreviewGenerationError::GenerationFailed,
        ),
    }
}

/// A preview is served with the status of the place it was found: the cache
/// before rendering, the remote store, or the cache after rendering.
pub proof fn law_served_status_names_its_origin(event: ServeEvent, a: ServeAction)
    requires
        serve_next_is(event, a),
    ensures
        a matches ServeAction::Serve(p, _) ==> match event {
            ServeEvent::CacheLookup(_, _) => p.cache_status == CacheStatus::Hit,
            ServeEvent::Hydration(_, _) => p.cache_status == CacheStatus::Hydrated,
            ServeEvent::RenderedLookup(_, _) => p.cache_status == CacheStatus::Rendered,
            _ => false,
        },
{
}

} // verus!
