use bytes::Bytes;
use spqtify::embeds::image_client::{GeneratedOgImage, OgImageError};
use spqtify::embeds::preview_generation::{
    classify_source_fetch, elapsed_millis, generate_step, hydrate_step, normalize_track_id,
    render_outcome_step, serve_step, served_source_label, should_upload_rendered, upload_step,
    CacheStatus, GenerateAction, GenerateEvent, HydrateAction, HydrateEvent, InflightGenerations,
    PreloadedPreviewInput, PreviewAnalyticsEvent, PreviewGenerationError, RenderOutcomeAction,
    ServeAction, ServeEvent, UploadAction,
};
use spqtify::embeds::renderer::RendererError;
use spqtify::embeds::spotify_metadata::{SpotifyMetadataError, SpotifyPreviewMetadata};
use spqtify::embeds::video_source::VideoSourceError;
use spqtify::embeds::VideoKind;

fn metadata() -> SpotifyPreviewMetadata {
    SpotifyPreviewMetadata {
        media_id: "media".to_string(),
        song_name: "Song".to_string(),
        artist_names: vec!["A".to_string()],
        preview_url: "https://p".to_string(),
        album_art_url: "https://a".to_string(),
    }
}

#[test]
fn track_ids_lose_the_mp4_suffix_and_whitespace() {
    assert_eq!(normalize_track_id("abc.mp4").unwrap(), "abc");
    assert_eq!(normalize_track_id(" abc ").unwrap(), "abc");
    assert_eq!(normalize_track_id("abc.mp4.mp4").unwrap(), "abc.mp4");
    assert_eq!(normalize_track_id(" .mp4").unwrap_err(), PreviewGenerationError::InvalidInput("track_id is empty"));
    assert_eq!(normalize_track_id("").unwrap_err(), PreviewGenerationError::InvalidInput("track_id is empty"));
    assert_eq!(normalize_track_id(".mp4 ").unwrap(), ".mp4");
}

#[test]
fn elapsed_millis_saturates() {
    assert_eq!(elapsed_millis(1234), 1234);
    assert_eq!(elapsed_millis(u64::MAX as u128), u64::MAX);
    assert_eq!(elapsed_millis(u64::MAX as u128 + 1), u64::MAX);
}

#[test]
fn source_fetches_are_classified() {
    assert_eq!(classify_source_fetch(Ok(Bytes::from_static(b"v"))).unwrap().unwrap(), Bytes::from_static(b"v"));
    assert!(classify_source_fetch(Err(VideoSourceError::NotFound("x".to_string()))).unwrap().is_none());
    assert_eq!(
        classify_source_fetch(Err(VideoSourceError::ReadFailed)).unwrap_err(),
        PreviewGenerationError::Source(VideoSourceError::ReadFailed)
    );
    assert!(should_upload_rendered(&Ok(false)));
    assert!(!should_upload_rendered(&Ok(true)));
    assert!(should_upload_rendered(&Err(VideoSourceError::ReadFailed)));
}

#[test]
fn inflight_generations_have_one_leader_per_id() {
    let mut tasks = InflightGenerations::new();
    assert!(tasks.begin("a"));
    assert!(!tasks.begin("a"));
    assert!(tasks.begin("b"));
    assert!(tasks.is_in_flight("a"));
    assert!(tasks.finish("a"));
    assert!(!tasks.finish("a"));
    assert!(!tasks.is_in_flight("a"));
    assert!(tasks.is_in_flight("b"));
    assert!(tasks.begin("a"));
}

#[test]
fn generation_flow_decides_each_step() {
    assert!(matches!(generate_step(GenerateEvent::CacheChecked(true)), GenerateAction::Done(Ok(()))));
    assert!(matches!(generate_step(GenerateEvent::CacheChecked(false)), GenerateAction::Hydrate));
    assert!(matches!(generate_step(GenerateEvent::Hydrated(Ok(true))), GenerateAction::Done(Ok(()))));
    assert!(matches!(generate_step(GenerateEvent::Hydrated(Ok(false))), GenerateAction::Register));
    assert!(matches!(
        generate_step(GenerateEvent::Hydrated(Err(PreviewGenerationError::GenerationFailed))),
        GenerateAction::Done(Err(PreviewGenerationError::GenerationFailed))
    ));
    assert!(matches!(generate_step(GenerateEvent::Registered(true)), GenerateAction::Render));
    assert!(matches!(generate_step(GenerateEvent::Registered(false)), GenerateAction::WaitThenCheckCache));
    assert!(matches!(generate_step(GenerateEvent::WaitedCacheChecked(true)), GenerateAction::Done(Ok(()))));
    assert!(matches!(generate_step(GenerateEvent::WaitedCacheChecked(false)), GenerateAction::HydrateAfterWait));
    assert!(matches!(
        generate_step(GenerateEvent::WaitedHydrated(Ok(false))),
        GenerateAction::Done(Err(PreviewGenerationError::GenerationFailed))
    ));
    assert!(matches!(generate_step(GenerateEvent::WaitedHydrated(Ok(true))), GenerateAction::Done(Ok(()))));
    assert!(matches!(
        generate_step(GenerateEvent::Rendered(Err(PreviewGenerationError::Renderer(RendererError::FfmpegFailed)))),
        GenerateAction::FinishLeading(Err(PreviewGenerationError::Renderer(RendererError::FfmpegFailed)))
    ));
}

fn s(x: &str) -> String {
    x.to_string()
}

#[test]
fn serve_flow_decides_each_step() {
    assert!(matches!(serve_step(ServeEvent::Requested(s(" abc.mp4"))), ServeAction::LookupCache(id) if id == "abc"));
    assert!(matches!(
        serve_step(ServeEvent::Requested(s(" .mp4"))),
        ServeAction::Fail(PreviewGenerationError::InvalidInput("track_id is empty"))
    ));
    match serve_step(ServeEvent::CacheLookup(s("abc"), Some((Bytes::from_static(b"v"), VideoKind::Track)))) {
        ServeAction::Serve(p, events) => {
            assert_eq!(p.cache_status, CacheStatus::Hit);
            assert_eq!(p.mime, "video/mp4");
            assert_eq!(p.video_bytes, Bytes::from_static(b"v"));
            assert_eq!(events.len(), 2);
            assert!(matches!(&events[0], PreviewAnalyticsEvent::CacheHit { video_id, video_kind: VideoKind::Track, size_bytes: 1 } if video_id == "abc"));
            assert!(matches!(&events[1], PreviewAnalyticsEvent::Served { video_id, video_kind: VideoKind::Track, size_bytes: 1, cache_status: "memory" } if video_id == "abc"));
        }
        _ => panic!("expected a served preview"),
    }
    assert!(matches!(serve_step(ServeEvent::CacheLookup(s("abc"), None)), ServeAction::HydrateFromSource(id) if id == "abc"));
    match serve_step(ServeEvent::Hydration(s("abc"), Ok(Some((Bytes::from_static(b"ss"), VideoKind::Episode))))) {
        ServeAction::Serve(p, events) => {
            assert_eq!(p.cache_status, CacheStatus::Hydrated);
            assert_eq!(events.len(), 1);
            assert!(matches!(&events[0], PreviewAnalyticsEvent::Served { video_kind: VideoKind::Episode, size_bytes: 2, cache_status: "source", .. }));
        }
        _ => panic!("expected a served preview"),
    }
    assert!(matches!(serve_step(ServeEvent::Hydration(s("abc"), Ok(None))), ServeAction::FetchMetadata(id) if id == "abc"));
    assert!(matches!(
        serve_step(ServeEvent::Metadata(s("abc"), Err(SpotifyMetadataError::RequestFailed))),
        ServeAction::Fail(PreviewGenerationError::Metadata(SpotifyMetadataError::RequestFailed))
    ));
    assert!(matches!(
        serve_step(ServeEvent::Metadata(s("abc"), Ok((metadata(), VideoKind::Track)))),
        ServeAction::GenerateOgImage(_, _, VideoKind::Track)
    ));
    let og = GeneratedOgImage { image_bytes: Bytes::from_static(b"png"), theme_color: "#fff".to_string() };
    match serve_step(ServeEvent::OgImage(s("abc"), metadata(), VideoKind::Episode, Ok(og))) {
        ServeAction::EnsureGenerated(id, input) => {
            assert_eq!(id, "abc");
            assert_eq!(input.track_id, "media");
            assert_eq!(input.preview_url, "https://p");
            assert_eq!(input.video_kind, VideoKind::Episode);
            assert_eq!(input.og_bytes, Bytes::from_static(b"png"));
        }
        _ => panic!("expected a generation"),
    }
    assert!(matches!(
        serve_step(ServeEvent::OgImage(s("abc"), metadata(), VideoKind::Track, Err(OgImageError::BadStatus))),
        ServeAction::Fail(PreviewGenerationError::Image(OgImageError::BadStatus))
    ));
    assert!(matches!(serve_step(ServeEvent::Generated(s("abc"), Ok(()))), ServeAction::LookupRendered(id) if id == "abc"));
    assert!(matches!(
        serve_step(ServeEvent::RenderedLookup(s("abc"), None)),
        ServeAction::Fail(PreviewGenerationError::GenerationFailed)
    ));
    match serve_step(ServeEvent::RenderedLookup(s("abc"), Some((Bytes::from_static(b"r"), VideoKind::Album)))) {
        ServeAction::Serve(p, events) => {
            assert_eq!(p.cache_status, CacheStatus::Rendered);
            assert_eq!(events.len(), 1);
            assert!(matches!(&events[0], PreviewAnalyticsEvent::Served { video_kind: VideoKind::Album, cache_status: "rendered", .. }));
        }
        _ => panic!("expected a served preview"),
    }
}

#[test]
fn generation_normalizes_the_id_first() {
    let input = |id: &str| PreloadedPreviewInput {
        track_id: s(id),
        video_kind: VideoKind::Episode,
        preview_url: s("https://p"),
        og_bytes: Bytes::from_static(b"png"),
    };
    match generate_step(GenerateEvent::Requested(input(" ep.mp4"))) {
        GenerateAction::CheckCache(i) => {
            assert_eq!(i.track_id, "ep");
            assert_eq!(i.video_kind, VideoKind::Episode);
            assert_eq!(i.preview_url, "https://p");
            assert_eq!(i.og_bytes, Bytes::from_static(b"png"));
        }
        _ => panic!("expected a cache check"),
    }
    assert!(matches!(
        generate_step(GenerateEvent::Requested(input("  "))),
        GenerateAction::Done(Err(PreviewGenerationError::InvalidInput(_)))
    ));
}

#[test]
fn hydration_reports_and_caches_what_the_store_held() {
    let b = || Bytes::from_static(b"vid");
    match hydrate_step("abc", HydrateEvent::Fetched(Ok(b()), Some(VideoKind::Track))) {
        HydrateAction::Store(PreviewAnalyticsEvent::SourceHit { video_id, video_kind, size_bytes }, bytes, kind) => {
            assert_eq!((video_id.as_str(), video_kind, size_bytes), ("abc", VideoKind::Track, 3));
            assert_eq!((bytes, kind), (b(), VideoKind::Track));
        }
        _ => panic!("expected the video to be stored"),
    }
    assert!(matches!(hydrate_step("abc", HydrateEvent::Fetched(Ok(b()), None)), HydrateAction::LookupKind(x) if x == b()));
    assert!(matches!(
        hydrate_step("abc", HydrateEvent::Fetched(Err(VideoSourceError::NotFound(s("abc"))), None)),
        HydrateAction::Done(Ok(None))
    ));
    assert!(matches!(
        hydrate_step("abc", HydrateEvent::Fetched(Err(VideoSourceError::ReadFailed), Some(VideoKind::Track))),
        HydrateAction::Done(Err(PreviewGenerationError::Source(VideoSourceError::ReadFailed)))
    ));
    assert!(matches!(
        hydrate_step("abc", HydrateEvent::KindLookedUp(b(), Ok((metadata(), VideoKind::Episode)))),
        HydrateAction::Store(PreviewAnalyticsEvent::SourceHit { video_kind: VideoKind::Episode, .. }, _, VideoKind::Episode)
    ));
    assert!(matches!(
        hydrate_step("abc", HydrateEvent::KindLookedUp(b(), Err(SpotifyMetadataError::MissingData))),
        HydrateAction::Done(Err(PreviewGenerationError::Metadata(SpotifyMetadataError::MissingData)))
    ));
}

#[test]
fn render_outcomes_are_reported_and_cached() {
    match render_outcome_step("abc", VideoKind::Album, Err(RendererError::FfmpegFailed), 1234) {
        RenderOutcomeAction::Fail(error, PreviewAnalyticsEvent::GenerationFailed { video_id, video_kind, duration_ms }) => {
            assert_eq!(error, PreviewGenerationError::Renderer(RendererError::FfmpegFailed));
            assert_eq!((video_id.as_str(), video_kind, duration_ms), ("abc", VideoKind::Album, 1234));
        }
        _ => panic!("expected a failure"),
    }
    match render_outcome_step("abc", VideoKind::Track, Ok(Bytes::from_static(b"mp4!")), u128::MAX) {
        RenderOutcomeAction::Store(PreviewAnalyticsEvent::Generated { video_id, size_bytes, duration_ms, .. }, id, bytes, kind) => {
            assert_eq!((video_id.as_str(), size_bytes, duration_ms), ("abc", 4, u64::MAX));
            assert_eq!((id.as_str(), bytes, kind), ("abc", Bytes::from_static(b"mp4!"), VideoKind::Track));
        }
        _ => panic!("expected the video to be stored"),
    }
    assert_eq!(upload_step(&Ok(true)), UploadAction::RemoveOutput);
    assert_eq!(upload_step(&Ok(false)), UploadAction::UploadThenRemoveOutput);
    assert_eq!(upload_step(&Err(VideoSourceError::ReadFailed)), UploadAction::UploadThenRemoveOutput);
}

#[test]
fn labels_and_messages() {
    assert_eq!(served_source_label(CacheStatus::Hit), "memory");
    assert_eq!(served_source_label(CacheStatus::Hydrated), "source");
    assert_eq!(served_source_label(CacheStatus::Rendered), "rendered");
    assert_eq!(PreviewGenerationError::InvalidInput("track_id is empty").message(), "invalid input: track_id is empty");
    assert_eq!(
        PreviewGenerationError::Metadata(SpotifyMetadataError::MissingData).message(),
        "spotify metadata failed: spotify metadata missing required fields"
    );
    assert_eq!(
        PreviewGenerationError::Image(OgImageError::RequestFailed).message(),
        "og image generation failed: failed to fetch generated image"
    );
    assert_eq!(
        PreviewGenerationError::Source(VideoSourceError::NotFound("t1".to_string())).message(),
        "video source failed: video with id t1 was not found"
    );
    assert_eq!(
        PreviewGenerationError::Renderer(RendererError::OutputMissing).message(),
        "renderer failed: rendered video file was not found"
    );
    assert_eq!(PreviewGenerationError::GenerationFailed.message(), "video generation failed");
}
