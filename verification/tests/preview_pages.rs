use bytes::Bytes;
use spqtify::embeds::image_client::{GeneratedOgImage, OgImageError};
use spqtify::embeds::preview::build_preview_meta_page;
use spqtify::embeds::preview_generation::{CacheStatus, PreviewGenerationError, ServedPreview};
use spqtify::embeds::preview_pages::{
    collection_og_step, collection_page_step, collection_video_step, CollectionVideoAction,
    CollectionVideoEvent, media_page_step, CollectionOgAction, CollectionOgEvent,
    CollectionPageEvent, MediaPageEvent, MediaPageKind, PageAction,
};
use spqtify::embeds::spotify_metadata::{
    SpotifyCollectionKind, SpotifyCollectionTrackMetadata, SpotifyMetadataError, SpotifyPreviewMetadata,
};
use spqtify::embeds::VideoKind;

fn media(id: &str, artists: &[&str]) -> SpotifyPreviewMetadata {
    SpotifyPreviewMetadata {
        media_id: id.to_string(),
        song_name: "Song".to_string(),
        artist_names: artists.iter().map(|a| a.to_string()).collect(),
        preview_url: "https://p.scdn.co/mp3".to_string(),
        album_art_url: "https://i.scdn.co/art".to_string(),
    }
}

fn og() -> GeneratedOgImage {
    GeneratedOgImage { image_bytes: Bytes::from_static(b"png"), theme_color: "#123456".to_string() }
}

fn collection(names: &[&str]) -> SpotifyCollectionTrackMetadata {
    SpotifyCollectionTrackMetadata {
        collection_name: "Mix".to_string(),
        collection_creator: "Me".to_string(),
        artwork_url: "https://i.scdn.co/cover".to_string(),
        selected_track_index: 1,
        track_names: names.iter().map(|n| n.to_string()).collect(),
        track: media("trk", &["A"]),
    }
}

#[test]
fn media_pages_redirect_everyone_but_discord() {
    let a = media_page_step(MediaPageKind::Track, "abc", "https://app", MediaPageEvent::Requested(None));
    assert!(matches!(a, PageAction::Redirect(url) if url == "https://open.spotify.com/track/abc"));
    let a = media_page_step(
        MediaPageKind::Episode,
        "ep1",
        "https://app",
        MediaPageEvent::Requested(Some("Mozilla/5.0".to_string())),
    );
    assert!(matches!(a, PageAction::Redirect(url) if url == "https://open.spotify.com/episode/ep1"));
    let a = media_page_step(
        MediaPageKind::Track,
        "abc",
        "https://app",
        MediaPageEvent::Requested(Some("Mozilla/5.0 (compatible; Discordbot/2.0)".to_string())),
    );
    assert!(matches!(a, PageAction::FetchMetadata));
}

#[test]
fn media_page_generates_the_preview_then_answers_the_page() {
    let step = |e| media_page_step(MediaPageKind::Track, "abc", "https://app/", e);
    assert!(matches!(step(MediaPageEvent::MetadataFetched(Ok(media("abc", &["A"])))), PageAction::MakeOgImage(m) if m.media_id == "abc"));
    match step(MediaPageEvent::OgImageMade(media("abc", &["A"]), Ok(og()))) {
        PageAction::EnsureGenerated(m, color, input) => {
            assert_eq!(m.media_id, "abc");
            assert_eq!(color, "#123456");
            assert_eq!(input.track_id, "abc");
            assert_eq!(input.video_kind, VideoKind::Track);
            assert_eq!(input.preview_url, "https://p.scdn.co/mp3");
            assert_eq!(input.og_bytes, Bytes::from_static(b"png"));
        }
        _ => panic!("expected the preview to be generated"),
    }
    let expected = build_preview_meta_page(
        "Song",
        "/track/abc",
        "https://app/api/generate/video/abc.mp4",
        "#123456",
        "https://app/",
        "https://app/api/generate/image/abc",
    );
    assert!(matches!(
        step(MediaPageEvent::Generated(media("abc", &["A"]), "#123456".to_string(), Ok(()))),
        PageAction::Respond(page) if page == expected
    ));
}

#[test]
fn episode_pages_name_the_show_in_the_title() {
    let page = match media_page_step(
        MediaPageKind::Episode,
        "ep1",
        "https://app",
        MediaPageEvent::Generated(media("ep1", &["Show"]), "#000".to_string(), Ok(())),
    ) {
        PageAction::Respond(page) => page,
        _ => panic!("expected a page"),
    };
    assert!(page.contains("<title>Song - Show</title>"));
    assert!(page.contains("content=\"https://app/episode/ep1\""));
    match media_page_step(
        MediaPageKind::Episode,
        "ep1",
        "https://app",
        MediaPageEvent::OgImageMade(media("ep1", &["Show"]), Ok(og())),
    ) {
        PageAction::EnsureGenerated(_, _, input) => assert_eq!(input.video_kind, VideoKind::Episode),
        _ => panic!("expected the preview to be generated"),
    }
}

#[test]
fn media_page_failures_end_the_page() {
    let step = |e| media_page_step(MediaPageKind::Track, "abc", "https://app", e);
    assert!(matches!(
        step(MediaPageEvent::MetadataFetched(Err(SpotifyMetadataError::MissingData))),
        PageAction::Fail(PreviewGenerationError::Metadata(SpotifyMetadataError::MissingData))
    ));
    assert!(matches!(
        step(MediaPageEvent::OgImageMade(media("abc", &[]), Err(OgImageError::BadStatus))),
        PageAction::Fail(PreviewGenerationError::Image(OgImageError::BadStatus))
    ));
    assert!(matches!(
        step(MediaPageEvent::Generated(media("abc", &[]), "#000".to_string(), Err(PreviewGenerationError::GenerationFailed))),
        PageAction::Fail(PreviewGenerationError::GenerationFailed)
    ));
}

#[test]
fn collection_pages_generate_the_selected_track_under_its_own_id() {
    let step = |e| collection_page_step(SpotifyCollectionKind::Playlist, "pl", "https://app", e);
    assert!(matches!(step(CollectionPageEvent::Requested(None)), PageAction::Redirect(url) if url == "https://open.spotify.com/playlist/pl"));
    assert!(matches!(
        step(CollectionPageEvent::Requested(Some("discordbot".to_string()))),
        PageAction::FetchMetadata
    ));
    match step(CollectionPageEvent::OgImageMade(collection(&["One", "Two"]), Ok(og()))) {
        PageAction::EnsureGenerated(d, color, input) => {
            assert_eq!(d.collection_name, "Mix");
            assert_eq!(color, "#123456");
            assert_eq!(input.track_id, "playlist-pl-1-trk");
            assert_eq!(input.video_kind, VideoKind::Playlist);
            assert_eq!(input.preview_url, "https://p.scdn.co/mp3");
        }
        _ => panic!("expected the preview to be generated"),
    }
    let expected = build_preview_meta_page(
        "Song - Mix",
        "/playlist/pl",
        "https://app/api/generate/video/playlist/pl.mp4?track=2",
        "#123456",
        "https://app",
        "https://app/api/generate/image/playlist/pl?track=2",
    );
    assert!(matches!(
        step(CollectionPageEvent::Generated(collection(&["One", "Two"]), "#123456".to_string(), Ok(()))),
        PageAction::Respond(page) if page == expected
    ));
    assert!(matches!(
        step(CollectionPageEvent::MetadataFetched(Err(SpotifyMetadataError::RequestFailed))),
        PageAction::Fail(PreviewGenerationError::Metadata(SpotifyMetadataError::RequestFailed))
    ));
}

#[test]
fn collection_images_fall_back_to_the_track_image() {
    let names = vec!["One".to_string(), "Two".to_string()];
    assert!(matches!(collection_og_step(&names, CollectionOgEvent::Started), CollectionOgAction::RequestCollectionImage));
    let blank = vec![" ".to_string(), String::new()];
    assert!(matches!(collection_og_step(&blank, CollectionOgEvent::Started), CollectionOgAction::RequestTrackImage));
    assert!(matches!(
        collection_og_step(&names, CollectionOgEvent::CollectionImageMade(Err(OgImageError::BadStatus))),
        CollectionOgAction::RequestTrackImage
    ));
    assert!(matches!(
        collection_og_step(&names, CollectionOgEvent::CollectionImageMade(Ok(og()))),
        CollectionOgAction::Done(Ok(img)) if img.theme_color == "#123456"
    ));
    assert!(matches!(
        collection_og_step(&names, CollectionOgEvent::TrackImageMade(Err(OgImageError::RequestFailed))),
        CollectionOgAction::Done(Err(OgImageError::RequestFailed))
    ));
}

#[test]
fn collection_videos_are_generated_and_served_under_their_own_id() {
    let step = |e| collection_video_step(SpotifyCollectionKind::Album, e);
    assert!(matches!(step(CollectionVideoEvent::Requested(" al.mp4".to_string())), CollectionVideoAction::FetchMetadata(id) if id == "al"));
    assert!(matches!(
        step(CollectionVideoEvent::Requested(".mp4".to_string())),
        CollectionVideoAction::Fail(PreviewGenerationError::InvalidInput(_))
    ));
    assert!(matches!(
        step(CollectionVideoEvent::MetadataFetched("al".to_string(), Err(SpotifyMetadataError::MissingData))),
        CollectionVideoAction::Fail(PreviewGenerationError::Metadata(SpotifyMetadataError::MissingData))
    ));
    match step(CollectionVideoEvent::OgImageMade("al".to_string(), collection(&["One", "Two"]), Ok(og()))) {
        CollectionVideoAction::EnsureGenerated(video_id, input) => {
            assert_eq!(video_id, "album-al-1-trk");
            assert_eq!(input.track_id, "album-al-1-trk");
            assert_eq!(input.video_kind, VideoKind::Album);
            assert_eq!(input.og_bytes, Bytes::from_static(b"png"));
        }
        _ => panic!("expected the preview to be generated"),
    }
    assert!(matches!(
        step(CollectionVideoEvent::Generated("album-al-1-trk".to_string(), Ok(()))),
        CollectionVideoAction::Serve(id) if id == "album-al-1-trk"
    ));
    let served = ServedPreview { video_bytes: Bytes::from_static(b"mp4"), mime: "video/mp4", cache_status: CacheStatus::Rendered };
    assert!(matches!(
        step(CollectionVideoEvent::Served(Ok(served))),
        CollectionVideoAction::Respond(p) if p.video_bytes == Bytes::from_static(b"mp4")
    ));
    assert!(matches!(
        step(CollectionVideoEvent::Served(Err(PreviewGenerationError::GenerationFailed))),
        CollectionVideoAction::Fail(PreviewGenerationError::GenerationFailed)
    ));
}
