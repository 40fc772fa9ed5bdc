use bytes::Bytes;
use spqtify::config::MachinaConfigError;
use spqtify::embeds::image_client::{
    album_og_payload, check_image_status, finish_og_image, image_service_url, resolve_theme_color, track_og_payload,
    EmbedImageClient, OgImageError,
};
use spqtify::embeds::renderer::{ffmpeg_args, FfmpegRenderer, RenderAction, RenderEvent, RenderInput, RendererError};
use spqtify::embeds::spotify_metadata::{
    embed_page_url, SpotifyCollectionTrackMetadata, SpotifyMetadataClient, SpotifyPreviewMetadata,
};
use spqtify::embeds::video_source::{
    first_listed_file, get_b2_video_path, video_source_error_message, B2VideoSource, VideoSourceError,
};
use spqtify::embeds::preview_generation::PreviewGenerationError;
use spqtify::embeds::preview_pages::page_failure;
use spqtify::embeds::album::embed::{AlbumEmbedJsonData, ContentRatings, TrackList};
use spqtify::embeds::VideoKind;
use spqtify::utils::{
    get_audio_output_path, get_b2_video_path as utils_b2_video_path, get_og_output_path,
    get_track_output_path, get_video_output_path,
};

fn preview() -> SpotifyPreviewMetadata {
    SpotifyPreviewMetadata {
        media_id: "m".to_string(),
        song_name: "Song".to_string(),
        artist_names: vec!["A".to_string(), "B".to_string()],
        preview_url: "https://p".to_string(),
        album_art_url: "https://art".to_string(),
    }
}

#[test]
fn output_paths_live_under_the_generation_dir() {
    assert_eq!(get_track_output_path("/tmp/machina", "t".to_string()), "/tmp/machina/t");
    assert_eq!(get_video_output_path("/tmp/machina", "t".to_string()), "/tmp/machina/t/out.mp4");
    assert_eq!(get_og_output_path("/tmp/machina", "t".to_string()), "/tmp/machina/t/og.png");
    assert_eq!(get_audio_output_path("/tmp/machina", "t".to_string()), "/tmp/machina/t/audio.mp3");
    assert_eq!(utils_b2_video_path("t".to_string()), "generated/t/out.mp4");
    assert_eq!(get_b2_video_path("t"), "generated/t/out.mp4");
    let renderer = FfmpegRenderer::new("/out".to_string());
    assert_eq!(renderer.video_output_path("x"), "/out/x/out.mp4");
    assert_eq!(renderer.track_output_path("x"), "/out/x");
}

#[test]
fn image_responses_need_bytes_and_a_color() {
    assert_eq!(image_service_url("http://localhost:3001//", "/image"), "http://localhost:3001/image");
    assert_eq!(resolve_theme_color(Some("#abc"), "#000"), "#abc");
    assert_eq!(resolve_theme_color(None, "#000"), "#000");
    let ok = finish_og_image("#abc".to_string(), Bytes::from_static(b"png")).ok().unwrap();
    assert_eq!(ok.image_bytes, Bytes::from_static(b"png"));
    assert_eq!(ok.theme_color, "#abc");
    assert!(matches!(finish_og_image("#abc".to_string(), Bytes::new()), Err(OgImageError::RequestFailed)));
    assert!(matches!(finish_og_image(" ".to_string(), Bytes::from_static(b"x")), Err(OgImageError::RequestFailed)));
    assert_eq!(OgImageError::BadStatus.message(), "image service returned non-success status");
}

#[test]
fn og_payloads_carry_the_preview_fields() {
    let p = track_og_payload(&preview());
    assert_eq!((p.album_art.as_str(), p.song_name.as_str(), p.artist.as_str()), ("https://art", "Song", "A, B"));
    let album = SpotifyCollectionTrackMetadata {
        collection_name: "Al".to_string(),
        collection_creator: "Me".to_string(),
        artwork_url: "https://cover".to_string(),
        selected_track_index: 1,
        track_names: vec!["One".to_string(), "Song".to_string()],
        track: preview(),
    };
    let a = album_og_payload(&album);
    assert_eq!(a.album_art, "https://cover");
    assert_eq!(a.title_text, "Song");
    assert_eq!(a.artist_text, "A, B");
    assert_eq!(a.tracks, vec!["One", "Song"]);
    assert_eq!(a.current_track_index, 1);
}

#[test]
fn video_source_lists_and_messages() {
    assert_eq!(first_listed_file(&vec!["f1".to_string(), "f2".to_string()], "t").unwrap(), "f1");
    assert_eq!(first_listed_file(&vec![], "t").unwrap_err(), VideoSourceError::NotFound("t".to_string()));
    assert_eq!(video_source_error_message(&VideoSourceError::ReadFailed), "failed to read video bytes from source");
    assert_eq!(video_source_error_message(&VideoSourceError::UploadFailed), "failed to upload video bytes to source");
    let _ = B2VideoSource::new();
    let _ = EmbedImageClient::new();
    let _ = SpotifyMetadataClient::new();
}

#[test]
fn misc_labels_and_urls() {
    assert_eq!(embed_page_url("track", "abc"), "https://open.spotify.com/embed/track/abc");
    assert_eq!(VideoKind::Track.as_str(), "track");
    assert_eq!(VideoKind::Episode.as_str(), "episode");
    assert_eq!(VideoKind::Album.as_str(), "album");
    assert_eq!(VideoKind::Playlist.as_str(), "playlist");
    assert_eq!(RendererError::FfmpegFailed.message(), "ffmpeg failed to render preview video");
    assert_eq!(
        MachinaConfigError::MissingRequired("APP_URL").message(),
        "missing required environment variable: APP_URL"
    );
    assert_eq!(
        MachinaConfigError::ParseError("X").message(),
        "failed to parse environment variable: X"
    );
}

#[test]
fn image_service_status_must_be_a_success() {
    assert_eq!(check_image_status(200), Ok(()));
    assert_eq!(check_image_status(204), Ok(()));
    assert_eq!(check_image_status(299), Ok(()));
    assert_eq!(check_image_status(199), Err(OgImageError::BadStatus));
    assert_eq!(check_image_status(300), Err(OgImageError::BadStatus));
    assert_eq!(check_image_status(500), Err(OgImageError::BadStatus));
}

#[test]
fn render_walks_its_steps_and_stops_at_the_first_failure() {
    let renderer = FfmpegRenderer::new("/out".to_string());
    let input = RenderInput {
        track_id: "t".to_string(),
        preview_url: "https://p.scdn.co/a".to_string(),
        track_og_bytes: Bytes::from_static(b"png"),
    };
    let step = |e: RenderEvent| renderer.render_step(&input, e);
    assert!(matches!(step(RenderEvent::Started), RenderAction::CreateOutputDir(d) if d == "/out/t"));
    assert!(matches!(
        step(RenderEvent::OutputDirCreated(true)),
        RenderAction::WriteOgImage(p, b) if p == "/out/t/og.png" && b == Bytes::from_static(b"png")
    ));
    assert!(matches!(step(RenderEvent::OgImageWritten(true)), RenderAction::FetchAudio(u) if u == "https://p.scdn.co/a"));
    assert!(matches!(
        step(RenderEvent::AudioFetched(Some(Bytes::from_static(b"mp3")))),
        RenderAction::WriteAudio(p, b) if p == "/out/t/audio.mp3" && b == Bytes::from_static(b"mp3")
    ));
    assert!(matches!(
        step(RenderEvent::AudioWritten(true)),
        RenderAction::RunFfmpeg(d, args) if d == "/out/t" && args == ffmpeg_args()
    ));
    assert!(matches!(step(RenderEvent::FfmpegExited(Some(true))), RenderAction::ReadOutput(p) if p == "/out/t/out.mp4"));
    assert!(matches!(
        step(RenderEvent::OutputRead(Some(Bytes::from_static(b"mp4")))),
        RenderAction::Finish(Ok(v)) if v == Bytes::from_static(b"mp4")
    ));

    assert!(matches!(step(RenderEvent::OutputDirCreated(false)), RenderAction::Finish(Err(RendererError::WriteFailed))));
    assert!(matches!(step(RenderEvent::OgImageWritten(false)), RenderAction::Finish(Err(RendererError::WriteFailed))));
    assert!(matches!(step(RenderEvent::AudioFetched(None)), RenderAction::Finish(Err(RendererError::AudioFetchFailed))));
    assert!(matches!(step(RenderEvent::AudioWritten(false)), RenderAction::Finish(Err(RendererError::WriteFailed))));
    assert!(matches!(step(RenderEvent::FfmpegExited(Some(false))), RenderAction::Finish(Err(RendererError::FfmpegFailed))));
    assert!(matches!(step(RenderEvent::FfmpegExited(None)), RenderAction::Finish(Err(RendererError::FfmpegFailed))));
    assert!(matches!(step(RenderEvent::OutputRead(None)), RenderAction::Finish(Err(RendererError::OutputMissing))));
}

#[test]
fn ffmpeg_gets_the_still_image_encoding_arguments() {
    let args = ffmpeg_args();
    assert_eq!(args.len(), 30);
    assert_eq!(&args[..6], &["-loop", "1", "-i", "og.png", "-i", "audio.mp3"]);
    assert_eq!(args.last(), Some(&"out.mp4"));
    assert!(args.windows(2).any(|w| w == ["-shortest", "out.mp4"]));
}

#[test]
fn failed_pages_answer_500_without_the_error() {
    let (status, text) = page_failure(&PreviewGenerationError::Renderer(RendererError::FfmpegFailed));
    assert_eq!(status, 500);
    assert_eq!(text, "failed to generate preview");
    assert_eq!(page_failure(&PreviewGenerationError::GenerationFailed).1, "failed to generate preview");
}

#[test]
fn album_embed_data_holds_its_track_list() {
    let mut data = AlbumEmbedJsonData::default();
    data.props.page_props.state.data.entity.track_list.push(TrackList {
        title: "One".to_string(),
        content_ratings: ContentRatings { labels: vec!["\"EXPLICIT\"".to_string()] },
        ..Default::default()
    });
    let copy = data.clone();
    assert_eq!(copy, data);
    assert_eq!(copy.props.page_props.state.data.entity.track_list[0].title, "One");
    assert_eq!(copy.props.page_props.state.data.entity.track_list[0].content_ratings.labels.len(), 1);
}
