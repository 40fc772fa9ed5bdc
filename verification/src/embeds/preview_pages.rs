use vstd::prelude::*;

use crate::embeds::image_client::{GeneratedOgImage, OgImageError};
use crate::embeds::preview::{
    build_collection_video_id, build_preview_meta_page, canonical_path, collection_has_track_names,
    collection_image_url, collection_page_title, collection_page_title_spec,
    collection_resource_url_spec, collection_video_id_spec, collection_video_url,
    episode_page_title, episode_page_title_spec, is_discord_request, media_image_url,
    media_video_url, preview_meta_page_spec, spotify_collection_url, spotify_episode_url,
    spotify_track_url,
};
use crate::embeds::preview_generation::{
    normalize_track_id, normalized_track_id, PreloadedPreviewInput, PreviewGenerationError,
    ServedPreview,
};
use crate::embeds::spotify_metadata::{
    path_segment_spec, SpotifyCollectionKind, SpotifyCollectionTrackMetadata,
    SpotifyMetadataError, SpotifyPreviewMetadata,
};
use crate::embeds::VideoKind;
use crate::text::{ascii_lower_seq, contains_seq, owned, string_views, trim_end_char_seq, trim_seq};

verus! {

/// The kind of single-media page: a track or a podcast episode.
#[derive(Clone, Copy, Debug, PartialEq, Eq, Structural)]
pub enum MediaPageKind {
    Track,
    Episode,
}

/// The URL path segment of a media page kind.
pub open spec fn media_segment_spec(kind: MediaPageKind) -> Seq<char> {
    match kind {
        MediaPageKind::Track => "track"@,
        MediaPageKind::Episode => "episode"@,
    }
}

/// The kind of preview video a media page kind gets.
pub open spec fn media_video_kind_spec(kind: MediaPageKind) -> VideoKind {
    match kind {
        MediaPageKind::Track => VideoKind::Track,
        MediaPageKind::Episode => VideoKind::Episode,
    }
}

impl MediaPageKind {
    /// The URL path segment of the kind: "track" or "episode".
    pub fn path_segment(self) -> (s: &'static str)
        ensures
            s@ == media_segment_spec(self),
    {
        match self {
            MediaPageKind::Track => "track",
            MediaPageKind::Episode => "episode",
        }
    }

    /// The kind of preview video the page's media gets.
    pub fn video_kind(self) -> (k: VideoKind)
        ensures
            k == media_video_kind_spec(self),
    {
        match self {
            MediaPageKind::Track => VideoKind::Track,
            MediaPageKind::Episode => VideoKind::Episode,
        }
    }
}

/// Whether a request with this user agent comes from Discord's link previewer.
pub open spec fn from_discord(user_agent: Option<String>) -> bool {
    match user_agent {
        Some(ua) => contains_seq(ascii_lower_seq(ua@), "discord"@),
        None => false,
    }
}

fn request_is_from_discord(user_agent: &Option<String>) -> (b: bool)
    ensures
        b == from_discord(*user_agent),
{
    match user_agent {
        Some(ua) => is_discord_request(Some(ua.as_str())),
        None => is_discord_request(None),
    }
}

/// The next step of answering a preview page.
pub enum PageAction<D> {
    /// Send the visitor to this Spotify URL.
    Redirect(String),
    /// Fetch the Spotify metadata of the page.
    FetchMetadata,
    /// Make the og image for this metadata.
    MakeOgImage(D),
    /// Generate the preview for this input, keeping the metadata and the theme
    /// color for the page.
    EnsureGenerated(D, String, PreloadedPreviewInput),
    /// Answer with this HTML page.
    Respond(String),
    /// Answer with an error.
    Fail(PreviewGenerationError),
}

/// The answer to a page or preview request whose flow failed: status 500 and a
/// fixed text; the error itself is not shown to the client.
pub fn page_failure(_error: &PreviewGenerationError) -> (r: (u16, String))
    ensures
        r.0 == 500,
        r.1@ == "failed to generate preview"@,
{
    (500, owned("failed to generate preview"))
}

/// What answering a track or episode page learned from its last step.
pub enum MediaPageEvent {
    /// The request arrived with this user agent.
    Requested(Option<String>),
    /// The Spotify metadata of the media.
    MetadataFetched(Result<SpotifyPreviewMetadata, SpotifyMetadataError>),
    /// The og image made for the metadata.
    OgImageMade(SpotifyPreviewMetadata, Result<GeneratedOgImage, OgImageError>),
    /// How generating the preview ended, with the metadata and theme color.
    Generated(SpotifyPreviewMetadata, String, Result<(), PreviewGenerationError>),
}

/// The Spotify page of a track or episode.
pub open spec fn spotify_media_url_spec(kind: MediaPageKind, media_id: Seq<char>) -> Seq<char> {
    match kind {
        MediaPageKind::Track => "https://open.spotify.com/track/"@ + media_id,
        MediaPageKind::Episode => "https://open.spotify.com/episode/"@ + media_id,
    }
}

/// The title of a media page: the track's name, or the episode with its artists.
pub open spec fn media_page_title_spec(kind: MediaPageKind, m: SpotifyPreviewMetadata) -> Seq<
    char,
> {
    match kind {
        MediaPageKind::Track => m.song_name@,
        MediaPageKind::Episode => episode_page_title_spec(m.song_name@, string_views(m.artist_names@)),
    }
}

/// The page of a track or episode: its title, the path `/<kind>/<id>`, the video
/// and image of the media under the app URL, and the og image's theme color.
pub open spec fn media_page_spec(
    kind: MediaPageKind,
    media_id: Seq<char>,
    app_url: Seq<char>,
    m: SpotifyPreviewMetadata,
    theme_color: Seq<char>,
) -> Seq<char> {
    preview_meta_page_spec(
        media_page_title_spec(kind, m),
        "/"@ + media_segment_spec(kind) + "/"@ + media_id,
        trim_end_char_seq(app_url, '/') + "/api/generate/video/"@ + m.media_id@ + ".mp4"@,
        theme_color,
        app_url,
        trim_end_char_seq(app_url, '/') + "/api/generate/image/"@ + m.media_id@,
    )
}

/// Answering a track or episode page: anyone but Discord is sent to Spotify;
/// Discord gets, once the metadata is fetched, the og image made and the preview
/// generated, the page that shows them. The first step that fails fails the page.
pub open spec fn media_page_next_is(
    kind: MediaPageKind,
    media_id: Seq<char>,
    app_url: Seq<char>,
    event: MediaPageEvent,
    a: PageAction<SpotifyPreviewMetadata>,
) -> bool {
    match event {
        MediaPageEvent::Requested(ua) => if from_discord(ua) {
            a is FetchMetadata
        } else {
            a matches PageAction::Redirect(url) && url@ == spotify_media_url_spec(kind, media_id)
        },
        MediaPageEvent::MetadataFetched(Ok(m)) => a == PageAction::MakeOgImage(m),
        MediaPageEvent::MetadataFetched(Err(e)) => a == PageAction::<SpotifyPreviewMetadata>::Fail(
            PreviewGenerationError::Metadata(e),
        ),
        MediaPageEvent::OgImageMade(m, Ok(og)) => a matches PageAction::EnsureGenerated(
            m2,
            color,
            input,
        ) && m2 == m && color == og.theme_color && input.track_id@ == m.media_id@
            && input.video_kind == media_video_kind_spec(kind) && input.preview_url@
            == m.preview_url@ && input.og_bytes == og.image_bytes,
        MediaPageEvent::OgImageMade(_, Err(e)) => a == PageAction::<SpotifyPreviewMetadata>::Fail(
            PreviewGenerationError::Image(e),
        ),
        MediaPageEvent::Generated(m, color, Ok(())) => a matches PageAction::Respond(page) && page@
            == media_page_spec(kind, media_id, app_url, m, color@),
        MediaPageEvent::Generated(_, _, Err(e)) => a == PageAction::<SpotifyPreviewMetadata>::Fail(e),
    }
}

/// The next step of answering the page of media `media_id` (see `media_page_next_is`).
pub fn media_page_step(
    kind: MediaPageKind,
    media_id: &str,
    app_url: &str,
    event: MediaPageEvent,
) -> (a: PageAction<SpotifyPreviewMetadata>)
    ensures
        media_page_next_is(kind, media_id@, app_url@, event, a),
{
    match event {
        MediaPageEvent::Requested(ua) => {
            if request_is_from_discord(&ua) {
                PageAction::FetchMetadata
            } else {
                match kind {
                    MediaPageKind::Track => PageAction::Redirect(spotify_track_url(media_id)),
                    MediaPageKind::Episode => PageAction::Redirect(spotify_episode_url(media_id)),
                }
            }
        },
        MediaPageEvent::MetadataFetched(Ok(m)) => PageAction::MakeOgImage(m),
        MediaPageEvent::MetadataFetched(Err(e)) => PageAction::Fail(
            PreviewGenerationError::Metadata(e),
        ),
        MediaPageEvent::OgImageMade(m, Ok(og)) => {
            let GeneratedOgImage { image_bytes, theme_color } = og;
            let input = PreloadedPreviewInput {
                track_id: owned(m.media_id.as_str()),
                video_kind: kind.video_kind(),
                preview_url: owned(m.preview_url.as_str()),
                og_bytes: image_bytes,
            };
            PageAction::EnsureGenerated(m, theme_color, input)
        },
        MediaPageEvent::OgImageMade(_, Err(e)) => PageAction::Fail(PreviewGenerationError::Image(e)),
        MediaPageEvent::Generated(m, color, Ok(())) => {
            let title = match kind {
                MediaPageKind::Track => owned(m.song_name.as_str()),
                MediaPageKind::Episode => episode_page_title(&m),
            };
            let path = canonical_path(kind.path_segment(), media_id);
            let video_url = media_video_url(app_url, m.media_id.as_str());
            let image_url = media_image_url(app_url, m.media_id.as_str());
            PageAction::Respond(
                build_preview_meta_page(
                    title.as_str(),
                    path.as_str(),
                    video_url.as_str(),
                    color.as_str(),
                    app_url,
                    image_url.as_str(),
                ),
            )
        },
        MediaPageEvent::Generated(_, _, Err(e)) => PageAction::Fail(e),
    }
}

/// What answering an album or playlist page learned from its last step.
pub enum CollectionPageEvent {
    /// The request arrived with this user agent.
    Requested(Option<String>),
    /// The collection's metadata, with the requested track selected.
    MetadataFetched(Result<SpotifyCollectionTrackMetadata, SpotifyMetadataError>),
    /// The og image made for the collection.
    OgImageMade(SpotifyCollectionTrackMetadata, Result<GeneratedOgImage, OgImageError>),
    /// How generating the preview ended, with the metadata and theme color.
    Generated(SpotifyCollectionTrackMetadata, String, Result<(), PreviewGenerationError>),
}

/// The page of a collection: the selected track and the collection's name as
/// title, the path `/<kind>/<id>`, and the video and image of the selected track
/// of the collection under the app URL.
pub open spec fn collection_page_spec(
    kind: SpotifyCollectionKind,
    collection_id: Seq<char>,
    app_url: Seq<char>,
    d: SpotifyCollectionTrackMetadata,
    theme_color: Seq<char>,
) -> Seq<char> {
    preview_meta_page_spec(
        collection_page_title_spec(d.collection_name@, d.track.song_name@),
        "/"@ + path_segment_spec(kind) + "/"@ + collection_id,
        collection_resource_url_spec(
            app_url,
            "video"@,
            kind,
            collection_id,
            ".mp4"@,
            d.selected_track_index as nat,
        ),
        theme_color,
        app_url,
        collection_resource_url_spec(
            app_url,
            "image"@,
            kind,
            collection_id,
            ""@,
            d.selected_track_index as nat,
        ),
    )
}

/// Answering an album or playlist page: anyone but Discord is sent to Spotify;
/// Discord gets, once the metadata is fetched, the og image made and the preview
/// of the selected track generated under an id of its own in the collection, the
/// page that shows them. The first step that fails fails the page.
pub open spec fn collection_page_next_is(
    kind: SpotifyCollectionKind,
    collection_id: Seq<char>,
    app_url: Seq<char>,
    event: CollectionPageEvent,
    a: PageAction<SpotifyCollectionTrackMetadata>,
) -> bool {
    match event {
        CollectionPageEvent::Requested(ua) => if from_discord(ua) {
            a is FetchMetadata
        } else {
            a matches PageAction::Redirect(url) && url@ == "https://open.spotify.com/"@
                + path_segment_spec(kind) + "/"@ + collection_id
        },
        CollectionPageEvent::MetadataFetched(Ok(d)) => a == PageAction::MakeOgImage(d),
        CollectionPageEvent::MetadataFetched(Err(e)) => a
            == PageAction::<SpotifyCollectionTrackMetadata>::Fail(
            PreviewGenerationError::Metadata(e),
        ),
        CollectionPageEvent::OgImageMade(d, Ok(og)) => a matches PageAction::EnsureGenerated(
            d2,
            color,
            input,
        ) && d2 == d && color == og.theme_color && input.track_id@ == collection_video_id_spec(
            kind,
            collection_id,
            d.selected_track_index as nat,
            d.track.media_id@,
        ) && input.video_kind == (match kind {
            SpotifyCollectionKind::Album => VideoKind::Album,
            SpotifyCollectionKind::Playlist => VideoKind::Playlist,
        }) && input.preview_url@ == d.track.preview_url@ && input.og_bytes == og.image_bytes,
        CollectionPageEvent::OgImageMade(_, Err(e)) => a
            == PageAction::<SpotifyCollectionTrackMetadata>::Fail(PreviewGenerationError::Image(e)),
        CollectionPageEvent::Generated(d, color, Ok(())) => a matches PageAction::Respond(page)
            && page@ == collection_page_spec(kind, collection_id, app_url, d, color@),
        CollectionPageEvent::Generated(_, _, Err(e)) => a
            == PageAction::<SpotifyCollectionTrackMetadata>::Fail(e),
    }
}

/// The next step of answering the page of collection `collection_id` (see
/// `collection_page_next_is`).
pub fn collection_page_step(
    kind: SpotifyCollectionKind,
    collection_id: &str,
    app_url: &str,
    event: CollectionPageEvent,
) -> (a: PageAction<SpotifyCollectionTrackMetadata>)
    ensures
        collection_page_next_is(kind, collection_id@, app_url@, event, a),
{
    match event {
        CollectionPageEvent::Requested(ua) => {
            if request_is_from_discord(&ua) {
                PageAction::FetchMetadata
            } else {
                PageAction::Redirect(spotify_collection_url(kind, collection_id))
            }
        },
        CollectionPageEvent::MetadataFetched(Ok(d)) => PageAction::MakeOgImage(d),
        CollectionPageEvent::MetadataFetched(Err(e)) => PageAction::Fail(
            PreviewGenerationError::Metadata(e),
        ),
        CollectionPageEvent::OgImageMade(d, Ok(og)) => {
            let GeneratedOgImage { image_bytes, theme_color } = og;
            let input = PreloadedPreviewInput {
                track_id: build_collection_video_id(
                    kind,
                    collection_id,
                    d.selected_track_index,
                    d.track.media_id.as_str(),
                ),
                video_kind: kind.video_kind(),
                preview_url: owned(d.track.preview_url.as_str()),
                og_bytes: image_bytes,
            };
            PageAction::EnsureGenerated(d, theme_color, input)
        },
        CollectionPageEvent::OgImageMade(_, Err(e)) => PageAction::Fail(
            PreviewGenerationError::Image(e),
        ),
        CollectionPageEvent::Generated(d, color, Ok(())) => {
            let title = collection_page_title(d.collection_name.as_str(), d.track.song_name.as_str());
            let path = canonical_path(kind.path_segment(), collection_id);
            let video_url = collection_video_url(app_url, kind, collection_id, d.selected_track_index);
            let image_url = collection_image_url(app_url, kind, collection_id, d.selected_track_index);
            PageAction::Respond(
                build_preview_meta_page(
                    title.as_str(),
                    path.as_str(),
                    video_url.as_str(),
                    color.as_str(),
                    app_url,
                    image_url.as_str(),
                ),
            )
        },
        CollectionPageEvent::Generated(_, _, Err(e)) => PageAction::Fail(e),
    }
}

/// What making a collection's og image learned from its last step.
pub enum CollectionOgEvent {
    /// Making the image begins.
    Started,
    /// The image that lists the collection's tracks, or why it failed.
    CollectionImageMade(Result<GeneratedOgImage, OgImageError>),
    /// The image of the selected track alone, or why it failed.
    TrackImageMade(Result<GeneratedOgImage, OgImageError>),
}

/// The next step of making a collection's og image.
pub enum CollectionOgAction {
    /// Ask for the image that lists the collection's tracks.
    RequestCollectionImage,
    /// Ask for the image of the selected track alone.
    RequestTrackImage,
    /// The image, or why there is none.
    Done(Result<GeneratedOgImage, OgImageError>),
}

/// Making a collection's og image: the image that lists its tracks when some
/// track name is not blank, falling back to the selected track's own image when
/// that fails; otherwise the selected track's image right away.
pub open spec fn collection_og_next(
    track_names: Seq<Seq<char>>,
    event: CollectionOgEvent,
) -> CollectionOgAction {
    match event {
        CollectionOgEvent::Started => if exists|i: int|
            0 <= i < track_names.len() && #[trigger] trim_seq(track_names[i]).len() > 0 {
            CollectionOgAction::RequestCollectionImage
        } else {
            CollectionOgAction::RequestTrackImage
        },
        CollectionOgEvent::CollectionImageMade(Ok(img)) => CollectionOgAction::Done(Ok(img)),
        CollectionOgEvent::CollectionImageMade(Err(_)) => CollectionOgAction::RequestTrackImage,
        CollectionOgEvent::TrackImageMade(r) => CollectionOgAction::Done(r),
    }
}

/// The next step of making the og image of a collection with these track names
/// (see `collection_og_next`).
pub fn collection_og_step(track_names: &Vec<String>, event: CollectionOgEvent) -> (a:
    CollectionOgAction)
    ensures
        a == collection_og_next(string_views(track_names@), event),
{
    match event {
        CollectionOgEvent::Started => {
            let has_names = collection_has_track_names(track_names);
            proof {
                let v = string_views(track_names@);
                if has_names {
                    let i = choose|i: int|
                        0 <= i < track_names@.len() && #[trigger] trim_seq(track_names@[i]@).len()
                            > 0;
                    assert(v[i] == track_names@[i]@);
                } else {
                    assert forall|i: int| 0 <= i < v.len() implies !(#[trigger] trim_seq(v[i]).len()
                        > 0) by {
                        assert(v[i] == track_names@[i]@);
                    }
                }
            }
            if has_names {
                CollectionOgAction::RequestCollectionImage
            } else {
                CollectionOgAction::RequestTrackImage
            }
        },
        CollectionOgEvent::CollectionImageMade(Ok(img)) => CollectionOgAction::Done(Ok(img)),
        CollectionOgEvent::CollectionImageMade(Err(_)) => CollectionOgAction::RequestTrackImage,
        CollectionOgEvent::TrackImageMade(r) => CollectionOgAction::Done(r),
    }
}

/// A collection whose image cannot be made still gets the selected track's image:
/// a failed collection image is never the final answer.
pub proof fn law_collection_image_falls_back_to_the_track_image(
    track_names: Seq<Seq<char>>,
    e: OgImageError,
)
    ensures
        collection_og_next(track_names, CollectionOgEvent::CollectionImageMade(Err(e)))
            == CollectionOgAction::RequestTrackImage,
{
}

/// What answering a collection's preview video learned from its last step.
pub enum CollectionVideoEvent {
    /// The request, with the collection id as it came.
    Requested(String),
    /// The metadata of the collection with this (normalized) id.
    MetadataFetched(String, Result<SpotifyCollectionTrackMetadata, SpotifyMetadataError>),
    /// The og image made for the collection with this id.
    OgImageMade(String, SpotifyCollectionTrackMetadata, Result<GeneratedOgImage, OgImageError>),
    /// How generating the preview with this video id ended.
    Generated(String, Result<(), PreviewGenerationError>),
    /// The served preview, or why serving failed.
    Served(Result<ServedPreview, PreviewGenerationError>),
}

/// The next step of answering a collection's preview video.
pub enum CollectionVideoAction {
    /// Fetch the metadata of the collection with this id.
    FetchMetadata(String),
    /// Make the og image for the collection with this id.
    MakeOgImage(String, SpotifyCollectionTrackMetadata),
    /// Generate the preview with this video id.
    EnsureGenerated(String, PreloadedPreviewInput),
    /// Serve the preview with this video id (see `serve_step`).
    Serve(String),
    /// Send the served preview.
    Respond(ServedPreview),
    /// Answer with an error.
    Fail(PreviewGenerationError),
}

/// The preview video of a collection's selected track: an id that is empty once
/// normalized fails; otherwise, once the metadata is fetched and the og image
/// made, the preview is generated under the selected track's own id in the
/// collection and served from there. The first step that fails fails the request.
pub open spec fn collection_video_next_is(
    kind: SpotifyCollectionKind,
    event: CollectionVideoEvent,
    a: CollectionVideoAction,
) -> bool {
    match event {
        CollectionVideoEvent::Requested(raw) => if normalized_track_id(raw@).len() == 0 {
            a == CollectionVideoAction::Fail(PreviewGenerationError::InvalidInput("track_id is empty"))
        } else {
            a matches CollectionVideoAction::FetchMetadata(id) && id@ == normalized_track_id(raw@)
        },
        CollectionVideoEvent::MetadataFetched(id, Ok(d)) => a == CollectionVideoAction::MakeOgImage(
            id,
            d,
        ),
        CollectionVideoEvent::MetadataFetched(_, Err(e)) => a == CollectionVideoAction::Fail(
            PreviewGenerationError::Metadata(e),
        ),
        CollectionVideoEvent::OgImageMade(id, d, Ok(og)) => a matches CollectionVideoAction::EnsureGenerated(
            video_id,
            input,
        ) && video_id@ == collection_video_id_spec(
            kind,
            id@,
            d.selected_track_index as nat,
            d.track.media_id@,
        ) && input.track_id@ == video_id@ && input.video_kind == (match kind {
            SpotifyCollectionKind::Album => VideoKind::Album,
            SpotifyCollectionKind::Playlist => VideoKind::Playlist,
        }) && input.preview_url@ == d.track.preview_url@ && input.og_bytes == og.image_bytes,
        CollectionVideoEvent::OgImageMade(_, _, Err(e)) => a == CollectionVideoAction::Fail(
            PreviewGenerationError::Image(e),
        ),
        CollectionVideoEvent::Generated(video_id, Ok(())) => a == CollectionVideoAction::Serve(
            video_id,
        ),
        CollectionVideoEvent::Generated(_, Err(e)) => a == CollectionVideoAction::Fail(e),
        CollectionVideoEvent::Served(Ok(p)) => a == CollectionVideoAction::Respond(p),
        CollectionVideoEvent::Served(Err(e)) => a == CollectionVideoAction::Fail(e),
    }
}

/// The next step of answering a collection's preview video (see
/// `collection_video_next_is`).
pub fn collection_video_step(kind: SpotifyCollectionKind, event: CollectionVideoEvent) -> (a:
    CollectionVideoAction)
    ensures
        collection_video_next_is(kind, event, a),
{
    match event {
        CollectionVideoEvent::Requested(raw) => match normalize_track_id(raw.as_str()) {
            Ok(id) => CollectionVideoAction::FetchMetadata(id),
            Err(e) => CollectionVideoAction::Fail(e),
        },
        CollectionVideoEvent::MetadataFetched(id, Ok(d)) => CollectionVideoAction::MakeOgImage(id, d),
        CollectionVideoEvent::MetadataFetched(_, Err(e)) => CollectionVideoAction::Fail(
            PreviewGenerationError::Metadata(e),
        ),
        CollectionVideoEvent::OgImageMade(id, d, Ok(og)) => {
            let video_id = build_collection_video_id(
                kind,
                id.as_str(),
                d.selected_track_index,
                d.track.media_id.as_str(),
            );
            let input = PreloadedPreviewInput {
                track_id: owned(video_id.as_str()),
                video_kind: kind.video_kind(),
                preview_url: owned(d.track.preview_url.as_str()),
                og_bytes: og.image_bytes,
            };
            CollectionVideoAction::EnsureGenerated(video_id, input)
        },
        CollectionVideoEvent::OgImageMade(_, _, Err(e)) => CollectionVideoAction::Fail(
            PreviewGenerationError::Image(e),
        ),
        CollectionVideoEvent::Generated(video_id, Ok(())) => CollectionVideoAction::Serve(video_id),
        CollectionVideoEvent::Generated(_, Err(e)) => CollectionVideoAction::Fail(e),
        CollectionVideoEvent::Served(Ok(p)) => CollectionVideoAction::Respond(p),
        CollectionVideoEvent::Served(Err(e)) => CollectionVideoAction::Fail(e),
    }
}

// ---------------------------------------------------------------------------
// Laws of answering pages
/// `u`, read case-insensitively (ASCII), has the letters d, i, s, c, o, r, d in a
/// row somewhere.
pub open spec fn names_discord(u: Seq<char>) -> bool {
    exists|i: int|
        0 <= i && i + 7 <= u.len() && #[trigger] ascii_lower_seq(u.subrange(i, i + 7)) == seq![
            'd',
            'i',
            's',
            'c',
            'o',
            'r',
            'd',
        ]
}

/// A request counts as Discord's exactly when it has a user agent that names
/// Discord in any letter case; no other user agent does (a crawler such as
/// Googlebot or Slackbot does not).
pub proof fn lemma_from_discord_means_named_discord(ua: Option<String>)
    ensures
        from_discord(ua) <==> (ua is Some && names_discord(ua->0@)),
{
    reveal_strlit("discord");
    let d = seq!['d', 'i', 's', 'c', 'o', 'r', 'd'];
    assert("discord"@ =~= d);
    match ua {
        Some(u) => {
            let lower = ascii_lower_seq(u@);
            if from_discord(ua) {
                let i = choose|i: int|
                    0 <= i && i + d.len() <= lower.len() && #[trigger] lower.subrange(i, i + d.len())
                        == d;
                assert(ascii_lower_seq(u@.subrange(i, i + 7)) =~= lower.subrange(i, i + 7));
            }
            if names_discord(u@) {
                let i = choose|i: int|
                    0 <= i && i + 7 <= u@.len() && #[trigger] ascii_lower_seq(u@.subrange(i, i + 7))
                        == d;
                assert(lower.subrange(i, i + 7) =~= ascii_lower_seq(u@.subrange(i, i + 7)));
                assert(lower.subrange(i, i + d.len()) == d);
            }
        },
        None => {},
    }
}

/// A track or episode page goes on to the preview exactly for a user agent that
/// names Discord; every other request, one without a user agent included, is sent
/// to the same track or episode on open.spotify.com.
pub proof fn law_only_discord_gets_the_media_page(
    kind: MediaPageKind,
    media_id: Seq<char>,
    app_url: Seq<char>,
    ua: Option<String>,
    a: PageAction<SpotifyPreviewMetadata>,
)
    requires
        media_page_next_is(kind, media_id, app_url, MediaPageEvent::Requested(ua), a),
    ensures
        (a is FetchMetadata) <==> (ua is Some && names_discord(ua->0@)),
        !(ua is Some && names_discord(ua->0@)) ==> (a matches PageAction::Redirect(url) && url@
            == "https://open.spotify.com/"@ + (match kind {
            MediaPageKind::Track => "track/"@,
            MediaPageKind::Episode => "episode/"@,
        }) + media_id),
{
    lemma_from_discord_means_named_discord(ua);
    reveal_strlit("https://open.spotify.com/");
    reveal_strlit("https://open.spotify.com/track/");
    reveal_strlit("https://open.spotify.com/episode/");
    reveal_strlit("track/");
    reveal_strlit("episode/");
    assert("https://open.spotify.com/track/"@ =~= "https://open.spotify.com/"@ + "track/"@);
    assert("https://open.spotify.com/episode/"@ =~= "https://open.spotify.com/"@ + "episode/"@);
    assert(("https://open.spotify.com/"@ + "track/"@) + media_id =~= "https://open.spotify.com/"@
        + "track/"@ + media_id);
}

/// An album or playlist page goes on to the preview exactly for a user agent that
/// names Discord; every other request is sent to the collection of the same kind
/// on open.spotify.com: an album to `/album/<id>`, a playlist to `/playlist/<id>`.
pub proof fn law_only_discord_gets_the_collection_page(
    kind: SpotifyCollectionKind,
    collection_id: Seq<char>,
    app_url: Seq<char>,
    ua: Option<String>,
    a: PageAction<SpotifyCollectionTrackMetadata>,
)
    requires
        collection_page_next_is(kind, collection_id, app_url, CollectionPageEvent::Requested(ua), a),
    ensures
        (a is FetchMetadata) <==> (ua is Some && names_discord(ua->0@)),
        !(ua is Some && names_discord(ua->0@)) ==> (a matches PageAction::Redirect(url) && url@
            == "https://open.spotify.com/"@ + (match kind {
            SpotifyCollectionKind::Album => "album/"@,
            SpotifyCollectionKind::Playlist => "playlist/"@,
        }) + collection_id),
{
    lemma_from_discord_means_named_discord(ua);
    reveal_strlit("album");
    reveal_strlit("playlist");
    reveal_strlit("album/");
    reveal_strlit("playlist/");
    reveal_strlit("/");
    assert("album"@ + "/"@ =~= "album/"@);
    assert("playlist"@ + "/"@ =~= "playlist/"@);
    let base = "https://open.spotify.com/"@;
    assert(base + "album"@ + "/"@ + collection_id =~= base + "album/"@ + collection_id);
    assert(base + "playlist"@ + "/"@ + collection_id =~= base + "playlist/"@ + collection_id);
}

} // verus!
