use vstd::prelude::*;

use crate::embeds::spotify_metadata::{
    SpotifyCollectionTrackMetadata, SpotifyPreviewMetadata,
};
use crate::payload::{bytes_contents, bytes_len};
use crate::text::{append_str, is_blank, join_seq, string_views, trim_end_char, trim_end_char_seq, trim_seq};

verus! {

/// Why an og image could not be had.
#[derive(Clone, Copy, Debug, PartialEq, Eq, Structural)]
pub enum OgImageError {
    RequestFailed,
    BadStatus,
}

/// The message of an og image error.
pub open spec fn og_image_error_message(e: OgImageError) -> Seq<char> {
    match e {
        OgImageError::RequestFailed => "failed to fetch generated image"@,
        OgImageError::BadStatus => "image service returned non-success status"@,
    }
}

impl OgImageError {
    /// The error's message.
    pub fn message(&self) -> (s: &'static str)
        ensures
            s@ == og_image_error_message(*self),
    {
        match self {
            OgImageError::RequestFailed => "failed to fetch generated image",
            OgImageError::BadStatus => "image service returned non-success status",
        }
    }
}

/// A generated og image and the theme color that goes with it.
pub struct GeneratedOgImage {
    pub image_bytes: bytes::Bytes,
    pub theme_color: String,
}

/// The client of the service that draws og images.
pub struct EmbedImageClient;

impl EmbedImageClient {
    pub fn new() -> (c: Self) {
        EmbedImageClient
    }
}

/// The URL of an endpoint of the image service: the base without trailing
/// slashes, then the endpoint.
pub fn image_service_url(base_url: &str, endpoint: &str) -> (r: String)
    ensures
        r@ == trim_end_char_seq(base_url@, '/') + endpoint@,
{
    let mut r = trim_end_char(base_url, '/');
    append_str(&mut r, endpoint);
    r
}

/// Whether the image service's answer can be read: a success status (200 to 299)
/// can; any other fails the request.
pub fn check_image_status(status: u16) -> (r: Result<(), OgImageError>)
    ensures
        r == (if 200 <= status <= 299 {
            Ok::<(), OgImageError>(())
        } else {
            Err(OgImageError::BadStatus)
        }),
{
    if 200 <= status && status <= 299 {
        Ok(())
    } else {
        Err(OgImageError::BadStatus)
    }
}

/// The theme color of an image response: the `X-Basecolor` header when it was
/// readable, else the configured default.
pub fn resolve_theme_color(header: Option<&str>, default_color: &str) -> (r: String)
    ensures
        r@ == match header {
            Some(h) => h@,
            None => default_color@,
        },
{
    match header {
        Some(h) => crate::text::owned(h),
        None => crate::text::owned(default_color),
    }
}

/// The og image of a successful response: an empty body or a blank theme color
/// make the request fail.
pub fn finish_og_image(theme_color: String, image_bytes: bytes::Bytes) -> (r: Result<
    GeneratedOgImage,
    OgImageError,
>)
    ensures
        match r {
            Ok(img) => bytes_contents(img.image_bytes) == bytes_contents(image_bytes)
                && img.theme_color@ == theme_color@ && bytes_contents(image_bytes).len() > 0
                && trim_seq(theme_color@).len() > 0,
            Err(e) => e == OgImageError::RequestFailed && (bytes_contents(image_bytes).len() == 0
                || trim_seq(theme_color@).len() == 0),
        },
{
    if bytes_len(&image_bytes) == 0 {
        return Err(OgImageError::RequestFailed);
    }
    if is_blank(theme_color.as_str()) {
        return Err(OgImageError::RequestFailed);
    }
    Ok(GeneratedOgImage { image_bytes, theme_color })
}

/// The request body for a single track's og image.
pub struct TrackOgPayload {
    pub album_art: String,
    pub song_name: String,
    pub artist: String,
}

/// The request body for a track's og image: its art, name and joined artists.
pub fn track_og_payload(spotify_data: &SpotifyPreviewMetadata) -> (p: TrackOgPayload)
    ensures
        p.album_art@ == spotify_data.album_art_url@,
        p.song_name@ == spotify_data.song_name@,
        p.artist@ == join_seq(string_views(spotify_data.artist_names@), ", "@),
{
    TrackOgPayload {
        album_art: crate::text::owned(spotify_data.album_art_url.as_str()),
        song_name: crate::text::owned(spotify_data.song_name.as_str()),
        artist: spotify_data.artist_text(),
    }
}

/// The request body for a collection's og image, which lists its tracks.
pub struct AlbumOgPayload {
    pub album_art: String,
    pub title_text: String,
    pub artist_text: String,
    pub tracks: Vec<String>,
    pub current_track_index: usize,
}

/// The request body for a collection's og image: its artwork, the selected track's
/// name and artists, the track names and the selected index.
pub fn album_og_payload(album_data: &SpotifyCollectionTrackMetadata) -> (p: AlbumOgPayload)
    ensures
        p.album_art@ == album_data.artwork_url@,
        p.title_text@ == album_data.track.song_name@,
        p.artist_text@ == join_seq(string_views(album_data.track.artist_names@), ", "@),
        string_views(p.tracks@) == string_views(album_data.track_names@),
        p.current_track_index == album_data.selected_track_index,
{
    let mut tracks: Vec<String> = Vec::new();
    let mut i: usize = 0;
    while i < album_data.track_names.len()
        invariant
            i <= album_data.track_names@.len(),
            tracks@.len() == i,
            forall|j: int| 0 <= j < i ==> #[trigger] tracks@[j]@ == album_data.track_names@[j]@,
        decreases album_data.track_names@.len() - i,
    {
        tracks.push(crate::text::owned(album_data.track_names[i].as_str()));
        i = i + 1;
    }
    assert(string_views(tracks@) =~= string_views(album_data.track_names@));
    AlbumOgPayload {
        album_art: crate::text::owned(album_data.artwork_url.as_str()),
        title_text: crate::text::owned(album_data.track.song_name.as_str()),
        artist_text: album_data.track.artist_text(),
        tracks,
        current_track_index: album_data.selected_track_index,
    }
}

} // verus!
