use vstd::prelude::*;

use crate::embeds::preview_generation::CacheStatus;
use crate::embeds::spotify_metadata::{
    path_segment_spec, SpotifyCollectionKind, SpotifyPreviewMetadata,
};
use crate::text::{
    append_str, decimal_seq, is_blank, join_seq, lowercase_contains, ascii_lower_seq, contains_seq,
    push_decimal, string_views, strip_prefix, strip_prefix_seq, trim_end_char, trim_end_char_seq,
    trim_seq, trim_start_char, trim_start_char_seq,
};

verus! {

/// The `track` query of a collection route: the 1-based track to show.
#[derive(Clone, Debug)]
pub struct CollectionTrackQuery {
    pub track: Option<String>,
}

/// The parts of a request URI that redirects read.
#[derive(Clone, Debug)]
pub struct RequestUri {
    pub path: String,
    pub query: Option<String>,
}

/// The label of a cache status, as logs report it.
pub fn cache_status_label(cache_status: &CacheStatus) -> (s: &'static str)
    ensures
        s@ == match cache_status {
            CacheStatus::Hit => "hit"@,
            CacheStatus::Hydrated => "hydrated"@,
            CacheStatus::Rendered => "rendered"@,
        },
{
    match cache_status {
        CacheStatus::Hit => "hit",
        CacheStatus::Hydrated => "hydrated",
        CacheStatus::Rendered => "rendered",
    }
}

/// The redirect target for a request under `route_prefix`: the rest of the path,
/// without leading slashes, after `target_base` without trailing slashes and one
/// slash, then the query, if any, after a `?`.
pub open spec fn passthrough_redirect_spec(
    path: Seq<char>,
    query: Option<Seq<char>>,
    route_prefix: Seq<char>,
    target_base: Seq<char>,
) -> Seq<char> {
    let rest = match strip_prefix_seq(path, route_prefix) {
        Some(p) => p,
        None => path,
    };
    let url = trim_end_char_seq(target_base, '/') + "/"@ + trim_start_char_seq(rest, '/');
    match query {
        Some(q) => url + "?"@ + q,
        None => url,
    }
}

/// The view of an optional owned string.
pub open spec fn opt_string_view(o: Option<String>) -> Option<Seq<char>> {
    match o {
        Some(s) => Some(s@),
        None => None,
    }
}

/// The URL that a request for `uri` under `route_prefix` is passed through to.
pub fn build_passthrough_redirect(uri: &RequestUri, route_prefix: &str, target_base: &str) -> (r:
    String)
    ensures
        r@ == passthrough_redirect_spec(
            uri.path@,
            opt_string_view(uri.query),
            route_prefix@,
            target_base@,
        ),
{
    let rest = match strip_prefix(uri.path.as_str(), route_prefix) {
        Some(p) => p,
        None => crate::text::owned(uri.path.as_str()),
    };
    let path = trim_start_char(rest.as_str(), '/');
    let mut url = trim_end_char(target_base, '/');
    append_str(&mut url, "/");
    append_str(&mut url, path.as_str());
    match &uri.query {
        Some(q) => {
            append_str(&mut url, "?");
            append_str(&mut url, q.as_str());
        },
        None => {},
    }
    url
}

/// Whether a request comes from Discord's link previewer: its user agent, in ASCII
/// lower case, contains "discord". Requests without a readable user agent do not.
pub fn is_discord_request(user_agent: Option<&str>) -> (b: bool)
    ensures
        b == match user_agent {
            Some(ua) => contains_seq(ascii_lower_seq(ua@), "discord"@),
            None => false,
        },
{
    match user_agent {
        Some(ua) => lowercase_contains(ua, "discord"),
        None => false,
    }
}

/// The id of the preview video of a collection's selected track:
/// `<kind>-<collection id>-<index>-<track id>`.
pub open spec fn collection_video_id_spec(
    kind: SpotifyCollectionKind,
    collection_id: Seq<char>,
    selected_track_index: nat,
    media_track_id: Seq<char>,
) -> Seq<char> {
    path_segment_spec(kind) + "-"@ + collection_id + "-"@ + decimal_seq(selected_track_index) + "-"@
        + media_track_id
}

/// Preview ids of collections are namespaced by kind: an album's and a
/// playlist's id never coincide, whatever their other parts.
pub proof fn law_collection_video_ids_namespaced_by_kind(
    collection_id: Seq<char>,
    index: nat,
    media_track_id: Seq<char>,
    other_collection_id: Seq<char>,
    other_index: nat,
    other_media_track_id: Seq<char>,
)
    ensures
        collection_video_id_spec(SpotifyCollectionKind::Album, collection_id, index, media_track_id)
            != collection_video_id_spec(
            SpotifyCollectionKind::Playlist,
            other_collection_id,
            other_index,
            other_media_track_id,
        ),
{
    reveal_strlit("album");
    reveal_strlit("playlist");
    let a = collection_video_id_spec(SpotifyCollectionKind::Album, collection_id, index, media_track_id);
    let p = collection_video_id_spec(
        SpotifyCollectionKind::Playlist,
        other_collection_id,
        other_index,
        other_media_track_id,
    );
    assert(a[0] == 'a');
    assert(p[0] == 'p');
}

/// The id of the preview video of a collection's selected track.
pub fn build_collection_video_id(
    collection_kind: SpotifyCollectionKind,
    collection_id: &str,
    selected_track_index: usize,
    media_track_id: &str,
) -> (r: String)
    ensures
        r@ == collection_video_id_spec(
            collection_kind,
            collection_id@,
            selected_track_index as nat,
            media_track_id@,
        ),
{
    let mut r = String::new();
    append_str(&mut r, collection_kind.path_segment());
    append_str(&mut r, "-");
    append_str(&mut r, collection_id);
    append_str(&mut r, "-");
    push_decimal(&mut r, selected_track_index as u128);
    append_str(&mut r, "-");
    append_str(&mut r, media_track_id);
    assert(r@ =~= collection_video_id_spec(
        collection_kind,
        collection_id@,
        selected_track_index as nat,
        media_track_id@,
    ));
    r
}

/// The Spotify page of a collection.
pub fn spotify_collection_url(collection_kind: SpotifyCollectionKind, collection_id: &str) -> (r:
    String)
    ensures
        r@ == "https://open.spotify.com/"@ + path_segment_spec(collection_kind) + "/"@
            + collection_id@,
{
    let mut r = String::new();
    append_str(&mut r, "https://open.spotify.com/");
    append_str(&mut r, collection_kind.path_segment());
    append_str(&mut r, "/");
    append_str(&mut r, collection_id);
    assert(r@ =~= "https://open.spotify.com/"@ + path_segment_spec(collection_kind) + "/"@
        + collection_id@);
    r
}

/// The Spotify page of a track.
pub fn spotify_track_url(track_id: &str) -> (r: String)
    ensures
        r@ == "https://open.spotify.com/track/"@ + track_id@,
{
    let mut r = String::new();
    append_str(&mut r, "https://open.spotify.com/track/");
    append_str(&mut r, track_id);
    r
}

/// The Spotify page of an episode.
pub fn spotify_episode_url(episode_id: &str) -> (r: String)
    ensures
        r@ == "https://open.spotify.com/episode/"@ + episode_id@,
{
    let mut r = String::new();
    append_str(&mut r, "https://open.spotify.com/episode/");
    append_str(&mut r, episode_id);
    r
}

/// `path` under `prefix`: `/<prefix>/<id>`.
pub fn canonical_path(prefix: &str, id: &str) -> (r: String)
    ensures
        r@ == "/"@ + prefix@ + "/"@ + id@,
{
    let mut r = String::new();
    append_str(&mut r, "/");
    append_str(&mut r, prefix);
    append_str(&mut r, "/");
    append_str(&mut r, id);
    assert(r@ =~= "/"@ + prefix@ + "/"@ + id@);
    r
}

/// The generated image of a track or episode: `<app>/api/generate/image/<id>`.
pub fn media_image_url(app_url: &str, media_id: &str) -> (r: String)
    ensures
        r@ == trim_end_char_seq(app_url@, '/') + "/api/generate/image/"@ + media_id@,
{
    let mut r = trim_end_char(app_url, '/');
    append_str(&mut r, "/api/generate/image/");
    append_str(&mut r, media_id);
    assert(r@ =~= trim_end_char_seq(app_url@, '/') + "/api/generate/image/"@ + media_id@);
    r
}

/// The preview video of a track or episode: `<app>/api/generate/video/<id>.mp4`.
pub fn media_video_url(app_url: &str, media_id: &str) -> (r: String)
    ensures
        r@ == trim_end_char_seq(app_url@, '/') + "/api/generate/video/"@ + media_id@ + ".mp4"@,
{
    let mut r = trim_end_char(app_url, '/');
    append_str(&mut r, "/api/generate/video/");
    append_str(&mut r, media_id);
    append_str(&mut r, ".mp4");
    assert(r@ =~= trim_end_char_seq(app_url@, '/') + "/api/generate/video/"@ + media_id@
        + ".mp4"@);
    r
}

/// The generated image or preview video (`resource`, with `suffix` after the id)
/// of a collection's selected track, addressed by its 1-based number.
pub open spec fn collection_resource_url_spec(
    app_url: Seq<char>,
    resource: Seq<char>,
    kind: SpotifyCollectionKind,
    collection_id: Seq<char>,
    suffix: Seq<char>,
    selected_track_index: nat,
) -> Seq<char> {
    trim_end_char_seq(app_url, '/') + "/api/generate/"@ + resource + "/"@ + path_segment_spec(kind)
        + "/"@ + collection_id + suffix + "?track="@ + decimal_seq(selected_track_index + 1)
}

fn collection_resource_url(
    app_url: &str,
    resource: &str,
    kind: SpotifyCollectionKind,
    collection_id: &str,
    suffix: &str,
    selected_track_index: usize,
) -> (r: String)
    ensures
        r@ == collection_resource_url_spec(
            app_url@,
            resource@,
            kind,
            collection_id@,
            suffix@,
            selected_track_index as nat,
        ),
{
    let mut r = trim_end_char(app_url, '/');
    append_str(&mut r, "/api/generate/");
    append_str(&mut r, resource);
    append_str(&mut r, "/");
    append_str(&mut r, kind.path_segment());
    append_str(&mut r, "/");
    append_str(&mut r, collection_id);
    append_str(&mut r, suffix);
    append_str(&mut r, "?track=");
    push_decimal(&mut r, selected_track_index as u128 + 1);
    assert(r@ =~= collection_resource_url_spec(
        app_url@,
        resource@,
        kind,
        collection_id@,
        suffix@,
        selected_track_index as nat,
    ));
    r
}

/// The generated image of a collection's selected track.
pub fn collection_image_url(
    app_url: &str,
    kind: SpotifyCollectionKind,
    collection_id: &str,
    selected_track_index: usize,
) -> (r: String)
    ensures
        r@ == collection_resource_url_spec(
            app_url@,
            "image"@,
            kind,
            collection_id@,
            ""@,
            selected_track_index as nat,
        ),
{
    collection_resource_url(app_url, "image", kind, collection_id, "", selected_track_index)
}

/// The preview video of a collection's selected track.
pub fn collection_video_url(
    app_url: &str,
    kind: SpotifyCollectionKind,
    collection_id: &str,
    selected_track_index: usize,
) -> (r: String)
    ensures
        r@ == collection_resource_url_spec(
            app_url@,
            "video"@,
            kind,
            collection_id@,
            ".mp4"@,
            selected_track_index as nat,
        ),
{
    collection_resource_url(app_url, "video", kind, collection_id, ".mp4", selected_track_index)
}

/// The title of a collection page: the song, then the collection's name when it
/// is not blank.
pub open spec fn collection_page_title_spec(collection_name: Seq<char>, song_name: Seq<char>) -> Seq<
    char,
> {
    if trim_seq(collection_name).len() == 0 {
        song_name
    } else {
        song_name + " - "@ + collection_name
    }
}

/// The title of a collection page.
pub fn collection_page_title(collection_name: &str, song_name: &str) -> (r: String)
    ensures
        r@ == collection_page_title_spec(collection_name@, song_name@),
{
    let mut r = crate::text::owned(song_name);
    if !is_blank(collection_name) {
        append_str(&mut r, " - ");
        append_str(&mut r, collection_name);
    }
    r
}

/// The title of an episode page: the episode, then its artists when it has any.
pub open spec fn episode_page_title_spec(song_name: Seq<char>, artist_names: Seq<Seq<char>>) -> Seq<
    char,
> {
    if artist_names.len() == 0 {
        song_name
    } else {
        song_name + " - "@ + join_seq(artist_names, ", "@)
    }
}

/// The title of an episode page.
pub fn episode_page_title(metadata: &SpotifyPreviewMetadata) -> (r: String)
    ensures
        r@ == episode_page_title_spec(metadata.song_name@, string_views(metadata.artist_names@)),
{
    let mut r = crate::text::owned(metadata.song_name.as_str());
    if metadata.artist_names.len() > 0 {
        append_str(&mut r, " - ");
        let artists = metadata.artist_text();
        append_str(&mut r, artists.as_str());
    }
    r
}

/// The HTML page whose Open Graph and Twitter card tags make a link preview
/// show the video, the image, the title and the theme color.
pub open spec fn preview_meta_page_spec(
    title: Seq<char>,
    canonical_path: Seq<char>,
    video_url: Seq<char>,
    theme_color: Seq<char>,
    app_url: Seq<char>,
    image_url: Seq<char>,
) -> Seq<char> {
    "<!doctype html><html lang=\"en\"><head><title>"@ + title
        + "</title><meta name=\"viewport\" content=\"width=device-width, initial-scale=1\"><meta property=\"og:title\" content=\""@
        + title + "\"><meta property=\"og:url\" content=\""@ + trim_end_char_seq(app_url, '/')
        + canonical_path + "\"><meta property=\"theme-color\" content=\""@ + theme_color
        + "\"><meta property=\"og:image\" content=\""@ + image_url
        + "\"><meta property=\"og:type\" content=\"video\"><meta property=\"og:video\" content=\""@
        + video_url
        + "\"><meta property=\"og:video:type\" content=\"video/mp4\"><meta property=\"og:video:height\" content=\"300\"><meta property=\"og:video:width\" content=\"800\"><meta property=\"og:video:secure_url\" content=\""@
        + video_url
        + "\"><meta name=\"twitter:card\" content=\"summary_large_image\"><meta name=\"twitter:title\" content=\""@
        + title + "\"><meta name=\"twitter:image\" content=\""@ + image_url
        + "\"></head><body></body></html>"@
}

/// The HTML page that link previewers read.
pub fn build_preview_meta_page(
    title: &str,
    canonical_path: &str,
    video_url: &str,
    theme_color: &str,
    app_url: &str,
    image_url: &str,
) -> (r: String)
    ensures
        r@ == preview_meta_page_spec(
            title@,
            canonical_path@,
            video_url@,
            theme_color@,
            app_url@,
            image_url@,
        ),
{
    let app = trim_end_char(app_url, '/');
    let mut r = String::new();
    append_str(&mut r, "<!doctype html><html lang=\"en\"><head><title>");
    append_str(&mut r, title);
    append_str(
        &mut r,
        "</title><meta name=\"viewport\" content=\"width=device-width, initial-scale=1\"><meta property=\"og:title\" content=\"",
    );
    append_str(&mut r, title);
    append_str(&mut r, "\"><meta property=\"og:url\" content=\"");
    append_str(&mut r, app.as_str());
    append_str(&mut r, canonical_path);
    append_str(&mut r, "\"><meta property=\"theme-color\" content=\"");
    append_str(&mut r, theme_color);
    append_str(&mut r, "\"><meta property=\"og:image\" content=\"");
    append_str(&mut r, image_url);
    append_str(
        &mut r,
        "\"><meta property=\"og:type\" content=\"video\"><meta property=\"og:video\" content=\"",
    );
    append_str(&mut r, video_url);
    append_str(
        &mut r,
        "\"><meta property=\"og:video:type\" content=\"video/mp4\"><meta property=\"og:video:height\" content=\"300\"><meta property=\"og:video:width\" content=\"800\"><meta property=\"og:video:secure_url\" content=\"",
    );
    append_str(&mut r, video_url);
    append_str(
        &mut r,
        "\"><meta name=\"twitter:card\" content=\"summary_large_image\"><meta name=\"twitter:title\" content=\"",
    );
    append_str(&mut r, title);
    append_str(&mut r, "\"><meta name=\"twitter:image\" content=\"");
    append_str(&mut r, image_url);
    append_str(&mut r, "\"></head><body></body></html>");
    assert(r@ =~= preview_meta_page_spec(
        title@,
        canonical_path@,
        video_url@,
        theme_color@,
        app_url@,
        image_url@,
    ));
    r
}

/// Whether a collection's og image can list its tracks: some track name is not
/// blank. Otherwise the single-track image is made.
pub fn collection_has_track_names(track_names: &Vec<String>) -> (b: bool)
    ensures
        b == exists|i: int| 0 <= i < track_names@.len() && #[trigger] trim_seq(track_names@[i]@).len() > 0,
{
    let mut i: usize = 0;
    while i < track_names.len()
        invariant
            i <= track_names@.len(),
            forall|j: int| 0 <= j < i ==> #[trigger] trim_seq(track_names@[j]@).len() == 0,
        decreases track_names@.len() - i,
    {
        if !is_blank(track_names[i].as_str()) {
            return true;
        }
        i = i + 1;
    }
    false
}

} // verus!
