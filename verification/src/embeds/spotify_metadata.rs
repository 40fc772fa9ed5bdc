use vstd::prelude::*;

use crate::embeds::VideoKind;
use crate::text::{
    after_last, after_last_seq, append_str, is_blank, join, join_seq, keep_nonblank_trimmed,
    nonblank_trimmed, parse_usize, parse_usize_seq, replace_char, replace_char_seq, split_on,
    split_seq, string_views, trim, trim_seq,
};

verus! {

/// The number of tracks that a Spotify embed page lists at most.
pub const SPOTIFY_EMBED_TRACK_LIMIT: usize = 100;

/// Why Spotify metadata could not be had.
#[derive(Clone, Copy, Debug, PartialEq, Eq, Structural)]
pub enum SpotifyMetadataError {
    /// The embed page could not be fetched or read.
    RequestFailed,
    /// The embed page lacks a field that a preview needs.
    MissingData,
}

/// The message of a metadata error.
pub open spec fn metadata_error_message(e: SpotifyMetadataError) -> Seq<char> {
    match e {
        SpotifyMetadataError::RequestFailed => "failed to fetch spotify metadata"@,
        SpotifyMetadataError::MissingData => "spotify metadata missing required fields"@,
    }
}

impl SpotifyMetadataError {
    /// The error's message.
    pub fn message(&self) -> (s: &'static str)
        ensures
            s@ == metadata_error_message(*self),
    {
        match self {
            SpotifyMetadataError::RequestFailed => "failed to fetch spotify metadata",
            SpotifyMetadataError::MissingData => "spotify metadata missing required fields",
        }
    }
}

/// What a preview of one track or episode shows.
#[derive(Clone, Debug)]
pub struct SpotifyPreviewMetadata {
    pub media_id: String,
    pub song_name: String,
    pub artist_names: Vec<String>,
    pub preview_url: String,
    pub album_art_url: String,
}

/// A preview's fields as character sequences: media id, song name, artist names,
/// preview url, album art url.
pub type PreviewMetadataView = (Seq<char>, Seq<char>, Seq<Seq<char>>, Seq<char>, Seq<char>);

pub open spec fn preview_view(m: SpotifyPreviewMetadata) -> PreviewMetadataView {
    (m.media_id@, m.song_name@, string_views(m.artist_names@), m.preview_url@, m.album_art_url@)
}

impl SpotifyPreviewMetadata {
    /// The artist names joined with ", ".
    pub fn artist_text(&self) -> (r: String)
        ensures
            r@ == join_seq(string_views(self.artist_names@), ", "@),
    {
        join(&self.artist_names, ", ")
    }
}

/// The kind of a Spotify track collection.
#[derive(Clone, Copy, Debug, PartialEq, Eq, Structural)]
pub enum SpotifyCollectionKind {
    Album,
    Playlist,
}

/// The URL path segment of a collection kind.
pub open spec fn path_segment_spec(kind: SpotifyCollectionKind) -> Seq<char> {
    match kind {
        SpotifyCollectionKind::Album => "album"@,
        SpotifyCollectionKind::Playlist => "playlist"@,
    }
}

impl SpotifyCollectionKind {
    /// The URL path segment of the kind: "album" or "playlist".
    pub fn path_segment(self) -> (s: &'static str)
        ensures
            s@ == path_segment_spec(self),
    {
        match self {
            SpotifyCollectionKind::Album => "album",
            SpotifyCollectionKind::Playlist => "playlist",
        }
    }

    /// The kind of preview video that a collection of this kind gets.
    pub fn video_kind(self) -> (k: VideoKind)
        ensures
            k == match self {
                SpotifyCollectionKind::Album => VideoKind::Album,
                SpotifyCollectionKind::Playlist => VideoKind::Playlist,
            },
    {
        match self {
            SpotifyCollectionKind::Album => VideoKind::Album,
            SpotifyCollectionKind::Playlist => VideoKind::Playlist,
        }
    }
}

/// A collection's metadata, with one track of it selected for the preview.
#[derive(Clone, Debug)]
pub struct SpotifyCollectionTrackMetadata {
    pub collection_name: String,
    pub collection_creator: String,
    pub artwork_url: String,
    pub selected_track_index: usize,
    pub track_names: Vec<String>,
    pub track: SpotifyPreviewMetadata,
}

/// A collection's fields as character sequences: name, creator, artwork url,
/// selected index, track names and the selected track's preview.
pub type CollectionMetadataView = (
    Seq<char>,
    Seq<char>,
    Seq<char>,
    usize,
    Seq<Seq<char>>,
    PreviewMetadataView,
);

pub open spec fn collection_view(m: SpotifyCollectionTrackMetadata) -> CollectionMetadataView {
    (
        m.collection_name@,
        m.collection_creator@,
        m.artwork_url@,
        m.selected_track_index,
        string_views(m.track_names@),
        preview_view(m.track),
    )
}

impl SpotifyCollectionTrackMetadata {
    /// Whether the embed page listed as many tracks as it lists at most, so the
    /// collection may hold more.
    pub fn track_count_is_capped(&self) -> (b: bool)
        ensures
            b == (self.track_names@.len() == SPOTIFY_EMBED_TRACK_LIMIT),
    {
        self.track_names.len() == SPOTIFY_EMBED_TRACK_LIMIT
    }
}

/// The embed page of a Spotify item: `https://open.spotify.com/embed/<kind>/<id>`.
pub fn embed_page_url(kind_segment: &str, id: &str) -> (r: String)
    ensures
        r@ == "https://open.spotify.com/embed/"@ + kind_segment@ + "/"@ + id@,
{
    let mut r = String::new();
    append_str(&mut r, "https://open.spotify.com/embed/");
    append_str(&mut r, kind_segment);
    append_str(&mut r, "/");
    append_str(&mut r, id);
    assert(r@ =~= "https://open.spotify.com/embed/"@ + kind_segment@ + "/"@ + id@);
    r
}

/// The client that reads Spotify embed pages.
pub struct SpotifyMetadataClient;

impl SpotifyMetadataClient {
    pub fn new() -> (c: Self) {
        SpotifyMetadataClient
    }
}

// ---------------------------------------------------------------------------
// Reading the embed page's data
/// The view of an optional string.
pub open spec fn opt_view(o: Option<&str>) -> Option<Seq<char>> {
    match o {
        Some(s) => Some(s@),
        None => None,
    }
}

/// The zero-based track that a 1-based `track` query asks for: the query trimmed
/// and read as a positive number, less one; the first track when it is absent,
/// blank, not a number, or zero.
pub open spec fn requested_track_index(raw_track: Option<Seq<char>>) -> nat {
    match raw_track {
        Some(r) => match parse_usize_seq(trim_seq(r)) {
            Some(v) => if v > 0 {
                (v - 1) as nat
            } else {
                0
            },
            None => 0,
        },
        None => 0,
    }
}

/// The track to show of a collection of `track_count` tracks: the requested one,
/// clamped to the last track; none when the collection is empty.
pub open spec fn resolved_track_index(raw_track: Option<Seq<char>>, track_count: nat) -> Option<
    nat,
> {
    if track_count == 0 {
        None
    } else if requested_track_index(raw_track) < track_count - 1 {
        Some(requested_track_index(raw_track))
    } else {
        Some((track_count - 1) as nat)
    }
}

/// Resolves the `track` query of a collection page against its track count.
pub fn resolve_requested_track_index(raw_track: Option<&str>, track_count: usize) -> (r: Option<
    usize,
>)
    ensures
        match r {
            Some(i) => resolved_track_index(opt_view(raw_track), track_count as nat) == Some(
                i as nat,
            ) && i < track_count,
            None => resolved_track_index(opt_view(raw_track), track_count as nat) is None,
        },
{
    if track_count == 0 {
        return None;
    }
    let requested: usize = match raw_track {
        Some(raw) => {
            let t = trim(raw);
            match parse_usize(t.as_str()) {
                Some(v) => if v > 0 {
                    v - 1
                } else {
                    0
                },
                None => 0,
            }
        },
        None => 0,
    };
    if requested < track_count - 1 {
        Some(requested)
    } else {
        Some(track_count - 1)
    }
}

/// The index of the widest image, the last of them on a tie
/// (`Iterator::max_by_key` on the width).
pub open spec fn widest_image_index(images: Seq<TrackImage>) -> Option<int>
    decreases images.len(),
{
    if images.len() == 0 {
        None
    } else {
        match widest_image_index(images.drop_last()) {
            None => Some(images.len() - 1),
            Some(j) => if images.last().max_width >= images[j].max_width {
                Some(images.len() - 1)
            } else {
                Some(j)
            },
        }
    }
}

/// The trimmed URL of the widest image, if there is one and it is not blank.
pub open spec fn artwork_url_spec(images: Seq<TrackImage>) -> Option<Seq<char>> {
    match widest_image_index(images) {
        Some(i) => if trim_seq(images[i].url@).len() > 0 {
            Some(trim_seq(images[i].url@))
        } else {
            None
        },
        None => None,
    }
}

/// The trimmed URL of the widest image, if there is one and it is not blank.
pub fn widest_image_url(images: &Vec<TrackImage>) -> (r: Option<String>)
    ensures
        match r {
            Some(u) => artwork_url_spec(images@) == Some(u@),
            None => artwork_url_spec(images@) is None,
        },
{
    let n = images.len();
    if n == 0 {
        return None;
    }
    let mut best: usize = 0;
    let mut i: usize = 1;
    assert(images@.take(1).drop_last() =~= Seq::<TrackImage>::empty());
    assert(widest_image_index(Seq::<TrackImage>::empty()) is None);
    assert(widest_image_index(images@.take(1)) == Some(0int));
    while i < n
        invariant
            1 <= i <= n == images@.len(),
            best < i,
            widest_image_index(images@.take(i as int)) == Some(best as int),
        decreases n - i,
    {
        assert(images@.take(i as int + 1).drop_last() =~= images@.take(i as int));
        assert(images@.take(i as int + 1).last() == images@[i as int]);
        assert(images@.take(i as int)[best as int] == images@[best as int]);
        if images[i].max_width >= images[best].max_width {
            best = i;
        }
        i = i + 1;
    }
    assert(images@.take(n as int) =~= images@);
    let url = trim(images[best].url.as_str());
    if url.as_str().is_empty() {
        None
    } else {
        Some(url)
    }
}

/// The artist names that a collection track's subtitle lists: non-breaking spaces
/// read as spaces, split at commas, trimmed, blank names dropped.
pub open spec fn artist_names_spec(subtitle: Seq<char>) -> Seq<Seq<char>> {
    nonblank_trimmed(split_seq(replace_char_seq(subtitle, '\u{a0}', ' '), ','))
}

/// The artist names that a collection track's subtitle lists.
pub fn parse_artist_names(subtitle: &str) -> (names: Vec<String>)
    ensures
        string_views(names@) == artist_names_spec(subtitle@),
{
    let replaced = replace_char(subtitle, '\u{a0}', ' ');
    let parts = split_on(replaced.as_str(), ',');
    keep_nonblank_trimmed(&parts)
}

/// The id at the end of a Spotify URI (`spotify:episode:<id>`): the trimmed part
/// after the last colon, if there is a colon and the part is not blank.
pub open spec fn media_id_from_uri(uri: Seq<char>) -> Option<Seq<char>> {
    match after_last_seq(uri, ':') {
        Some(t) => if trim_seq(t).len() > 0 {
            Some(trim_seq(t))
        } else {
            None
        },
        None => None,
    }
}

/// The id at the end of a Spotify URI (see `media_id_from_uri`).
pub fn parse_media_id_from_uri(uri: &str) -> (r: Option<String>)
    ensures
        match r {
            Some(id) => media_id_from_uri(uri@) == Some(id@),
            None => media_id_from_uri(uri@) is None,
        },
{
    match after_last(uri, ':') {
        None => None,
        Some(tail) => {
            let id = trim(tail.as_str());
            if id.as_str().is_empty() {
                None
            } else {
                Some(id)
            }
        },
    }
}

/// The names of `artists`, trimmed, blank ones dropped.
pub open spec fn track_artist_names(artists: Seq<TrackArtist>) -> Seq<Seq<char>> {
    nonblank_trimmed(artists.map_values(|a: TrackArtist| a.name@))
}

/// The preview that a track's embed data gives: all of title, artists, preview
/// url and album art must be present and not blank.
pub open spec fn normalized_track(track_id: Seq<char>, e: TrackEntity) -> Option<PreviewMetadataView> {
    let song = trim_seq(e.title@);
    let artists = track_artist_names(e.artists@);
    let preview = trim_seq(e.audio_preview.url@);
    match artwork_url_spec(e.visual_identity.image@) {
        Some(art) => if song.len() > 0 && artists.len() > 0 && preview.len() > 0 {
            Some((track_id, song, artists, preview, art))
        } else {
            None
        },
        None => None,
    }
}

/// The preview of a track, from its embed data.
pub fn normalize_track_metadata(track_id: &str, root: TrackRoot) -> (r: Result<
    SpotifyPreviewMetadata,
    SpotifyMetadataError,
>)
    ensures
        match r {
            Ok(m) => normalized_track(track_id@, root.props.page_props.state.data.entity) == Some(
                preview_view(m),
            ),
            Err(e) => normalized_track(track_id@, root.props.page_props.state.data.entity) is None
                && e == SpotifyMetadataError::MissingData,
        },
        r matches Ok(m) ==> m.media_id@ == track_id@ && m.song_name@ == trim_seq(
            root.props.page_props.state.data.entity.title@,
        ) && m.preview_url@ == trim_seq(root.props.page_props.state.data.entity.audio_preview.url@)
            && exists|i: int|
            0 <= i < root.props.page_props.state.data.entity.visual_identity.image@.len()
                && m.album_art_url@ == trim_seq(
                #[trigger] root.props.page_props.state.data.entity.visual_identity.image@[i].url@,
            ) && forall|j: int|
                0 <= j < root.props.page_props.state.data.entity.visual_identity.image@.len()
                    ==> root.props.page_props.state.data.entity.visual_identity.image@[i].max_width
                    >= #[trigger] root.props.page_props.state.data.entity.visual_identity.image@[j].max_width,
{
    let entity = root.props.page_props.state.data.entity;
    let song_name = trim(entity.title.as_str());
    if song_name.as_str().is_empty() {
        return Err(SpotifyMetadataError::MissingData);
    }
    let mut names: Vec<String> = Vec::new();
    let mut i: usize = 0;
    while i < entity.artists.len()
        invariant
            i <= entity.artists@.len(),
            names@.len() == i,
            forall|j: int| 0 <= j < i ==> #[trigger] names@[j]@ == entity.artists@[j].name@,
        decreases entity.artists@.len() - i,
    {
        let name = crate::text::owned(entity.artists[i].name.as_str());
        names.push(name);
        i = i + 1;
    }
    assert(string_views(names@) =~= entity.artists@.map_values(|a: TrackArtist| a.name@));
    let artist_names = keep_nonblank_trimmed(&names);
    if artist_names.len() == 0 {
        return Err(SpotifyMetadataError::MissingData);
    }
    let preview_url = trim(entity.audio_preview.url.as_str());
    if preview_url.as_str().is_empty() {
        return Err(SpotifyMetadataError::MissingData);
    }
    let album_art_url = match widest_image_url(&entity.visual_identity.image) {
        Some(u) => u,
        None => return Err(SpotifyMetadataError::MissingData),
    };
    let media_id = crate::text::owned(track_id);
    let m = SpotifyPreviewMetadata { media_id, song_name, artist_names, preview_url, album_art_url };
    proof {
        law_track_preview_fields(track_id@, entity, preview_view(m));
    }
    Ok(m)
}

/// The preview that an episode's embed data gives: title, show name, preview url
/// and cover art must be present and not blank; the media id comes from the
/// episode's URI, or is the requested id when the URI has none.
pub open spec fn normalized_episode(episode_id: Seq<char>, e: EpisodeEntity) -> Option<
    PreviewMetadataView,
> {
    let title = trim_seq(e.title@);
    let show = trim_seq(e.subtitle@);
    let preview = trim_seq(e.audio_preview.url@);
    let id = match media_id_from_uri(e.uri@) {
        Some(id) => id,
        None => episode_id,
    };
    match artwork_url_spec(e.visual_identity.image@) {
        Some(art) => if title.len() > 0 && show.len() > 0 && preview.len() > 0 {
            Some((id, title, seq![show], preview, art))
        } else {
            None
        },
        None => None,
    }
}

/// The preview of an episode, from its embed data.
pub fn normalize_episode_metadata(episode_id: &str, root: EpisodeRoot) -> (r: Result<
    SpotifyPreviewMetadata,
    SpotifyMetadataError,
>)
    ensures
        match r {
            Ok(m) => normalized_episode(episode_id@, root.props.page_props.state.data.entity)
                == Some(preview_view(m)),
            Err(e) => normalized_episode(episode_id@, root.props.page_props.state.data.entity)
                is None && e == SpotifyMetadataError::MissingData,
        },
        r matches Ok(m) ==> m.song_name@ == trim_seq(root.props.page_props.state.data.entity.title@)
            && string_views(m.artist_names@) == seq![
            trim_seq(root.props.page_props.state.data.entity.subtitle@),
        ] && m.preview_url@ == trim_seq(root.props.page_props.state.data.entity.audio_preview.url@)
            && exists|i: int|
            0 <= i < root.props.page_props.state.data.entity.visual_identity.image@.len()
                && m.album_art_url@ == trim_seq(
                #[trigger] root.props.page_props.state.data.entity.visual_identity.image@[i].url@,
            ) && forall|j: int|
                0 <= j < root.props.page_props.state.data.entity.visual_identity.image@.len()
                    ==> root.props.page_props.state.data.entity.visual_identity.image@[i].max_width
                    >= #[trigger] root.props.page_props.state.data.entity.visual_identity.image@[j].max_width,
{
    let entity = root.props.page_props.state.data.entity;
    let title = trim(entity.title.as_str());
    if title.as_str().is_empty() {
        return Err(SpotifyMetadataError::MissingData);
    }
    let show_name = trim(entity.subtitle.as_str());
    if show_name.as_str().is_empty() {
        return Err(SpotifyMetadataError::MissingData);
    }
    let preview_url = trim(entity.audio_preview.url.as_str());
    if preview_url.as_str().is_empty() {
        return Err(SpotifyMetadataError::MissingData);
    }
    let album_art_url = match widest_image_url(&entity.visual_identity.image) {
        Some(u) => u,
        None => return Err(SpotifyMetadataError::MissingData),
    };
    let media_id = match parse_media_id_from_uri(entity.uri.as_str()) {
        Some(id) => id,
        None => crate::text::owned(episode_id),
    };
    let mut artist_names: Vec<String> = Vec::new();
    artist_names.push(show_name);
    let m = SpotifyPreviewMetadata {
        media_id,
        song_name: title,
        artist_names,
        preview_url,
        album_art_url,
    };
    assert(string_views(m.artist_names@) =~= seq![trim_seq(entity.subtitle@)]);
    proof {
        law_episode_preview_fields(episode_id@, entity, preview_view(m));
    }
    Ok(m)
}

/// The trimmed titles of a collection's tracks.
pub open spec fn collection_track_names(tracks: Seq<CollectionTrack>) -> Seq<Seq<char>> {
    tracks.map_values(|t: CollectionTrack| trim_seq(t.title@))
}

/// The collection metadata that a collection's embed data gives for the `track`
/// query: the resolved track must exist, the artwork must be present, some track
/// must have a title, and the selected track needs a URI with an id, a title,
/// artists and a preview url.
pub open spec fn normalized_collection(raw_track: Option<Seq<char>>, e: CollectionEntity) -> Option<
    CollectionMetadataView,
> {
    let tracks = e.track_list@;
    let names = collection_track_names(tracks);
    match resolved_track_index(raw_track, tracks.len()) {
        None => None,
        Some(idx) => match artwork_url_spec(e.visual_identity.image@) {
            None => None,
            Some(art) => if forall|i: int| 0 <= i < names.len() ==> #[trigger] names[i].len() == 0 {
                None
            } else {
                let t = tracks[idx as int];
                let song = trim_seq(t.title@);
                let artists = nonblank_trimmed(artist_names_spec(t.subtitle@));
                let preview = trim_seq(t.audio_preview.url@);
                match after_last_seq(t.uri@, ':') {
                    None => None,
                    Some(track_id) => if song.len() > 0 && artists.len() > 0 && preview.len()
                        > 0 {
                        Some(
                            (
                                trim_seq(e.title@),
                                trim_seq(e.subtitle@),
                                art,
                                idx as usize,
                                names,
                                (track_id, song, artists, preview, art),
                            ),
                        )
                    } else {
                        None
                    },
                }
            },
        },
    }
}

/// The collection metadata, with the track that the `track` query selects, from a
/// collection's embed data.
pub fn normalize_collection_metadata(raw_track: Option<&str>, root: CollectionRoot) -> (r: Result<
    SpotifyCollectionTrackMetadata,
    SpotifyMetadataError,
>)
    ensures
        match r {
            Ok(m) => normalized_collection(opt_view(raw_track), root.props.page_props.state.data.entity)
                == Some(collection_view(m)),
            Err(e) => normalized_collection(
                opt_view(raw_track),
                root.props.page_props.state.data.entity,
            ) is None && e == SpotifyMetadataError::MissingData,
        },
{
    let entity = root.props.page_props.state.data.entity;
    let ghost tracks = entity.track_list@;
    let track_index = match resolve_requested_track_index(raw_track, entity.track_list.len()) {
        Some(i) => i,
        None => return Err(SpotifyMetadataError::MissingData),
    };
    let artwork_url = match widest_image_url(&entity.visual_identity.image) {
        Some(u) => u,
        None => return Err(SpotifyMetadataError::MissingData),
    };
    let mut track_names: Vec<String> = Vec::new();
    let mut any_named = false;
    let mut i: usize = 0;
    while i < entity.track_list.len()
        invariant
            i <= tracks.len(),
            tracks == entity.track_list@,
            track_names@.len() == i,
            forall|j: int|
                0 <= j < i ==> #[trigger] track_names@[j]@ == collection_track_names(tracks)[j],
            any_named <==> exists|j: int|
                0 <= j < i && #[trigger] collection_track_names(tracks)[j].len() > 0,
        decreases tracks.len() - i,
    {
        let name = trim(entity.track_list[i].title.as_str());
        if !name.as_str().is_empty() {
            any_named = true;
        }
        assert(collection_track_names(tracks)[i as int] == name@);
        track_names.push(name);
        i = i + 1;
    }
    assert(string_views(track_names@) =~= collection_track_names(tracks));
    if !any_named {
        return Err(SpotifyMetadataError::MissingData);
    }
    let track = &entity.track_list[track_index];
    let track_id = match after_last(track.uri.as_str(), ':') {
        Some(id) => id,
        None => return Err(SpotifyMetadataError::MissingData),
    };
    let song_name = trim(track.title.as_str());
    if song_name.as_str().is_empty() {
        return Err(SpotifyMetadataError::MissingData);
    }
    let parsed = parse_artist_names(track.subtitle.as_str());
    let artist_names = keep_nonblank_trimmed(&parsed);
    if artist_names.len() == 0 {
        return Err(SpotifyMetadataError::MissingData);
    }
    let preview_url = trim(track.audio_preview.url.as_str());
    if preview_url.as_str().is_empty() {
        return Err(SpotifyMetadataError::MissingData);
    }
    let album_art_url = crate::text::owned(artwork_url.as_str());
    let track_metadata = SpotifyPreviewMetadata {
        media_id: track_id,
        song_name,
        artist_names,
        preview_url,
        album_art_url,
    };
    let collection_name = trim(entity.title.as_str());
    let collection_creator = trim(entity.subtitle.as_str());
    Ok(
        SpotifyCollectionTrackMetadata {
            collection_name,
            collection_creator,
            artwork_url,
            selected_track_index: track_index,
            track_names,
            track: track_metadata,
        },
    )
}

// ---------------------------------------------------------------------------
// Laws of reading the embed data
/// The image that `widest_image_index` picks is listed, and no listed image is
/// wider; there is one exactly when some image is listed.
pub proof fn lemma_widest_image_index(images: Seq<TrackImage>)
    ensures
        (images.len() == 0) <==> (widest_image_index(images) is None),
        widest_image_index(images) matches Some(i) ==> 0 <= i < images.len() && forall|j: int|
            0 <= j < images.len() ==> images[i].max_width >= #[trigger] images[j].max_width,
    decreases images.len(),
{
    if images.len() > 0 {
        let t = images.drop_last();
        lemma_widest_image_index(t);
        match widest_image_index(t) {
            None => {},
            Some(k) => {
                let i = widest_image_index(images)->0;
                assert forall|j: int| 0 <= j < images.len() implies images[i].max_width
                    >= #[trigger] images[j].max_width by {
                    if j < images.len() - 1 {
                        assert(images[j] == t[j]);
                    }
                    assert(images[k] == t[k]);
                }
            },
        }
    }
}

/// The artwork is the trimmed URL of a listed image that no listed image is wider
/// than (the widest image, not merely the first).
pub proof fn law_artwork_is_the_widest_image(images: Seq<TrackImage>, art: Seq<char>)
    requires
        artwork_url_spec(images) == Some(art),
    ensures
        exists|i: int|
            0 <= i < images.len() && art == trim_seq(#[trigger] images[i].url@) && art.len() > 0
                && forall|j: int|
                0 <= j < images.len() ==> images[i].max_width >= #[trigger] images[j].max_width,
{
    lemma_widest_image_index(images);
    let i = widest_image_index(images)->0;
    assert(art == trim_seq(images[i].url@));
}

/// A track's preview carries the requested id, the trimmed title as its song
/// name, the trimmed, non-blank artist names, the trimmed preview URL, and the
/// URL of its widest image as album art.
pub proof fn law_track_preview_fields(track_id: Seq<char>, e: TrackEntity, v: PreviewMetadataView)
    requires
        normalized_track(track_id, e) == Some(v),
    ensures
        v.0 == track_id,
        v.1 == trim_seq(e.title@) && v.1.len() > 0,
        v.2 == nonblank_trimmed(e.artists@.map_values(|a: TrackArtist| a.name@)) && v.2.len() > 0,
        v.3 == trim_seq(e.audio_preview.url@) && v.3.len() > 0,
        exists|i: int|
            0 <= i < e.visual_identity.image@.len() && v.4 == trim_seq(
                #[trigger] e.visual_identity.image@[i].url@,
            ) && forall|j: int|
                0 <= j < e.visual_identity.image@.len() ==> e.visual_identity.image@[i].max_width
                    >= #[trigger] e.visual_identity.image@[j].max_width,
{
    law_artwork_is_the_widest_image(e.visual_identity.image@, v.4);
}

/// An episode's preview has the trimmed episode title as its song name and the
/// trimmed show name as its only artist; its art is the widest image.
pub proof fn law_episode_preview_fields(episode_id: Seq<char>, e: EpisodeEntity, v: PreviewMetadataView)
    requires
        normalized_episode(episode_id, e) == Some(v),
    ensures
        v.1 == trim_seq(e.title@) && v.1.len() > 0,
        v.2 == seq![trim_seq(e.subtitle@)] && trim_seq(e.subtitle@).len() > 0,
        v.3 == trim_seq(e.audio_preview.url@) && v.3.len() > 0,
        exists|i: int|
            0 <= i < e.visual_identity.image@.len() && v.4 == trim_seq(
                #[trigger] e.visual_identity.image@[i].url@,
            ) && forall|j: int|
                0 <= j < e.visual_identity.image@.len() ==> e.visual_identity.image@[i].max_width
                    >= #[trigger] e.visual_identity.image@[j].max_width,
{
    law_artwork_is_the_widest_image(e.visual_identity.image@, v.4);
}

/// A collection's metadata selects the track that the `track` query resolves to
/// among its listed tracks, whose trimmed title is the song name, and carries the
/// widest image as artwork, for the collection and for the selected track alike.
pub proof fn law_collection_preview_fields(
    raw_track: Option<Seq<char>>,
    e: CollectionEntity,
    v: CollectionMetadataView,
)
    requires
        normalized_collection(raw_track, e) == Some(v),
    ensures
        resolved_track_index(raw_track, e.track_list@.len()) == Some(v.3 as nat),
        v.3 < e.track_list@.len(),
        v.5.1 == trim_seq(e.track_list@[v.3 as int].title@),
        v.5.4 == v.2,
        v.0 == trim_seq(e.title@),
        exists|i: int|
            0 <= i < e.visual_identity.image@.len() && v.2 == trim_seq(
                #[trigger] e.visual_identity.image@[i].url@,
            ) && forall|j: int|
                0 <= j < e.visual_identity.image@.len() ==> e.visual_identity.image@[i].max_width
                    >= #[trigger] e.visual_identity.image@[j].max_width,
{
    law_artwork_is_the_widest_image(e.visual_identity.image@, v.2);
}

/// The track selected in a collection of `count` tracks: none of an empty
/// collection; otherwise the requested zero-based index, or the last track when
/// the request lies beyond it.
pub proof fn law_selected_track_is_the_requested_one_clamped(
    raw_track: Option<Seq<char>>,
    count: nat,
)
    ensures
        count == 0 ==> resolved_track_index(raw_track, count) is None,
        count > 0 && requested_track_index(raw_track) < count ==> resolved_track_index(
            raw_track,
            count,
        ) == Some(requested_track_index(raw_track)),
        count > 0 && requested_track_index(raw_track) >= count ==> resolved_track_index(
            raw_track,
            count,
        ) == Some((count - 1) as nat),
{
}

/// A `track` query that reads as the number `n`, from 1 to the number of tracks,
/// selects track `n - 1` (counting from zero); a larger number selects the last
/// track.
pub proof fn law_track_query_is_one_based(r: Seq<char>, n: usize, count: nat)
    requires
        parse_usize_seq(trim_seq(r)) == Some(n),
        1 <= n,
        count > 0,
    ensures
        n <= count ==> resolved_track_index(Some(r), count) == Some((n - 1) as nat),
        n > count ==> resolved_track_index(Some(r), count) == Some((count - 1) as nat),
{
}

/// An absent, unreadable or zero `track` query selects the first track.
pub proof fn law_track_query_defaults_to_the_first(raw_track: Option<Seq<char>>, count: nat)
    requires
        count > 0,
        raw_track is None || parse_usize_seq(trim_seq(raw_track->0)) is None || parse_usize_seq(
            trim_seq(raw_track->0),
        ) == Some(0usize),
    ensures
        resolved_track_index(raw_track, count) == Some(0nat),
{
}

// ---------------------------------------------------------------------------
// Finding the embedded data in the page
/// What the `scraper` crate gives for an HTML document and a CSS selector: the
/// concatenated text of the first element that matches, or nothing when the
/// selector does not parse or no element matches.
pub uninterp spec fn first_match_text(html: Seq<char>, selector: Seq<char>) -> Option<Seq<char>>;

/// Parses `html` with `scraper::Html::parse_document` and `selector` with
/// `scraper::Selector::parse`, and gives the text of the first element that
/// `Html::select` yields, concatenated. The contract only names that result
/// (`first_match_text`); what HTML parsing and selector matching do is not stated.
#[verifier::external_body]
fn select_first_text(html: &str, selector: &str) -> (r: Option<String>)
    ensures
        match r {
            Some(t) => first_match_text(html@, selector@) == Some(t@),
            None => first_match_text(html@, selector@) is None,
        },
{
    let document = scraper::Html::parse_document(html);
    let selector = match scraper::Selector::parse(selector) {
        Ok(selector) => selector,
        Err(_) => return None,
    };
    let element = document.select(&selector).next()?;
    Some(element.text().collect::<String>())
}

/// The embedded JSON, from the text of the `#__NEXT_DATA__` element if the page
/// has one; a page without it cannot be read.
pub fn next_data_json_from_match(text: Option<String>) -> (r: Result<String, SpotifyMetadataError>)
    ensures
        match text {
            Some(t) => r == Ok::<String, SpotifyMetadataError>(t),
            None => r == Err::<String, SpotifyMetadataError>(SpotifyMetadataError::RequestFailed),
        },
{
    match text {
        Some(t) => Ok(t),
        None => Err(SpotifyMetadataError::RequestFailed),
    }
}

/// The JSON that a Spotify embed page embeds in its `#__NEXT_DATA__` element.
pub fn extract_spotify_next_data_json(html_content: &str) -> (r: Result<String, SpotifyMetadataError>)
    ensures
        match r {
            Ok(t) => first_match_text(html_content@, "#__NEXT_DATA__"@) == Some(t@),
            Err(e) => first_match_text(html_content@, "#__NEXT_DATA__"@) is None && e
                == SpotifyMetadataError::RequestFailed,
        },
{
    next_data_json_from_match(select_first_text(html_content, "#__NEXT_DATA__"))
}

// ---------------------------------------------------------------------------
// The embed page's data, as its `__NEXT_DATA__` JSON holds it
#[derive(Clone, Debug)]
pub struct TrackRoot {
    pub props: TrackProps,
}

#[derive(Clone, Debug)]
pub struct TrackProps {
    pub page_props: TrackPageProps,
}

#[derive(Clone, Debug)]
pub struct TrackPageProps {
    pub state: TrackState,
}

#[derive(Clone, Debug)]
pub struct TrackState {
    pub data: TrackData,
}

#[derive(Clone, Debug)]
pub struct TrackData {
    pub entity: TrackEntity,
}

#[derive(Clone, Debug)]
pub struct TrackEntity {
    pub title: String,
    pub artists: Vec<TrackArtist>,
    pub audio_preview: TrackAudioPreview,
    pub visual_identity: TrackVisualIdentity,
}

#[derive(Clone, Debug)]
pub struct TrackArtist {
    pub name: String,
}

#[derive(Clone, Debug)]
pub struct TrackAudioPreview {
    pub url: String,
}

#[derive(Clone, Debug)]
pub struct TrackVisualIdentity {
    pub image: Vec<TrackImage>,
}

#[derive(Clone, Debug)]
pub struct TrackImage {
    pub url: String,
    pub max_width: i64,
}

#[derive(Clone, Debug)]
pub struct CollectionRoot {
    pub props: CollectionProps,
}

#[derive(Clone, Debug)]
pub struct CollectionProps {
    pub page_props: CollectionPageProps,
}

#[derive(Clone, Debug)]
pub struct CollectionPageProps {
    pub state: CollectionState,
}

#[derive(Clone, Debug)]
pub struct CollectionState {
    pub data: CollectionData,
}

#[derive(Clone, Debug)]
pub struct CollectionData {
    pub entity: CollectionEntity,
}

#[derive(Clone, Debug)]
pub struct CollectionEntity {
    pub title: String,
    pub subtitle: String,
    pub track_list: Vec<CollectionTrack>,
    pub visual_identity: TrackVisualIdentity,
}

#[derive(Clone, Debug)]
pub struct CollectionTrack {
    pub uri: String,
    pub title: String,
    pub subtitle: String,
    pub audio_preview: TrackAudioPreview,
}

#[derive(Clone, Debug)]
pub struct EpisodeRoot {
    pub props: EpisodeProps,
}

#[derive(Clone, Debug)]
pub struct EpisodeProps {
    pub page_props: EpisodePageProps,
}

#[derive(Clone, Debug)]
pub struct EpisodePageProps {
    pub state: EpisodeState,
}

#[derive(Clone, Debug)]
pub struct EpisodeState {
    pub data: EpisodeData,
}

#[derive(Clone, Debug)]
pub struct EpisodeData {
    pub entity: EpisodeEntity,
}

#[derive(Clone, Debug)]
pub struct EpisodeEntity {
    pub uri: String,
    pub title: String,
    pub subtitle: String,
    pub audio_preview: TrackAudioPreview,
    pub visual_identity: TrackVisualIdentity,
}

} // verus!
