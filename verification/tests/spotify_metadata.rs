use spqtify::embeds::spotify_metadata::{
    extract_spotify_next_data_json, next_data_json_from_match, normalize_collection_metadata,
    normalize_episode_metadata, normalize_track_metadata, parse_artist_names,
    parse_media_id_from_uri, resolve_requested_track_index, widest_image_url, CollectionData,
    CollectionEntity, CollectionPageProps, CollectionProps, CollectionRoot, CollectionState,
    CollectionTrack, EpisodeData, EpisodeEntity, EpisodePageProps, EpisodeProps, EpisodeRoot,
    EpisodeState, SpotifyCollectionKind, SpotifyMetadataError, TrackArtist, TrackAudioPreview,
    TrackData, TrackEntity, TrackImage, TrackPageProps, TrackProps, TrackRoot, TrackState,
    TrackVisualIdentity, SPOTIFY_EMBED_TRACK_LIMIT,
};
use spqtify::embeds::VideoKind;

fn image(url: &str, max_width: i64) -> TrackImage {
    TrackImage { url: url.to_string(), max_width }
}

fn collection_track(uri: &str, title: &str, subtitle: &str, preview: &str) -> CollectionTrack {
    CollectionTrack {
        uri: uri.to_string(),
        title: title.to_string(),
        subtitle: subtitle.to_string(),
        audio_preview: TrackAudioPreview { url: preview.to_string() },
    }
}

fn collection_root(title: &str, subtitle: &str, tracks: Vec<CollectionTrack>, images: Vec<TrackImage>) -> CollectionRoot {
    CollectionRoot {
        props: CollectionProps {
            page_props: CollectionPageProps {
                state: CollectionState {
                    data: CollectionData {
                        entity: CollectionEntity {
                            title: title.to_string(),
                            subtitle: subtitle.to_string(),
                            track_list: tracks,
                            visual_identity: TrackVisualIdentity { image: images },
                        },
                    },
                },
            },
        },
    }
}

fn track_root(title: &str, artists: &[&str], preview: &str, images: Vec<TrackImage>) -> TrackRoot {
    TrackRoot {
        props: TrackProps {
            page_props: TrackPageProps {
                state: TrackState {
                    data: TrackData {
                        entity: TrackEntity {
                            title: title.to_string(),
                            artists: artists.iter().map(|a| TrackArtist { name: a.to_string() }).collect(),
                            audio_preview: TrackAudioPreview { url: preview.to_string() },
                            visual_identity: TrackVisualIdentity { image: images },
                        },
                    },
                },
            },
        },
    }
}

fn episode_root(uri: &str, title: &str, show: &str, preview: &str, images: Vec<TrackImage>) -> EpisodeRoot {
    EpisodeRoot {
        props: EpisodeProps {
            page_props: EpisodePageProps {
                state: EpisodeState {
                    data: EpisodeData {
                        entity: EpisodeEntity {
                            uri: uri.to_string(),
                            title: title.to_string(),
                            subtitle: show.to_string(),
                            audio_preview: TrackAudioPreview { url: preview.to_string() },
                            visual_identity: TrackVisualIdentity { image: images },
                        },
                    },
                },
            },
        },
    }
}

#[test]
fn resolve_requested_track_index_defaults_to_first_track() {
    assert_eq!(resolve_requested_track_index(None, 4), Some(0));
    assert_eq!(resolve_requested_track_index(Some(""), 4), Some(0));
    assert_eq!(resolve_requested_track_index(Some("0"), 4), Some(0));
}

#[test]
fn resolve_requested_track_index_clamps_to_valid_bounds() {
    assert_eq!(resolve_requested_track_index(Some("2"), 4), Some(1));
    assert_eq!(resolve_requested_track_index(Some("99"), 4), Some(3));
}

#[test]
fn resolve_requested_track_index_returns_none_when_no_tracks() {
    assert_eq!(resolve_requested_track_index(Some("1"), 0), None);
}

#[test]
fn parse_artist_names_splits_comma_separated_subtitle() {
    let artists = parse_artist_names("Pitbull,\u{a0}Christina Aguilera");
    assert_eq!(artists, vec!["Pitbull", "Christina Aguilera"]);
}

#[test]
fn playlist_metadata_uses_selected_track_audio_preview() {
    let root = collection_root(
        "Public playlist",
        "Playlist curator",
        vec![
            collection_track("spotify:track:first", "First song", "First artist", "https://preview/first.mp3"),
            collection_track("spotify:track:second", "Second song", "Second artist", "https://preview/second.mp3"),
        ],
        vec![image("https://image/small.jpg", 64), image("https://image/large.jpg", 640)],
    );

    let metadata = normalize_collection_metadata(Some("2"), root).unwrap();

    assert_eq!(metadata.track.preview_url, "https://preview/second.mp3");
    assert_eq!(metadata.track.media_id, "second");
    assert_eq!(metadata.artwork_url, "https://image/large.jpg");
    assert_eq!(metadata.collection_name, "Public playlist");
    assert_eq!(metadata.collection_creator, "Playlist curator");
    assert!(!metadata.track_count_is_capped());
}

#[test]
fn requested_track_parsing_follows_usize_rules() {
    assert_eq!(resolve_requested_track_index(Some(" +3 "), 10), Some(2));
    assert_eq!(resolve_requested_track_index(Some("-3"), 10), Some(0));
    assert_eq!(resolve_requested_track_index(Some("3a"), 10), Some(0));
    assert_eq!(resolve_requested_track_index(Some("+"), 10), Some(0));
    assert_eq!(resolve_requested_track_index(Some("007"), 10), Some(6));
    assert_eq!(resolve_requested_track_index(Some("99999999999999999999999"), 10), Some(0));
    assert_eq!(resolve_requested_track_index(Some("1"), 1), Some(0));
}

#[test]
fn artist_names_drop_blank_entries_and_keep_inner_spaces() {
    assert_eq!(parse_artist_names(" A ,, ,B\u{a0}C,"), vec!["A", "B C"]);
    assert!(parse_artist_names("").is_empty());
    assert!(parse_artist_names(" , ").is_empty());
}

#[test]
fn widest_image_prefers_the_last_of_equal_widths() {
    let images = vec![image("a", 10), image(" b ", 20), image("c", 20), image("d", 5)];
    assert_eq!(widest_image_url(&images), Some("c".to_string()));
    assert_eq!(widest_image_url(&vec![image(" b ", 20)]), Some("b".to_string()));
    assert_eq!(widest_image_url(&vec![image("  ", 20)]), None);
    assert_eq!(widest_image_url(&vec![]), None);
}

#[test]
fn media_ids_come_from_the_uri_tail() {
    assert_eq!(parse_media_id_from_uri("spotify:episode: abc "), Some("abc".to_string()));
    assert_eq!(parse_media_id_from_uri("no-colon"), None);
    assert_eq!(parse_media_id_from_uri("spotify:episode:"), None);
}

#[test]
fn track_metadata_requires_every_field() {
    let ok = normalize_track_metadata(
        "id1",
        track_root(" Song ", &[" A ", " ", "B"], " https://p ", vec![image("https://art", 1)]),
    )
    .unwrap();
    assert_eq!(ok.media_id, "id1");
    assert_eq!(ok.song_name, "Song");
    assert_eq!(ok.artist_names, vec!["A", "B"]);
    assert_eq!(ok.preview_url, "https://p");
    assert_eq!(ok.album_art_url, "https://art");
    assert_eq!(ok.artist_text(), "A, B");
    let missing = normalize_track_metadata("id1", track_root("Song", &[" "], "https://p", vec![image("x", 1)]));
    assert_eq!(missing.unwrap_err(), SpotifyMetadataError::MissingData);
    let no_art = normalize_track_metadata("id1", track_root("Song", &["A"], "https://p", vec![]));
    assert_eq!(no_art.unwrap_err(), SpotifyMetadataError::MissingData);
    let no_preview = normalize_track_metadata("id1", track_root("Song", &["A"], "  ", vec![image("x", 1)]));
    assert_eq!(no_preview.unwrap_err(), SpotifyMetadataError::MissingData);
}

#[test]
fn episode_metadata_uses_uri_id_and_show_name() {
    let m = normalize_episode_metadata(
        "requested",
        episode_root("spotify:episode:real", "Ep", " Show ", "https://p", vec![image("https://c", 3)]),
    )
    .unwrap();
    assert_eq!(m.media_id, "real");
    assert_eq!(m.artist_names, vec!["Show"]);
    let m = normalize_episode_metadata(
        "requested",
        episode_root("nouri", "Ep", "Show", "https://p", vec![image("https://c", 3)]),
    )
    .unwrap();
    assert_eq!(m.media_id, "requested");
    let err = normalize_episode_metadata("r", episode_root("u:x", "Ep", "  ", "https://p", vec![image("c", 1)]));
    assert_eq!(err.unwrap_err(), SpotifyMetadataError::MissingData);
}

#[test]
fn collection_metadata_refuses_untitled_collections_and_bad_tracks() {
    let untitled = collection_root(
        "Pl",
        "Me",
        vec![collection_track("spotify:track:a", " ", "X", "https://p")],
        vec![image("https://i", 1)],
    );
    assert_eq!(normalize_collection_metadata(None, untitled).unwrap_err(), SpotifyMetadataError::MissingData);
    let empty = collection_root("Pl", "Me", vec![], vec![image("https://i", 1)]);
    assert_eq!(normalize_collection_metadata(None, empty).unwrap_err(), SpotifyMetadataError::MissingData);
    let no_colon = collection_root(
        "Pl",
        "Me",
        vec![collection_track("plain", "T", "X", "https://p")],
        vec![image("https://i", 1)],
    );
    assert_eq!(normalize_collection_metadata(None, no_colon).unwrap_err(), SpotifyMetadataError::MissingData);
    let clamped = collection_root(
        " Pl ",
        " Me ",
        vec![
            collection_track("spotify:track:a", "A", "X", "https://pa"),
            collection_track("spotify:track:b", " B ", "Y,\u{a0}Z", "https://pb"),
        ],
        vec![image("https://i", 1)],
    );
    let m = normalize_collection_metadata(Some("50"), clamped).unwrap();
    assert_eq!(m.selected_track_index, 1);
    assert_eq!(m.track_names, vec!["A", "B"]);
    assert_eq!(m.track.song_name, "B");
    assert_eq!(m.track.artist_names, vec!["Y", "Z"]);
    assert_eq!(m.track.album_art_url, "https://i");
    assert_eq!(m.collection_name, "Pl");
}

#[test]
fn capped_track_lists_are_flagged() {
    let tracks = (0..SPOTIFY_EMBED_TRACK_LIMIT)
        .map(|i| collection_track(&format!("spotify:track:{i}"), "T", "A", "https://p"))
        .collect();
    let m = normalize_collection_metadata(None, collection_root("P", "C", tracks, vec![image("i", 1)])).unwrap();
    assert!(m.track_count_is_capped());
}

#[test]
fn next_data_json_is_read_from_the_page() {
    let html = "<html><head></head><body><script id=\"__NEXT_DATA__\" type=\"application/json\">{\"a\":1}</script></body></html>";
    assert_eq!(extract_spotify_next_data_json(html).unwrap(), "{\"a\":1}");
    let without = "<html><body><p>nothing</p></body></html>";
    assert_eq!(extract_spotify_next_data_json(without).unwrap_err(), SpotifyMetadataError::RequestFailed);
    assert_eq!(next_data_json_from_match(None).unwrap_err(), SpotifyMetadataError::RequestFailed);
    assert_eq!(next_data_json_from_match(Some("x".to_string())).unwrap(), "x");
}

#[test]
fn kinds_and_messages() {
    assert_eq!(SpotifyCollectionKind::Album.path_segment(), "album");
    assert_eq!(SpotifyCollectionKind::Playlist.path_segment(), "playlist");
    assert_eq!(SpotifyCollectionKind::Album.video_kind(), VideoKind::Album);
    assert_eq!(SpotifyCollectionKind::Playlist.video_kind(), VideoKind::Playlist);
    assert_eq!(SpotifyMetadataError::RequestFailed.message(), "failed to fetch spotify metadata");
    assert_eq!(SpotifyMetadataError::MissingData.message(), "spotify metadata missing required fields");
}
