pub mod album;
pub mod bounded_cache;
pub mod cache_manager;
pub mod image_client;
pub mod preview;
pub mod preview_generation;
pub mod preview_pages;
pub mod renderer;
pub mod spotify_metadata;
pub mod track;
pub mod video_source;

use vstd::prelude::*;

verus! {

/// The kind of Spotify media a preview video was made for.
#[derive(Clone, Copy, Debug, PartialEq, Eq, Structural)]
pub enum VideoKind {
    Track,
    Episode,
    Album,
    Playlist,
}

impl VideoKind {
    /// The lower-case name of the kind, as analytics events report it.
    pub fn as_str(self) -> (s: &'static str)
        ensures
            s@ == match self {
                VideoKind::Track => "track"@,
                VideoKind::Episode => "episode"@,
                VideoKind::Album => "album"@,
                VideoKind::Playlist => "playlist"@,
            },
    {
        match self {
            VideoKind::Track => "track",
            VideoKind::Episode => "episode",
            VideoKind::Album => "album",
            VideoKind::Playlist => "playlist",
        }
    }
}

} // verus!
