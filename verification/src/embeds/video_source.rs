use vstd::prelude::*;

use crate::text::append_str;

verus! {

/// Why the remote video store could not serve a request.
#[derive(Clone, Debug, PartialEq, Eq)]
pub enum VideoSourceError {
    /// No video is stored for the id.
    NotFound(String),
    ReadFailed,
    UploadFailed,
}

/// The remote store (a Backblaze B2 bucket) that keeps rendered previews.
pub struct B2VideoSource;

impl B2VideoSource {
    pub fn new() -> (s: Self) {
        B2VideoSource
    }
}

/// The object name under which a preview is stored: `generated/<id>/out.mp4`.
pub fn get_b2_video_path(track_id: &str) -> (r: String)
    ensures
        r@ == "generated/"@ + track_id@ + "/out.mp4"@,
{
    let mut r = String::new();
    append_str(&mut r, "generated/");
    append_str(&mut r, track_id);
    append_str(&mut r, "/out.mp4");
    assert(r@ =~= "generated/"@ + track_id@ + "/out.mp4"@);
    r
}

/// The file to download among those that a listing under a preview's object name
/// found: the first one; `NotFound` with the id when there is none.
pub fn first_listed_file(file_ids: &Vec<String>, track_id: &str) -> (r: Result<String, VideoSourceError>)
    ensures
        match r {
            Ok(id) => file_ids@.len() > 0 && id@ == file_ids@[0]@,
            Err(e) => file_ids@.len() == 0 && (e matches VideoSourceError::NotFound(t) && t@ == track_id@),
        },
{
    if file_ids.len() == 0 {
        Err(VideoSourceError::NotFound(crate::text::owned(track_id)))
    } else {
        Ok(crate::text::owned(file_ids[0].as_str()))
    }
}

/// The message of a video source error.
pub open spec fn video_source_message_spec(e: VideoSourceError) -> Seq<char> {
    match e {
        VideoSourceError::NotFound(id) => "video with id "@ + id@ + " was not found"@,
        VideoSourceError::ReadFailed => "failed to read video bytes from source"@,
        VideoSourceError::UploadFailed => "failed to upload video bytes to source"@,
    }
}

/// The message of a video source error.
pub fn video_source_error_message(e: &VideoSourceError) -> (s: String)
    ensures
        s@ == video_source_message_spec(*e),
{
    let mut s = String::new();
    match e {
        VideoSourceError::NotFound(id) => {
            append_str(&mut s, "video with id ");
            append_str(&mut s, id.as_str());
            append_str(&mut s, " was not found");
        },
        VideoSourceError::ReadFailed => {
            append_str(&mut s, "failed to read video bytes from source");
        },
        VideoSourceError::UploadFailed => {
            append_str(&mut s, "failed to upload video bytes to source");
        },
    }
    assert(s@ =~= video_source_message_spec(*e));
    s
}

} // verus!
