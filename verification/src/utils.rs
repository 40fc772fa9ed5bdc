use vstd::prelude::*;

use crate::text::append_str;

verus! {

/// The working directory of a track's render: `<dir>/<id>`.
pub fn get_track_output_path(video_generator_dir: &str, track_id: String) -> (r: String)
    ensures
        r@ == video_generator_dir@ + "/"@ + track_id@,
{
    let mut r = crate::text::owned(video_generator_dir);
    append_str(&mut r, "/");
    append_str(&mut r, track_id.as_str());
    assert(r@ =~= video_generator_dir@ + "/"@ + track_id@);
    r
}

fn track_file_path(video_generator_dir: &str, track_id: &str, file: &str) -> (r: String)
    ensures
        r@ == video_generator_dir@ + "/"@ + track_id@ + "/"@ + file@,
{
    let mut r = crate::text::owned(video_generator_dir);
    append_str(&mut r, "/");
    append_str(&mut r, track_id);
    append_str(&mut r, "/");
    append_str(&mut r, file);
    assert(r@ =~= video_generator_dir@ + "/"@ + track_id@ + "/"@ + file@);
    r
}

/// The rendered video of a track: `<dir>/<id>/out.mp4`.
pub fn get_video_output_path(video_generator_dir: &str, track_id: String) -> (r: String)
    ensures
        r@ == video_generator_dir@ + "/"@ + track_id@ + "/"@ + "out.mp4"@,
{
    track_file_path(video_generator_dir, track_id.as_str(), "out.mp4")
}

/// The og image a track's render reads: `<dir>/<id>/og.png`.
pub fn get_og_output_path(video_generator_dir: &str, track_id: String) -> (r: String)
    ensures
        r@ == video_generator_dir@ + "/"@ + track_id@ + "/"@ + "og.png"@,
{
    track_file_path(video_generator_dir, track_id.as_str(), "og.png")
}

/// The audio a track's render reads: `<dir>/<id>/audio.mp3`.
pub fn get_audio_output_path(video_generator_dir: &str, track_id: String) -> (r: String)
    ensures
        r@ == video_generator_dir@ + "/"@ + track_id@ + "/"@ + "audio.mp3"@,
{
    track_file_path(video_generator_dir, track_id.as_str(), "audio.mp3")
}

/// The object name under which a track's preview is stored:
/// `generated/<id>/out.mp4`.
pub fn get_b2_video_path(track_id: String) -> (r: String)
    ensures
        r@ == "generated/"@ + track_id@ + "/out.mp4"@,
{
    crate::embeds::video_source::get_b2_video_path(track_id.as_str())
}

} // verus!
