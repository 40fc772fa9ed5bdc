use vstd::prelude::*;

use crate::payload::{bytes_clone, bytes_contents};
use crate::text::append_str;

verus! {

/// Why rendering a preview video failed.
#[derive(Clone, Copy, Debug, PartialEq, Eq, Structural)]
pub enum RendererError {
    WriteFailed,
    AudioFetchFailed,
    FfmpegFailed,
    OutputMissing,
}

/// The message of a renderer error.
pub open spec fn renderer_error_message(e: RendererError) -> Seq<char> {
    match e {
        RendererError::WriteFailed => "failed to write renderer input files"@,
        RendererError::AudioFetchFailed => "failed to fetch preview audio"@,
        RendererError::FfmpegFailed => "ffmpeg failed to render preview video"@,
        RendererError::OutputMissing => "rendered video file was not found"@,
    }
}

impl RendererError {
    /// The error's message.
    pub fn message(&self) -> (s: &'static str)
        ensures
            s@ == renderer_error_message(*self),
    {
        match self {
            RendererError::WriteFailed => "failed to write renderer input files",
            RendererError::AudioFetchFailed => "failed to fetch preview audio",
            RendererError::FfmpegFailed => "ffmpeg failed to render preview video",
            RendererError::OutputMissing => "rendered video file was not found",
        }
    }
}

/// What a render needs: the id, the audio preview to fetch and the og image.
pub struct RenderInput {
    pub track_id: String,
    pub preview_url: String,
    pub track_og_bytes: bytes::Bytes,
}

/// Renders preview videos with ffmpeg under an output directory.
pub struct FfmpegRenderer {
    pub output_root: String,
}

impl FfmpegRenderer {
    pub fn new(output_root: String) -> (r: Self)
        ensures
            r.output_root@ == output_root@,
    {
        FfmpegRenderer { output_root }
    }

    /// The rendered video of a track: `<root>/<id>/out.mp4`.
    pub fn video_output_path(&self, track_id: &str) -> (r: String)
        ensures
            r@ == self.output_root@ + "/"@ + track_id@ + "/out.mp4"@,
    {
        let mut r = crate::text::owned(self.output_root.as_str());
        append_str(&mut r, "/");
        append_str(&mut r, track_id);
        append_str(&mut r, "/out.mp4");
        assert(r@ =~= self.output_root@ + "/"@ + track_id@ + "/out.mp4"@);
        r
    }

    /// The working directory of a track's render: `<root>/<id>`.
    pub fn track_output_path(&self, track_id: &str) -> (r: String)
        ensures
            r@ == self.output_root@ + "/"@ + track_id@,
    {
        let mut r = crate::text::owned(self.output_root.as_str());
        append_str(&mut r, "/");
        append_str(&mut r, track_id);
        assert(r@ =~= self.output_root@ + "/"@ + track_id@);
        r
    }

    /// The path of file `name` in the working directory of a track's render.
    fn track_file_path(&self, track_id: &str, name: &str) -> (r: String)
        ensures
            r@ == self.output_root@ + "/"@ + track_id@ + "/"@ + name@,
    {
        let mut r = self.track_output_path(track_id);
        append_str(&mut r, "/");
        append_str(&mut r, name);
        assert(r@ =~= self.output_root@ + "/"@ + track_id@ + "/"@ + name@);
        r
    }

    /// The next step of rendering the preview that `input` describes (see
    /// `render_next_is`).
    pub fn render_step(&self, input: &RenderInput, event: RenderEvent) -> (a: RenderAction)
        ensures
            render_next_is(self.output_root@, *input, event, a),
    {
        let track_id = input.track_id.as_str();
        match event {
            RenderEvent::Started => RenderAction::CreateOutputDir(self.track_output_path(track_id)),
            RenderEvent::OutputDirCreated(true) => RenderAction::WriteOgImage(
                self.track_file_path(track_id, "og.png"),
                bytes_clone(&input.track_og_bytes),
            ),
            RenderEvent::OutputDirCreated(false) => RenderAction::Finish(
                Err(RendererError::WriteFailed),
            ),
            RenderEvent::OgImageWritten(true) => RenderAction::FetchAudio(
                crate::text::owned(input.preview_url.as_str()),
            ),
            RenderEvent::OgImageWritten(false) => RenderAction::Finish(
                Err(RendererError::WriteFailed),
            ),
            RenderEvent::AudioFetched(Some(audio)) => RenderAction::WriteAudio(
                self.track_file_path(track_id, "audio.mp3"),
                audio,
            ),
            RenderEvent::AudioFetched(None) => RenderAction::Finish(
                Err(RendererError::AudioFetchFailed),
            ),
            RenderEvent::AudioWritten(true) => RenderAction::RunFfmpeg(
                self.track_output_path(track_id),
                ffmpeg_args(),
            ),
            RenderEvent::AudioWritten(false) => RenderAction::Finish(
                Err(RendererError::WriteFailed),
            ),
            RenderEvent::FfmpegExited(Some(true)) => RenderAction::ReadOutput(
                self.video_output_path(track_id),
            ),
            RenderEvent::FfmpegExited(_) => RenderAction::Finish(Err(RendererError::FfmpegFailed)),
            RenderEvent::OutputRead(Some(video)) => RenderAction::Finish(Ok(video)),
            RenderEvent::OutputRead(None) => RenderAction::Finish(
                Err(RendererError::OutputMissing),
            ),
        }
    }
}

/// The arguments of the ffmpeg run, in its working directory: a still `og.png`
/// looped over `audio.mp3`, encoded fast into `out.mp4` and cut at the end of the
/// audio.
pub open spec fn ffmpeg_args_spec() -> Seq<Seq<char>> {
    seq![
        "-loop"@, "1"@, "-i"@, "og.png"@, "-i"@, "audio.mp3"@, "-c:v"@, "libx264"@, "-preset"@,
        "ultrafast"@, "-tune"@, "stillimage"@, "-crf"@, "23"@, "-r"@, "2"@, "-c:a"@, "aac"@,
        "-b:a"@, "96k"@, "-aac_coder"@, "fast"@, "-pix_fmt"@, "yuv420p"@, "-movflags"@,
        "+faststart"@, "-threads"@, "0"@, "-shortest"@, "out.mp4"@,
    ]
}

/// The views of a list of string slices.
pub open spec fn str_views(v: Seq<&str>) -> Seq<Seq<char>> {
    v.map_values(|s: &str| s@)
}

/// The arguments of the ffmpeg run (see `ffmpeg_args_spec`).
pub fn ffmpeg_args() -> (v: Vec<&'static str>)
    ensures
        str_views(v@) == ffmpeg_args_spec(),
{
    let v: Vec<&'static str> = vec![
        "-loop", "1", "-i", "og.png", "-i", "audio.mp3", "-c:v", "libx264", "-preset",
        "ultrafast", "-tune", "stillimage", "-crf", "23", "-r", "2", "-c:a", "aac", "-b:a",
        "96k", "-aac_coder", "fast", "-pix_fmt", "yuv420p", "-movflags", "+faststart",
        "-threads", "0", "-shortest", "out.mp4",
    ];
    assert(str_views(v@) =~= ffmpeg_args_spec());
    v
}

/// What a render learned from its last step.
pub enum RenderEvent {
    /// The render begins.
    Started,
    /// Whether the working directory could be created.
    OutputDirCreated(bool),
    /// Whether the og image could be written there.
    OgImageWritten(bool),
    /// The preview audio, if it could be downloaded.
    AudioFetched(Option<bytes::Bytes>),
    /// Whether the audio could be written.
    AudioWritten(bool),
    /// Whether ffmpeg succeeded; `None` when it could not be run.
    FfmpegExited(Option<bool>),
    /// The rendered video, if it could be read.
    OutputRead(Option<bytes::Bytes>),
}

/// The next step of a render.
pub enum RenderAction {
    /// Create this working directory.
    CreateOutputDir(String),
    /// Write these og image bytes to this path.
    WriteOgImage(String, bytes::Bytes),
    /// Download the preview audio from this URL.
    FetchAudio(String),
    /// Write these audio bytes to this path.
    WriteAudio(String, bytes::Bytes),
    /// Run ffmpeg in this directory with these arguments.
    RunFfmpeg(String, Vec<&'static str>),
    /// Read the rendered video from this path.
    ReadOutput(String),
    /// The render is over, with the video or the step that failed.
    Finish(Result<bytes::Bytes, RendererError>),
}

/// The render of the preview that `input` describes under `root`: create
/// `<root>/<id>`, write the input's og image there as `og.png`, download the audio
/// from the input's preview URL and write it as `audio.mp3`, run ffmpeg there, and
/// read `out.mp4`; the first step that fails ends the render with its
/// error.
pub open spec fn render_next_is(
    root: Seq<char>,
    input: RenderInput,
    event: RenderEvent,
    a: RenderAction,
) -> bool {
    let dir = root + "/"@ + input.track_id@;
    match event {
        RenderEvent::Started => a matches RenderAction::CreateOutputDir(p) && p@ == dir,
        RenderEvent::OutputDirCreated(true) => a matches RenderAction::WriteOgImage(p, b) && p@ == dir
            + "/"@ + "og.png"@ && bytes_contents(b) == bytes_contents(input.track_og_bytes),
        RenderEvent::OgImageWritten(true) => a matches RenderAction::FetchAudio(url) && url@
            == input.preview_url@,
        RenderEvent::AudioFetched(Some(audio)) => a matches RenderAction::WriteAudio(p, b) && p@
            == dir + "/"@ + "audio.mp3"@ && b == audio,
        RenderEvent::AudioFetched(None) => a == RenderAction::Finish(
            Err(RendererError::AudioFetchFailed),
        ),
        RenderEvent::AudioWritten(true) => a matches RenderAction::RunFfmpeg(p, args) && p@ == dir
            && str_views(args@) == ffmpeg_args_spec(),
        RenderEvent::FfmpegExited(Some(true)) => a matches RenderAction::ReadOutput(p) && p@ == dir
            + "/out.mp4"@,
        RenderEvent::FfmpegExited(_) => a == RenderAction::Finish(Err(RendererError::FfmpegFailed)),
        RenderEvent::OutputRead(Some(video)) => a == RenderAction::Finish(Ok(video)),
        RenderEvent::OutputRead(None) => a == RenderAction::Finish(Err(RendererError::OutputMissing)),
        _ => a == RenderAction::Finish(Err(RendererError::WriteFailed)),
    }
}

/// A render succeeds only by reading the rendered video, and hands on exactly
/// what was read.
pub proof fn law_render_succeeds_only_with_the_output(
    root: Seq<char>,
    input: RenderInput,
    event: RenderEvent,
    a: RenderAction,
)
    requires
        render_next_is(root, input, event, a),
        a matches RenderAction::Finish(Ok(_)),
    ensures
        event matches RenderEvent::OutputRead(Some(video)) && a == RenderAction::Finish(Ok(video)),
{
}

} // verus!
