//! Exporting a recorded project to a video file: where the video ends up, and what the
//! client says about it.
use vstd::prelude::*;
use vstd::string::*;
use crate::resolution::{decimal_string, decimal_text};

verus! {

/// What names a failure to prepare the export.
pub const EXPORTER_BUILD_ERROR: &'static str = "Exporter build error";

/// What names a failure during the export.
pub const EXPORT_ERROR: &'static str = "Export error";

/// What names a failure to copy the video to the requested path.
pub const COPY_ERROR: &'static str = "Failed to copy output";

/// How strongly the exported video is compressed, from the best quality to the smallest
/// file.
#[derive(Debug, Clone, Copy, PartialEq, Eq, Structural)]
pub enum CompressionLevel {
    Maximum,
    Social,
    Web,
    Potato,
}

/// How a project is exported to video. The bits per pixel are left to the exporter.
#[derive(Debug, Clone, Copy, PartialEq, Eq, Structural)]
pub struct ExportSettings {
    /// Frames per second of the video.
    pub fps: u32,
    /// Width of the video, in pixels.
    pub width: u32,
    /// Height of the video, in pixels.
    pub height: u32,
    pub compression: CompressionLevel,
    /// Whether the exporter must decode with FFmpeg.
    pub force_ffmpeg_decoder: bool,
}

/// The export settings for the `--fps`, `--resolution` and `--compression` arguments:
/// those values, with the decoder left to the exporter's choice.
pub fn export_settings(fps: u32, resolution: (u32, u32), compression: CompressionLevel) -> (settings:
    ExportSettings)
    ensures
        settings == (ExportSettings {
            fps,
            width: resolution.0,
            height: resolution.1,
            compression,
            force_ffmpeg_decoder: false,
        }),
{
    ExportSettings {
        fps,
        width: resolution.0,
        height: resolution.1,
        compression,
        force_ffmpeg_decoder: false,
    }
}

/// What shows the progress of an export: the number of frames rendered so far, written
/// over the previous count (it starts with a carriage return).
pub fn progress_line(frames: u32) -> (line: String)
    ensures
        line@ == "\rRendered frame "@ + decimal_text(frames as nat),
{
    let mut line = String::from_str("\rRendered frame ");
    let f = decimal_string(frames as u64);
    line.append(f.as_str());
    line
}

/// Where an exported video ends up.
pub enum ExportDestination<P> {
    /// The video stays where the exporter wrote it.
    Rendered(P),
    /// The video is copied from where the exporter wrote it to the requested path, and
    /// reported there.
    CopyTo { from: P, to: P },
}

/// Where a video that the exporter wrote to `rendered` ends up: copied to `requested`
/// when an output path was given, else left where it is.
pub fn export_destination<P>(requested: Option<P>, rendered: P) -> (dest: ExportDestination<P>)
    ensures
        match requested {
            Some(to) => dest matches ExportDestination::CopyTo { from: f, to: t } && f == rendered
                && t == to,
            None => dest matches ExportDestination::Rendered(p) && p == rendered,
        },
{
    match requested {
        Some(to) => ExportDestination::CopyTo { from: rendered, to },
        None => ExportDestination::Rendered(rendered),
    }
}

/// What is said when the project at `project` starts to export.
pub fn exporting_message(project: &str) -> (message: String)
    ensures
        message@ == "Exporting '"@ + project@ + "' ..."@,
{
    let mut message = String::from_str("Exporting '");
    message.append(project);
    message.append("' ...");
    message
}

/// What is said when the video has been exported to `path`.
pub fn exported_message(path: &str) -> (message: String)
    ensures
        message@ == "Exported video to '"@ + path@ + "'"@,
{
    let mut message = String::from_str("Exported video to '");
    message.append(path);
    message.append("'");
    message
}

} // verus!
