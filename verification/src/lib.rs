//! Decision logic of the `cap` command-line client: how results and errors
//! are reported, how a `WIDTHxHEIGHT` resolution argument is read, how a
//! capture target is chosen, how recordings, screenshots and exports are
//! named and configured, and what the client says while it works.

pub mod capture;
pub mod export;
pub mod listing;
pub mod output;
pub mod resolution;
pub mod target;

pub use capture::{
    capture_settings, new_recording_file_name, new_screenshot_file_name, recording_file_name, recording_notice,
    screenshot_file_name, screenshot_saved_message, starting_message, stop_reason,
    stopping_message, CaptureSettings, RecordingMode, StopEvent, CAPTURING_SCREENSHOT,
    OPEN_ENDED_NOTICE, SAVE_SCREENSHOT_ERROR, SCREENSHOT_ERROR, SHAREABLE_CONTENT_ERROR,
    TIMED_NOTICE, TIMESTAMP_PATTERN,
};
pub use export::{
    export_destination, export_settings, exported_message, exporting_message, progress_line,
    CompressionLevel, ExportDestination, ExportSettings, COPY_ERROR, EXPORTER_BUILD_ERROR,
    EXPORT_ERROR,
};
pub use listing::{camera_line, mic_line, CAMERAS_UNSUPPORTED};
pub use output::{
    error_with_detail, report_error, report_list, report_result, CliError, CliListOutput,
    CliOutput, ErrorReport, ListReport, OutputFormat, ResultReport, ERROR_STATUS, SUCCESS_STATUS,
};
pub use resolution::{
    decimal_string, parse_resolution, INVALID_HEIGHT_ERROR, INVALID_WIDTH_ERROR,
    RESOLUTION_FORMAT_ERROR,
};
pub use target::{request_target, resolve_target, CaptureTarget, TargetRequest, NO_TARGET_ERROR};
