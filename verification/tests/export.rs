use cap_cli::{
    export_destination, export_settings, exported_message, exporting_message, progress_line,
    CompressionLevel, ExportDestination, ExportSettings, COPY_ERROR, EXPORTER_BUILD_ERROR,
    EXPORT_ERROR,
};

#[test]
fn export_settings_take_the_arguments() {
    assert_eq!(
        export_settings(60, (1920, 1080), CompressionLevel::Maximum),
        ExportSettings {
            fps: 60,
            width: 1920,
            height: 1080,
            compression: CompressionLevel::Maximum,
            force_ffmpeg_decoder: false,
        }
    );
    let s = export_settings(24, (640, 480), CompressionLevel::Potato);
    assert_eq!((s.fps, s.width, s.height), (24, 640, 480));
    assert_eq!(s.compression, CompressionLevel::Potato);
    assert!(!s.force_ffmpeg_decoder);
}

#[test]
fn progress_lines_overwrite_the_count() {
    assert_eq!(progress_line(0), "\rRendered frame 0");
    assert_eq!(progress_line(1234), "\rRendered frame 1234");
}

#[test]
fn requested_path_gets_a_copy() {
    match export_destination(Some("out.mp4"), "render.mp4") {
        ExportDestination::CopyTo { from, to } => {
            assert_eq!(from, "render.mp4");
            assert_eq!(to, "out.mp4");
        }
        ExportDestination::Rendered(_) => panic!("expected a copy"),
    }
}

#[test]
fn without_request_the_render_stays() {
    match export_destination(None, "render.mp4") {
        ExportDestination::Rendered(p) => assert_eq!(p, "render.mp4"),
        ExportDestination::CopyTo { .. } => panic!("expected no copy"),
    }
}

#[test]
fn export_messages() {
    assert_eq!(exporting_message("proj.cap"), "Exporting 'proj.cap' ...");
    assert_eq!(exported_message("/v/out.mp4"), "Exported video to '/v/out.mp4'");
    assert_eq!(EXPORTER_BUILD_ERROR, "Exporter build error");
    assert_eq!(EXPORT_ERROR, "Export error");
    assert_eq!(COPY_ERROR, "Failed to copy output");
}
