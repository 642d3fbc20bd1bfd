use video_downloader_pro::sidecar::{
    check_result, is_bundled_build_of, parse_version, update_failure, SidecarBinary, SidecarError,
};

#[test]
fn test_parse_ytdlp_version() {
    let raw = "2025.01.15\n";
    let result = parse_version(SidecarBinary::YtDlp, raw).unwrap();
    assert_eq!(result, "2025.01.15");
}

#[test]
fn test_parse_ffmpeg_version() {
    let raw = "ffmpeg version N-118193-gc660a3a5f6-20250213 Copyright (c) 2000-2025 the FFmpeg developers\nbuilt with gcc 14.2.0\n";
    let result = parse_version(SidecarBinary::Ffmpeg, raw).unwrap();
    assert_eq!(result, "N-118193-gc660a3a5f6-20250213");
}

#[test]
fn test_parse_empty_output_errors() {
    let raw = "";
    let result = parse_version(SidecarBinary::YtDlp, raw);
    assert!(result.is_err());
}

#[test]
fn test_parse_ffmpeg_unknown_format() {
    let raw = "some-unknown-format v1.2.3\n";
    let result = parse_version(SidecarBinary::Ffmpeg, raw).unwrap();
    assert_eq!(result, "some-unknown-format v1.2.3");
}

#[test]
fn names_and_file_names() {
    assert_eq!(SidecarBinary::YtDlp.program_name(), "binaries/yt-dlp");
    assert_eq!(SidecarBinary::Ffmpeg.version_args(), vec!["-version"]);
    assert_eq!(SidecarBinary::Qjs.version_args(), vec!["--version"]);
    assert_eq!(SidecarBinary::Qjs.display_name(), "qjs");
    assert_eq!(SidecarBinary::YtDlp.file_name(true), "yt-dlp.exe");
    assert_eq!(SidecarBinary::Ffmpeg.file_name(false), "ffmpeg");
}

#[test]
fn bundled_build_names() {
    assert!(is_bundled_build_of("yt-dlp-x86_64-pc-windows-msvc.exe", "yt-dlp"));
    assert!(is_bundled_build_of("ffmpeg-x86_64-unknown-linux-gnu", "ffmpeg"));
    assert!(!is_bundled_build_of("ffmpeg", "ffmpeg"));
    assert!(!is_bundled_build_of("qjs-x86_64", "ffmpeg"));
}

#[test]
fn parse_error_carries_binary_and_output() {
    match parse_version(SidecarBinary::Ffmpeg, "\n\n") {
        Err(SidecarError::ParseError { binary, raw }) => {
            assert_eq!(binary, "ffmpeg");
            assert_eq!(raw, "\n\n");
        }
        other => panic!("unexpected {:?}", other),
    }
}

#[test]
fn error_messages_and_health() {
    let e = SidecarError::BinaryNotFound("/data/binaries/yt-dlp".to_string());
    assert_eq!(e.message(), "Sidecar binary '/data/binaries/yt-dlp' not found in app data");
    let info = check_result(SidecarBinary::YtDlp, Err(e));
    assert!(!info.available);
    assert_eq!(info.version, None);
    assert_eq!(
        info.error,
        Some("Sidecar binary '/data/binaries/yt-dlp' not found in app data".to_string())
    );
    let ok = check_result(SidecarBinary::Ffmpeg, Ok("7.1".to_string()));
    assert!(ok.available);
    assert_eq!(ok.version, Some("7.1".to_string()));
    assert_eq!(
        update_failure("  ERROR: no network \n").message(),
        "yt-dlp self-update failed: ERROR: no network"
    );
}
