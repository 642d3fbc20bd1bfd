use video_downloader_pro::download::parser::Parser;
use video_downloader_pro::download::worker::{
    detect_platform, download_args, failed_before_start, metadata_args, trim_string, Attempt,
    DownloadError,
};
use video_downloader_pro::queue::task::TaskStatus;

#[test]
fn test_robust_utf8_conversion() {
    let invalid_utf8 = vec![0, 159, 146, 150];
    let lossy_string = String::from_utf8_lossy(&invalid_utf8);
    assert!(!lossy_string.is_empty());
}

#[test]
fn test_mixed_output_parsing() {
    let mixed_bytes = b"normal text \xEF\xBF\xBD damaged text\n";
    let line = String::from_utf8_lossy(mixed_bytes);
    assert!(line.contains("normal text"));
    assert!(line.contains("damaged text"));
}

#[test]
fn platform_detection() {
    assert_eq!(detect_platform("https://www.youtube.com/watch?v=1"), Some("youtube"));
    assert_eq!(detect_platform("https://youtu.be/abc"), Some("youtube"));
    assert_eq!(detect_platform("https://www.tiktok.com/@a/video/1"), Some("tiktok"));
    assert_eq!(detect_platform("https://instagram.com/p/1"), Some("instagram"));
    assert_eq!(detect_platform("https://twitter.com/a/status/1"), Some("x"));
    assert_eq!(detect_platform("https://x.com/a/status/1"), Some("x"));
    assert_eq!(detect_platform("https://vimeo.com/1"), None);
}

#[test]
fn command_lines() {
    let args = download_args("/dl", "/bin/qjs", Some("/tmp/c.txt"), Some("best"), "https://u");
    assert_eq!(
        args,
        vec![
            "--newline", "--no-playlist", "-c", "-P", "/dl", "--output", "%(title)s.%(ext)s",
            "--limit-rate", "5M", "--js-runtimes", "quickjs:/bin/qjs", "--cookies", "/tmp/c.txt",
            "-f", "best", "https://u",
        ]
    );
    let plain = download_args("/dl", "/bin/qjs", None, None, "https://u");
    assert_eq!(plain.len(), 12);
    assert_eq!(plain[11], "https://u");
    let meta = metadata_args("/bin/deno", None, "https://u");
    assert_eq!(
        meta,
        vec![
            "--dump-single-json", "--flat-playlist", "--no-warnings", "-f",
            "bestvideo+bestaudio/best", "--js-runtimes", "deno:/bin/deno", "https://u",
        ]
    );
}

#[test]
fn progress_is_throttled_and_never_decreases() {
    let parser = Parser::new();
    let mut a = Attempt::new(1_000, None);
    // Within the throttle interval: nothing reported.
    let e = a.on_stdout_line(&parser, "[download]  10.0% of 10.00MiB at 1.00MiB/s ETA 00:09", 1_200);
    assert!(e.is_none());
    assert_eq!(a.total_bytes, Some(10_485_760));
    assert_eq!(a.downloaded_bytes, 1_048_576);
    // After 500 ms: reported.
    let e = a
        .on_stdout_line(&parser, "[download]  20.0% of 10.00MiB at 1.00MiB/s ETA 00:08", 1_500)
        .unwrap();
    assert_eq!(e.progress_hundredths, 2000);
    assert_eq!(e.speed, "1.00MiB/s");
    assert_eq!(e.update.status, None);
    // A second stream restarts at 5%: the report does not go back.
    let e = a
        .on_stdout_line(&parser, "[download]   5.0% of 2.00MiB at 1.00MiB/s ETA 00:02", 2_100)
        .unwrap();
    assert_eq!(e.progress_hundredths, 2000);
    assert_eq!(e.total_bytes, Some(2_097_152));
    // A 100% line is reported at once.
    let e = a.on_stdout_line(&parser, "[download] 100% of 2.00MiB in 00:02", 2_150).unwrap();
    assert_eq!(e.progress_hundredths, 10000);
    assert_eq!(e.speed, "");
}

#[test]
fn filenames_and_success() {
    let parser = Parser::new();
    let mut a = Attempt::new(0, Some("/tmp/cookies-1.txt".to_string()));
    a.on_stdout_line(&parser, "[download] Destination: v.f137.mp4", 10);
    a.on_stdout_line(&parser, "[Merger] Merging formats into \"v.mkv\"", 20);
    assert_eq!(a.result_filename(), Some("v.mkv".to_string()));
    let end = a.exited(true, "exit status: 0", Some(12345));
    assert_eq!(end.remove_cookie_file, Some("/tmp/cookies-1.txt".to_string()));
    let r = end.outcome.unwrap();
    assert_eq!(r.total_bytes, Some(12345));
    assert_eq!(r.downloaded_bytes, 12345);
    assert_eq!(r.filename, Some("v.mkv".to_string()));
}

#[test]
fn failure_message_is_last_five_stderr_lines() {
    let mut a = Attempt::new(0, Some("/tmp/c".to_string()));
    for l in ["one", "  ", "two", "three", "four", "five", "six\n"] {
        a.on_stderr_line(l);
    }
    let end = a.exited(false, "exit status: 1", None);
    assert_eq!(end.remove_cookie_file, Some("/tmp/c".to_string()));
    match end.outcome {
        Err(DownloadError::Failed { message, .. }) => {
            assert_eq!(message, "two\nthree\nfour\nfive\nsix")
        }
        other => panic!("unexpected {:?}", other),
    }
    let quiet = Attempt::new(0, None);
    match quiet.exited(false, "exit status: 2", None).outcome {
        Err(DownloadError::Failed { message, .. }) => {
            assert_eq!(message, "yt-dlp exited with status: exit status: 2")
        }
        other => panic!("unexpected {:?}", other),
    }
}

#[test]
fn every_exit_removes_the_cookie_file() {
    let parser = Parser::new();
    let mut a = Attempt::new(0, Some("/tmp/k".to_string()));
    a.on_stdout_line(&parser, "[download]  50.0% of 1.00KiB at 1KiB/s ETA 00:01", 600);
    let end = a.cancelled();
    assert_eq!(end.remove_cookie_file, Some("/tmp/k".to_string()));
    assert_eq!(
        end.outcome,
        Err(DownloadError::Cancelled { total_bytes: Some(1024), downloaded_bytes: 512, filename: None })
    );
    let early = failed_before_start(Some("/tmp/k2".to_string()), "Task not found".to_string());
    assert_eq!(early.remove_cookie_file, Some("/tmp/k2".to_string()));
    let b = Attempt::new(0, Some("/tmp/k3".to_string()));
    assert_eq!(b.failed("read error".to_string()).remove_cookie_file, Some("/tmp/k3".to_string()));
    assert_eq!(trim_string("  x y \r\n"), "x y");
    assert_eq!(TaskStatus::Processing.as_str(), "PROCESSING");
}
