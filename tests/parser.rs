use video_downloader_pro::download::parser::{parse_size, ParseResult, Parser};

#[test]
fn test_parse_progress() {
    let parser = Parser::new();
    let line = "[download]  45.0% of 10.00MiB at  2.00MiB/s ETA 00:05";
    let result = parser.parse_line(line);

    if let ParseResult::Progress(update) = result {
        assert_eq!(update.progress_hundredths as f64 / 100.0, 45.0);
        assert_eq!(update.speed, Some("2.00MiB/s".to_string()));
        assert_eq!(update.eta, Some("00:05".to_string()));
        assert_eq!(update.total_bytes, Some(10485760));
        assert_eq!(update.downloaded_bytes, Some(4718592));
    } else {
        panic!("Expected Progress, got {:?}", result);
    }
}

#[test]
fn test_parse_progress_with_tilde() {
    let parser = Parser::new();
    let line = "[download]  23.5% of ~1.23GiB at  5.67MiB/s ETA 03:45";
    let result = parser.parse_line(line);

    if let ParseResult::Progress(update) = result {
        assert_eq!(update.progress_hundredths as f64 / 100.0, 23.5);
        assert_eq!(update.speed, Some("5.67MiB/s".to_string()));
        assert_eq!(update.eta, Some("03:45".to_string()));
    } else {
        panic!("Expected Progress, got {:?}", result);
    }
}

#[test]
fn test_parse_non_matching_line() {
    let parser = Parser::new();
    assert_eq!(parser.parse_line("[info] Extracting URL"), ParseResult::Ignore);
    assert_eq!(parser.parse_line(""), ParseResult::Ignore);
}

#[test]
fn test_parse_filename() {
    let parser = Parser::new();
    let line = "[download] Destination: video.mp4";
    assert_eq!(parser.parse_line(line), ParseResult::Filename("video.mp4".to_string()));

    let line_with_path = "[download] Destination: C:\\Downloads\\video.mp4";
    assert_eq!(
        parser.parse_line(line_with_path),
        ParseResult::Filename("C:\\Downloads\\video.mp4".to_string())
    );
}

#[test]
fn test_parse_size() {
    assert_eq!(parse_size("1.00KiB"), Some(1024));
    assert_eq!(parse_size("1.5MiB"), Some(1572864));
    assert_eq!(parse_size("2.00GiB"), Some(2147483648));
}

#[test]
fn test_parse_size_edge_cases() {
    assert_eq!(parse_size("0.00MiB"), Some(0));
    assert!(parse_size("unknown").is_none());
    assert!(parse_size("").is_none());
}

#[test]
fn test_parse_completion_line() {
    let parser = Parser::new();
    let line = "[download] 100% of 10.00MiB in 00:03";
    let result = parser.parse_line(line);

    if let ParseResult::Progress(update) = result {
        assert_eq!(update.progress_hundredths as f64 / 100.0, 100.0);
        assert_eq!(update.total_bytes, Some(10485760));
        assert_eq!(update.downloaded_bytes, Some(10485760));
        assert_eq!(update.speed, None);
        assert_eq!(update.eta, None);
    } else {
        panic!("Expected Progress, got {:?}", result);
    }
}

#[test]
fn test_parse_completion_line_with_decimal() {
    let parser = Parser::new();
    let line = "[download] 100.0% of 5.50GiB in 01:23:45";
    let result = parser.parse_line(line);

    if let ParseResult::Progress(update) = result {
        assert_eq!(update.progress_hundredths as f64 / 100.0, 100.0);
        assert!(update.total_bytes.is_some());
        assert_eq!(update.downloaded_bytes, update.total_bytes);
    } else {
        panic!("Expected Progress, got {:?}", result);
    }
}

#[test]
fn test_parse_merger_line() {
    let parser = Parser::new();
    let line = "[Merger] Merging formats into \"My Cool Video.mkv\"";
    assert_eq!(
        parser.parse_line(line),
        ParseResult::MergedFilename("My Cool Video.mkv".to_string())
    );
}

#[test]
fn test_parse_merger_line_with_path() {
    let parser = Parser::new();
    let line = "[Merger] Merging formats into \"C:\\Downloads\\video.webm\"";
    assert_eq!(
        parser.parse_line(line),
        ParseResult::MergedFilename("C:\\Downloads\\video.webm".to_string())
    );
}

#[test]
fn progress_line_scenario_values() {
    let parser = Parser::new();
    match parser.parse_line("[download]  45.0% of 10.00MiB at  2.00MiB/s ETA 00:05") {
        ParseResult::Progress(u) => {
            assert_eq!(u.progress_hundredths, 4500);
            assert_eq!(u.total_bytes, Some(10_485_760));
            assert_eq!(u.downloaded_bytes, Some(4_718_592));
        }
        other => panic!("unexpected {:?}", other),
    }
    assert_eq!(
        parser.parse_line("[Merger] Merging formats into \"Out.mkv\""),
        ParseResult::MergedFilename("Out.mkv".to_string())
    );
    match parser.parse_line("[download] 100% of 10.00MiB in 00:03") {
        ParseResult::Progress(u) => {
            assert_eq!(u.progress_hundredths, 10000);
            assert_eq!(u.total_bytes, Some(10_485_760));
            assert_eq!(u.downloaded_bytes, Some(10_485_760));
            assert_eq!(u.speed, None);
            assert_eq!(u.eta, None);
        }
        other => panic!("unexpected {:?}", other),
    }
}

#[test]
fn size_units_and_rounding() {
    assert_eq!(parse_size("1KB"), Some(1024));
    assert_eq!(parse_size("1MB"), Some(1_048_576));
    assert_eq!(parse_size("1.5TiB"), Some(1_649_267_441_664));
    assert_eq!(parse_size("0.001KiB"), Some(1));
    assert_eq!(parse_size("123B"), None);
    assert_eq!(parse_size("1.MiB"), None);
    assert_eq!(parse_size("12345678901234567890KiB"), None);
}

#[test]
fn progress_with_unknown_size() {
    let parser = Parser::new();
    match parser.parse_line("[download]  12.5% of Unknown at  1.00MiB/s ETA 00:10") {
        ParseResult::Progress(u) => {
            assert_eq!(u.progress_hundredths, 1250);
            assert_eq!(u.total_bytes, None);
            assert_eq!(u.downloaded_bytes, None);
        }
        other => panic!("unexpected {:?}", other),
    }
}

#[test]
fn destination_trailing_newline_is_dropped() {
    let parser = Parser::new();
    assert_eq!(
        parser.parse_line("[download] Destination: My Video.mp4\r\n"),
        ParseResult::Filename("My Video.mp4".to_string())
    );
}

#[test]
fn size_is_found_inside_text() {
    assert_eq!(parse_size("a1KiB"), Some(1024));
    assert_eq!(parse_size("1.5MiB/s"), Some(1_572_864));
    assert_eq!(parse_size("~2GB left"), Some(2_147_483_648));
    assert_eq!(parse_size("1.00MB"), parse_size("1.00MiB"));
    assert_eq!(parse_size("x 3 KiB 4KiB"), Some(4096));
    assert_eq!(parse_size("5KiX"), None);
}
