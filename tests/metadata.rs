use video_downloader_pro::metadata::{
    parse_date, plan_metadata, MetadataError, Upsert, YtDlpOutput, YtDlpPlaylist, YtDlpVideo,
};

fn video(id: &str, title: &str) -> YtDlpVideo {
    YtDlpVideo {
        id: id.to_string(),
        title: title.to_string(),
        description: None,
        uploader: None,
        uploader_id: None,
        uploader_url: None,
        channel: None,
        channel_id: None,
        channel_url: None,
        upload_date: None,
        duration_secs: None,
        view_count: None,
        like_count: None,
        webpage_url: None,
        original_url: None,
        thumbnails: None,
        formats: None,
        playlist_index: None,
        playlist_title: None,
        playlist_id: None,
        raw_json: None,
    }
}

#[test]
fn test_save_video_metadata() {
    let mut v = video("video123", "Test Video");
    v.description = Some("Project description".to_string());
    v.uploader = Some("Test Channel".to_string());
    v.uploader_id = Some("channel123".to_string());
    v.uploader_url = Some("https://youtube.com/@channel123".to_string());
    v.webpage_url = Some("https://youtube.com/watch?v=video123".to_string());
    v.upload_date = Some("20230101".to_string());
    let plan = plan_metadata(&YtDlpOutput::Video(v));
    assert_eq!(plan.saved_id, "video123");
    assert_eq!(plan.upserts.len(), 2);
    match &plan.upserts[0] {
        Upsert::Creator { id, name, platform_id, .. } => {
            assert_eq!(id, "channel123");
            assert_eq!(name, "Test Channel");
            assert_eq!(platform_id, "youtube");
        }
        other => panic!("unexpected {:?}", other),
    }
    match &plan.upserts[1] {
        Upsert::Post { id, creator_id, title, status, posted_at, source_id, .. } => {
            assert_eq!(id, "video123");
            assert_eq!(creator_id, "channel123");
            assert_eq!(title, &Some("Test Video".to_string()));
            assert_eq!(status, "PENDING");
            assert_eq!(*posted_at, Some(1_672_531_200_000));
            assert_eq!(source_id, &None);
        }
        other => panic!("unexpected {:?}", other),
    }
}

#[test]
fn test_save_playlist_metadata() {
    let mut v1 = video("v1", "Video 1");
    v1.webpage_url = Some("url1".to_string());
    v1.uploader_id = Some("c1".to_string());
    v1.uploader = Some("Channel 1".to_string());
    let p = YtDlpPlaylist {
        id: "playlist1".to_string(),
        title: "My Playlist".to_string(),
        description: Some("Desc".to_string()),
        entries: Some(vec![YtDlpOutput::Video(v1)]),
        uploader: Some("Playlist Creator".to_string()),
        uploader_id: Some("pc1".to_string()),
        webpage_url: Some("http://playlist".to_string()),
    };
    let plan = plan_metadata(&YtDlpOutput::Playlist(p));
    assert_eq!(plan.saved_id, "playlist1");
    assert_eq!(plan.upserts.len(), 4);
    match &plan.upserts[0] {
        Upsert::Creator { id, name, .. } => {
            assert_eq!(id, "pc1");
            assert_eq!(name, "Playlist Creator");
        }
        other => panic!("unexpected {:?}", other),
    }
    match &plan.upserts[1] {
        Upsert::Source { id, creator_id, source_type, name, .. } => {
            assert_eq!(id, "playlist1");
            assert_eq!(creator_id, &Some("pc1".to_string()));
            assert_eq!(source_type, "PLAYLIST");
            assert_eq!(name, "My Playlist");
        }
        other => panic!("unexpected {:?}", other),
    }
    match &plan.upserts[3] {
        Upsert::Post { id, source_id, creator_id, original_url, .. } => {
            assert_eq!(id, "v1");
            assert_eq!(original_url, "url1");
            assert_eq!(creator_id, "c1");
            assert_eq!(source_id, &Some("playlist1".to_string()));
        }
        other => panic!("unexpected {:?}", other),
    }
}

#[test]
fn untagged_video_and_nested_playlist() {
    let inner = YtDlpPlaylist {
        id: "inner".to_string(),
        title: "Inner".to_string(),
        description: None,
        entries: None,
        uploader: None,
        uploader_id: Some("only-id".to_string()),
        webpage_url: None,
    };
    let p = YtDlpPlaylist {
        id: "outer".to_string(),
        title: "Outer".to_string(),
        description: None,
        entries: Some(vec![YtDlpOutput::Playlist(inner), YtDlpOutput::VideoFallback(video("v9", "Nine"))]),
        uploader: None,
        uploader_id: Some("only-id".to_string()),
        webpage_url: None,
    };
    let plan = plan_metadata(&YtDlpOutput::Playlist(p));
    // No creator without both uploader id and name; the nested playlist is skipped.
    assert_eq!(plan.upserts.len(), 3);
    match &plan.upserts[0] {
        Upsert::Source { creator_id, url, .. } => {
            assert_eq!(creator_id, &None);
            assert_eq!(url, "");
        }
        other => panic!("unexpected {:?}", other),
    }
}

#[test]
fn unknown_uploader_and_dates() {
    let plan = plan_metadata(&YtDlpOutput::Video(video("x", "t")));
    match &plan.upserts[0] {
        Upsert::Creator { id, name, url, .. } => {
            assert_eq!(id, "unknown");
            assert_eq!(name, "Unknown");
            assert_eq!(url, "");
        }
        other => panic!("unexpected {:?}", other),
    }
    assert_eq!(parse_date(&Some("20230231".to_string())), None);
    assert_eq!(parse_date(&Some("19700102".to_string())), Some(86_400_000));
    assert_eq!(parse_date(&None), None);
    assert_eq!(MetadataError::Parse("bad".into()).message(), "JSON parse error: bad");
}
