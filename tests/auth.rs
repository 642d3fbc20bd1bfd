use video_downloader_pro::auth::{find_netscape_cookie, UsernameExtractor};

const JAR: &str = "# Netscape HTTP Cookie File\n.instagram.com\tTRUE\t/\tTRUE\t0\tds_user_id\t4242\r\n.instagram.com\tTRUE\t/\tTRUE\t0\tds_user\tjane\n.x.com\tTRUE\t/\tTRUE\t0\ttwid\tu%3D1234\n.tiktok.com\tTRUE\t/\tTRUE\t0\tuid_tt\t77";

#[test]
fn netscape_lookup() {
    assert_eq!(find_netscape_cookie(JAR, "ds_user_id"), Some("4242".to_string()));
    assert_eq!(find_netscape_cookie(JAR, "uid_tt"), Some("77".to_string()));
    assert_eq!(find_netscape_cookie(JAR, "missing"), None);
    assert_eq!(find_netscape_cookie("a\tb\tc", "b"), None);
}

#[test]
fn usernames_by_platform() {
    assert_eq!(UsernameExtractor::extract_from_netscape(JAR, "instagram"), Some("jane".to_string()));
    assert_eq!(UsernameExtractor::extract_from_netscape(JAR, "x"), Some("1234".to_string()));
    assert_eq!(UsernameExtractor::extract_from_netscape(JAR, "twitter"), Some("1234".to_string()));
    assert_eq!(UsernameExtractor::extract_from_netscape(JAR, "tiktok"), Some("77".to_string()));
    assert_eq!(UsernameExtractor::extract_from_netscape(JAR, "youtube"), None);
}

#[test]
fn usernames_from_pairs() {
    let pairs = vec![
        ("user_id".to_string(), "9".to_string()),
        ("twid".to_string(), "v%3D5".to_string()),
    ];
    assert_eq!(UsernameExtractor::extract_from_pairs(&pairs, "tiktok"), Some("9".to_string()));
    assert_eq!(UsernameExtractor::extract_from_pairs(&pairs, "x"), Some("v=5".to_string()));
    assert_eq!(UsernameExtractor::extract_from_pairs(&pairs, "instagram"), None);
}
