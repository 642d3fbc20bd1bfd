use video_downloader_pro::auth::UsernameFetcher;
use video_downloader_pro::import::{
    browser_arg, import_args, import_failure_message, import_method, imported_cookies,
    platform_home_url, platform_login_url,
};
use video_downloader_pro::session::{
    session_after_delete, session_after_set, usable_cookies, SessionStatus,
};

#[test]
fn cookie_header_from_jar() {
    let jar = "# comment\ndomain\tTRUE\t/\tFALSE\t0\tname\tvalue\r\n\nshort\tline\n.x.com\tTRUE\t/\tTRUE\t0\tauth_token\tabc";
    assert_eq!(UsernameFetcher::cookie_header(jar), "name=value; auth_token=abc");
    assert_eq!(UsernameFetcher::cookie_header(""), "");
}

#[test]
fn screen_name_scan() {
    let page = r#"{"screen_name":"home","x":1,"screen_name":"","screen_name":"jane_doe","y":2}"#;
    assert_eq!(UsernameFetcher::screen_name_in_page(page), Some("jane_doe".to_string()));
    assert_eq!(UsernameFetcher::screen_name_in_page("no handle here"), None);
    assert_eq!(UsernameFetcher::screen_name_in_page(r#""screen_name":"login""#), None);
}

#[test]
fn browser_import_decisions() {
    assert_eq!(platform_home_url("x"), Some("https://x.com"));
    assert_eq!(platform_home_url("vimeo"), None);
    assert_eq!(platform_login_url("tiktok"), Some("https://www.tiktok.com/login"));
    assert_eq!(browser_arg("webview", "/tmp/p"), "chromium:/tmp/p");
    assert_eq!(browser_arg("firefox", "/tmp/p"), "firefox");
    assert_eq!(
        import_args("firefox", "/tmp/c.txt", "https://x.com"),
        vec!["--cookies-from-browser", "firefox", "--cookies", "/tmp/c.txt", "--skip-download", "--verbose", "https://x.com"]
    );
    assert_eq!(import_method("chrome"), "browser_import:chrome");
    assert_eq!(
        import_failure_message("ERROR: could not open database"),
        "Please close the browser/webview logic window and try again."
    );
    assert_eq!(import_failure_message("ERROR: no cookies"), "Failed to import cookies: ERROR: no cookies");
    assert_eq!(imported_cookies(" \n".to_string()), Err("Imported cookie file was empty.".to_string()));
    assert_eq!(imported_cookies("a\tb".to_string()), Ok("a\tb".to_string()));
}

#[test]
fn session_rows() {
    let row = session_after_set(None, "youtube".to_string(), vec![1, 2, 3], "manual".to_string(), 50);
    assert_eq!(row.status, SessionStatus::Active);
    assert_eq!(row.created_at, 50);
    assert_eq!(usable_cookies(&Some(row)), Some(&vec![1u8, 2, 3]));
    let row = session_after_set(None, "youtube".to_string(), vec![9], "manual".to_string(), 50);
    let again = session_after_set(Some(row), "ignored".to_string(), vec![7], "webview".to_string(), 80);
    assert_eq!(again.platform_id, "youtube");
    assert_eq!(again.created_at, 50);
    assert_eq!(again.updated_at, 80);
    let gone = session_after_delete(again, 90);
    assert_eq!(gone.status.as_str(), "NONE");
    assert_eq!(gone.encrypted_cookies, None);
    assert_eq!(usable_cookies(&Some(gone)), None);
    assert_eq!(SessionStatus::parse("EXPIRED"), Some(SessionStatus::Expired));
}
