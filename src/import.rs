//! Importing a platform's cookies from a browser through the downloader.
use vstd::prelude::*;

use crate::download::worker::{strings_view, trim_string};
use crate::text::{contains, str_contains, str_eq, trim};

verus! {

/// The page whose cookies are imported for `platform`.
pub open spec fn home_url(platform: Seq<char>) -> Option<Seq<char>> {
    if platform == "youtube"@ {
        Some("https://www.youtube.com"@)
    } else if platform == "tiktok"@ {
        Some("https://www.tiktok.com"@)
    } else if platform == "instagram"@ {
        Some("https://www.instagram.com"@)
    } else if platform == "x"@ {
        Some("https://x.com"@)
    } else {
        None
    }
}

/// The sign-in page of `platform`.
pub open spec fn login_url(platform: Seq<char>) -> Option<Seq<char>> {
    if platform == "youtube"@ {
        Some("https://accounts.google.com/ServiceLogin?service=youtube"@)
    } else if platform == "tiktok"@ {
        Some("https://www.tiktok.com/login"@)
    } else if platform == "instagram"@ {
        Some("https://www.instagram.com/accounts/login/"@)
    } else if platform == "x"@ {
        Some("https://x.com/i/flow/login"@)
    } else {
        None
    }
}

pub open spec fn static_view(o: Option<&'static str>) -> Option<Seq<char>> {
    match o {
        Some(s) => Some(s@),
        None => None,
    }
}

pub fn platform_home_url(platform: &str) -> (r: Option<&'static str>)
    ensures
        static_view(r) == home_url(platform@),
{
    if str_eq(platform, "youtube") {
        Some("https://www.youtube.com")
    } else if str_eq(platform, "tiktok") {
        Some("https://www.tiktok.com")
    } else if str_eq(platform, "instagram") {
        Some("https://www.instagram.com")
    } else if str_eq(platform, "x") {
        Some("https://x.com")
    } else {
        None
    }
}

pub fn platform_login_url(platform: &str) -> (r: Option<&'static str>)
    ensures
        static_view(r) == login_url(platform@),
{
    if str_eq(platform, "youtube") {
        Some("https://accounts.google.com/ServiceLogin?service=youtube")
    } else if str_eq(platform, "tiktok") {
        Some("https://www.tiktok.com/login")
    } else if str_eq(platform, "instagram") {
        Some("https://www.instagram.com/accounts/login/")
    } else if str_eq(platform, "x") {
        Some("https://x.com/i/flow/login")
    } else {
        None
    }
}

/// The downloader's `--cookies-from-browser` value: the application's own
/// web view is read as a Chromium profile copied to `profile_dir`.
pub open spec fn browser_source(browser: Seq<char>, profile_dir: Seq<char>) -> Seq<char> {
    if browser == "webview"@ {
        "chromium:"@ + profile_dir
    } else {
        browser
    }
}

pub fn browser_arg(browser: &str, profile_dir: &str) -> (r: String)
    ensures
        r@ == browser_source(browser@, profile_dir@),
{
    if str_eq(browser, "webview") {
        "chromium:".to_owned().concat(profile_dir)
    } else {
        browser.to_owned()
    }
}

/// The downloader's arguments for exporting a browser's cookies for `url`
/// into `cookie_file`.
pub open spec fn import_arg_list(source: Seq<char>, cookie_file: Seq<char>, url: Seq<char>) -> Seq<
    Seq<char>,
> {
    seq![
        "--cookies-from-browser"@,
        source,
        "--cookies"@,
        cookie_file,
        "--skip-download"@,
        "--verbose"@,
        url,
    ]
}

pub fn import_args(source: &str, cookie_file: &str, url: &str) -> (r: Vec<String>)
    ensures
        strings_view(r@) == import_arg_list(source@, cookie_file@, url@),
{
    let r = vec![
        "--cookies-from-browser".to_owned(),
        source.to_owned(),
        "--cookies".to_owned(),
        cookie_file.to_owned(),
        "--skip-download".to_owned(),
        "--verbose".to_owned(),
        url.to_owned(),
    ];
    assert(strings_view(r@) =~= import_arg_list(source@, cookie_file@, url@));
    r
}

/// The provenance recorded for cookies imported from `browser`.
pub fn import_method(browser: &str) -> (r: String)
    ensures
        r@ == "browser_import:"@ + browser@,
{
    "browser_import:".to_owned().concat(browser)
}

/// The message for a failed import: a locked browser profile asks the user
/// to close the browser, anything else reports what the downloader said.
pub open spec fn import_failure_text(stderr: Seq<char>) -> Seq<char> {
    if contains(stderr, "permission denied"@) || contains(stderr, "Device or resource busy"@)
        || contains(stderr, "open"@) {
        "Please close the browser/webview logic window and try again."@
    } else {
        "Failed to import cookies: "@ + stderr
    }
}

pub fn import_failure_message(stderr: &str) -> (r: String)
    ensures
        r@ == import_failure_text(stderr@),
{
    if str_contains(stderr, "permission denied") || str_contains(stderr, "Device or resource busy")
        || str_contains(stderr, "open") {
        "Please close the browser/webview logic window and try again.".to_owned()
    } else {
        "Failed to import cookies: ".to_owned().concat(stderr)
    }
}

/// The exported cookie jar, refused where it holds nothing but whitespace.
pub fn imported_cookies(content: String) -> (r: Result<String, String>)
    ensures
        trim(content@).len() == 0 <==> r is Err,
        match r {
            Ok(c) => c == content,
            Err(m) => m@ == "Imported cookie file was empty."@,
        },
{
    let t = trim_string(content.as_str());
    if t.unicode_len() == 0 {
        Err("Imported cookie file was empty.".to_owned())
    } else {
        Ok(content)
    }
}

} // verus!
