//! One download attempt: the downloader's command line, the handling of its
//! output, and the outcome that the attempt reports.
use vstd::prelude::*;

use crate::download::parser::{line_event, opt_str_view, LineEvent, ParseResult, Parser};
use crate::queue::task::{any_status, guarded, keeps_terminal, writes_at_most, TaskUpdate};
use crate::text::{
    chars_of, contains, skip_ws_at, slice_string, str_contains, trim, trimmed_len_of,
};

verus! {

/// Minimum time between two progress reports, in milliseconds.
pub const PROGRESS_THROTTLE_MS: u64 = 500;

/// Number of trailing stderr lines that make up a failure message.
pub const STDERR_TAIL_LINES: usize = 5;

#[derive(Debug, Clone, PartialEq, Eq)]
pub struct DownloadResult {
    pub total_bytes: Option<u64>,
    pub downloaded_bytes: u64,
    pub filename: Option<String>,
}

#[derive(Debug, Clone, PartialEq, Eq)]
pub enum DownloadError {
    Cancelled { total_bytes: Option<u64>, downloaded_bytes: u64, filename: Option<String> },
    Failed {
        message: String,
        total_bytes: Option<u64>,
        downloaded_bytes: u64,
        filename: Option<String>,
    },
}

/// The platform whose cookies a URL needs, by substring of the URL.
pub open spec fn platform_of(url: Seq<char>) -> Option<Seq<char>> {
    if contains(url, "youtube.com"@) || contains(url, "youtu.be"@) {
        Some("youtube"@)
    } else if contains(url, "tiktok.com"@) {
        Some("tiktok"@)
    } else if contains(url, "instagram.com"@) {
        Some("instagram"@)
    } else if contains(url, "x.com"@) || contains(url, "twitter.com"@) {
        Some("x"@)
    } else {
        None
    }
}

pub open spec fn opt_static_view(o: Option<&'static str>) -> Option<Seq<char>> {
    match o {
        Some(s) => Some(s@),
        None => None,
    }
}

pub fn detect_platform(url: &str) -> (r: Option<&'static str>)
    ensures
        opt_static_view(r) == platform_of(url@),
{
    if str_contains(url, "youtube.com") || str_contains(url, "youtu.be") {
        Some("youtube")
    } else if str_contains(url, "tiktok.com") {
        Some("tiktok")
    } else if str_contains(url, "instagram.com") {
        Some("instagram")
    } else if str_contains(url, "x.com") || str_contains(url, "twitter.com") {
        Some("x")
    } else {
        None
    }
}

pub open spec fn strings_view(v: Seq<String>) -> Seq<Seq<char>> {
    v.map_values(|s: String| s@)
}

pub open spec fn opt_pair(flag: Seq<char>, v: Option<Seq<char>>) -> Seq<Seq<char>> {
    match v {
        Some(x) => seq![flag, x],
        None => Seq::empty(),
    }
}

/// The downloader's arguments for one attempt.
pub open spec fn download_arg_list(
    output_dir: Seq<char>,
    js_runtime_path: Seq<char>,
    cookie_file: Option<Seq<char>>,
    format_selection: Option<Seq<char>>,
    url: Seq<char>,
) -> Seq<Seq<char>> {
    seq![
        "--newline"@,
        "--no-playlist"@,
        "-c"@,
        "-P"@,
        output_dir,
        "--output"@,
        "%(title)s.%(ext)s"@,
        "--limit-rate"@,
        "5M"@,
        "--js-runtimes"@,
        "quickjs:"@ + js_runtime_path,
    ] + opt_pair("--cookies"@, cookie_file) + opt_pair("-f"@, format_selection) + seq![url]
}

/// The downloader's arguments for describing a URL without downloading it.
pub open spec fn metadata_arg_list(
    js_runtime_path: Seq<char>,
    cookie_file: Option<Seq<char>>,
    url: Seq<char>,
) -> Seq<Seq<char>> {
    seq![
        "--dump-single-json"@,
        "--flat-playlist"@,
        "--no-warnings"@,
        "-f"@,
        "bestvideo+bestaudio/best"@,
        "--js-runtimes"@,
        "deno:"@ + js_runtime_path,
    ] + opt_pair("--cookies"@, cookie_file) + seq![url]
}

pub open spec fn opt_ref_view(o: Option<&str>) -> Option<Seq<char>> {
    match o {
        Some(s) => Some(s@),
        None => None,
    }
}

fn push_str(v: &mut Vec<String>, s: &str)
    ensures
        strings_view(final(v)@) == strings_view(old(v)@).push(s@),
{
    v.push(s.to_owned());
    assert(strings_view(final(v)@) =~= strings_view(old(v)@).push(s@));
}

fn push_opt_pair(v: &mut Vec<String>, flag: &str, o: Option<&str>)
    ensures
        strings_view(final(v)@) == strings_view(old(v)@) + opt_pair(flag@, opt_ref_view(o)),
{
    match o {
        Some(x) => {
            push_str(v, flag);
            push_str(v, x);
            assert(strings_view(final(v)@) =~= strings_view(old(v)@) + opt_pair(
                flag@,
                opt_ref_view(o),
            ));
        },
        None => {
            assert(strings_view(old(v)@) + opt_pair(flag@, opt_ref_view(o)) =~= strings_view(
                old(v)@,
            ));
        },
    }
}

/// Builds the downloader's command line for one attempt.
pub fn download_args(
    output_dir: &str,
    js_runtime_path: &str,
    cookie_file: Option<&str>,
    format_selection: Option<&str>,
    url: &str,
) -> (r: Vec<String>)
    ensures
        strings_view(r@) == download_arg_list(
            output_dir@,
            js_runtime_path@,
            opt_ref_view(cookie_file),
            opt_ref_view(format_selection),
            url@,
        ),
{
    let mut v: Vec<String> = Vec::new();
    push_str(&mut v, "--newline");
    push_str(&mut v, "--no-playlist");
    push_str(&mut v, "-c");
    push_str(&mut v, "-P");
    push_str(&mut v, output_dir);
    push_str(&mut v, "--output");
    push_str(&mut v, "%(title)s.%(ext)s");
    push_str(&mut v, "--limit-rate");
    push_str(&mut v, "5M");
    push_str(&mut v, "--js-runtimes");
    let js = "quickjs:".to_owned().concat(js_runtime_path);
    push_str(&mut v, js.as_str());
    push_opt_pair(&mut v, "--cookies", cookie_file);
    push_opt_pair(&mut v, "-f", format_selection);
    push_str(&mut v, url);
    assert(strings_view(v@) =~= download_arg_list(
        output_dir@,
        js_runtime_path@,
        opt_ref_view(cookie_file),
        opt_ref_view(format_selection),
        url@,
    ));
    v
}

/// Builds the downloader's command line for describing a URL.
pub fn metadata_args(js_runtime_path: &str, cookie_file: Option<&str>, url: &str) -> (r: Vec<
    String,
>)
    ensures
        strings_view(r@) == metadata_arg_list(js_runtime_path@, opt_ref_view(cookie_file), url@),
{
    let mut v: Vec<String> = Vec::new();
    push_str(&mut v, "--dump-single-json");
    push_str(&mut v, "--flat-playlist");
    push_str(&mut v, "--no-warnings");
    push_str(&mut v, "-f");
    push_str(&mut v, "bestvideo+bestaudio/best");
    push_str(&mut v, "--js-runtimes");
    let js = "deno:".to_owned().concat(js_runtime_path);
    push_str(&mut v, js.as_str());
    push_opt_pair(&mut v, "--cookies", cookie_file);
    push_str(&mut v, url);
    assert(strings_view(v@) =~= metadata_arg_list(
        js_runtime_path@,
        opt_ref_view(cookie_file),
        url@,
    ));
    v
}

/// A progress report: what is sent to the user interface and written to the
/// task row.
pub struct ProgressEmission {
    pub progress_hundredths: u64,
    pub speed: String,
    pub eta: String,
    pub downloaded_bytes: u64,
    pub total_bytes: Option<u64>,
    pub update: TaskUpdate,
}

/// How an attempt ended, and the temporary cookie file that must be removed
/// before the attempt returns.
pub struct AttemptEnd {
    pub outcome: Result<DownloadResult, DownloadError>,
    pub remove_cookie_file: Option<String>,
}

/// The state of one running attempt.
pub struct Attempt {
    pub total_bytes: Option<u64>,
    pub downloaded_bytes: u64,
    pub filename: Option<String>,
    pub merged_filename: Option<String>,
    pub last_emit_ms: u64,
    /// The highest progress reported so far, in hundredths of a percent.
    pub reported_hundredths: u64,
    pub cookie_file: Option<String>,
    pub stderr_lines: Vec<String>,
}

pub open spec fn joined_lines(s: Seq<Seq<char>>) -> Seq<char>
    decreases s.len(),
{
    if s.len() == 0 {
        Seq::empty()
    } else if s.len() == 1 {
        s[0]
    } else {
        joined_lines(s.drop_last()) + "\n"@ + s.last()
    }
}

/// The last `n` elements of `s` (all of them where there are fewer).
pub open spec fn last_n<T>(s: Seq<T>, n: nat) -> Seq<T> {
    if s.len() <= n {
        s
    } else {
        s.subrange(s.len() - n, s.len() as int)
    }
}

pub open spec fn max_u64(a: u64, b: u64) -> u64 {
    if a >= b {
        a
    } else {
        b
    }
}

/// Whether a progress event at `now` is reported, the last report having
/// been at `last`: after the throttle interval, or whenever it says 100%.
pub open spec fn reports(last: u64, now: u64, hundredths: u64) -> bool {
    now as int >= last as int + PROGRESS_THROTTLE_MS as int || hundredths >= 10000
}

impl Attempt {
    pub open spec fn stderr_view(&self) -> Seq<Seq<char>> {
        strings_view(self.stderr_lines@)
    }

    /// The message of a failed attempt: the last stderr lines, or the exit
    /// status where stderr said nothing.
    pub open spec fn failure_text(&self, exit_status: Seq<char>) -> Seq<char> {
        if self.stderr_lines@.len() == 0 {
            "yt-dlp exited with status: "@ + exit_status
        } else {
            joined_lines(last_n(self.stderr_view(), STDERR_TAIL_LINES as nat))
        }
    }

    /// A fresh attempt started at `now`, using `cookie_file` if any.
    pub fn new(now_ms: u64, cookie_file: Option<String>) -> (r: Attempt)
        ensures
            r.total_bytes is None,
            r.downloaded_bytes == 0,
            r.filename is None,
            r.merged_filename is None,
            r.last_emit_ms == now_ms,
            r.reported_hundredths == 0,
            r.cookie_file == cookie_file,
            r.stderr_lines@.len() == 0,
    {
        Attempt {
            total_bytes: None,
            downloaded_bytes: 0,
            filename: None,
            merged_filename: None,
            last_emit_ms: now_ms,
            reported_hundredths: 0,
            cookie_file,
            stderr_lines: Vec::new(),
        }
    }

    /// Takes one line of the downloader's stdout, read at `now_ms`.
    /// Progress is reported at most once per throttle interval (a 100% line
    /// always), and what is reported never decreases within the attempt.
    pub fn on_stdout_line(&mut self, parser: &Parser, line: &str, now_ms: u64) -> (r: Option<
        ProgressEmission,
    >)
        ensures
            final(self).cookie_file == old(self).cookie_file,
            final(self).stderr_lines == old(self).stderr_lines,
            final(self).reported_hundredths >= old(self).reported_hundredths,
            r is Some ==> r->0.progress_hundredths >= old(self).reported_hundredths
                && final(self).reported_hundredths == r->0.progress_hundredths,
            match line_event(line@) {
                LineEvent::Progress { hundredths, downloaded, total, speed, eta } => {
                    &&& final(self).total_bytes == (if total is Some {
                        total
                    } else {
                        old(self).total_bytes
                    })
                    &&& final(self).downloaded_bytes == (match downloaded {
                        Some(d) => d,
                        None => old(self).downloaded_bytes,
                    })
                    &&& final(self).filename == old(self).filename
                    &&& final(self).merged_filename == old(self).merged_filename
                    &&& if reports(old(self).last_emit_ms, now_ms, hundredths) {
                        &&& r is Some
                        &&& r->0.progress_hundredths == max_u64(
                            old(self).reported_hundredths,
                            hundredths,
                        )
                        &&& r->0.downloaded_bytes == final(self).downloaded_bytes
                        &&& r->0.total_bytes == final(self).total_bytes
                        &&& speed is Some ==> r->0.speed@ == speed->0
                        &&& eta is Some ==> r->0.eta@ == eta->0
                        &&& final(self).last_emit_ms == now_ms
                        &&& final(self).reported_hundredths == r->0.progress_hundredths
                        &&& keeps_terminal(r->0.update)
                        &&& writes_at_most(
                            r->0.update,
                            false,
                            true,
                            true,
                            true,
                            false,
                            false,
                            false,
                            false,
                            true,
                            true,
                        )
                        &&& r->0.update.speed is Some
                        &&& opt_str_view(r->0.update.speed->0) == speed
                        &&& r->0.update.eta is Some
                        &&& opt_str_view(r->0.update.eta->0) == eta
                        &&& r->0.update.progress_hundredths == Some(r->0.progress_hundredths)
                        &&& r->0.update.total_bytes == (match total {
                            Some(t) => Some(Some(t as i64)),
                            None => None,
                        })
                        &&& r->0.update.downloaded_bytes == (match downloaded {
                            Some(d) => Some(Some(d as i64)),
                            None => None,
                        })
                    } else {
                        &&& r is None
                        &&& final(self).last_emit_ms == old(self).last_emit_ms
                        &&& final(self).reported_hundredths == old(self).reported_hundredths
                    }
                },
                LineEvent::Filename(f) => {
                    &&& r is None
                    &&& final(self).filename is Some
                    &&& final(self).filename->0@ == f
                    &&& final(self).merged_filename == old(self).merged_filename
                    &&& final(self).total_bytes == old(self).total_bytes
                    &&& final(self).downloaded_bytes == old(self).downloaded_bytes
                    &&& final(self).reported_hundredths == old(self).reported_hundredths
                    &&& final(self).last_emit_ms == old(self).last_emit_ms
                },
                LineEvent::MergedFilename(f) => {
                    &&& r is None
                    &&& final(self).merged_filename is Some
                    &&& final(self).merged_filename->0@ == f
                    &&& final(self).filename == old(self).filename
                    &&& final(self).total_bytes == old(self).total_bytes
                    &&& final(self).downloaded_bytes == old(self).downloaded_bytes
                    &&& final(self).reported_hundredths == old(self).reported_hundredths
                    &&& final(self).last_emit_ms == old(self).last_emit_ms
                },
                LineEvent::Ignore => {
                    &&& r is None
                    &&& final(self).filename == old(self).filename
                    &&& final(self).merged_filename == old(self).merged_filename
                    &&& final(self).total_bytes == old(self).total_bytes
                    &&& final(self).downloaded_bytes == old(self).downloaded_bytes
                    &&& final(self).reported_hundredths == old(self).reported_hundredths
                    &&& final(self).last_emit_ms == old(self).last_emit_ms
                },
            },
    {
        match parser.parse_line(line) {
            ParseResult::Progress(p) => {
                if p.total_bytes.is_some() {
                    self.total_bytes = p.total_bytes;
                }
                if let Some(d) = p.downloaded_bytes {
                    self.downloaded_bytes = d;
                }
                let due = (now_ms >= self.last_emit_ms && now_ms - self.last_emit_ms
                    >= PROGRESS_THROTTLE_MS) || p.progress_hundredths >= 10000;
                if !due {
                    return None;
                }
                self.last_emit_ms = now_ms;
                if p.progress_hundredths > self.reported_hundredths {
                    self.reported_hundredths = p.progress_hundredths;
                }
                let mut update = guarded(any_status());
                update.progress_hundredths = Some(self.reported_hundredths);
                update.speed = Some(p.speed.clone());
                update.eta = Some(p.eta.clone());
                if let Some(d) = p.downloaded_bytes {
                    update.downloaded_bytes = Some(Some(d as i64));
                }
                if let Some(t) = p.total_bytes {
                    update.total_bytes = Some(Some(t as i64));
                }
                let speed = match p.speed {
                    Some(s) => s,
                    None => String::new(),
                };
                let eta = match p.eta {
                    Some(s) => s,
                    None => String::new(),
                };
                Some(
                    ProgressEmission {
                        progress_hundredths: self.reported_hundredths,
                        speed,
                        eta,
                        downloaded_bytes: self.downloaded_bytes,
                        total_bytes: self.total_bytes,
                        update,
                    },
                )
            },
            ParseResult::Filename(f) => {
                self.filename = Some(f);
                None
            },
            ParseResult::MergedFilename(f) => {
                self.merged_filename = Some(f);
                None
            },
            ParseResult::Ignore => None,
        }
    }

    /// Takes one line of the downloader's stderr; blank lines are dropped.
    pub fn on_stderr_line(&mut self, line: &str)
        ensures
            final(self).stderr_view() == (if trim(line@).len() == 0 {
                old(self).stderr_view()
            } else {
                old(self).stderr_view().push(trim(line@))
            }),
            final(self).cookie_file == old(self).cookie_file,
            final(self).total_bytes == old(self).total_bytes,
            final(self).downloaded_bytes == old(self).downloaded_bytes,
            final(self).filename == old(self).filename,
            final(self).merged_filename == old(self).merged_filename,
            final(self).reported_hundredths == old(self).reported_hundredths,
            final(self).last_emit_ms == old(self).last_emit_ms,
    {
        let t = trim_string(line);
        if t.unicode_len() > 0 {
            self.stderr_lines.push(t);
            assert(self.stderr_view() =~= old(self).stderr_view().push(trim(line@)));
        }
    }

    /// The file whose size on disk is the download's size: the merged output
    /// where streams were merged, else the last destination.
    pub fn result_filename(&self) -> (r: Option<String>)
        ensures
            r == (if self.merged_filename is Some {
                self.merged_filename
            } else {
                self.filename
            }),
    {
        match &self.merged_filename {
            Some(m) => Some(m.clone()),
            None => crate::queue::task::clone_opt_string(&self.filename),
        }
    }

    pub fn failure_message(&self, exit_status: &str) -> (r: String)
        ensures
            r@ == self.failure_text(exit_status@),
    {
        let n = self.stderr_lines.len();
        if n == 0 {
            return "yt-dlp exited with status: ".to_owned().concat(exit_status);
        }
        let start = if n > STDERR_TAIL_LINES {
            n - STDERR_TAIL_LINES
        } else {
            0
        };
        let ghost tail = last_n(self.stderr_view(), STDERR_TAIL_LINES as nat);
        assert(tail =~= self.stderr_view().subrange(start as int, n as int));
        let mut out = self.stderr_lines[start].clone();
        let mut i = start + 1;
        assert(self.stderr_view().subrange(start as int, i as int) =~= seq![
            self.stderr_view()[start as int],
        ]);
        while i < n
            invariant
                start < i <= n,
                n == self.stderr_lines@.len(),
                out@ == joined_lines(self.stderr_view().subrange(start as int, i as int)),
            decreases n - i,
        {
            let ghost prev = self.stderr_view().subrange(start as int, i as int);
            out = out.concat("\n");
            out = out.concat(self.stderr_lines[i].as_str());
            let ghost next = self.stderr_view().subrange(start as int, i + 1);
            assert(next.drop_last() =~= prev);
            i = i + 1;
        }
        out
    }

    /// The attempt was cancelled: the counters known so far go with it.
    pub fn cancelled(self) -> (r: AttemptEnd)
        ensures
            r.remove_cookie_file == self.cookie_file,
            r.outcome == Err::<DownloadResult, DownloadError>(
                DownloadError::Cancelled {
                    total_bytes: self.total_bytes,
                    downloaded_bytes: self.downloaded_bytes,
                    filename: self.filename,
                },
            ),
    {
        AttemptEnd {
            outcome: Err(
                DownloadError::Cancelled {
                    total_bytes: self.total_bytes,
                    downloaded_bytes: self.downloaded_bytes,
                    filename: self.filename,
                },
            ),
            remove_cookie_file: self.cookie_file,
        }
    }

    /// Reading the output failed, or the downloader could not be waited for.
    pub fn failed(self, message: String) -> (r: AttemptEnd)
        ensures
            r.remove_cookie_file == self.cookie_file,
            r.outcome == Err::<DownloadResult, DownloadError>(
                DownloadError::Failed {
                    message,
                    total_bytes: self.total_bytes,
                    downloaded_bytes: self.downloaded_bytes,
                    filename: self.filename,
                },
            ),
    {
        AttemptEnd {
            outcome: Err(
                DownloadError::Failed {
                    message,
                    total_bytes: self.total_bytes,
                    downloaded_bytes: self.downloaded_bytes,
                    filename: self.filename,
                },
            ),
            remove_cookie_file: self.cookie_file,
        }
    }

    /// The downloader exited. On success the size is the one found on disk
    /// for `result_filename` (`file_size`), never the streamed estimate.
    pub fn exited(self, success: bool, exit_status: &str, file_size: Option<u64>) -> (r: AttemptEnd)
        ensures
            r.remove_cookie_file == self.cookie_file,
            success ==> r.outcome is Ok && r.outcome->Ok_0.total_bytes == file_size
                && r.outcome->Ok_0.downloaded_bytes == (match file_size {
                Some(s) => s,
                None => 0,
            }) && r.outcome->Ok_0.filename == (if self.merged_filename is Some {
                self.merged_filename
            } else {
                self.filename
            }),
            !success ==> r.outcome is Err && match r.outcome->Err_0 {
                DownloadError::Failed { message, total_bytes, downloaded_bytes, filename } => {
                    &&& message@ == self.failure_text(exit_status@)
                    &&& total_bytes == self.total_bytes
                    &&& downloaded_bytes == self.downloaded_bytes
                    &&& filename == self.filename
                },
                DownloadError::Cancelled { .. } => false,
            },
    {
        if success {
            let filename = self.result_filename();
            let downloaded = match file_size {
                Some(s) => s,
                None => 0,
            };
            AttemptEnd {
                outcome: Ok(DownloadResult { total_bytes: file_size, downloaded_bytes: downloaded, filename }),
                remove_cookie_file: self.cookie_file,
            }
        } else {
            let message = self.failure_message(exit_status);
            self.failed(message)
        }
    }
}

/// The attempt failed before the downloader ran (its binary is missing,
/// the description step failed).
pub fn failed_before_start(cookie_file: Option<String>, message: String) -> (r: AttemptEnd)
    ensures
        r.remove_cookie_file == cookie_file,
        r.outcome == Err::<DownloadResult, DownloadError>(
            DownloadError::Failed { message, total_bytes: None, downloaded_bytes: 0, filename: None },
        ),
{
    AttemptEnd {
        outcome: Err(
            DownloadError::Failed { message, total_bytes: None, downloaded_bytes: 0, filename: None },
        ),
        remove_cookie_file: cookie_file,
    }
}

/// `line` without leading and trailing whitespace.
pub fn trim_string(line: &str) -> (r: String)
    ensures
        r@ == trim(line@),
{
    let s = chars_of(line);
    let a = skip_ws_at(&s, 0);
    let b = trimmed_len_of(&s);
    if a < b {
        slice_string(line, a, b)
    } else {
        String::new()
    }
}

} // verus!
