//! The external binaries: their names, how their versions are read, and how
//! failures to run them are reported.
use vstd::prelude::*;

use crate::text::{
    chars_of, contains, find_char, find_char_at, slice_string, starts_with, str_contains,
    str_starts_with, trim,
};
use crate::download::parser::{tok, tok_text};
use crate::download::worker::trim_string;

verus! {

/// Identifies which sidecar binary to target.
#[derive(Debug, Clone, Copy, PartialEq, Eq, Structural)]
pub enum SidecarBinary {
    YtDlp,
    Ffmpeg,
    Qjs,
    Deno,
}

impl SidecarBinary {
    pub open spec fn name_text(self) -> Seq<char> {
        match self {
            SidecarBinary::YtDlp => "yt-dlp"@,
            SidecarBinary::Ffmpeg => "ffmpeg"@,
            SidecarBinary::Qjs => "qjs"@,
            SidecarBinary::Deno => "deno"@,
        }
    }

    pub open spec fn program_text(self) -> Seq<char> {
        match self {
            SidecarBinary::YtDlp => "binaries/yt-dlp"@,
            SidecarBinary::Ffmpeg => "binaries/ffmpeg"@,
            SidecarBinary::Qjs => "binaries/qjs"@,
            SidecarBinary::Deno => "binaries/deno"@,
        }
    }

    pub open spec fn version_flag(self) -> Seq<char> {
        match self {
            SidecarBinary::Ffmpeg => "-version"@,
            _ => "--version"@,
        }
    }

    /// The sidecar program name as the application registers it.
    pub fn program_name(&self) -> (r: &'static str)
        ensures
            r@ == self.program_text(),
    {
        match self {
            SidecarBinary::YtDlp => "binaries/yt-dlp",
            SidecarBinary::Ffmpeg => "binaries/ffmpeg",
            SidecarBinary::Qjs => "binaries/qjs",
            SidecarBinary::Deno => "binaries/deno",
        }
    }

    /// The arguments that make the binary print its version.
    pub fn version_args(&self) -> (r: &'static [&'static str])
        ensures
            r@.len() == 1,
            r@[0]@ == self.version_flag(),
    {
        match self {
            SidecarBinary::Ffmpeg => &["-version"],
            _ => &["--version"],
        }
    }

    /// Display name for logging and error messages.
    pub fn display_name(&self) -> (r: &'static str)
        ensures
            r@ == self.name_text(),
    {
        match self {
            SidecarBinary::YtDlp => "yt-dlp",
            SidecarBinary::Ffmpeg => "ffmpeg",
            SidecarBinary::Qjs => "qjs",
            SidecarBinary::Deno => "deno",
        }
    }

    /// File name of the installed binary (`.exe` on Windows).
    pub fn file_name(&self, windows: bool) -> (r: String)
        ensures
            r@ == (if windows {
                self.name_text() + ".exe"@
            } else {
                self.name_text()
            }),
    {
        let n = self.display_name().to_owned();
        if windows {
            n.concat(".exe")
        } else {
            n
        }
    }
}

/// Whether a bundled file is the build of the binary called `name`: it
/// starts with the name and carries a target suffix after a dash.
pub open spec fn is_bundled_build(file_name: Seq<char>, name: Seq<char>) -> bool {
    starts_with(file_name, name) && contains(file_name, "-"@)
}

pub fn is_bundled_build_of(file_name: &str, name: &str) -> (r: bool)
    ensures
        r == is_bundled_build(file_name@, name@),
{
    str_starts_with(file_name, name) && str_contains(file_name, "-")
}

#[derive(Debug, Clone, PartialEq, Eq)]
pub enum SidecarError {
    BinaryNotFound(String),
    ExecutionFailed { binary: String, reason: String },
    ParseError { binary: String, raw: String },
    UpdateFailed(String),
    SetupFailed(String),
}

impl SidecarError {
    pub open spec fn text(&self) -> Seq<char> {
        match self {
            SidecarError::BinaryNotFound(p) => "Sidecar binary '"@ + p@ + "' not found in app data"@,
            SidecarError::ExecutionFailed { binary, reason } => "Failed to execute "@ + binary@
                + ": "@ + reason@,
            SidecarError::ParseError { binary, raw } => "Failed to parse version output from "@
                + binary@ + ": "@ + raw@,
            SidecarError::UpdateFailed(m) => "yt-dlp self-update failed: "@ + m@,
            SidecarError::SetupFailed(m) => "Failed to setup sidecars: "@ + m@,
        }
    }

    /// The human-readable message of the error.
    pub fn message(&self) -> (r: String)
        ensures
            r@ == self.text(),
    {
        match self {
            SidecarError::BinaryNotFound(p) => "Sidecar binary '".to_owned().concat(p.as_str()).concat(
                "' not found in app data",
            ),
            SidecarError::ExecutionFailed { binary, reason } => "Failed to execute ".to_owned().concat(
                binary.as_str(),
            ).concat(": ").concat(reason.as_str()),
            SidecarError::ParseError { binary, raw } => "Failed to parse version output from ".to_owned().concat(
                binary.as_str(),
            ).concat(": ").concat(raw.as_str()),
            SidecarError::UpdateFailed(m) => "yt-dlp self-update failed: ".to_owned().concat(
                m.as_str(),
            ),
            SidecarError::SetupFailed(m) => "Failed to setup sidecars: ".to_owned().concat(
                m.as_str(),
            ),
        }
    }
}

/// The self-update exited with failure; `stderr` is what it printed.
pub fn update_failure(stderr: &str) -> (r: SidecarError)
    ensures
        r matches SidecarError::UpdateFailed(m) && m@ == trim(stderr@),
{
    SidecarError::UpdateFailed(trim_string(stderr))
}

/// Health status of a single sidecar binary.
#[derive(Debug, Clone, PartialEq, Eq)]
pub struct SidecarInfo {
    pub binary: SidecarBinary,
    pub available: bool,
    pub version: Option<String>,
    pub error: Option<String>,
}

/// Combined health check result for all sidecars.
#[derive(Debug, Clone, PartialEq, Eq)]
pub struct SidecarStatus {
    pub yt_dlp: SidecarInfo,
    pub ffmpeg: SidecarInfo,
    pub qjs: SidecarInfo,
}

/// The health of `binary` from the outcome of reading its version; never
/// an error itself.
pub fn check_result(binary: SidecarBinary, version: Result<String, SidecarError>) -> (r: SidecarInfo)
    ensures
        r.binary == binary,
        match version {
            Ok(v) => r.available && r.version == Some(v) && r.error is None,
            Err(e) => !r.available && r.version is None && r.error is Some && r.error->0@
                == e.text(),
        },
{
    match version {
        Ok(v) => SidecarInfo { binary, available: true, version: Some(v), error: None },
        Err(e) => SidecarInfo { binary, available: false, version: None, error: Some(e.message()) },
    }
}

/// The first line of the output, trimmed.
pub open spec fn first_line(raw: Seq<char>) -> Seq<char> {
    trim(raw.subrange(0, find_char(raw, '\n', 0)))
}

/// The version in a first line of ffmpeg's output
/// (`ffmpeg version <token> ...`); the whole line where it has another form.
pub open spec fn ffmpeg_version(line: Seq<char>) -> Seq<char> {
    let prefix = "ffmpeg version "@;
    if starts_with(line, prefix) {
        let rest = line.subrange(prefix.len() as int, line.len() as int);
        let t = tok(rest, 0);
        if t.0 < t.1 {
            tok_text(rest, t)
        } else {
            line
        }
    } else {
        line
    }
}

pub open spec fn version_of(binary: SidecarBinary, raw: Seq<char>) -> Option<Seq<char>> {
    let line = first_line(raw);
    if line.len() == 0 {
        None
    } else if binary == SidecarBinary::Ffmpeg {
        Some(ffmpeg_version(line))
    } else {
        Some(line)
    }
}

/// Extracts a clean version string from the binary's version output.
pub fn parse_version(binary: SidecarBinary, raw: &str) -> (r: Result<String, SidecarError>)
    ensures
        match r {
            Ok(v) => version_of(binary, raw@) == Some(v@),
            Err(e) => version_of(binary, raw@) is None && (e matches SidecarError::ParseError {
                binary: b,
                raw: w,
            } && b@ == binary.name_text() && w@ == raw@),
        },
{
    let s = chars_of(raw);
    let nl = find_char_at(&s, '\n', 0);
    let head = slice_string(raw, 0, nl);
    let line = trim_string(head.as_str());
    if line.unicode_len() == 0 {
        return Err(
            SidecarError::ParseError { binary: binary.display_name().to_owned(), raw: raw.to_owned() },
        );
    }
    match binary {
        SidecarBinary::Ffmpeg => Ok(ffmpeg_version_of(line.as_str())),
        _ => Ok(line),
    }
}

fn ffmpeg_version_of(line: &str) -> (r: String)
    ensures
        r@ == ffmpeg_version(line@),
{
    if !str_starts_with(line, "ffmpeg version ") {
        return line.to_owned();
    }
    let n = line.unicode_len();
    let plen = "ffmpeg version ".unicode_len();
    let rest = slice_string(line, plen, n);
    let cs = chars_of(rest.as_str());
    let p = crate::text::skip_ws_at(&cs, 0);
    let e = crate::text::token_end_at(&cs, p);
    if p < e {
        slice_string(rest.as_str(), p, e)
    } else {
        line.to_owned()
    }
}

} // verus!
