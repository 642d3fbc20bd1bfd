//! Metadata ingestion: the downloader's description of a URL, and the
//! upserts that store it as creators, sources and posts.
use vstd::prelude::*;

use crate::queue::task::clone_opt_string;

verus! {

#[derive(Debug, Clone, PartialEq, Eq)]
pub enum MetadataError {
    Sidecar(String),
    Parse(String),
    Execution(String),
}

impl MetadataError {
    pub open spec fn text(&self) -> Seq<char> {
        match self {
            MetadataError::Sidecar(m) => "Sidecar error: "@ + m@,
            MetadataError::Parse(m) => "JSON parse error: "@ + m@,
            MetadataError::Execution(m) => "Execution error: "@ + m@,
        }
    }

    pub fn message(&self) -> (r: String)
        ensures
            r@ == self.text(),
    {
        match self {
            MetadataError::Sidecar(m) => "Sidecar error: ".to_owned().concat(m.as_str()),
            MetadataError::Parse(m) => "JSON parse error: ".to_owned().concat(m.as_str()),
            MetadataError::Execution(m) => "Execution error: ".to_owned().concat(m.as_str()),
        }
    }
}

#[derive(Debug, Clone, PartialEq, Eq)]
pub struct YtDlpThumbnail {
    pub url: String,
    pub width: Option<u32>,
    pub height: Option<u32>,
    pub id: Option<String>,
}

/// One format offered for a video. The bitrate is in whole kbit/s.
#[derive(Debug, Clone, PartialEq, Eq)]
pub struct YtDlpFormat {
    pub format_id: String,
    pub url: Option<String>,
    pub ext: Option<String>,
    pub width: Option<u32>,
    pub height: Option<u32>,
    pub tbr_kbps: Option<u64>,
    pub vcodec: Option<String>,
    pub acodec: Option<String>,
    pub filesize: Option<u64>,
    pub filesize_approx: Option<u64>,
}

/// A video as the downloader describes it. `duration_secs` is in whole
/// seconds; `raw_json` is the video's description as JSON, written out again
/// from the fields that were read, and stored as it is given.
#[derive(Debug, Clone, PartialEq, Eq)]
pub struct YtDlpVideo {
    pub id: String,
    pub title: String,
    pub description: Option<String>,
    pub uploader: Option<String>,
    pub uploader_id: Option<String>,
    pub uploader_url: Option<String>,
    pub channel: Option<String>,
    pub channel_id: Option<String>,
    pub channel_url: Option<String>,
    pub upload_date: Option<String>,
    pub duration_secs: Option<u64>,
    pub view_count: Option<u64>,
    pub like_count: Option<u64>,
    pub webpage_url: Option<String>,
    pub original_url: Option<String>,
    pub thumbnails: Option<Vec<YtDlpThumbnail>>,
    pub formats: Option<Vec<YtDlpFormat>>,
    pub playlist_index: Option<u32>,
    pub playlist_title: Option<String>,
    pub playlist_id: Option<String>,
    pub raw_json: Option<String>,
}

#[derive(Debug, PartialEq, Eq)]
pub enum YtDlpOutput {
    Video(YtDlpVideo),
    Playlist(YtDlpPlaylist),
    /// A video whose description carried no type tag.
    VideoFallback(YtDlpVideo),
}

#[derive(Debug, PartialEq, Eq)]
pub struct YtDlpPlaylist {
    pub id: String,
    pub title: String,
    pub description: Option<String>,
    pub entries: Option<Vec<YtDlpOutput>>,
    pub uploader: Option<String>,
    pub uploader_id: Option<String>,
    pub webpage_url: Option<String>,
}

/// One insert-or-update of the metadata tables, keyed by `id`. On conflict a
/// creator and a source update `name` and `url`; a post updates `title`,
/// `description`, `raw_json` and `source_id`.
#[derive(Debug, Clone, PartialEq, Eq)]
pub enum Upsert {
    Creator { id: String, platform_id: String, name: String, url: String },
    Source {
        id: String,
        platform_id: String,
        creator_id: Option<String>,
        source_type: String,
        name: String,
        url: String,
        sync_mode: String,
        is_active: bool,
    },
    Post {
        id: String,
        creator_id: String,
        source_id: Option<String>,
        title: Option<String>,
        description: Option<String>,
        original_url: String,
        status: String,
        /// Milliseconds since the Unix epoch, midnight UTC of the upload day.
        posted_at: Option<i64>,
        raw_json: Option<String>,
    },
}

/// What an upsert writes, as plain values.
pub enum UpsertView {
    Creator { id: Seq<char>, platform_id: Seq<char>, name: Seq<char>, url: Seq<char> },
    Source {
        id: Seq<char>,
        platform_id: Seq<char>,
        creator_id: Option<Seq<char>>,
        source_type: Seq<char>,
        name: Seq<char>,
        url: Seq<char>,
        sync_mode: Seq<char>,
        is_active: bool,
    },
    Post {
        id: Seq<char>,
        creator_id: Seq<char>,
        source_id: Option<Seq<char>>,
        title: Option<Seq<char>>,
        description: Option<Seq<char>>,
        original_url: Seq<char>,
        status: Seq<char>,
        posted_at: Option<i64>,
        raw_json: Option<Seq<char>>,
    },
}

pub open spec fn ov(o: Option<String>) -> Option<Seq<char>> {
    match o {
        Some(s) => Some(s@),
        None => None,
    }
}

pub open spec fn or_text(o: Option<String>, d: Seq<char>) -> Seq<char> {
    match o {
        Some(s) => s@,
        None => d,
    }
}

impl View for Upsert {
    type V = UpsertView;

    open spec fn view(&self) -> UpsertView {
        match self {
            Upsert::Creator { id, platform_id, name, url } => UpsertView::Creator {
                id: id@,
                platform_id: platform_id@,
                name: name@,
                url: url@,
            },
            Upsert::Source {
                id,
                platform_id,
                creator_id,
                source_type,
                name,
                url,
                sync_mode,
                is_active,
            } => UpsertView::Source {
                id: id@,
                platform_id: platform_id@,
                creator_id: ov(*creator_id),
                source_type: source_type@,
                name: name@,
                url: url@,
                sync_mode: sync_mode@,
                is_active: *is_active,
            },
            Upsert::Post {
                id,
                creator_id,
                source_id,
                title,
                description,
                original_url,
                status,
                posted_at,
                raw_json,
            } => UpsertView::Post {
                id: id@,
                creator_id: creator_id@,
                source_id: ov(*source_id),
                title: ov(*title),
                description: ov(*description),
                original_url: original_url@,
                status: status@,
                posted_at: *posted_at,
                raw_json: ov(*raw_json),
            },
        }
    }
}

pub open spec fn upserts_view(v: Seq<Upsert>) -> Seq<UpsertView> {
    v.map_values(|u: Upsert| u@)
}

/// Midnight UTC of the day written `YYYYMMDD`, in milliseconds since the
/// Unix epoch; `None` where the text is not such a date.
pub uninterp spec fn ymd_midnight_millis(s: Seq<char>) -> Option<i64>;

/// Relies on chrono's `NaiveDate::parse_from_str` with the format `%Y%m%d`
/// (an error for text that is not a valid calendar date); the date is then
/// taken at 00:00:00 UTC and counted in milliseconds.
#[verifier::external_body]
fn parse_ymd_millis(s: &str) -> (r: Option<i64>)
    ensures
        r == ymd_midnight_millis(s@),
{
    match chrono::NaiveDate::parse_from_str(s, "%Y%m%d") {
        Ok(d) => Some(d.and_time(chrono::NaiveTime::MIN).and_utc().timestamp_millis()),
        Err(_) => None,
    }
}

pub open spec fn posted_at_of(date: Option<String>) -> Option<i64> {
    match date {
        Some(s) => ymd_midnight_millis(s@),
        None => None,
    }
}

/// Reads the upload date of a video.
pub fn parse_date(date: &Option<String>) -> (r: Option<i64>)
    ensures
        r == posted_at_of(*date),
{
    match date {
        Some(s) => parse_ymd_millis(s.as_str()),
        None => None,
    }
}

/// The creator of a video: keyed by its uploader id, `unknown` where there
/// is none.
pub open spec fn creator_id_of(v: YtDlpVideo) -> Seq<char> {
    or_text(v.uploader_id, "unknown"@)
}

pub open spec fn creator_upsert(v: YtDlpVideo) -> UpsertView {
    UpsertView::Creator {
        id: creator_id_of(v),
        platform_id: "youtube"@,
        name: or_text(v.uploader, "Unknown"@),
        url: or_text(v.uploader_url, ""@),
    }
}

pub open spec fn post_upsert(v: YtDlpVideo, creator_id: Seq<char>, source_id: Option<Seq<char>>) -> UpsertView {
    UpsertView::Post {
        id: v.id@,
        creator_id,
        source_id,
        title: Some(v.title@),
        description: ov(v.description),
        original_url: or_text(v.webpage_url, ""@),
        status: "PENDING"@,
        posted_at: posted_at_of(v.upload_date),
        raw_json: ov(v.raw_json),
    }
}

/// A video: its creator, then its post.
pub open spec fn video_upserts(v: YtDlpVideo, source_id: Option<Seq<char>>) -> Seq<UpsertView> {
    seq![creator_upsert(v), post_upsert(v, creator_id_of(v), source_id)]
}

/// The videos of a playlist, each linked to the playlist; nested playlists
/// are not followed.
pub open spec fn entry_upserts(entries: Seq<YtDlpOutput>, source_id: Seq<char>) -> Seq<UpsertView>
    decreases entries.len(),
{
    if entries.len() == 0 {
        Seq::empty()
    } else {
        entry_upserts(entries.drop_last(), source_id) + match entries.last() {
            YtDlpOutput::Video(v) => video_upserts(v, Some(source_id)),
            YtDlpOutput::VideoFallback(v) => video_upserts(v, Some(source_id)),
            YtDlpOutput::Playlist(_) => Seq::empty(),
        }
    }
}

/// A playlist: its uploader as a creator where both its id and name are
/// known, the playlist as a source, then its videos.
pub open spec fn playlist_upserts(p: YtDlpPlaylist) -> Seq<UpsertView> {
    let creator = match (p.uploader_id, p.uploader) {
        (Some(id), Some(name)) => seq![
            UpsertView::Creator {
                id: id@,
                platform_id: "youtube"@,
                name: name@,
                url: or_text(p.webpage_url, ""@),
            },
        ],
        _ => Seq::empty(),
    };
    let source = UpsertView::Source {
        id: p.id@,
        platform_id: "youtube"@,
        creator_id: match (p.uploader_id, p.uploader) {
            (Some(id), Some(_)) => Some(id@),
            _ => None,
        },
        source_type: "PLAYLIST"@,
        name: p.title@,
        url: or_text(p.webpage_url, ""@),
        sync_mode: "ALL"@,
        is_active: true,
    };
    creator + seq![source] + match p.entries {
        Some(es) => entry_upserts(es@, p.id@),
        None => Seq::empty(),
    }
}

/// The upserts that store a description, run in order in one transaction,
/// and the id that the save reports: the post's for a video, the
/// playlist's for a playlist.
pub struct MetadataPlan {
    pub upserts: Vec<Upsert>,
    pub saved_id: String,
}

fn or_string(o: &Option<String>, d: &str) -> (r: String)
    ensures
        r@ == or_text(*o, d@),
{
    match o {
        Some(s) => s.clone(),
        None => d.to_owned(),
    }
}

fn push_video(out: &mut Vec<Upsert>, v: &YtDlpVideo, source_id: Option<String>)
    ensures
        upserts_view(final(out)@) == upserts_view(old(out)@) + video_upserts(*v, ov(source_id)),
{
    let creator_id = or_string(&v.uploader_id, "unknown");
    let c = Upsert::Creator {
        id: creator_id.clone(),
        platform_id: "youtube".to_owned(),
        name: or_string(&v.uploader, "Unknown"),
        url: or_string(&v.uploader_url, ""),
    };
    let p = Upsert::Post {
        id: v.id.clone(),
        creator_id,
        source_id,
        title: Some(v.title.clone()),
        description: clone_opt_string(&v.description),
        original_url: or_string(&v.webpage_url, ""),
        status: "PENDING".to_owned(),
        posted_at: parse_date(&v.upload_date),
        raw_json: clone_opt_string(&v.raw_json),
    };
    let ghost before = upserts_view(out@);
    out.push(c);
    out.push(p);
    assert(upserts_view(out@) =~= before + video_upserts(*v, ov(source_id)));
}

/// Plans the storage of a single video.
pub fn plan_video(v: &YtDlpVideo) -> (r: MetadataPlan)
    ensures
        upserts_view(r.upserts@) == video_upserts(*v, None),
        r.saved_id@ == v.id@,
{
    let mut out: Vec<Upsert> = Vec::new();
    push_video(&mut out, v, None);
    assert(upserts_view(Seq::<Upsert>::empty()) + video_upserts(*v, None) =~= video_upserts(*v, None));
    MetadataPlan { upserts: out, saved_id: v.id.clone() }
}

/// Plans the storage of a playlist and its videos.
pub fn plan_playlist(p: &YtDlpPlaylist) -> (r: MetadataPlan)
    ensures
        upserts_view(r.upserts@) == playlist_upserts(*p),
        r.saved_id@ == p.id@,
{
    let mut out: Vec<Upsert> = Vec::new();
    let creator_id: Option<String> = match (&p.uploader_id, &p.uploader) {
        (Some(id), Some(name)) => {
            out.push(
                Upsert::Creator {
                    id: id.clone(),
                    platform_id: "youtube".to_owned(),
                    name: name.clone(),
                    url: or_string(&p.webpage_url, ""),
                },
            );
            Some(id.clone())
        },
        _ => None,
    };
    out.push(
        Upsert::Source {
            id: p.id.clone(),
            platform_id: "youtube".to_owned(),
            creator_id,
            source_type: "PLAYLIST".to_owned(),
            name: p.title.clone(),
            url: or_string(&p.webpage_url, ""),
            sync_mode: "ALL".to_owned(),
            is_active: true,
        },
    );
    let ghost head = upserts_view(out@);
    match &p.entries {
        Some(es) => {
            let mut i: usize = 0;
            assert(es@.subrange(0, 0) =~= Seq::<YtDlpOutput>::empty());
            assert(head + entry_upserts(Seq::empty(), p.id@) =~= head);
            while i < es.len()
                invariant
                    i <= es@.len(),
                    upserts_view(out@) == head + entry_upserts(es@.subrange(0, i as int), p.id@),
                decreases es@.len() - i,
            {
                let ghost prev = upserts_view(out@);
                let ghost sub = es@.subrange(0, i + 1);
                assert(sub.drop_last() =~= es@.subrange(0, i as int));
                match &es[i] {
                    YtDlpOutput::Video(v) | YtDlpOutput::VideoFallback(v) => {
                        push_video(&mut out, v, Some(p.id.clone()));
                    },
                    YtDlpOutput::Playlist(_) => {},
                }
                i = i + 1;
                assert(upserts_view(out@) =~= head + entry_upserts(es@.subrange(0, i as int), p.id@));
            }
            assert(es@.subrange(0, es@.len() as int) =~= es@);
        },
        None => {
            assert(head + Seq::<UpsertView>::empty() =~= head);
        },
    }
    MetadataPlan { upserts: out, saved_id: p.id.clone() }
}

/// Plans the storage of any description.
pub fn plan_metadata(m: &YtDlpOutput) -> (r: MetadataPlan)
    ensures
        upserts_view(r.upserts@) == match *m {
            YtDlpOutput::Video(v) => video_upserts(v, None),
            YtDlpOutput::VideoFallback(v) => video_upserts(v, None),
            YtDlpOutput::Playlist(p) => playlist_upserts(p),
        },
        r.saved_id@ == match *m {
            YtDlpOutput::Video(v) => v.id@,
            YtDlpOutput::VideoFallback(v) => v.id@,
            YtDlpOutput::Playlist(p) => p.id@,
        },
{
    match m {
        YtDlpOutput::Video(v) => plan_video(v),
        YtDlpOutput::VideoFallback(v) => plan_video(v),
        YtDlpOutput::Playlist(p) => plan_playlist(p),
    }
}

} // verus!
