//! The download task record, its status, and the guarded column updates
//! through which every status change goes.
use vstd::prelude::*;

use crate::text::str_eq;

verus! {

/// Lifecycle state of a download task.
#[derive(Debug, Clone, Copy, PartialEq, Eq, Structural)]
pub enum TaskStatus {
    Queued,
    Processing,
    Paused,
    Completed,
    Cancelled,
    Failed,
}

impl TaskStatus {
    /// The persisted spelling of the status.
    pub open spec fn text(self) -> Seq<char> {
        match self {
            TaskStatus::Queued => "QUEUED"@,
            TaskStatus::Processing => "PROCESSING"@,
            TaskStatus::Paused => "PAUSED"@,
            TaskStatus::Completed => "COMPLETED"@,
            TaskStatus::Cancelled => "CANCELLED"@,
            TaskStatus::Failed => "FAILED"@,
        }
    }

    pub open spec fn is_terminal(self) -> bool {
        self == TaskStatus::Completed || self == TaskStatus::Cancelled || self
            == TaskStatus::Failed
    }

    pub fn as_str(&self) -> (r: &'static str)
        ensures
            r@ == self.text(),
    {
        match self {
            TaskStatus::Queued => "QUEUED",
            TaskStatus::Processing => "PROCESSING",
            TaskStatus::Paused => "PAUSED",
            TaskStatus::Completed => "COMPLETED",
            TaskStatus::Cancelled => "CANCELLED",
            TaskStatus::Failed => "FAILED",
        }
    }

    /// Reads a persisted status; `None` for any other text.
    pub fn parse(s: &str) -> (r: Option<TaskStatus>)
        ensures
            match r {
                Some(t) => t.text() == s@,
                None => forall|t: TaskStatus| t.text() != s@,
            },
    {
        if str_eq(s, "QUEUED") {
            Some(TaskStatus::Queued)
        } else if str_eq(s, "PROCESSING") {
            Some(TaskStatus::Processing)
        } else if str_eq(s, "PAUSED") {
            Some(TaskStatus::Paused)
        } else if str_eq(s, "COMPLETED") {
            Some(TaskStatus::Completed)
        } else if str_eq(s, "CANCELLED") {
            Some(TaskStatus::Cancelled)
        } else if str_eq(s, "FAILED") {
            Some(TaskStatus::Failed)
        } else {
            None
        }
    }
}

/// A user's request for a new download.
pub struct CreateDownloadTaskRequest {
    pub url: String,
    pub format_selection: Option<String>,
}

impl CreateDownloadTaskRequest {
    /// The task row that the request creates under `id` at `now`.
    pub fn into_task(self, id: String, now: i64) -> (r: TaskRow)
        ensures
            r.id == id,
            r.url == self.url,
            r.format_selection == self.format_selection,
            r.status == TaskStatus::Queued,
            r.priority == 10,
            r.progress_hundredths == 0,
            r.retries == 0,
            r.max_retries == 3,
            r.created_at == now,
            r.started_at is None,
            r.completed_at is None,
    {
        TaskRow::new_submitted(id, self.url, self.format_selection, now)
    }
}

/// One row of the task table. Times are milliseconds since the Unix epoch.
pub struct TaskRow {
    pub id: String,
    pub url: String,
    pub post_id: Option<String>,
    pub status: TaskStatus,
    /// Higher runs sooner.
    pub priority: i32,
    /// Percent complete, in hundredths of a percent.
    pub progress_hundredths: u64,
    pub speed: Option<String>,
    pub eta: Option<String>,
    pub error_message: Option<String>,
    pub retries: i32,
    pub max_retries: i32,
    pub format_selection: Option<String>,
    pub created_at: i64,
    pub started_at: Option<i64>,
    pub completed_at: Option<i64>,
    pub downloaded_bytes: Option<i64>,
    pub total_bytes: Option<i64>,
}

/// A column-level update of one task row, applied only while the row's
/// status is one of `only_if` (a compare-and-set). `None` leaves a column
/// as it is.
pub struct TaskUpdate {
    pub only_if: Vec<TaskStatus>,
    pub status: Option<TaskStatus>,
    pub progress_hundredths: Option<u64>,
    pub speed: Option<Option<String>>,
    pub eta: Option<Option<String>>,
    pub error_message: Option<Option<String>>,
    pub retries: Option<i32>,
    /// Sets `started_at` only where it is not set yet.
    pub first_started_at: Option<i64>,
    pub started_at: Option<Option<i64>>,
    pub completed_at: Option<Option<i64>>,
    pub downloaded_bytes: Option<Option<i64>>,
    pub total_bytes: Option<Option<i64>>,
    pub post_id: Option<Option<String>>,
}

pub open spec fn or_keep<T>(new: Option<T>, old: T) -> T {
    match new {
        Some(v) => v,
        None => old,
    }
}

pub open spec fn admits(u: TaskUpdate, s: TaskStatus) -> bool {
    u.only_if@.contains(s)
}

/// The row after `u` was applied to it.
pub open spec fn applied(row: TaskRow, u: TaskUpdate) -> TaskRow {
    if admits(u, row.status) {
        TaskRow {
            id: row.id,
            url: row.url,
            post_id: or_keep(u.post_id, row.post_id),
            status: or_keep(u.status, row.status),
            priority: row.priority,
            progress_hundredths: or_keep(u.progress_hundredths, row.progress_hundredths),
            speed: or_keep(u.speed, row.speed),
            eta: or_keep(u.eta, row.eta),
            error_message: or_keep(u.error_message, row.error_message),
            retries: or_keep(u.retries, row.retries),
            max_retries: row.max_retries,
            format_selection: row.format_selection,
            created_at: row.created_at,
            started_at: match u.started_at {
                Some(v) => v,
                None => match (row.started_at, u.first_started_at) {
                    (None, Some(t)) => Some(t),
                    _ => row.started_at,
                },
            },
            completed_at: or_keep(u.completed_at, row.completed_at),
            downloaded_bytes: or_keep(u.downloaded_bytes, row.downloaded_bytes),
            total_bytes: or_keep(u.total_bytes, row.total_bytes),
        }
    } else {
        row
    }
}

/// The status that `u` leaves on a row whose status is `s`.
pub open spec fn status_after(u: TaskUpdate, s: TaskStatus) -> TaskStatus {
    if admits(u, s) {
        or_keep(u.status, s)
    } else {
        s
    }
}

/// `u` never moves a task out of COMPLETED, and moves one out of CANCELLED
/// or FAILED only as an explicit retry: back to QUEUED with no retries spent.
pub open spec fn keeps_terminal(u: TaskUpdate) -> bool {
    &&& status_after(u, TaskStatus::Completed) == TaskStatus::Completed
    &&& forall|s: TaskStatus|
        (s == TaskStatus::Cancelled || s == TaskStatus::Failed) ==> (#[trigger] status_after(u, s)
            == s || (u.status == Some(TaskStatus::Queued) && u.retries == Some(0i32)))
}

/// `u` writes no column but those flagged: a clear flag means the column
/// is left as it is.
pub open spec fn writes_at_most(
    u: TaskUpdate,
    status: bool,
    progress: bool,
    speed: bool,
    eta: bool,
    error_message: bool,
    retries: bool,
    started_at: bool,
    completed_at: bool,
    downloaded_bytes: bool,
    total_bytes: bool,
) -> bool {
    &&& !status ==> u.status is None
    &&& !progress ==> u.progress_hundredths is None
    &&& !speed ==> u.speed is None
    &&& !eta ==> u.eta is None
    &&& !error_message ==> u.error_message is None
    &&& !retries ==> u.retries is None
    &&& !started_at ==> u.first_started_at is None && u.started_at is None
    &&& !completed_at ==> u.completed_at is None
    &&& !downloaded_bytes ==> u.downloaded_bytes is None
    &&& !total_bytes ==> u.total_bytes is None
    &&& u.post_id is None
}

/// Terminal states are kept: once COMPLETED a task stays COMPLETED, and a
/// CANCELLED or FAILED task leaves that state only through a retry that
/// resets its retry count to zero.
pub proof fn lemma_terminal_states_kept(row: TaskRow, u: TaskUpdate)
    requires
        keeps_terminal(u),
    ensures
        row.status == TaskStatus::Completed ==> applied(row, u).status == TaskStatus::Completed,
        (row.status == TaskStatus::Cancelled || row.status == TaskStatus::Failed) ==> (applied(
            row,
            u,
        ).status == row.status || (applied(row, u).status == TaskStatus::Queued && applied(
            row,
            u,
        ).retries == 0)),
{
    assert(status_after(u, row.status) == applied(row, u).status);
}

pub fn clone_opt_string(o: &Option<String>) -> (r: Option<String>)
    ensures
        r == *o,
{
    match o {
        Some(s) => Some(s.clone()),
        None => None,
    }
}

/// An update that changes nothing yet, guarded by `only_if`.
pub fn guarded(only_if: Vec<TaskStatus>) -> (r: TaskUpdate)
    ensures
        r.only_if@ == only_if@,
        r.status is None,
        r.progress_hundredths is None,
        r.speed is None,
        r.eta is None,
        r.error_message is None,
        r.retries is None,
        r.first_started_at is None,
        r.started_at is None,
        r.completed_at is None,
        r.downloaded_bytes is None,
        r.total_bytes is None,
        r.post_id is None,
{
    TaskUpdate {
        only_if,
        status: None,
        progress_hundredths: None,
        speed: None,
        eta: None,
        error_message: None,
        retries: None,
        first_started_at: None,
        started_at: None,
        completed_at: None,
        downloaded_bytes: None,
        total_bytes: None,
        post_id: None,
    }
}

/// Every status: for updates that apply whatever the row's state.
pub fn any_status() -> (r: Vec<TaskStatus>)
    ensures
        forall|s: TaskStatus| r@.contains(s),
{
    let r = vec![
        TaskStatus::Queued,
        TaskStatus::Processing,
        TaskStatus::Paused,
        TaskStatus::Completed,
        TaskStatus::Cancelled,
        TaskStatus::Failed,
    ];
    assert forall|s: TaskStatus| r@.contains(s) by {
        match s {
            TaskStatus::Queued => assert(r@[0] == s),
            TaskStatus::Processing => assert(r@[1] == s),
            TaskStatus::Paused => assert(r@[2] == s),
            TaskStatus::Completed => assert(r@[3] == s),
            TaskStatus::Cancelled => assert(r@[4] == s),
            TaskStatus::Failed => assert(r@[5] == s),
        }
    }
    r
}

fn guard_contains(g: &Vec<TaskStatus>, s: TaskStatus) -> (r: bool)
    ensures
        r == g@.contains(s),
{
    let mut i: usize = 0;
    while i < g.len()
        invariant
            i <= g@.len(),
            forall|k: int| 0 <= k < i ==> g@[k] != s,
        decreases g@.len() - i,
    {
        if g[i] == s {
            assert(g@[i as int] == s);
            return true;
        }
        i = i + 1;
    }
    false
}

impl TaskRow {
    /// A new task as submitted by a user: QUEUED, priority 10, up to three
    /// attempts, nothing downloaded yet.
    pub fn new_submitted(id: String, url: String, format_selection: Option<String>, now: i64) -> (r:
        TaskRow)
        ensures
            r.id == id,
            r.url == url,
            r.format_selection == format_selection,
            r.status == TaskStatus::Queued,
            r.priority == 10,
            r.progress_hundredths == 0,
            r.retries == 0,
            r.max_retries == 3,
            r.created_at == now,
            r.post_id is None,
            r.speed is None,
            r.eta is None,
            r.error_message is None,
            r.started_at is None,
            r.completed_at is None,
            r.downloaded_bytes is None,
            r.total_bytes is None,
    {
        TaskRow {
            id,
            url,
            post_id: None,
            status: TaskStatus::Queued,
            priority: 10,
            progress_hundredths: 0,
            speed: None,
            eta: None,
            error_message: None,
            retries: 0,
            max_retries: 3,
            format_selection,
            created_at: now,
            started_at: None,
            completed_at: None,
            downloaded_bytes: None,
            total_bytes: None,
        }
    }

    /// Applies `u` to this row; see `applied`.
    pub fn apply(self, u: TaskUpdate) -> (r: TaskRow)
        ensures
            r == applied(self, u),
    {
        if !guard_contains(&u.only_if, self.status) {
            return self;
        }
        let started_at = match u.started_at {
            Some(v) => v,
            None => match (self.started_at, u.first_started_at) {
                (None, Some(t)) => Some(t),
                _ => self.started_at,
            },
        };
        TaskRow {
            id: self.id,
            url: self.url,
            post_id: match u.post_id {
                Some(v) => v,
                None => self.post_id,
            },
            status: match u.status {
                Some(v) => v,
                None => self.status,
            },
            priority: self.priority,
            progress_hundredths: match u.progress_hundredths {
                Some(v) => v,
                None => self.progress_hundredths,
            },
            speed: match u.speed {
                Some(v) => v,
                None => self.speed,
            },
            eta: match u.eta {
                Some(v) => v,
                None => self.eta,
            },
            error_message: match u.error_message {
                Some(v) => v,
                None => self.error_message,
            },
            retries: match u.retries {
                Some(v) => v,
                None => self.retries,
            },
            max_retries: self.max_retries,
            format_selection: self.format_selection,
            created_at: self.created_at,
            started_at,
            completed_at: match u.completed_at {
                Some(v) => v,
                None => self.completed_at,
            },
            downloaded_bytes: match u.downloaded_bytes {
                Some(v) => v,
                None => self.downloaded_bytes,
            },
            total_bytes: match u.total_bytes {
                Some(v) => v,
                None => self.total_bytes,
            },
        }
    }
}

} // verus!
