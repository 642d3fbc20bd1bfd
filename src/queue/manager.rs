//! Scheduling decisions: which task runs next, how many run at once, and
//! how the task row changes when a worker starts and when it returns.
use vstd::prelude::*;

use crate::download::worker::{DownloadError, DownloadResult};
use crate::queue::task::{
    any_status, applied, guarded, keeps_terminal, writes_at_most, status_after, TaskRow,
    TaskStatus, TaskUpdate,
};

verus! {

/// Base delay of the exponential backoff between attempts, in seconds.
pub const RETRY_BASE_DELAY_SECS: u64 = 5;

/// The message recorded on a cancelled task.
pub open spec fn cancelled_text() -> Seq<char> {
    "Download cancelled"@
}

pub open spec fn ids_view(v: Seq<String>) -> Seq<Seq<char>> {
    v.map_values(|s: String| s@)
}

/// `a` runs before `b`: higher priority first, then the earlier submission.
pub open spec fn runs_before(a: TaskRow, b: TaskRow) -> bool {
    a.priority > b.priority || (a.priority == b.priority && a.created_at < b.created_at)
}

/// What the scheduler does next.
#[derive(Debug, Clone, Copy, PartialEq, Eq, Structural)]
pub enum SchedulerAction {
    /// The queue was shut down.
    Exit,
    /// Nothing to start: wait for a wake-up (or shutdown).
    Wait,
    /// A task could start but every slot is taken: wait for one to free.
    WaitForSlot,
    /// Start the task at this index of the rows offered.
    Start(usize),
}

/// The scheduler's in-memory state: the tasks that have a live worker, the
/// bound on their number, the global pause flag and the shutdown flag.
pub struct DownloadQueue {
    capacity: usize,
    paused: bool,
    shut_down: bool,
    live: Vec<String>,
}

impl DownloadQueue {
    pub closed spec fn capacity(&self) -> nat {
        self.capacity as nat
    }

    pub closed spec fn paused(&self) -> bool {
        self.paused
    }

    pub closed spec fn shut_down(&self) -> bool {
        self.shut_down
    }

    /// Ids of the tasks that have a live worker.
    pub closed spec fn live(&self) -> Seq<Seq<char>> {
        ids_view(self.live@)
    }

    /// At most one worker per task, and at most `capacity` workers.
    pub open spec fn wf(&self) -> bool {
        &&& self.live().no_duplicates()
        &&& self.live().len() <= self.capacity()
    }

    /// In every state that the operations below reach from `new`, no task
    /// has two live workers and the live workers number at most the
    /// concurrency bound (`begin` and `finish` keep `wf`; the others leave
    /// the live set alone).
    pub proof fn lemma_live_workers_bounded(&self)
        requires
            self.wf(),
        ensures
            forall|a: int, b: int|
                0 <= a < self.live().len() && 0 <= b < self.live().len() && a != b
                    ==> self.live()[a] != self.live()[b],
            self.live().len() <= self.capacity(),
    {
    }

    /// A task that the scheduler may start now.
    pub open spec fn eligible(&self, r: TaskRow) -> bool {
        r.status == TaskStatus::Queued && !self.live().contains(r.id@)
    }

    pub fn new(max_concurrency: usize) -> (r: DownloadQueue)
        ensures
            r.wf(),
            r.capacity() == max_concurrency,
            !r.paused(),
            !r.shut_down(),
            r.live().len() == 0,
    {
        let q = DownloadQueue { capacity: max_concurrency, paused: false, shut_down: false, live: Vec::new() };
        assert(q.live() =~= Seq::<Seq<char>>::empty());
        q
    }

    /// Stops picking up new tasks.
    pub fn pause_queue(&mut self)
        ensures
            final(self).paused(),
            final(self).shut_down() == old(self).shut_down(),
            final(self).capacity() == old(self).capacity(),
            final(self).live() == old(self).live(),
    {
        self.paused = true;
    }

    /// Picks up tasks again.
    pub fn resume_queue(&mut self)
        ensures
            !final(self).paused(),
            final(self).shut_down() == old(self).shut_down(),
            final(self).capacity() == old(self).capacity(),
            final(self).live() == old(self).live(),
    {
        self.paused = false;
    }

    pub fn is_paused(&self) -> (r: bool)
        ensures
            r == self.paused(),
    {
        self.paused
    }

    /// Stops the scheduler; live workers are cancelled with it.
    pub fn shutdown(&mut self)
        ensures
            final(self).shut_down(),
            final(self).paused() == old(self).paused(),
            final(self).capacity() == old(self).capacity(),
            final(self).live() == old(self).live(),
    {
        self.shut_down = true;
    }

    /// Whether a live worker runs `task_id`; if so the caller fires that
    /// worker's cancellation, else it updates the stored row itself.
    pub fn cancel_task(&self, task_id: &str) -> (r: bool)
        ensures
            r == self.live().contains(task_id@),
    {
        let mut i: usize = 0;
        while i < self.live.len()
            invariant
                i <= self.live@.len(),
                forall|k: int| 0 <= k < i ==> self.live()[k] != task_id@,
            decreases self.live@.len() - i,
        {
            if crate::text::str_eq(self.live[i].as_str(), task_id) {
                assert(self.live()[i as int] == task_id@);
                return true;
            }
            i = i + 1;
        }
        false
    }

    /// The task to run next among `rows`: the eligible one with the highest
    /// priority, the earliest submitted among equals.
    pub fn select_next(&self, rows: &Vec<TaskRow>) -> (r: Option<usize>)
        ensures
            match r {
                Some(i) => {
                    &&& i < rows@.len()
                    &&& self.eligible(rows@[i as int])
                    &&& forall|j: int|
                        0 <= j < rows@.len() && self.eligible(#[trigger] rows@[j]) ==> !runs_before(
                            rows@[j],
                            rows@[i as int],
                        )
                },
                None => forall|j: int| 0 <= j < rows@.len() ==> !self.eligible(#[trigger] rows@[j]),
            },
    {
        let mut best: Option<usize> = None;
        let mut j: usize = 0;
        while j < rows.len()
            invariant
                j <= rows@.len(),
                match best {
                    Some(b) => {
                        &&& b < j
                        &&& self.eligible(rows@[b as int])
                        &&& forall|k: int|
                            0 <= k < j && self.eligible(#[trigger] rows@[k]) ==> !runs_before(
                                rows@[k],
                                rows@[b as int],
                            )
                    },
                    None => forall|k: int| 0 <= k < j ==> !self.eligible(#[trigger] rows@[k]),
                },
            decreases rows@.len() - j,
        {
            let r = &rows[j];
            let ok = r.status == TaskStatus::Queued && !self.cancel_task(r.id.as_str());
            if ok {
                match best {
                    None => {
                        best = Some(j);
                    },
                    Some(b) => {
                        let cur = &rows[b];
                        if r.priority > cur.priority || (r.priority == cur.priority
                            && r.created_at < cur.created_at) {
                            best = Some(j);
                        }
                    },
                }
            }
            j = j + 1;
        }
        best
    }

    /// What the scheduler does next, given the task rows: exit on shutdown,
    /// wait while paused or while no task is eligible, else start the next
    /// task once a slot is free.
    pub fn next_action(&self, rows: &Vec<TaskRow>) -> (r: SchedulerAction)
        requires
            self.wf(),
        ensures
            self.shut_down() <==> r == SchedulerAction::Exit,
            !self.shut_down() && self.paused() ==> r == SchedulerAction::Wait,
            r == SchedulerAction::Wait && !self.shut_down() && !self.paused() ==> forall|j: int|
                0 <= j < rows@.len() ==> !self.eligible(#[trigger] rows@[j]),
            r == SchedulerAction::WaitForSlot ==> self.live().len() >= self.capacity() && exists|
                j: int,
            | 0 <= j < rows@.len() && self.eligible(#[trigger] rows@[j]),
            match r {
                SchedulerAction::Start(i) => {
                    &&& !self.shut_down() && !self.paused()
                    &&& self.live().len() < self.capacity()
                    &&& i < rows@.len()
                    &&& self.eligible(rows@[i as int])
                    &&& forall|j: int|
                        0 <= j < rows@.len() && self.eligible(#[trigger] rows@[j]) ==> !runs_before(
                            rows@[j],
                            rows@[i as int],
                        )
                },
                _ => true,
            },
    {
        if self.shut_down {
            return SchedulerAction::Exit;
        }
        if self.paused {
            return SchedulerAction::Wait;
        }
        match self.select_next(rows) {
            None => SchedulerAction::Wait,
            Some(i) => {
                if self.live.len() >= self.capacity {
                    assert(self.eligible(rows@[i as int]));
                    SchedulerAction::WaitForSlot
                } else {
                    SchedulerAction::Start(i)
                }
            },
        }
    }

    /// Registers a worker for `task_id`: takes a slot if one is free and the
    /// task has no live worker yet.
    pub fn begin(&mut self, task_id: String) -> (r: bool)
        requires
            old(self).wf(),
        ensures
            final(self).wf(),
            r == (old(self).live().len() < old(self).capacity() && !old(self).live().contains(
                task_id@,
            )),
            r ==> final(self).live() == old(self).live().push(task_id@),
            !r ==> final(self).live() == old(self).live(),
            final(self).capacity() == old(self).capacity(),
            final(self).paused() == old(self).paused(),
            final(self).shut_down() == old(self).shut_down(),
    {
        if self.live.len() >= self.capacity {
            return false;
        }
        if self.cancel_task(task_id.as_str()) {
            return false;
        }
        let ghost before = self.live();
        self.live.push(task_id);
        assert(self.live() =~= before.push(task_id@));
        assert forall|a: int, b: int|
            0 <= a < self.live().len() && 0 <= b < self.live().len() && a != b implies self.live()[a]
            != self.live()[b] by {
            if a < before.len() && b < before.len() {
            } else if a == before.len() {
                assert(before[b] == self.live()[b]);
            } else {
                assert(before[a] == self.live()[a]);
            }
        }
        true
    }

    /// The worker for `task_id` returned: its slot is freed.
    pub fn finish(&mut self, task_id: &str)
        requires
            old(self).wf(),
        ensures
            final(self).wf(),
            !final(self).live().contains(task_id@),
            forall|x: Seq<char>|
                x != task_id@ ==> (final(self).live().contains(x) == old(self).live().contains(x)),
            final(self).capacity() == old(self).capacity(),
            final(self).paused() == old(self).paused(),
            final(self).shut_down() == old(self).shut_down(),
    {
        let mut i: usize = 0;
        while i < self.live.len()
            invariant
                i <= self.live@.len(),
                old(self).wf(),
                self.live() == old(self).live(),
                self.capacity == old(self).capacity,
                self.paused == old(self).paused,
                self.shut_down == old(self).shut_down,
                forall|k: int| 0 <= k < i ==> self.live()[k] != task_id@,
            decreases self.live@.len() - i,
        {
            if crate::text::str_eq(self.live[i].as_str(), task_id) {
                let ghost before = self.live();
                assert(before[i as int] == task_id@);
                assert(before.no_duplicates());
                self.live.remove(i);
                assert(self.live() =~= before.remove(i as int));
                assert forall|x: Seq<char>| x != task_id@ implies (self.live().contains(x)
                    == before.contains(x)) by {
                    if before.contains(x) {
                        let k = choose|k: int| 0 <= k < before.len() && before[k] == x;
                        assert(k != i);
                        if k < i {
                            assert(self.live()[k] == x);
                        } else {
                            assert(self.live()[k - 1] == x);
                        }
                    }
                    if self.live().contains(x) {
                        let k = choose|k: int| 0 <= k < self.live().len() && self.live()[k] == x;
                        if k < i {
                            assert(before[k] == x);
                        } else {
                            assert(before[k + 1] == x);
                        }
                    }
                }
                assert(!self.live().contains(task_id@)) by {
                    if self.live().contains(task_id@) {
                        let k = choose|k: int|
                            0 <= k < self.live().len() && self.live()[k] == task_id@;
                        if k < i {
                            assert(before[k] == task_id@);
                            assert(before[k] != before[i as int]);
                        } else {
                            assert(before[k + 1] == task_id@);
                            assert(before[k + 1] != before[i as int]);
                        }
                    }
                }
                assert(self.live().no_duplicates()) by {
                    assert forall|a: int, b: int|
                        0 <= a < self.live().len() && 0 <= b < self.live().len() && a
                            != b implies self.live()[a] != self.live()[b] by {
                        let a2 = if a < i {
                            a
                        } else {
                            a + 1
                        };
                        let b2 = if b < i {
                            b
                        } else {
                            b + 1
                        };
                        assert(self.live()[a] == before[a2]);
                        assert(self.live()[b] == before[b2]);
                        assert(a2 != b2);
                        assert(before[a2] != before[b2]);
                    }
                }
                return ;
            }
            i = i + 1;
        }
    }
}

/// The compare-and-set that hands a task to a worker: QUEUED becomes
/// PROCESSING; `started_at` is set on the first start only.
pub fn start_update(now: i64) -> (r: TaskUpdate)
    ensures
        keeps_terminal(r),
        r.only_if@ == seq![TaskStatus::Queued],
        r.status == Some(TaskStatus::Processing),
        r.first_started_at == Some(now),
        r.started_at is None,
        writes_at_most(r, true, false, false, false, false, false, true, false, false, false),
        forall|row: TaskRow|
            row.status == TaskStatus::Queued ==> #[trigger] applied(row, r).status
                == TaskStatus::Processing,
        forall|row: TaskRow| row.status != TaskStatus::Queued ==> #[trigger] applied(row, r) == row,
{
    let mut u = guarded(vec![TaskStatus::Queued]);
    u.status = Some(TaskStatus::Processing);
    u.first_started_at = Some(now);
    assert(status_after(u, TaskStatus::Completed) == TaskStatus::Completed);
    u
}

/// A task put back in the queue, every other column kept.
pub open spec fn requeued(row: TaskRow) -> TaskRow {
    TaskRow { status: TaskStatus::Queued, ..row }
}

/// What crash recovery makes of a row.
pub open spec fn recovered(row: TaskRow) -> TaskRow {
    if row.status == TaskStatus::Processing {
        requeued(row)
    } else {
        row
    }
}

/// The crash-recovery update run before the scheduler starts: a task left
/// PROCESSING has no worker any more and goes back to QUEUED.
pub fn recovery_update() -> (r: TaskUpdate)
    ensures
        keeps_terminal(r),
        writes_at_most(r, true, false, false, false, false, false, false, false, false, false),
        forall|row: TaskRow| #[trigger] applied(row, r) == recovered(row),
{
    let mut u = guarded(vec![TaskStatus::Processing]);
    u.status = Some(TaskStatus::Queued);
    assert(status_after(u, TaskStatus::Completed) == TaskStatus::Completed);
    assert forall|row: TaskRow| #[trigger] applied(row, u) == recovered(row) by {
        if row.status == TaskStatus::Processing {
            assert(u.only_if@[0] == TaskStatus::Processing);
        }
    }
    u
}

/// After crash recovery no task is left PROCESSING.
pub proof fn lemma_recovery_leaves_nothing_processing(row: TaskRow)
    ensures
        recovered(row).status != TaskStatus::Processing,
        row.status != TaskStatus::Processing ==> recovered(row) == row,
{
}

/// Crash recovery over the whole table: each row as `recovered` makes it.
pub fn recover_rows(rows: Vec<TaskRow>) -> (r: Vec<TaskRow>)
    ensures
        r@.len() == rows@.len(),
        forall|i: int| 0 <= i < r@.len() ==> #[trigger] r@[i] == recovered(rows@[i]),
        forall|i: int| 0 <= i < r@.len() ==> #[trigger] r@[i].status != TaskStatus::Processing,
{
    let ghost orig = rows@;
    let mut rest = rows;
    let mut reversed: Vec<TaskRow> = Vec::new();
    while rest.len() > 0
        invariant
            rest@.len() + reversed@.len() == orig.len(),
            rest@ == orig.subrange(0, rest@.len() as int),
            forall|k: int|
                0 <= k < reversed@.len() ==> #[trigger] reversed@[k] == orig[orig.len() - 1 - k],
        decreases rest@.len(),
    {
        let row = rest.pop().unwrap();
        reversed.push(row);
        assert(rest@ =~= orig.subrange(0, rest@.len() as int));
    }
    let mut out: Vec<TaskRow> = Vec::new();
    while reversed.len() > 0
        invariant
            reversed@.len() + out@.len() == orig.len(),
            forall|k: int|
                0 <= k < reversed@.len() ==> #[trigger] reversed@[k] == orig[orig.len() - 1 - k],
            forall|k: int| 0 <= k < out@.len() ==> #[trigger] out@[k] == recovered(orig[k]),
        decreases reversed@.len(),
    {
        let ghost before = reversed@;
        let row = reversed.pop().unwrap();
        assert(row == orig[out@.len() as int]) by {
            assert(before[before.len() - 1] == orig[orig.len() - 1 - (before.len() - 1)]);
        }
        let u = recovery_update();
        out.push(row.apply(u));
        assert forall|k: int|
            0 <= k < reversed@.len() implies #[trigger] reversed@[k] == orig[orig.len() - 1 - k] by {
            assert(reversed@[k] == before[k]);
        }
    }
    assert forall|i: int| 0 <= i < out@.len() implies #[trigger] out@[i].status
        != TaskStatus::Processing by {
        lemma_recovery_leaves_nothing_processing(orig[i]);
    }
    out
}

pub open spec fn non_terminal_guard(u: TaskUpdate) -> bool {
    u.only_if@ == seq![TaskStatus::Queued, TaskStatus::Processing, TaskStatus::Paused]
}

pub open spec fn opt_u64_as_i64(o: Option<u64>) -> Option<i64> {
    match o {
        Some(v) => Some(v as i64),
        None => None,
    }
}

fn opt_u64_to_i64(o: Option<u64>) -> (r: Option<i64>)
    ensures
        r == opt_u64_as_i64(o),
{
    match o {
        Some(v) => Some(v as i64),
        None => None,
    }
}

proof fn lemma_non_terminal_guard_keeps_terminal(u: TaskUpdate)
    requires
        non_terminal_guard(u),
    ensures
        keeps_terminal(u),
{
    assert(!u.only_if@.contains(TaskStatus::Completed)) by {
        if u.only_if@.contains(TaskStatus::Completed) {
            let k = choose|k: int| 0 <= k < u.only_if@.len() && u.only_if@[k] == TaskStatus::Completed;
        }
    }
    assert forall|s: TaskStatus|
        (s == TaskStatus::Cancelled || s == TaskStatus::Failed) implies #[trigger] status_after(u, s)
        == s by {
        if u.only_if@.contains(s) {
            let k = choose|k: int| 0 <= k < u.only_if@.len() && u.only_if@[k] == s;
        }
    }
}

/// The worker succeeded: the task is COMPLETED at 100%, with the sizes found
/// on disk. A task already CANCELLED or FAILED keeps that state.
pub fn completion_update(res: &DownloadResult, now: i64) -> (r: TaskUpdate)
    ensures
        keeps_terminal(r),
        non_terminal_guard(r),
        r.status == Some(TaskStatus::Completed),
        r.completed_at == Some(Some(now)),
        r.progress_hundredths == Some(10000u64),
        r.downloaded_bytes == Some(Some(res.downloaded_bytes as i64)),
        r.total_bytes == Some(opt_u64_as_i64(res.total_bytes)),
        r.speed == Some(None::<String>),
        r.eta == Some(None::<String>),
        r.error_message == Some(None::<String>),
        writes_at_most(r, true, true, true, true, true, false, false, true, true, true),
{
    let mut u = guarded(vec![TaskStatus::Queued, TaskStatus::Processing, TaskStatus::Paused]);
    u.status = Some(TaskStatus::Completed);
    u.completed_at = Some(Some(now));
    u.progress_hundredths = Some(10000);
    u.downloaded_bytes = Some(Some(res.downloaded_bytes as i64));
    u.total_bytes = Some(opt_u64_to_i64(res.total_bytes));
    u.speed = Some(None);
    u.eta = Some(None);
    u.error_message = Some(None);
    proof {
        lemma_non_terminal_guard_keeps_terminal(u);
    }
    u
}

/// The worker returned an error: the byte counters it knew are kept on the
/// row whatever its state. A size it did not know leaves a stored size
/// as it is.
pub fn partial_stats_update(err: &DownloadError) -> (r: TaskUpdate)
    ensures
        keeps_terminal(r),
        r.status is None,
        forall|s: TaskStatus| r.only_if@.contains(s),
        match err {
            DownloadError::Cancelled { total_bytes, downloaded_bytes, .. } | DownloadError::Failed {
                total_bytes,
                downloaded_bytes,
                ..
            } => r.downloaded_bytes == Some(Some(*downloaded_bytes as i64)) && r.total_bytes == (
            match *total_bytes {
                Some(t) => Some(Some(t as i64)),
                None => None,
            }),
        },
        writes_at_most(r, false, false, false, false, false, false, false, false, true, true),
{
    let mut u = guarded(any_status());
    match err {
        DownloadError::Cancelled { total_bytes, downloaded_bytes, .. } => {
            u.downloaded_bytes = Some(Some(*downloaded_bytes as i64));
            if let Some(t) = total_bytes {
                u.total_bytes = Some(Some(*t as i64));
            }
        },
        DownloadError::Failed { total_bytes, downloaded_bytes, .. } => {
            u.downloaded_bytes = Some(Some(*downloaded_bytes as i64));
            if let Some(t) = total_bytes {
                u.total_bytes = Some(Some(*t as i64));
            }
        },
    }
    u
}

pub open spec fn pow2(n: nat) -> nat
    decreases n,
{
    if n == 0 {
        1
    } else {
        2 * pow2((n - 1) as nat)
    }
}

/// Delay before the next attempt after the `n`-th failure: `5 s * 2^n`.
pub open spec fn backoff_secs(n: int) -> u64 {
    if n < 0 {
        RETRY_BASE_DELAY_SECS
    } else if RETRY_BASE_DELAY_SECS * pow2(n as nat) > u64::MAX {
        u64::MAX
    } else {
        (RETRY_BASE_DELAY_SECS * pow2(n as nat)) as u64
    }
}

pub fn backoff_delay_secs(n: i32) -> (r: u64)
    ensures
        r == backoff_secs(n as int),
{
    if n < 0 {
        return RETRY_BASE_DELAY_SECS;
    }
    let mut p: u64 = RETRY_BASE_DELAY_SECS;
    let mut i: i32 = 0;
    while i < n
        invariant
            0 <= i <= n,
            p as nat == RETRY_BASE_DELAY_SECS * pow2(i as nat),
        decreases n - i,
    {
        if p > u64::MAX / 2 {
            proof {
                lemma_pow2_mono((i + 1) as nat, n as nat);
            }
            assert(RETRY_BASE_DELAY_SECS * pow2(n as nat) > u64::MAX) by (nonlinear_arith)
                requires
                    RETRY_BASE_DELAY_SECS * pow2((i + 1) as nat) <= RETRY_BASE_DELAY_SECS * pow2(
                        n as nat,
                    ),
                    pow2((i + 1) as nat) == 2 * pow2(i as nat),
                    p as nat == RETRY_BASE_DELAY_SECS * pow2(i as nat),
                    p > u64::MAX / 2,
            ;
            return u64::MAX;
        }
        p = p * 2;
        i = i + 1;
    }
    p
}

proof fn lemma_pow2_mono(a: nat, b: nat)
    requires
        a <= b,
    ensures
        pow2(a) <= pow2(b),
    decreases b,
{
    if a < b {
        lemma_pow2_mono(a, (b - 1) as nat);
    }
}

/// The retry count after one more failure.
pub open spec fn next_retries(retries: i32) -> i32 {
    if retries < i32::MAX {
        (retries + 1) as i32
    } else {
        retries
    }
}

/// What happens to a task whose attempt failed.
pub struct FailureDecision {
    pub update: TaskUpdate,
    /// `Some(delay)`: the task was requeued and runs again after `delay`
    /// seconds; `None`: it failed for good.
    pub retry_after_secs: Option<u64>,
}

/// An attempt failed with `message`: requeue with exponential backoff while
/// attempts remain, else FAILED. The retry count goes up by one either way.
pub fn failure_decision(retries: i32, max_retries: i32, message: String) -> (r: FailureDecision)
    ensures
        keeps_terminal(r.update),
        non_terminal_guard(r.update),
        r.update.retries == Some(next_retries(retries)),
        r.update.error_message == Some(Some(message)),
        next_retries(retries) < max_retries ==> r.update.status == Some(TaskStatus::Queued)
            && r.retry_after_secs == Some(backoff_secs(next_retries(retries) as int)),
        next_retries(retries) >= max_retries ==> r.update.status == Some(TaskStatus::Failed)
            && r.retry_after_secs is None,
        writes_at_most(r.update, true, false, false, false, true, true, false, false, false, false),
{
    let new_retries = if retries < i32::MAX {
        retries + 1
    } else {
        retries
    };
    let mut u = guarded(vec![TaskStatus::Queued, TaskStatus::Processing, TaskStatus::Paused]);
    u.retries = Some(new_retries);
    u.error_message = Some(Some(message));
    let retry_after_secs = if new_retries < max_retries {
        u.status = Some(TaskStatus::Queued);
        Some(backoff_delay_secs(new_retries))
    } else {
        u.status = Some(TaskStatus::Failed);
        None
    };
    proof {
        lemma_non_terminal_guard_keeps_terminal(u);
    }
    FailureDecision { update: u, retry_after_secs }
}

/// What happens to a task whose worker was cancelled, by the state that the
/// user's action left on its row.
pub enum CancelDecision {
    /// The user paused it: partial files stay for a later resume.
    Paused(TaskUpdate),
    /// The user cancelled it: the row says so and the partial files go.
    Cancelled { update: TaskUpdate, remove_files: Vec<String> },
    /// The task was resumed or retried meanwhile: nothing to do.
    Skip,
}

pub open spec fn partial_files(filename: Option<Seq<char>>) -> Seq<Seq<char>> {
    match filename {
        Some(f) => seq![f + ".part"@, f],
        None => Seq::empty(),
    }
}

/// Decides between pause and cancellation after a worker reported that it
/// was cancelled; `current` is the task's status as now stored.
pub fn cancel_decision(current: Option<TaskStatus>, filename: Option<String>) -> (r: CancelDecision)
    ensures
        current == Some(TaskStatus::Paused) ==> match r {
            CancelDecision::Paused(u) => {
                &&& keeps_terminal(u)
                &&& u.only_if@ == seq![TaskStatus::Paused]
                &&& u.status is None
                &&& u.speed == Some(None::<String>)
                &&& u.eta == Some(None::<String>)
                &&& u.error_message == Some(None::<String>)
                &&& writes_at_most(u, false, false, true, true, true, false, false, false, false, false)
            },
            _ => false,
        },
        (current == Some(TaskStatus::Processing) || current == Some(TaskStatus::Cancelled)) ==> match r {
            CancelDecision::Cancelled { update, remove_files } => {
                &&& keeps_terminal(update)
                &&& update.only_if@ == seq![TaskStatus::Processing, TaskStatus::Cancelled]
                &&& update.status == Some(TaskStatus::Cancelled)
                &&& update.error_message is Some && update.error_message->0 is Some
                    && update.error_message->0->0@ == cancelled_text()
                &&& update.speed == Some(None::<String>)
                &&& update.eta == Some(None::<String>)
                &&& writes_at_most(update, true, false, true, true, true, false, false, false, false, false)
                &&& ids_view(remove_files@) == partial_files(
                    match filename {
                        Some(f) => Some(f@),
                        None => None,
                    },
                )
            },
            _ => false,
        },
        !(current == Some(TaskStatus::Paused) || current == Some(TaskStatus::Processing) || current
            == Some(TaskStatus::Cancelled)) ==> r is Skip,
{
    match current {
        Some(TaskStatus::Paused) => {
            let mut u = guarded(vec![TaskStatus::Paused]);
            u.speed = Some(None);
            u.eta = Some(None);
            u.error_message = Some(None);
            CancelDecision::Paused(u)
        },
        Some(TaskStatus::Processing) | Some(TaskStatus::Cancelled) => {
            let mut u = guarded(vec![TaskStatus::Processing, TaskStatus::Cancelled]);
            u.status = Some(TaskStatus::Cancelled);
            u.error_message = Some(Some("Download cancelled".to_owned()));
            u.speed = Some(None);
            u.eta = Some(None);
            assert(status_after(u, TaskStatus::Completed) == TaskStatus::Completed) by {
                if u.only_if@.contains(TaskStatus::Completed) {
                    let k = choose|k: int|
                        0 <= k < u.only_if@.len() && u.only_if@[k] == TaskStatus::Completed;
                }
            }
            let mut remove_files: Vec<String> = Vec::new();
            if let Some(f) = &filename {
                remove_files.push(f.clone().concat(".part"));
                remove_files.push(f.clone());
            }
            assert(ids_view(remove_files@) =~= partial_files(
                match filename {
                    Some(f) => Some(f@),
                    None => None,
                },
            ));
            CancelDecision::Cancelled { update: u, remove_files }
        },
        _ => CancelDecision::Skip,
    }
}

/// Text of the refusal of a user action on a task in state `status`.
pub open spec fn refusal_text(action: Seq<char>, status: TaskStatus, allowed: Seq<char>) -> Seq<char> {
    "Cannot "@ + action + " task with status '"@ + status.text() + "'. Only "@ + allowed
}

fn refusal(action: &str, status: TaskStatus, allowed: &str) -> (r: String)
    ensures
        r@ == refusal_text(action@, status, allowed@),
{
    "Cannot ".to_owned().concat(action).concat(" task with status '").concat(status.as_str()).concat(
        "'. Only ",
    ).concat(allowed)
}

/// A retry, legal from FAILED and CANCELLED only: the task is queued afresh
/// with its retry count, progress and timings reset.
pub fn retry_request(current: TaskStatus) -> (r: Result<TaskUpdate, String>)
    ensures
        r is Ok <==> (current == TaskStatus::Failed || current == TaskStatus::Cancelled),
        match r {
            Ok(u) => {
                &&& keeps_terminal(u)
                &&& u.only_if@ == seq![TaskStatus::Failed, TaskStatus::Cancelled]
                &&& u.status == Some(TaskStatus::Queued)
                &&& u.retries == Some(0i32)
                &&& u.progress_hundredths == Some(0u64)
                &&& u.error_message == Some(None::<String>)
                &&& u.started_at == Some(None::<i64>)
                &&& u.completed_at == Some(None::<i64>)
                &&& u.speed == Some(None::<String>)
                &&& u.eta == Some(None::<String>)
                &&& u.first_started_at is None
                &&& writes_at_most(u, true, true, true, true, true, true, true, true, false, false)
            },
            Err(msg) => msg@ == refusal_text(
                "retry"@,
                current,
                "FAILED or CANCELLED tasks can be retried."@,
            ),
        },
{
    if current == TaskStatus::Failed || current == TaskStatus::Cancelled {
        let mut u = guarded(vec![TaskStatus::Failed, TaskStatus::Cancelled]);
        u.status = Some(TaskStatus::Queued);
        u.retries = Some(0);
        u.progress_hundredths = Some(0);
        u.error_message = Some(None);
        u.started_at = Some(None);
        u.completed_at = Some(None);
        u.speed = Some(None);
        u.eta = Some(None);
        assert(status_after(u, TaskStatus::Completed) == TaskStatus::Completed) by {
            if u.only_if@.contains(TaskStatus::Completed) {
                let k = choose|k: int|
                    0 <= k < u.only_if@.len() && u.only_if@[k] == TaskStatus::Completed;
            }
        }
        Ok(u)
    } else {
        Err(refusal("retry", current, "FAILED or CANCELLED tasks can be retried."))
    }
}

/// A pause, legal from QUEUED and PROCESSING: the row says PAUSED before a
/// running worker is cancelled, so that the scheduler reads it as a pause.
pub struct PauseAction {
    pub update: TaskUpdate,
    /// Whether the task's worker must be cancelled.
    pub cancel_worker: bool,
}

pub fn pause_request(current: TaskStatus) -> (r: Result<PauseAction, String>)
    ensures
        r is Ok <==> (current == TaskStatus::Queued || current == TaskStatus::Processing),
        match r {
            Ok(a) => {
                &&& keeps_terminal(a.update)
                &&& a.update.only_if@ == seq![TaskStatus::Queued, TaskStatus::Processing]
                &&& a.update.status == Some(TaskStatus::Paused)
                &&& a.cancel_worker == (current == TaskStatus::Processing)
                &&& writes_at_most(
                    a.update,
                    true,
                    false,
                    false,
                    false,
                    false,
                    false,
                    false,
                    false,
                    false,
                    false,
                )
            },
            Err(msg) => msg@ == refusal_text(
                "pause"@,
                current,
                "QUEUED or PROCESSING tasks can be paused."@,
            ),
        },
{
    if current == TaskStatus::Queued || current == TaskStatus::Processing {
        let mut u = guarded(vec![TaskStatus::Queued, TaskStatus::Processing]);
        u.status = Some(TaskStatus::Paused);
        assert forall|s: TaskStatus| s.is_terminal() implies #[trigger] status_after(u, s) == s by {
            if u.only_if@.contains(s) {
                let k = choose|k: int| 0 <= k < u.only_if@.len() && u.only_if@[k] == s;
            }
        }
        assert(status_after(u, TaskStatus::Completed) == TaskStatus::Completed);
        Ok(PauseAction { update: u, cancel_worker: current == TaskStatus::Processing })
    } else {
        Err(refusal("pause", current, "QUEUED or PROCESSING tasks can be paused."))
    }
}

/// A resume, legal from PAUSED only: the task is queued again and the
/// downloader continues from its partial file.
pub fn resume_request(current: TaskStatus) -> (r: Result<TaskUpdate, String>)
    ensures
        r is Ok <==> current == TaskStatus::Paused,
        match r {
            Ok(u) => {
                &&& keeps_terminal(u)
                &&& u.only_if@ == seq![TaskStatus::Paused]
                &&& u.status == Some(TaskStatus::Queued)
                &&& u.error_message == Some(None::<String>)
                &&& u.speed == Some(None::<String>)
                &&& u.eta == Some(None::<String>)
                &&& writes_at_most(u, true, false, true, true, true, false, false, false, false, false)
            },
            Err(msg) => msg@ == refusal_text("resume"@, current, "PAUSED tasks can be resumed."@),
        },
{
    if current == TaskStatus::Paused {
        let mut u = guarded(vec![TaskStatus::Paused]);
        u.status = Some(TaskStatus::Queued);
        u.error_message = Some(None);
        u.speed = Some(None);
        u.eta = Some(None);
        assert forall|s: TaskStatus| s.is_terminal() implies #[trigger] status_after(u, s) == s by {
            if u.only_if@.contains(s) {
                let k = choose|k: int| 0 <= k < u.only_if@.len() && u.only_if@[k] == s;
            }
        }
        assert(status_after(u, TaskStatus::Completed) == TaskStatus::Completed);
        Ok(u)
    } else {
        Err(refusal("resume", current, "PAUSED tasks can be resumed."))
    }
}

/// Cancelling a task that has no live worker: the row is marked CANCELLED
/// unless the task already finished.
pub fn cancel_idle_update() -> (r: TaskUpdate)
    ensures
        keeps_terminal(r),
        r.only_if@ == seq![TaskStatus::Queued, TaskStatus::Paused, TaskStatus::Processing],
        r.status == Some(TaskStatus::Cancelled),
        writes_at_most(r, true, false, false, false, false, false, false, false, false, false),
{
    let mut u = guarded(vec![TaskStatus::Queued, TaskStatus::Paused, TaskStatus::Processing]);
    u.status = Some(TaskStatus::Cancelled);
    assert forall|s: TaskStatus| s.is_terminal() implies #[trigger] status_after(u, s) == s by {
        if u.only_if@.contains(s) {
            let k = choose|k: int| 0 <= k < u.only_if@.len() && u.only_if@[k] == s;
        }
    }
    assert(status_after(u, TaskStatus::Completed) == TaskStatus::Completed);
    u
}

} // verus!
