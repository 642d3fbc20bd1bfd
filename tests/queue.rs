use video_downloader_pro::download::worker::{DownloadError, DownloadResult};
use video_downloader_pro::queue::manager::{
    backoff_delay_secs, cancel_decision, cancel_idle_update, completion_update, failure_decision,
    partial_stats_update, pause_request, recover_rows, recovery_update, resume_request,
    retry_request, start_update, CancelDecision, DownloadQueue, SchedulerAction,
};
use video_downloader_pro::queue::task::{TaskRow, TaskStatus};

fn row(id: &str, priority: i32, created_at: i64) -> TaskRow {
    let mut r = TaskRow::new_submitted(id.to_string(), format!("https://u/{}", id), None, created_at);
    r.priority = priority;
    r
}

fn with_status(mut r: TaskRow, s: TaskStatus) -> TaskRow {
    r.status = s;
    r
}

#[test]
fn priority_preempts_queue_order() {
    let mut q = DownloadQueue::new(1);
    let mut rows = vec![row("T1", 1, 100), row("T2", 10, 200)];
    let i = match q.next_action(&rows) {
        SchedulerAction::Start(i) => i,
        other => panic!("unexpected {:?}", other),
    };
    assert_eq!(rows[i].id, "T2");
    assert!(q.begin(rows[i].id.clone()));
    let t2 = rows.remove(i).apply(start_update(1_000));
    assert_eq!(t2.status, TaskStatus::Processing);
    rows.push(t2);
    // The only slot is taken: T1 waits.
    assert_eq!(q.next_action(&rows), SchedulerAction::WaitForSlot);
    let res = DownloadResult { total_bytes: Some(10), downloaded_bytes: 10, filename: None };
    let t2 = rows.pop().unwrap().apply(completion_update(&res, 2_000));
    assert_eq!(t2.status, TaskStatus::Completed);
    q.finish("T2");
    rows.push(t2);
    match q.next_action(&rows) {
        SchedulerAction::Start(i) => assert_eq!(rows[i].id, "T1"),
        other => panic!("unexpected {:?}", other),
    }
}

#[test]
fn equal_priority_runs_earliest_first() {
    let q = DownloadQueue::new(3);
    let rows = vec![row("late", 5, 300), row("early", 5, 100), with_status(row("done", 9, 1), TaskStatus::Completed)];
    assert_eq!(q.select_next(&rows), Some(1));
}

#[test]
fn retry_with_backoff() {
    let mut t = with_status(row("T", 10, 0), TaskStatus::Processing);
    assert_eq!(t.max_retries, 3);
    let first = failure_decision(t.retries, t.max_retries, "boom".to_string());
    assert!(first.retry_after_secs.unwrap() >= 5);
    assert_eq!(first.retry_after_secs, Some(10));
    t = t.apply(first.update);
    assert_eq!(t.status, TaskStatus::Queued);
    t = t.apply(start_update(1));
    let second = failure_decision(t.retries, t.max_retries, "boom".to_string());
    assert!(second.retry_after_secs.unwrap() >= 10);
    t = t.apply(second.update);
    assert_eq!(t.status, TaskStatus::Queued);
    t = t.apply(start_update(2));
    let res = DownloadResult { total_bytes: Some(7), downloaded_bytes: 7, filename: None };
    t = t.apply(completion_update(&res, 3));
    assert_eq!(t.status, TaskStatus::Completed);
    assert_eq!(t.retries, 2);
    assert_eq!(t.progress_hundredths, 10000);
    assert_eq!(t.completed_at, Some(3));
    assert_eq!(t.started_at, Some(1));
}

#[test]
fn failure_after_last_attempt_is_final() {
    let t = with_status(row("T", 10, 0), TaskStatus::Processing);
    let t = t.apply(failure_decision(0, 3, "a".into()).update);
    let t = t.apply(start_update(5));
    let t = t.apply(failure_decision(1, 3, "b".into()).update);
    let t = t.apply(start_update(6));
    let d = failure_decision(2, 3, "c".into());
    assert_eq!(d.retry_after_secs, None);
    let t = t.apply(d.update);
    assert_eq!(t.status, TaskStatus::Failed);
    assert_eq!(t.retries, 3);
    assert_eq!(t.error_message, Some("c".to_string()));
    assert_eq!(backoff_delay_secs(0), 5);
    assert_eq!(backoff_delay_secs(3), 40);
    assert_eq!(backoff_delay_secs(100), u64::MAX);
}

#[test]
fn pause_versus_cancel() {
    // Paused before the cancellation fired: partial files stay.
    let t = with_status(row("T", 10, 0), TaskStatus::Processing);
    let pause = pause_request(t.status).unwrap();
    assert!(pause.cancel_worker);
    let t = t.apply(pause.update);
    assert_eq!(t.status, TaskStatus::Paused);
    match cancel_decision(Some(t.status), Some("v.mp4".to_string())) {
        CancelDecision::Paused(u) => {
            let t = t.apply(u);
            assert_eq!(t.status, TaskStatus::Paused);
            assert_eq!(t.speed, None);
        }
        _ => panic!("expected a pause"),
    }
    // No pause: the task is cancelled and its partial files removed.
    let t = with_status(row("U", 10, 0), TaskStatus::Processing);
    match cancel_decision(Some(t.status), Some("v.mp4".to_string())) {
        CancelDecision::Cancelled { update, remove_files } => {
            assert_eq!(remove_files, vec!["v.mp4.part".to_string(), "v.mp4".to_string()]);
            let t = t.apply(update);
            assert_eq!(t.status, TaskStatus::Cancelled);
            assert_eq!(t.error_message, Some("Download cancelled".to_string()));
        }
        _ => panic!("expected a cancellation"),
    }
    // Resumed meanwhile: nothing to do.
    assert!(matches!(cancel_decision(Some(TaskStatus::Queued), None), CancelDecision::Skip));
}

#[test]
fn crash_recovery() {
    let rows = vec![
        with_status(row("A", 1, 0), TaskStatus::Processing),
        with_status(row("B", 1, 0), TaskStatus::Completed),
    ];
    let rows = recover_rows(rows);
    assert_eq!(rows[0].id, "A");
    assert_eq!(rows[0].status, TaskStatus::Queued);
    assert_eq!(rows[1].status, TaskStatus::Completed);
    let c = with_status(row("C", 1, 0), TaskStatus::Paused).apply(recovery_update());
    assert_eq!(c.status, TaskStatus::Paused);
}

#[test]
fn terminal_states_are_kept() {
    let done = with_status(row("D", 1, 0), TaskStatus::Completed);
    let done = done.apply(cancel_idle_update());
    assert_eq!(done.status, TaskStatus::Completed);
    let done = done.apply(start_update(9));
    assert_eq!(done.status, TaskStatus::Completed);
    let err = DownloadError::Failed { message: "x".into(), total_bytes: Some(4), downloaded_bytes: 2, filename: None };
    let done = done.apply(partial_stats_update(&err));
    assert_eq!(done.status, TaskStatus::Completed);
    assert_eq!(done.downloaded_bytes, Some(2));
    assert_eq!(done.total_bytes, Some(4));
    // An error that knows no size leaves the stored size alone.
    let unsized_err = DownloadError::Cancelled { total_bytes: None, downloaded_bytes: 3, filename: None };
    let done = done.apply(partial_stats_update(&unsized_err));
    assert_eq!(done.total_bytes, Some(4));
    assert_eq!(done.downloaded_bytes, Some(3));
    assert!(retry_request(TaskStatus::Completed).is_err());
    let failed = with_status(row("F", 1, 0), TaskStatus::Failed);
    let failed = failed.apply(failure_decision(0, 3, "y".into()).update);
    assert_eq!(failed.status, TaskStatus::Failed);
    let mut failed = failed;
    failed.retries = 3;
    let again = failed.apply(retry_request(TaskStatus::Failed).unwrap());
    assert_eq!(again.status, TaskStatus::Queued);
    assert_eq!(again.retries, 0);
}

#[test]
fn command_refusals() {
    assert_eq!(
        retry_request(TaskStatus::Queued).err(),
        Some("Cannot retry task with status 'QUEUED'. Only FAILED or CANCELLED tasks can be retried.".to_string())
    );
    assert_eq!(
        pause_request(TaskStatus::Completed).err(),
        Some("Cannot pause task with status 'COMPLETED'. Only QUEUED or PROCESSING tasks can be paused.".to_string())
    );
    assert_eq!(
        resume_request(TaskStatus::Queued).err(),
        Some("Cannot resume task with status 'QUEUED'. Only PAUSED tasks can be resumed.".to_string())
    );
    assert!(!pause_request(TaskStatus::Queued).unwrap().cancel_worker);
    let mut p = with_status(row("P", 1, 0), TaskStatus::Paused);
    p.progress_hundredths = 4200;
    p.downloaded_bytes = Some(420);
    p.started_at = Some(7);
    let t = p.apply(resume_request(TaskStatus::Paused).unwrap());
    assert_eq!(t.status, TaskStatus::Queued);
    assert_eq!(t.progress_hundredths, 4200);
    assert_eq!(t.downloaded_bytes, Some(420));
    assert_eq!(t.started_at, Some(7));
    assert_eq!(TaskStatus::parse("CANCELLED"), Some(TaskStatus::Cancelled));
    assert_eq!(TaskStatus::parse("cancelled"), None);
}

#[test]
fn one_worker_per_task_and_bounded() {
    let mut q = DownloadQueue::new(2);
    assert!(q.begin("a".to_string()));
    assert!(!q.begin("a".to_string()));
    assert!(q.begin("b".to_string()));
    assert!(!q.begin("c".to_string()));
    assert!(q.cancel_task("a"));
    q.finish("a");
    assert!(!q.cancel_task("a"));
    assert!(q.begin("c".to_string()));
    // A queued row whose worker is still live is not started twice.
    let rows = vec![row("c", 10, 0), row("d", 1, 0)];
    q.finish("b");
    match q.next_action(&rows) {
        SchedulerAction::Start(i) => assert_eq!(rows[i].id, "d"),
        other => panic!("unexpected {:?}", other),
    }
    q.pause_queue();
    assert!(q.is_paused());
    assert_eq!(q.next_action(&rows), SchedulerAction::Wait);
    q.resume_queue();
    q.shutdown();
    assert_eq!(q.next_action(&rows), SchedulerAction::Exit);
}
