use etcd_tui::utils::AsyncTask;

#[test]
fn task_result_observed_exactly_once() {
    let mut t: AsyncTask<u32> = AsyncTask::new();
    assert!(!t.is_active());
    let ticket = t.start();
    assert!(t.is_active());
    assert!(t.try_ready().is_none());
    t.complete(ticket, 7);
    assert!(t.is_active());
    assert_eq!(t.try_ready(), Some(7));
    assert!(t.try_ready().is_none());
    assert!(!t.is_active());
}

#[test]
fn task_abort_suppresses_late_result() {
    let mut t: AsyncTask<u32> = AsyncTask::new();
    let ticket = t.start();
    assert!(t.abort());
    assert!(!t.is_active());
    t.complete(ticket, 9);
    assert!(t.try_ready().is_none());
    assert!(!t.is_active());
}

#[test]
fn task_stale_ticket_is_discarded() {
    let mut t: AsyncTask<u32> = AsyncTask::new();
    let first = t.start();
    assert!(t.abort());
    let second = t.start();
    assert_ne!(first, second);
    t.complete(first, 1);
    assert!(t.try_ready().is_none());
    t.complete(second, 2);
    assert_eq!(t.try_ready(), Some(2));
}

#[test]
fn task_abort_when_idle_reports_nothing() {
    let mut t: AsyncTask<u32> = AsyncTask::new();
    assert!(!t.abort());
    assert!(t.try_ready().is_none());
}

#[test]
fn task_restart_discards_pending_result() {
    let mut t: AsyncTask<u32> = AsyncTask::new();
    let first = t.start();
    t.complete(first, 5);
    let second = t.start();
    assert!(t.try_ready().is_none());
    t.complete(second, 6);
    assert_eq!(t.try_ready(), Some(6));
}
