use launcher_core::SyncError;
use launcher_core::pool::{DownloadPool, DEFAULT_CONCURRENT_REQUESTS};

#[test]
fn default_ceiling_is_four() {
    assert_eq!(DEFAULT_CONCURRENT_REQUESTS, 4);
}

#[test]
fn ceiling_limits_admission() {
    let mut pool = DownloadPool::new(3, 2);
    let a = pool.next_task().unwrap();
    pool.start(a);
    let b = pool.next_task().unwrap();
    pool.start(b);
    // Two tasks are in flight and the ceiling is two: no admission.
    assert!(pool.next_task().is_none());
    pool.finish(a, Ok(()));
    // A slot freed up: the remaining task is admitted.
    let c = pool.next_task().unwrap();
    pool.start(c);
    assert!(pool.next_task().is_none());
}

#[test]
fn every_task_signals_completion_despite_failures() {
    let mut pool = DownloadPool::new(3, 2);
    let mut completions = 0;
    let mut started: Vec<usize> = Vec::new();
    loop {
        while let Some(i) = pool.next_task() {
            pool.start(i);
            started.push(i);
        }
        match started.pop() {
            Some(i) => {
                // The middle task fails; its siblings still run to the end.
                if i == 1 {
                    pool.finish(i, Err(SyncError::NetworkError));
                } else {
                    pool.finish(i, Ok(()));
                }
                completions += 1;
            }
            None => break,
        }
    }
    assert!(pool.is_done());
    assert_eq!(completions, 3);
    let report = pool.report();
    assert_eq!(report.total, 3);
    assert_eq!(report.succeeded, 2);
    assert_eq!(report.failures.len(), 1);
    assert_eq!(report.failures[0].index, 1);
    assert_eq!(report.failures[0].error, SyncError::NetworkError);
    assert!(!report.all_succeeded());
}

#[test]
fn all_success_report() {
    let mut pool = DownloadPool::new(2, 4);
    let a = pool.next_task().unwrap();
    pool.start(a);
    pool.finish(a, Ok(()));
    let b = pool.next_task().unwrap();
    pool.start(b);
    pool.finish(b, Ok(()));
    assert!(pool.is_done());
    let report = pool.report();
    assert_eq!(report.total, 2);
    assert_eq!(report.succeeded, 2);
    assert!(report.all_succeeded());
}

#[test]
fn empty_batch_is_done_immediately() {
    let pool = DownloadPool::new(0, 4);
    assert!(pool.is_done());
    assert!(pool.next_task().is_none());
    let report = pool.report();
    assert_eq!(report.total, 0);
    assert_eq!(report.succeeded, 0);
    assert!(report.all_succeeded());
}
