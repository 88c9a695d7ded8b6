use launcher_core::progress::{stream_total, ProgressEvent, ProgressTracker};
use launcher_core::SyncError;

#[test]
fn final_event_reports_downloaded_equal_total() {
    let mut t = ProgressTracker::new(10);
    t.on_chunk(4);
    assert_eq!(t.event(), ProgressEvent { downloaded: 4, total: 10 });
    t.on_chunk(4);
    assert_eq!(t.event(), ProgressEvent { downloaded: 8, total: 10 });
    t.on_chunk(4);
    assert_eq!(t.event(), ProgressEvent { downloaded: 10, total: 10 });
    assert!(t.is_complete());
}

#[test]
fn progress_is_monotone_and_clamped() {
    let mut t = ProgressTracker::new(5);
    let mut last = t.event().downloaded;
    for len in [0u64, 2, 1, 7, 3] {
        t.on_chunk(len);
        let ev = t.event();
        assert!(ev.downloaded >= last);
        assert!(ev.downloaded <= ev.total);
        assert_eq!(ev.total, 5);
        last = ev.downloaded;
    }
    assert_eq!(t.event(), ProgressEvent { downloaded: 5, total: 5 });
}

#[test]
fn missing_content_length_is_a_network_error() {
    assert_eq!(stream_total(Some(42)), Ok(42));
    assert_eq!(stream_total(None), Err(SyncError::NetworkError));
}

#[test]
fn zero_length_stream_is_complete_at_once() {
    let t = ProgressTracker::new(0);
    assert!(t.is_complete());
    assert_eq!(t.event(), ProgressEvent { downloaded: 0, total: 0 });
}

#[test]
fn oversized_chunk_does_not_exceed_total() {
    let mut t = ProgressTracker::new(3);
    t.on_chunk(100);
    assert_eq!(t.event(), ProgressEvent { downloaded: 3, total: 3 });
    assert!(t.is_complete());
}
