use sftp_core::ProgressEvent;
use sftp_core::TransferProgress;
use sftp_core::TransferStatus;
use sftp_core::transfer::progress_percent;

fn begin(total: u64) -> TransferProgress {
    TransferProgress::begin("t1".to_string(), "report.txt".to_string(), total)
}

#[test]
fn percentage_is_truncated_and_zero_when_total_unknown() {
    assert_eq!(progress_percent(0, 0), 0);
    assert_eq!(progress_percent(5000, 0), 0);
    assert_eq!(progress_percent(0, 400), 0);
    assert_eq!(progress_percent(50, 200), 25);
    assert_eq!(progress_percent(199, 200), 99);
    assert_eq!(progress_percent(200, 200), 100);
    assert_eq!(progress_percent(u64::MAX, u64::MAX), 100);
}

#[test]
fn deltas_across_events_sum_to_total_and_final_event_is_completed() {
    let total: u64 = 20000;
    let mut t = begin(total);
    let chunks = [8192u64, 8192, 3616];
    let mut events: Vec<ProgressEvent> = Vec::new();
    for c in chunks {
        // a generous elapsed time makes the throttle emit on every chunk
        if let Some(e) = t.record_chunk(c, 1000) {
            events.push(e);
        }
    }
    let final_event = t.complete();
    events.push(final_event);

    let mut previous: u64 = 0;
    let mut delta_sum: u64 = 0;
    for e in &events {
        assert!(e.bytes_copied >= previous, "byte counts never go backwards");
        delta_sum += e.bytes_copied - previous;
        previous = e.bytes_copied;
    }
    assert_eq!(delta_sum, total);

    let last = events.last().unwrap();
    assert_eq!(last.progress, 100);
    assert!(last.completed);
    assert!(!last.cancelled);
    assert_eq!(last.bytes_copied, total);
    assert_eq!(last.transfer_id, "t1");

    // no event for this transfer id after the final one
    assert_eq!(t.status, TransferStatus::Completed);
    assert!(t.record_chunk(1, 1000).is_none());
    assert!(t.poll_cancel(true).is_none());
}

#[test]
fn throttle_emits_on_elapsed_time_or_megabyte_boundary() {
    let mut t = begin(4 * 1024 * 1024);
    // neither 100 ms elapsed nor a megabyte boundary crossed: silent
    assert!(t.record_chunk(8192, 0).is_none());
    assert!(t.record_chunk(8192, 99).is_none());
    // the elapsed window alone triggers
    let e = t.record_chunk(8192, 100).expect("time-based emission");
    assert_eq!(e.bytes_copied, 3 * 8192);
    assert!(!e.cancelled && !e.completed);
    // crossing the megabyte boundary triggers even with no time elapsed
    let e = t.record_chunk(1024 * 1024, 0).expect("boundary-based emission");
    assert_eq!(e.bytes_copied, 3 * 8192 + 1024 * 1024);
}

#[test]
fn cancellation_emits_cancelled_event_within_total() {
    let total: u64 = 1000;
    let mut t = begin(total);
    assert!(t.poll_cancel(false).is_none());
    assert!(t.record_chunk(600, 1000).is_some());
    let e = t.poll_cancel(true).expect("cancel observation emits");
    assert!(e.cancelled);
    assert!(!e.completed);
    assert_eq!(e.bytes_copied, 600);
    assert!(e.bytes_copied <= total);
    assert_eq!(e.progress, 60);
    assert_eq!(t.status, TransferStatus::Cancelled);
    // terminal: nothing further changes or is emitted
    assert!(t.record_chunk(100, 1000).is_none());
    assert!(t.poll_cancel(true).is_none());
    assert_eq!(t.transferred, 600);
}

#[test]
fn unknown_total_reports_zero_progress_until_completion() {
    let mut t = begin(0);
    let e = t.record_chunk(5000, 1000).expect("emission");
    assert_eq!(e.total_size, 0);
    assert_eq!(e.progress, 0);
    let done = t.complete();
    assert_eq!(done.progress, 100);
    assert_eq!(done.bytes_copied, 5000);
}

#[test]
fn empty_stream_completes_with_zero_bytes() {
    let mut t = begin(0);
    let done = t.complete();
    assert!(done.completed);
    assert_eq!(done.bytes_copied, 0);
    assert_eq!(done.progress, 100);
}
