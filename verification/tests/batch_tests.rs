use frameselect::dispatch::{run_batch, Dispatcher, Job};
use frameselect::records::{sort_records, FrameRecord};

fn job(id: u64, ts_ms: u64) -> Job {
    Job { id, ts_ms, jpeg: vec![id as u8], path: format!("data/v_frame_{:03}.jpg", id) }
}

fn record(id: u64, ts_ms: u64) -> FrameRecord {
    FrameRecord {
        frame_id: id,
        timestamp_ms: ts_ms,
        description: format!("frame {}", id),
        path: String::new(),
        jpeg_bytes: None,
    }
}

#[test]
fn sorted_ascending_by_timestamp_for_any_completion_order() {
    let orders: Vec<Vec<usize>> = vec![vec![], vec![0], vec![1, 0, 3, 2], vec![2, 2, 1]];
    let mut all_outputs = Vec::new();
    for schedule in orders {
        let jobs: Vec<Job> = vec![job(0, 0), job(1, 250), job(2, 500), job(3, 750), job(4, 1000)];
        let descs: Vec<String> = (0..5).map(|i| format!("d{}", i)).collect();
        let (records, _) = run_batch(jobs, descs, 3, schedule);
        let sorted = sort_records(records);
        let stamps: Vec<u64> = sorted.iter().map(|r| r.timestamp_ms).collect();
        assert_eq!(stamps, vec![0, 250, 500, 750, 1000]);
        let ids: Vec<u64> = sorted.iter().map(|r| r.frame_id).collect();
        all_outputs.push(ids);
    }
    // every completion order yields the same final list
    for ids in &all_outputs {
        assert_eq!(ids, &vec![0, 1, 2, 3, 4]);
    }
}

#[test]
fn sort_breaks_timestamp_ties_by_id() {
    let records = vec![record(7, 100), record(3, 100), record(5, 50)];
    let sorted = sort_records(records);
    let keys: Vec<(u64, u64)> = sorted.iter().map(|r| (r.timestamp_ms, r.frame_id)).collect();
    assert_eq!(keys, vec![(50, 5), (100, 3), (100, 7)]);
}

#[test]
fn sort_keeps_every_record() {
    let records = vec![record(2, 30), record(0, 10), record(1, 20)];
    let sorted = sort_records(records);
    assert_eq!(sorted.len(), 3);
    assert_eq!(sorted[0].description, "frame 0");
    assert_eq!(sorted[1].description, "frame 1");
    assert_eq!(sorted[2].description, "frame 2");
}

#[test]
fn concurrency_never_exceeds_bound_of_two() {
    let schedules: Vec<Vec<usize>> = vec![vec![], vec![0], vec![1], vec![1, 0], vec![0, 1, 1, 0]];
    for schedule in schedules {
        let jobs: Vec<Job> = (0..5).map(|i| job(i, i * 250)).collect();
        let descs: Vec<String> = (0..5).map(|i| format!("d{}", i)).collect();
        let (records, max_seen) = run_batch(jobs, descs, 2, schedule);
        assert_eq!(records.len(), 5);
        assert!(max_seen <= 2);
        assert_eq!(max_seen, 2); // with five pending jobs the bound is reached
    }
}

#[test]
fn zero_bound_is_raised_to_one() {
    let jobs: Vec<Job> = (0..3).map(|i| job(i, i)).collect();
    let descs: Vec<String> = (0..3).map(|i| format!("d{}", i)).collect();
    let (records, max_seen) = run_batch(jobs, descs, 0, vec![]);
    assert_eq!(records.len(), 3);
    assert_eq!(max_seen, 1);
}

#[test]
fn permit_pool_counts_in_flight_jobs() {
    let mut d = Dispatcher::new(2);
    assert!(d.try_begin());
    assert!(d.try_begin());
    assert!(!d.try_begin()); // bound reached
    d.finish_job();
    assert!(d.try_begin()); // permit released and reacquired
    assert_eq!(d.in_flight, 2);
    assert_eq!(d.bound, 2);
}

#[test]
fn empty_batch_yields_no_records() {
    let (records, max_seen) = run_batch(Vec::new(), Vec::new(), 4, vec![]);
    assert_eq!(records.len(), 0);
    assert_eq!(max_seen, 0);
}
