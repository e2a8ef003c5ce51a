use std::sync::atomic::Ordering;

use boxlite::metrics::count_running;
use boxlite::metrics::RuntimeMetrics;
use boxlite::metrics::RuntimeMetricsStorage;

#[test]
fn test_num_running_boxes_calculation() {
    let storage = RuntimeMetricsStorage::new();
    let metrics = RuntimeMetrics::new(storage.clone());

    assert_eq!(metrics.num_running_boxes(), 0);

    for _ in 0..5 {
        storage.boxes_created.fetch_add(1, Ordering::Relaxed);
    }
    assert_eq!(metrics.num_running_boxes(), 5);

    storage.boxes_stopped.fetch_add(1, Ordering::Relaxed);
    storage.boxes_stopped.fetch_add(1, Ordering::Relaxed);
    assert_eq!(metrics.num_running_boxes(), 3);

    storage.boxes_created.fetch_add(1, Ordering::Relaxed);
    storage.boxes_failed.fetch_add(1, Ordering::Relaxed);
    assert_eq!(metrics.num_running_boxes(), 3);

    for _ in 0..3 {
        storage.boxes_stopped.fetch_add(1, Ordering::Relaxed);
    }
    assert_eq!(metrics.num_running_boxes(), 0);
}

#[test]
fn test_num_running_boxes_saturating_sub() {
    let storage = RuntimeMetricsStorage::new();
    let metrics = RuntimeMetrics::new(storage.clone());

    storage.boxes_created.fetch_add(1, Ordering::Relaxed);
    storage.boxes_stopped.fetch_add(5, Ordering::Relaxed);

    assert_eq!(metrics.num_running_boxes(), 0);
}

#[test]
fn test_boxes_stopped_total() {
    let storage = RuntimeMetricsStorage::new();
    let metrics = RuntimeMetrics::new(storage.clone());

    assert_eq!(metrics.boxes_stopped_total(), 0);

    storage.boxes_stopped.fetch_add(3, Ordering::Relaxed);
    assert_eq!(metrics.boxes_stopped_total(), 3);
}

#[test]
fn test_count_running_formula() {
    assert_eq!(count_running(10, 3, 2), 5);
    assert_eq!(count_running(10, 10, 0), 0);
    assert_eq!(count_running(10, 8, 5), 0);
    assert_eq!(count_running(0, 0, 0), 0);
    assert_eq!(count_running(u64::MAX, 0, 0), u64::MAX);
    assert_eq!(count_running(u64::MAX, u64::MAX, u64::MAX), 0);
    assert_eq!(count_running(5, u64::MAX, 1), 0);
}

#[test]
fn test_recorders_move_the_counters() {
    let storage = RuntimeMetricsStorage::new();
    let metrics = RuntimeMetrics::new(storage.clone());
    storage.record_created();
    storage.record_created();
    storage.record_failed();
    storage.record_stopped();
    storage.record_command(false);
    storage.record_command(true);
    assert_eq!(metrics.boxes_created_total(), 2);
    assert_eq!(metrics.boxes_failed_total(), 1);
    assert_eq!(metrics.boxes_stopped_total(), 1);
    assert_eq!(metrics.num_running_boxes(), 0);
    assert_eq!(metrics.total_commands_executed(), 2);
    assert_eq!(metrics.total_exec_errors(), 1);
    let other = RuntimeMetrics::new(RuntimeMetricsStorage::default());
    assert_eq!(other.boxes_created_total(), 0);
}
