use rquickjs_core::qjs::JSMemoryUsage;
use rquickjs_core::{ExternalMemoryTracker, RuntimeMemoryUsage};

fn engine_report(malloc_size: i64) -> JSMemoryUsage {
    JSMemoryUsage {
        malloc_size,
        malloc_limit: -1,
        memory_used_size: 4096,
        malloc_count: 12,
        memory_used_count: 30,
        atom_count: 200,
        atom_size: 8000,
        str_count: 10,
        str_size: 320,
        obj_count: 50,
        obj_size: 3200,
        prop_count: 400,
        prop_size: 6400,
        shape_count: 20,
        shape_size: 1600,
        js_func_count: 3,
        js_func_size: 300,
        js_func_code_size: 120,
        js_func_pc2line_count: 3,
        js_func_pc2line_size: 40,
        c_func_count: 90,
        array_count: 2,
        fast_array_count: 1,
        fast_array_elements: 4,
        binary_object_count: 0,
        binary_object_size: 0,
    }
}

fn usage(malloc_size: i64, external_bytes: usize) -> RuntimeMemoryUsage {
    RuntimeMemoryUsage {
        engine: engine_report(malloc_size),
        external_bytes,
        allocator_usable_size_available: true,
    }
}

#[test]
fn new_tracker_counts_nothing() {
    assert_eq!(ExternalMemoryTracker::new().bytes(), 0);
    assert_eq!(ExternalMemoryTracker::default().bytes(), 0);
}

#[test]
fn allocate_adds_its_bytes() {
    let mut tracker = ExternalMemoryTracker::new();
    let first = tracker.allocate(100);
    assert_eq!(first.bytes(), 100);
    assert_eq!(tracker.bytes(), 100);
    let second = tracker.allocate(28);
    assert_eq!(second.bytes(), 28);
    assert_eq!(tracker.bytes(), 128);
    first.release(&mut tracker);
    second.release(&mut tracker);
}

#[test]
fn resize_grows_and_shrinks_the_count() {
    let mut tracker = ExternalMemoryTracker::new();
    let other = tracker.allocate(10);
    let mut allocation = tracker.allocate(64);
    allocation.resize(&mut tracker, 256);
    assert_eq!(allocation.bytes(), 256);
    assert_eq!(tracker.bytes(), 266);
    allocation.resize(&mut tracker, 16);
    assert_eq!(allocation.bytes(), 16);
    assert_eq!(tracker.bytes(), 26);
    allocation.resize(&mut tracker, 16);
    assert_eq!(tracker.bytes(), 26);
    allocation.resize(&mut tracker, 0);
    assert_eq!(allocation.bytes(), 0);
    assert_eq!(tracker.bytes(), 10);
    allocation.release(&mut tracker);
    other.release(&mut tracker);
}

#[test]
fn release_takes_the_bytes_out() {
    let mut tracker = ExternalMemoryTracker::new();
    let kept = tracker.allocate(7);
    let dropped = tracker.allocate(40);
    dropped.release(&mut tracker);
    assert_eq!(tracker.bytes(), 7);
    kept.release(&mut tracker);
    assert_eq!(tracker.bytes(), 0);
}

#[test]
fn release_undoes_allocate_on_values() {
    let mut tracker = ExternalMemoryTracker::new();
    let base = tracker.allocate(1000);
    let before = tracker.bytes();
    let temporary = tracker.allocate(512);
    temporary.release(&mut tracker);
    assert_eq!(tracker.bytes(), before);
    base.release(&mut tracker);
}

#[test]
fn resize_back_restores_on_values() {
    let mut tracker = ExternalMemoryTracker::new();
    let mut allocation = tracker.allocate(300);
    allocation.resize(&mut tracker, 9000);
    allocation.resize(&mut tracker, 300);
    assert_eq!(tracker.bytes(), 300);
    allocation.release(&mut tracker);
    assert_eq!(tracker.bytes(), 0);
}

#[test]
fn release_after_resize_takes_the_current_size() {
    let mut tracker = ExternalMemoryTracker::new();
    let kept = tracker.allocate(5);
    let mut allocation = tracker.allocate(50);
    allocation.resize(&mut tracker, 80);
    allocation.release(&mut tracker);
    assert_eq!(tracker.bytes(), 5);
    kept.release(&mut tracker);
}

#[test]
fn zero_sized_allocation() {
    let mut tracker = ExternalMemoryTracker::new();
    let allocation = tracker.allocate(0);
    assert_eq!(allocation.bytes(), 0);
    assert_eq!(tracker.bytes(), 0);
    allocation.release(&mut tracker);
    assert_eq!(tracker.bytes(), 0);
}

#[test]
fn allocation_up_to_the_limit() {
    let mut tracker = ExternalMemoryTracker::new();
    let small = tracker.allocate(1);
    let big = tracker.allocate(usize::MAX - 1);
    assert_eq!(tracker.bytes(), usize::MAX);
    big.release(&mut tracker);
    assert_eq!(tracker.bytes(), 1);
    small.release(&mut tracker);
}

#[test]
fn allocator_bytes_reports_malloc_size() {
    assert_eq!(usage(123_456, 0).allocator_bytes(), 123_456);
    assert_eq!(usage(0, 0).allocator_bytes(), 0);
}

#[test]
fn allocator_bytes_is_zero_for_negative_size() {
    assert_eq!(usage(-1, 0).allocator_bytes(), 0);
    assert_eq!(usage(i64::MIN, 0).allocator_bytes(), 0);
}

#[test]
fn allocator_bytes_of_largest_size() {
    let expected = usize::try_from(i64::MAX).unwrap_or(0);
    assert_eq!(usage(i64::MAX, 0).allocator_bytes(), expected);
}

#[test]
fn total_adds_allocator_and_external_bytes() {
    assert_eq!(usage(1000, 24).total_attributed_bytes(), 1024);
    assert_eq!(usage(-5, 24).total_attributed_bytes(), 24);
    assert_eq!(usage(0, 0).total_attributed_bytes(), 0);
}

#[test]
fn total_saturates_at_usize_max() {
    assert_eq!(usage(10, usize::MAX - 3).total_attributed_bytes(), usize::MAX);
    assert_eq!(usage(3, usize::MAX - 3).total_attributed_bytes(), usize::MAX);
    assert_eq!(usage(2, usize::MAX - 3).total_attributed_bytes(), usize::MAX - 1);
}

#[test]
fn total_from_tracker_count() {
    let mut tracker = ExternalMemoryTracker::new();
    let allocation = tracker.allocate(2048);
    let report = usage(4096, tracker.bytes());
    assert_eq!(report.total_attributed_bytes(), 6144);
    assert!(report.allocator_usable_size_available);
    allocation.release(&mut tracker);
}
