//! Measuring the stack.

use pingora_runtime::worker_stack::{base, here, mark_base, size, used_here, WorkerStack};

#[test]
fn an_unmarked_thread_reports_no_base() {
    // No runtime has started this thread.
    let stack = WorkerStack::unmarked();
    assert_eq!(base(&stack), 0);
    assert_eq!(size(&stack), 0);
    assert_eq!(used_here(&stack, here()), None);
}

fn deeper(stack: &WorkerStack, depth: u32) -> usize {
    // Recurse so the measured frame is genuinely below the one that the shallow
    // measurement was taken in, whatever the optimizer does to a single call.
    if depth == 0 {
        used_here(stack, here()).expect("a marked thread has a base")
    } else {
        let used = deeper(stack, depth - 1);
        // Keep the frame alive past the recursive call so this is not a tail call.
        std::hint::black_box(used)
    }
}

/// Runs `probe` on a thread of its own.
fn on_a_thread<F: FnOnce() + Send + 'static>(probe: F) {
    let host = tokio::runtime::Builder::new_current_thread()
        .build()
        .unwrap();
    host.block_on(host.handle().spawn_blocking(probe))
        .expect("the probe thread runs to completion");
}

#[test]
fn a_marked_thread_reports_the_depth_below_its_base() {
    on_a_thread(|| {
        let mut stack = WorkerStack::unmarked();
        mark_base(&mut stack, 1234);
        assert_eq!(size(&stack), 1234);
        let shallow = used_here(&stack, here()).expect("a marked thread has a base");
        let deep = deeper(&stack, 8);
        assert!(
            deep > shallow,
            "a deeper frame has to report more stack in use: {deep} vs {shallow}"
        );
    });
}

#[test]
fn an_address_above_the_base_reports_no_depth() {
    on_a_thread(|| {
        let mut stack = WorkerStack::unmarked();
        mark_base(&mut stack, 0);
        let above = base(&stack) + 4096;
        assert_eq!(
            used_here(&stack, above),
            Some(0),
            "a frame above the base has no depth to report, and must not wrap"
        );
    });
}

#[test]
fn depth_is_the_distance_from_the_base() {
    let stack = WorkerStack::based_at(10_000, 4096);
    assert_eq!(base(&stack), 10_000);
    assert_eq!(size(&stack), 4096);
    assert_eq!(used_here(&stack, 9_000), Some(1_000));
    assert_eq!(used_here(&stack, 10_000), Some(0));
    assert_eq!(used_here(&stack, 10_001), Some(0));
    assert_eq!(used_here(&stack, usize::MAX), Some(0));
    assert_eq!(used_here(&stack, 0), Some(10_000));
    assert_eq!(used_here(&WorkerStack::based_at(0, 4096), 9_000), None);
}

#[test]
fn a_probe_is_an_address_near_the_local_it_is_called_beside() {
    let mut stack = WorkerStack::unmarked();
    mark_base(&mut stack, 7);
    let probe = here();
    assert_ne!(probe, 0);
    // Both anchors are locals of this thread, a few frames apart.
    assert!(base(&stack).abs_diff(probe) < 64 * 1024);
}

#[test]
fn a_later_mark_from_a_deeper_frame_reports_less() {
    let earlier = WorkerStack::based_at(10_000, 1);
    let later = WorkerStack::based_at(9_000, 2);
    assert_eq!(used_here(&earlier, 8_000), Some(2_000));
    assert_eq!(used_here(&later, 8_000), Some(1_000));
    assert_eq!(used_here(&later, 9_500), Some(0));
    assert_eq!(used_here(&earlier, 9_500), Some(500));
}
