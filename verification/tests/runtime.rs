//! Tests of the runtime decision cores: the reactive value container and the
//! batched task queue.

use reust::{Reactive, TaskQueue};

#[test]
fn reactive_starts_with_value_and_no_listeners() {
    let r: Reactive<i32> = Reactive::new(7);
    assert_eq!(*r.value(), 7);
}

#[test]
fn reactive_set_updates_value_and_schedules_once() {
    let mut r = Reactive::new(0);
    assert!(r.set(1));
    assert_eq!(*r.value(), 1);
    // A second set before the flush must not schedule another one.
    assert!(!r.set(2));
    assert_eq!(*r.value(), 2);
    // After the flush, the next set schedules again.
    let n = r.flush();
    assert_eq!(n, 0);
    assert!(r.set(3));
    assert_eq!(*r.value(), 3);
}

#[test]
fn reactive_subscribe_hands_out_consecutive_slots() {
    let mut r = Reactive::new("x");
    assert_eq!(r.subscribe(), 0);
    assert_eq!(r.subscribe(), 1);
    assert_eq!(r.subscribe(), 2);
    r.set("y");
    // The flush reports how many listeners the host must invoke.
    assert_eq!(r.flush(), 3);
    assert_eq!(*r.value(), "y");
}

#[test]
fn task_queue_batches_behind_one_scheduled_run() {
    let mut q = TaskQueue::new();
    assert!(q.queue());
    assert!(!q.queue());
    assert!(!q.queue());
    assert_eq!(q.run_tasks(), 3);
    // The batch is empty again and the next task schedules a new run.
    assert_eq!(q.run_tasks(), 0);
    assert!(q.queue());
    assert_eq!(q.run_tasks(), 1);
}
