use husky::queue::{dropme_string, SendQueue, SEND_WINDOW};

#[test]
fn new_queue_is_empty() {
    let q = SendQueue::new();
    assert_eq!(q.len(), 0);
    assert_eq!(q.sent_count(), 0);
    assert!(q.drain_window().is_empty());
}

#[test]
fn enqueue_within_window_appends_in_order() {
    let mut q = SendQueue::new();
    q.enqueue("one".to_string());
    q.enqueue("two".to_string());
    assert_eq!(q.len(), 2);
    assert_eq!(q.sent_count(), 0);
    assert_eq!(q.drain_window(), vec!["one".to_string(), "two".to_string()]);
}

#[test]
fn drain_window_skips_transmitted_entries() {
    let mut q = SendQueue::new();
    q.enqueue("one".to_string());
    q.enqueue("two".to_string());
    q.enqueue("three".to_string());
    let t = q.advance(2);
    assert!(!t);
    assert_eq!(q.sent_count(), 2);
    assert_eq!(q.drain_window(), vec!["three".to_string()]);
}

#[test]
fn collapse_triggers_exactly_at_window() {
    // Fill a whole window, transmit it, then enqueue once more: the queue
    // collapses to the newest entry and the cursor resets.
    let mut q = SendQueue::new();
    for i in 0..SEND_WINDOW {
        q.enqueue(format!("m{}", i));
    }
    let t = q.advance(SEND_WINDOW);
    assert!(!t);
    assert_eq!(q.sent_count(), SEND_WINDOW);
    q.enqueue("newest".to_string());
    assert_eq!(q.len(), 1);
    assert_eq!(q.sent_count(), 0);
    assert_eq!(q.drain_window(), vec!["newest".to_string()]);
}

#[test]
fn no_collapse_below_window() {
    // One short of the window: enqueue still appends.
    let mut q = SendQueue::new();
    for i in 0..SEND_WINDOW {
        q.enqueue(format!("m{}", i));
    }
    let t = q.advance(SEND_WINDOW - 1);
    assert!(!t);
    assert_eq!(q.sent_count(), SEND_WINDOW - 1);
    q.enqueue("more".to_string());
    assert_eq!(q.len(), SEND_WINDOW + 1);
    assert_eq!(q.sent_count(), SEND_WINDOW - 1);
}

#[test]
fn cursor_never_passes_length_through_interleaving() {
    let mut q = SendQueue::new();
    assert!(q.sent_count() <= q.len());
    for i in 0..25 {
        q.enqueue(format!("m{}", i));
        assert!(q.sent_count() <= q.len());
        if i % 3 == 2 {
            let pending = q.len() - q.sent_count();
            let step = if pending > 1 { 2 } else { pending };
            q.advance(step);
            assert!(q.sent_count() <= q.len());
        }
        let _ = q.drain_window();
        assert!(q.sent_count() <= q.len());
    }
}

#[test]
fn sentinel_drain_terminates_and_clears() {
    let mut q = SendQueue::new();
    q.enqueue(dropme_string());
    assert_eq!(q.drain_window(), vec!["X".to_string()]);
    let t = q.advance(1);
    assert!(t);
    assert_eq!(q.len(), 0);
    assert_eq!(q.sent_count(), 0);
    // Nothing is left to signal a second termination.
    assert!(q.drain_window().is_empty());
    let t2 = q.advance(0);
    assert!(!t2);
}

#[test]
fn sentinel_amid_window_terminates() {
    let mut q = SendQueue::new();
    q.enqueue("Ahello".to_string());
    q.enqueue(dropme_string());
    q.enqueue("Bbob: late".to_string());
    let t = q.advance(3);
    assert!(t);
    assert_eq!(q.len(), 0);
    assert_eq!(q.sent_count(), 0);
}

#[test]
fn advance_without_sentinel_keeps_entries() {
    let mut q = SendQueue::new();
    q.enqueue("Ahello".to_string());
    q.enqueue("Tbob".to_string());
    let t = q.advance(2);
    assert!(!t);
    assert_eq!(q.len(), 2);
    assert_eq!(q.sent_count(), 2);
    assert!(q.drain_window().is_empty());
}
