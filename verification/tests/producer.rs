use dualcore_log::message::Severity;
use dualcore_log::producer::{log, log_best_effort};
use dualcore_log::queue::{Enqueued, LogQueue, QueueFull};

#[test]
fn suspending_producer_stores_the_rendered_line() {
    let mut q = LogQueue::new();
    assert!(matches!(log(&mut q, 1234, "Core0", Severity::Info, "Heartbeat, count=5"), Enqueued::Stored));
    assert_eq!(q.len(), 1);
    assert_eq!(
        q.dequeue_blocking().unwrap().as_str(),
        "[    1234ms] [Core0] [INFO ] Heartbeat, count=5\r\n"
    );
}

#[test]
fn suspending_producer_gets_its_line_back_from_a_full_queue() {
    let mut q = LogQueue::with_capacity(1).unwrap();
    assert!(matches!(log(&mut q, 1, "A", Severity::Debug, "one"), Enqueued::Stored));
    let (back, ticket) = match log(&mut q, 2, "A", Severity::Warn, "two") {
        Enqueued::Blocked(back, ticket) => (back, ticket),
        Enqueued::Stored => panic!("a full queue stored a message"),
    };
    assert_eq!(back.as_str(), "[       2ms] [A] [WARN ] two\r\n");
    assert_eq!(q.dequeue_blocking().unwrap().as_str(), "[       1ms] [A] [DEBUG] one\r\n");
    assert!(matches!(q.enqueue_waiting(back, ticket), Enqueued::Stored));
    assert_eq!(q.dequeue_blocking().unwrap().as_str(), "[       2ms] [A] [WARN ] two\r\n");
}

#[test]
fn best_effort_producer_drops_on_a_full_queue() {
    let mut q = LogQueue::with_capacity(2).unwrap();
    assert_eq!(log_best_effort(&mut q, 5, "ISR", Severity::Info, "GPIO interrupt triggered"), Ok(()));
    assert_eq!(log_best_effort(&mut q, 6, "ISR", Severity::Debug, "Pin state: 5"), Ok(()));
    assert_eq!(log_best_effort(&mut q, 7, "ISR", Severity::Error, "dropped"), Err(QueueFull));
    assert_eq!(q.len(), 2);
    assert_eq!(
        q.dequeue_blocking().unwrap().as_str(),
        "[       5ms] [ISR] [INFO ] GPIO interrupt triggered\r\n"
    );
    assert_eq!(q.dequeue_blocking().unwrap().as_str(), "[       6ms] [ISR] [DEBUG] Pin state: 5\r\n");
    assert!(q.dequeue_blocking().is_none());
}

#[test]
fn both_producers_share_one_order() {
    let mut q = LogQueue::new();
    assert!(matches!(log(&mut q, 1, "Core0", Severity::Info, "a"), Enqueued::Stored));
    assert_eq!(log_best_effort(&mut q, 1, "Core1", Severity::Info, "b"), Ok(()));
    assert!(matches!(log(&mut q, 2, "Core0", Severity::Info, "c"), Enqueued::Stored));
    assert_eq!(q.dequeue_blocking().unwrap().as_str(), "[       1ms] [Core0] [INFO ] a\r\n");
    assert_eq!(q.dequeue_blocking().unwrap().as_str(), "[       1ms] [Core1] [INFO ] b\r\n");
    assert_eq!(q.dequeue_blocking().unwrap().as_str(), "[       2ms] [Core0] [INFO ] c\r\n");
}
