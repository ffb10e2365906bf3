use dualcore_log::consumer::{Consumer, ConsumerAction, WriteOutcome};
use dualcore_log::message::Message;
use dualcore_log::queue::LogQueue;

fn transmit(action: ConsumerAction) -> String {
    match action {
        ConsumerAction::Transmit(m) => m.as_str().to_string(),
        _ => panic!("nothing to transmit"),
    }
}

#[test]
fn consumer_suspends_on_an_empty_queue() {
    let mut q = LogQueue::new();
    let mut c = Consumer::new();
    assert!(matches!(c.next(&mut q), ConsumerAction::Suspend));
    assert!(matches!(c.next(&mut q), ConsumerAction::Suspend));
}

#[test]
fn consumer_writes_one_message_at_a_time() {
    let mut q = LogQueue::new();
    let _ = q.enqueue_nonblocking(Message::new().with_text("one"));
    let _ = q.enqueue_nonblocking(Message::new().with_text("two"));
    let mut c = Consumer::new();
    assert_eq!(transmit(c.next(&mut q)), "one");
    assert!(matches!(c.next(&mut q), ConsumerAction::AwaitWrite));
    assert_eq!(q.len(), 1);
    c.write_finished(WriteOutcome::Written);
    assert_eq!(transmit(c.next(&mut q)), "two");
    c.write_finished(WriteOutcome::Written);
    assert!(matches!(c.next(&mut q), ConsumerAction::Suspend));
}

#[test]
fn failed_write_does_not_stall_the_consumer() {
    let mut q = LogQueue::new();
    let _ = q.enqueue_nonblocking(Message::new().with_text("lost"));
    let _ = q.enqueue_nonblocking(Message::new().with_text("next"));
    let mut c = Consumer::new();
    assert_eq!(transmit(c.next(&mut q)), "lost");
    c.write_finished(WriteOutcome::Failed);
    assert_eq!(transmit(c.next(&mut q)), "next");
    c.write_finished(WriteOutcome::Failed);
    assert!(matches!(c.next(&mut q), ConsumerAction::Suspend));
    assert!(q.is_empty());
}
