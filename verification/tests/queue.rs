use dualcore_log::config::QUEUE_CAPACITY;
use dualcore_log::message::Message;
use dualcore_log::queue::{Enqueued, LogQueue, QueueFull, Ticket};

fn text(s: &str) -> Message {
    Message::new().with_text(s)
}

fn store(q: &mut LogQueue, s: &str) {
    assert!(matches!(q.enqueue_blocking(text(s)), Enqueued::Stored));
}

fn take(q: &mut LogQueue) -> String {
    q.dequeue_blocking().unwrap().as_str().to_string()
}

#[test]
fn two_slot_queue_scenario() {
    let mut q = LogQueue::with_capacity(2).unwrap();
    store(&mut q, "A");
    store(&mut q, "B");
    assert_eq!(q.enqueue_nonblocking(text("C")), Err(QueueFull));
    assert_eq!(q.len(), 2);
    assert_eq!(take(&mut q), "A");
    assert_eq!(q.len(), 1);
    assert_eq!(q.enqueue_nonblocking(text("D")), Ok(()));
    assert_eq!(q.len(), 2);
    assert_eq!(take(&mut q), "B");
    assert_eq!(take(&mut q), "D");
    assert!(q.dequeue_blocking().is_none());
}

#[test]
fn new_queue_is_empty_and_has_sixteen_slots() {
    let q = LogQueue::new();
    assert_eq!(QUEUE_CAPACITY, 16);
    assert_eq!(q.capacity(), 16);
    assert_eq!(q.len(), 0);
    assert!(q.is_empty());
    assert!(!q.is_full());
    assert_eq!(q.free_slots(), 16);
    assert_eq!(q.waiting(), 0);
    assert_eq!(q.tickets_issued(), 0);
}

#[test]
fn capacity_is_from_one_to_sixteen() {
    assert!(LogQueue::with_capacity(0).is_none());
    assert!(LogQueue::with_capacity(17).is_none());
    assert!(LogQueue::with_capacity(usize::MAX).is_none());
    assert_eq!(LogQueue::with_capacity(1).unwrap().capacity(), 1);
    assert_eq!(LogQueue::with_capacity(10).unwrap().capacity(), 10);
    assert_eq!(LogQueue::with_capacity(16).unwrap().capacity(), 16);
}

#[test]
fn messages_leave_in_the_order_they_entered() {
    let mut q = LogQueue::new();
    for i in 0..16u64 {
        assert_eq!(q.enqueue_nonblocking(Message::new().with_text("m").with_decimal(i)), Ok(()));
        assert_eq!(q.len(), i as usize + 1);
    }
    assert!(q.is_full());
    assert_eq!(q.free_slots(), 0);
    for i in 0..16u64 {
        assert_eq!(take(&mut q), format!("m{}", i));
    }
    assert!(q.is_empty());
}

#[test]
fn full_queue_refuses_and_stays_as_it_was() {
    let mut q = LogQueue::new();
    for i in 0..16u64 {
        assert_eq!(q.enqueue_nonblocking(Message::new().with_decimal(i)), Ok(()));
    }
    assert_eq!(q.enqueue_nonblocking(text("late")), Err(QueueFull));
    assert_eq!(q.enqueue_nonblocking(text("later")), Err(QueueFull));
    assert_eq!(q.len(), 16);
    for i in 0..16u64 {
        assert_eq!(take(&mut q), format!("{}", i));
    }
    assert!(q.dequeue_blocking().is_none());
}

#[test]
fn empty_queue_hands_out_nothing() {
    let mut q = LogQueue::with_capacity(3).unwrap();
    assert!(q.dequeue_blocking().is_none());
    assert_eq!(q.len(), 0);
    store(&mut q, "x");
    assert_eq!(take(&mut q), "x");
    assert!(q.dequeue_blocking().is_none());
}

fn blocked(outcome: Enqueued) -> (Message, Ticket) {
    match outcome {
        Enqueued::Blocked(back, ticket) => (back, ticket),
        Enqueued::Stored => panic!("the message was stored"),
    }
}

#[test]
fn blocked_producer_keeps_its_message() {
    let mut q = LogQueue::with_capacity(1).unwrap();
    store(&mut q, "held");
    let (back, ticket) = blocked(q.enqueue_blocking(text("waiting")));
    assert_eq!(back.as_str(), "waiting");
    assert_eq!(ticket.number(), 0);
    assert_eq!(q.len(), 1);
    assert_eq!(q.waiting(), 1);
    let (back, ticket) = blocked(q.enqueue_waiting(back, ticket));
    assert_eq!(back.as_str(), "waiting");
    assert_eq!(ticket.number(), 0);
    assert_eq!(take(&mut q), "held");
    assert!(matches!(q.enqueue_waiting(back, ticket), Enqueued::Stored));
    assert_eq!(q.waiting(), 0);
    assert_eq!(take(&mut q), "waiting");
}

#[test]
fn blocked_producer_proceeds_after_a_single_dequeue() {
    let mut q = LogQueue::new();
    for i in 0..16u64 {
        store(&mut q, &format!("m{}", i));
    }
    let (back, ticket) = blocked(q.enqueue_blocking(text("late")));
    assert_eq!(take(&mut q), "m0");
    assert!(matches!(q.enqueue_waiting(back, ticket), Enqueued::Stored));
    assert!(q.is_full());
    for i in 1..16u64 {
        assert_eq!(take(&mut q), format!("m{}", i));
    }
    assert_eq!(take(&mut q), "late");
}

#[test]
fn blocked_producers_proceed_in_the_order_they_came() {
    let mut q = LogQueue::with_capacity(2).unwrap();
    store(&mut q, "A");
    store(&mut q, "B");
    let (first, first_ticket) = blocked(q.enqueue_blocking(text("first")));
    let (second, second_ticket) = blocked(q.enqueue_blocking(text("second")));
    assert_eq!((first_ticket.number(), second_ticket.number()), (0, 1));
    assert_eq!(q.waiting(), 2);
    assert_eq!(take(&mut q), "A");
    // The one that came second asks first and is still refused.
    let (second, second_ticket) = blocked(q.enqueue_waiting(second, second_ticket));
    assert!(matches!(q.enqueue_waiting(first, first_ticket), Enqueued::Stored));
    let (second, second_ticket) = blocked(q.enqueue_waiting(second, second_ticket));
    assert_eq!(take(&mut q), "B");
    assert!(matches!(q.enqueue_waiting(second, second_ticket), Enqueued::Stored));
    assert_eq!(q.waiting(), 0);
    assert_eq!(take(&mut q), "first");
    assert_eq!(take(&mut q), "second");
    assert!(q.is_empty());
}

#[test]
fn newcomer_does_not_overtake_a_waiting_producer() {
    let mut q = LogQueue::with_capacity(1).unwrap();
    store(&mut q, "A");
    let (waiting, waiting_ticket) = blocked(q.enqueue_blocking(text("waiting")));
    assert_eq!(take(&mut q), "A");
    // A slot is free, but the line is not empty.
    let (newcomer, newcomer_ticket) = blocked(q.enqueue_blocking(text("newcomer")));
    assert_eq!(newcomer_ticket.number(), 1);
    assert!(matches!(q.enqueue_waiting(waiting, waiting_ticket), Enqueued::Stored));
    assert_eq!(take(&mut q), "waiting");
    assert!(matches!(q.enqueue_waiting(newcomer, newcomer_ticket), Enqueued::Stored));
    assert_eq!(take(&mut q), "newcomer");
    assert_eq!(q.tickets_issued(), 2);
}

#[test]
fn best_effort_producer_does_not_wait_in_line() {
    let mut q = LogQueue::with_capacity(1).unwrap();
    store(&mut q, "A");
    let (waiting, ticket) = blocked(q.enqueue_blocking(text("waiting")));
    assert_eq!(q.enqueue_nonblocking(text("dropped")), Err(QueueFull));
    assert_eq!(take(&mut q), "A");
    assert_eq!(q.enqueue_nonblocking(text("quick")), Ok(()));
    let (waiting, ticket) = blocked(q.enqueue_waiting(waiting, ticket));
    assert_eq!(take(&mut q), "quick");
    assert!(matches!(q.enqueue_waiting(waiting, ticket), Enqueued::Stored));
    assert_eq!(take(&mut q), "waiting");
}

#[test]
fn slots_are_reused_many_times() {
    let mut q = LogQueue::with_capacity(3).unwrap();
    for i in 0..100u64 {
        store(&mut q, &format!("a{}", i));
        store(&mut q, &format!("b{}", i));
        assert_eq!(take(&mut q), format!("a{}", i));
        assert_eq!(take(&mut q), format!("b{}", i));
    }
    assert!(q.is_empty());
}

fn sequence_number(line: &str) -> (char, u32) {
    let who = line.chars().next().unwrap();
    (who, line[1..].parse().unwrap())
}

#[test]
fn two_producers_lose_and_duplicate_nothing() {
    let mut q = LogQueue::new();
    let mut seen: Vec<String> = Vec::new();
    let mut next_a = 0u64;
    let mut next_b = 0u64;
    let mut turn = 0u32;
    while next_a < 1000 || next_b < 1000 {
        // The producers take turns of uneven length, and whoever finds the
        // queue full waits for the consumer to take one message.
        let a_goes = next_b >= 1000 || (next_a < 1000 && turn % 3 != 0);
        let msg = if a_goes {
            Message::new().with_text("A").with_decimal(next_a)
        } else {
            Message::new().with_text("B").with_decimal(next_b)
        };
        let mut outcome = q.enqueue_blocking(msg);
        while let Enqueued::Blocked(back, ticket) = outcome {
            seen.push(take(&mut q));
            outcome = q.enqueue_waiting(back, ticket);
        }
        if a_goes {
            next_a += 1;
        } else {
            next_b += 1;
        }
        turn += 1;
    }
    while let Some(m) = q.dequeue_blocking() {
        seen.push(m.as_str().to_string());
    }
    assert_eq!(seen.len(), 2000);
    let mut last_a: Option<u32> = None;
    let mut last_b: Option<u32> = None;
    let mut count_a = 0;
    let mut count_b = 0;
    for line in &seen {
        let (who, n) = sequence_number(line);
        let last = if who == 'A' { &mut last_a } else { &mut last_b };
        if let Some(prev) = *last {
            assert!(n > prev);
        }
        *last = Some(n);
        if who == 'A' {
            count_a += 1;
        } else {
            assert_eq!(who, 'B');
            count_b += 1;
        }
    }
    assert_eq!(count_a, 1000);
    assert_eq!(count_b, 1000);
    assert_eq!(last_a, Some(999));
    assert_eq!(last_b, Some(999));
}
