//! The two ways to emit a log line. Both render the line first and differ in
//! what a full queue means: the suspending producer keeps its message and
//! waits, the best-effort producer drops it and goes on.

use vstd::prelude::*;
use vstd::string::StringSliceAdditionalSpecFns;
use crate::config::MAX_LINE_LEN;
use crate::message::{
    law_fitting_line_is_exact, law_line_never_overflows, line_text, rendered_line, Message,
    Severity,
};
use crate::queue::{
    admits, after_dequeues, after_enqueue, front, is_full_spec, lemma_dequeues_skip, Enqueued,
    LogQueue, QueueFull,
};

verus! {

/// The suspending producer, for task code. Renders the line and offers it to
/// the queue once. `Stored` says that the line is in the queue. `Blocked`
/// hands the rendered message back with a ticket: the caller suspends and
/// offers both again with [`LogQueue::enqueue_waiting`].
pub fn log(queue: &mut LogQueue, uptime_ms: u64, tag: &str, level: Severity, body: &str) -> (r:
    Enqueued)
    requires
        old(queue).line().issued < u64::MAX,
    ensures
        r is Stored == admits(old(queue)@, old(queue).capacity_spec(), old(queue).line()),
        r is Stored ==> ({
            &&& final(queue)@ == old(queue)@.push(
                line_text(uptime_ms, tag.spec_bytes(), level, body.spec_bytes()),
            )
            &&& final(queue).line() == old(queue).line()
        }),
        r matches Enqueued::Blocked(back, ticket) ==> ({
            &&& back@ == line_text(uptime_ms, tag.spec_bytes(), level, body.spec_bytes())
            &&& ticket.number_spec() == old(queue).line().issued
            &&& final(queue)@ == old(queue)@
            &&& final(queue).line().served == old(queue).line().served
            &&& final(queue).line().issued == old(queue).line().issued + 1
        }),
        final(queue).capacity_spec() == old(queue).capacity_spec(),
{
    let msg = Message::format(uptime_ms, tag, level, body);
    queue.enqueue_blocking(msg)
}

/// The best-effort producer, for interrupt handlers and other code that must
/// not suspend. Renders the line and offers it to the queue once; with the
/// queue full the line is dropped, the queue stays as it was and `QueueFull`
/// is returned, which callers may ignore.
pub fn log_best_effort(
    queue: &mut LogQueue,
    uptime_ms: u64,
    tag: &str,
    level: Severity,
    body: &str,
) -> (r: Result<(), QueueFull>)
    ensures
        r.is_ok() == !is_full_spec(old(queue)@, old(queue).capacity_spec()),
        r.is_err() ==> final(queue)@ == old(queue)@,
        final(queue)@ == after_enqueue(
            old(queue)@,
            old(queue).capacity_spec(),
            line_text(uptime_ms, tag.spec_bytes(), level, body.spec_bytes()),
        ),
        final(queue).capacity_spec() == old(queue).capacity_spec(),
        final(queue).line() == old(queue).line(),
{
    let msg = Message::format(uptime_ms, tag, level, body);
    queue.enqueue_nonblocking(msg)
}

/// A line that fits in a message and is logged while a slot is free comes
/// out of the queue byte for byte as rendered, once the messages that were
/// pending before it have been taken.
pub proof fn law_logged_line_comes_out_exact(
    items: Seq<Seq<u8>>,
    capacity: nat,
    uptime_ms: u64,
    tag: Seq<u8>,
    level: Severity,
    body: Seq<u8>,
)
    requires
        items.len() < capacity,
        rendered_line(uptime_ms, tag, level, body).len() <= MAX_LINE_LEN,
    ensures
        front(
            after_dequeues(
                after_enqueue(items, capacity, line_text(uptime_ms, tag, level, body)),
                items.len(),
            ),
        ) == Some(rendered_line(uptime_ms, tag, level, body)),
{
    law_fitting_line_is_exact(uptime_ms, tag, level, body);
    lemma_dequeues_skip(items.push(line_text(uptime_ms, tag, level, body)), items.len());
}

/// Whatever is logged while a slot is free comes out of the queue as the
/// text made for it, which is never longer than a message can hold.
pub proof fn law_logged_line_comes_out_within_bounds(
    items: Seq<Seq<u8>>,
    capacity: nat,
    uptime_ms: u64,
    tag: Seq<u8>,
    level: Severity,
    body: Seq<u8>,
)
    requires
        items.len() < capacity,
    ensures
        front(
            after_dequeues(
                after_enqueue(items, capacity, line_text(uptime_ms, tag, level, body)),
                items.len(),
            ),
        ) == Some(line_text(uptime_ms, tag, level, body)),
        line_text(uptime_ms, tag, level, body).len() <= MAX_LINE_LEN,
{
    law_line_never_overflows(uptime_ms, tag, level, body);
    lemma_dequeues_skip(items.push(line_text(uptime_ms, tag, level, body)), items.len());
}

} // verus!
