//! The consumer: the one task that owns the serial port. It takes messages
//! out of the queue one at a time and has each written out before it takes
//! the next.

use vstd::prelude::*;
use crate::message::Message;
use crate::queue::LogQueue;

verus! {

/// How a write to the serial port ended.
#[derive(Clone, Copy, Debug, PartialEq, Eq, Structural)]
pub enum WriteOutcome {
    Written,
    Failed,
}

/// What the consumer task does next.
pub enum ConsumerAction {
    /// Write the message's bytes to the serial port, wait for the write to
    /// end and report how it ended.
    Transmit(Message),
    /// The queue is empty: suspend until a message arrives.
    Suspend,
    /// A write is still under way: wait for it and report how it ended.
    AwaitWrite,
}

/// State of the consumer task.
pub struct Consumer {
    writing: bool,
}

impl Consumer {
    /// Whether a message has been handed out whose write has not been
    /// reported as ended.
    pub closed spec fn is_writing(&self) -> bool {
        self.writing
    }

    /// A consumer with no write under way.
    pub fn new() -> (c: Consumer)
        ensures
            !c.is_writing(),
    {
        Consumer { writing: false }
    }

    /// Decides the next action. While a write is under way nothing is taken
    /// from the queue. Otherwise the oldest message leaves the queue to be
    /// written, or the consumer suspends on an empty queue.
    pub fn next(&mut self, queue: &mut LogQueue) -> (action: ConsumerAction)
        ensures
            final(queue).capacity_spec() == old(queue).capacity_spec(),
            final(queue).line() == old(queue).line(),
            old(self).is_writing() ==> ({
                &&& action is AwaitWrite
                &&& final(self).is_writing()
                &&& final(queue)@ == old(queue)@
            }),
            !old(self).is_writing() && old(queue)@.len() > 0 ==> ({
                &&& action matches ConsumerAction::Transmit(msg) && msg@ == old(queue)@[0]
                &&& final(self).is_writing()
                &&& final(queue)@ == old(queue)@.skip(1)
            }),
            !old(self).is_writing() && old(queue)@.len() == 0 ==> ({
                &&& action is Suspend
                &&& !final(self).is_writing()
                &&& final(queue)@ == old(queue)@
            }),
    {
        if self.writing {
            return ConsumerAction::AwaitWrite;
        }
        match queue.dequeue_blocking() {
            Some(msg) => {
                self.writing = true;
                ConsumerAction::Transmit(msg)
            },
            None => ConsumerAction::Suspend,
        }
    }

    /// Takes note that the write has ended. A failed write is not retried
    /// and not reported: the message is gone and the next one is due.
    pub fn write_finished(&mut self, outcome: WriteOutcome)
        ensures
            !final(self).is_writing(),
    {
        self.writing = false;
    }
}

} // verus!
