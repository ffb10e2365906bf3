//! The heartbeat tasks, one on each core: a counted heartbeat line at a
//! fixed interval, and a further line whenever the count reaches a multiple
//! of the core's period.

use vstd::prelude::*;
use vstd::string::StringSliceAdditionalSpecFns;
use crate::config::{CORE0_INTERVAL_MS, CORE0_MILESTONE, CORE1_CHECKPOINT, CORE1_INTERVAL_MS};
use crate::decimal::{decimal_digits, lemma_decimal_digits_u64};
use crate::message::Message;

verus! {

/// One of the two cores.
#[derive(Clone, Copy, Debug, PartialEq, Eq, Structural)]
pub enum Core {
    Core0,
    Core1,
}

impl Core {
    /// The tag under which the core's task logs.
    pub open spec fn tag_spec(self) -> &'static str {
        match self {
            Core::Core0 => "Core0",
            Core::Core1 => "Core1",
        }
    }

    /// Milliseconds between two heartbeats.
    pub open spec fn interval_ms_spec(self) -> u64 {
        match self {
            Core::Core0 => CORE0_INTERVAL_MS,
            Core::Core1 => CORE1_INTERVAL_MS,
        }
    }

    /// Number of heartbeats between two marks.
    pub open spec fn period_spec(self) -> u32 {
        match self {
            Core::Core0 => CORE0_MILESTONE,
            Core::Core1 => CORE1_CHECKPOINT,
        }
    }

    /// What precedes the count in the line that reports a mark.
    pub open spec fn mark_label_spec(self) -> &'static str {
        match self {
            Core::Core0 => "Milestone reached: ",
            Core::Core1 => "Checkpoint: ",
        }
    }

    /// The tag under which the core's task logs.
    #[verifier::when_used_as_spec(tag_spec)]
    pub fn tag(self) -> (s: &'static str)
        ensures
            s == self.tag_spec(),
    {
        match self {
            Core::Core0 => "Core0",
            Core::Core1 => "Core1",
        }
    }

    /// Milliseconds between two heartbeats.
    #[verifier::when_used_as_spec(interval_ms_spec)]
    pub fn interval_ms(self) -> (ms: u64)
        ensures
            ms == self.interval_ms_spec(),
    {
        match self {
            Core::Core0 => CORE0_INTERVAL_MS,
            Core::Core1 => CORE1_INTERVAL_MS,
        }
    }

    /// Number of heartbeats between two marks.
    #[verifier::when_used_as_spec(period_spec)]
    pub fn period(self) -> (n: u32)
        ensures
            n == self.period_spec(),
            n > 0,
    {
        match self {
            Core::Core0 => CORE0_MILESTONE,
            Core::Core1 => CORE1_CHECKPOINT,
        }
    }

    /// What precedes the count in the line that reports a mark.
    #[verifier::when_used_as_spec(mark_label_spec)]
    pub fn mark_label(self) -> (s: &'static str)
        ensures
            s == self.mark_label_spec(),
    {
        match self {
            Core::Core0 => "Milestone reached: ",
            Core::Core1 => "Checkpoint: ",
        }
    }
}

/// Whether a heartbeat with this count is followed by a mark: the count is
/// a multiple of the period and not zero.
pub open spec fn is_mark(core: Core, count: u32) -> bool {
    count % core.period_spec() == 0 && count > 0
}

/// The count that follows `count`; after the largest it starts again at
/// zero.
pub open spec fn next_count(count: u32) -> u32 {
    if count == u32::MAX {
        0
    } else {
        (count + 1) as u32
    }
}

/// The body of the line that a task logs once when it starts.
pub fn started_body() -> (s: &'static str)
    ensures
        s == "Task started",
{
    "Task started"
}

/// The body of a heartbeat line.
pub open spec fn heartbeat_text(count: u32) -> Seq<u8> {
    "Heartbeat, count=".spec_bytes() + decimal_digits(count as nat)
}

/// The body of the line that reports a mark.
pub open spec fn mark_text(core: Core, count: u32) -> Seq<u8> {
    core.mark_label_spec().spec_bytes() + decimal_digits(count as nat)
}

/// The body of a heartbeat line: `Heartbeat, count=` and the count.
pub fn heartbeat_body(count: u32) -> (m: Message)
    ensures
        m@ == heartbeat_text(count),
{
    broadcast use vstd::string::is_ascii_spec_bytes;
    proof {
        reveal_strlit("Heartbeat, count=");
        assert(vstd::string::is_ascii("Heartbeat, count="));
        lemma_decimal_digits_u64(count as u64);
        assert(Seq::<u8>::empty() + "Heartbeat, count=".spec_bytes()
            =~= "Heartbeat, count=".spec_bytes());
    }
    Message::new().with_text("Heartbeat, count=").with_decimal(count as u64)
}

/// The body of the line that reports a mark: the core's label and the
/// count.
pub fn mark_body(core: Core, count: u32) -> (m: Message)
    ensures
        m@ == mark_text(core, count),
{
    broadcast use vstd::string::is_ascii_spec_bytes;
    proof {
        reveal_strlit("Milestone reached: ");
        reveal_strlit("Checkpoint: ");
        assert(vstd::string::is_ascii(core.mark_label_spec()));
        lemma_decimal_digits_u64(count as u64);
        assert(Seq::<u8>::empty() + core.mark_label_spec().spec_bytes()
            =~= core.mark_label_spec().spec_bytes());
    }
    Message::new().with_text(core.mark_label()).with_decimal(count as u64)
}

/// What one round of a heartbeat task does.
#[derive(Clone, Copy, Debug, PartialEq, Eq, Structural)]
pub struct Beat {
    /// The count to report in the heartbeat line.
    pub count: u32,
    /// Whether a mark is to be reported after the heartbeat line.
    pub mark: bool,
    /// Milliseconds to sleep at the end of the round.
    pub delay_ms: u64,
}

/// The heartbeat task of one core.
pub struct Heartbeat {
    core: Core,
    counter: u32,
}

impl Heartbeat {
    /// The core that the task runs on.
    pub closed spec fn runs_on_spec(&self) -> Core {
        self.core
    }

    /// The count of the next heartbeat.
    pub closed spec fn counter_spec(&self) -> u32 {
        self.counter
    }

    /// The task of `core`, before its first heartbeat.
    pub fn new(core: Core) -> (h: Heartbeat)
        ensures
            h.runs_on_spec() == core,
            h.counter_spec() == 0,
    {
        Heartbeat { core, counter: 0 }
    }

    /// The core that the task runs on.
    #[verifier::when_used_as_spec(runs_on_spec)]
    pub fn runs_on(&self) -> (core: Core)
        ensures
            core == self.runs_on_spec(),
    {
        self.core
    }

    /// The count of the next heartbeat.
    #[verifier::when_used_as_spec(counter_spec)]
    pub fn counter(&self) -> (count: u32)
        ensures
            count == self.counter_spec(),
    {
        self.counter
    }

    /// Plans one round and counts it.
    pub fn beat(&mut self) -> (beat: Beat)
        ensures
            beat.count == old(self).counter_spec(),
            beat.mark == is_mark(old(self).runs_on_spec(), old(self).counter_spec()),
            beat.delay_ms == old(self).runs_on_spec().interval_ms_spec(),
            final(self).runs_on_spec() == old(self).runs_on_spec(),
            final(self).counter_spec() == next_count(old(self).counter_spec()),
    {
        let count = self.counter;
        let mark = count % self.core.period() == 0 && count > 0;
        self.counter = if count == u32::MAX {
            0
        } else {
            count + 1
        };
        Beat { count, mark, delay_ms: self.core.interval_ms() }
    }
}

} // verus!
