//! Worked examples of emitting diagnostics: what a plain function and an
//! interrupt handler log through the best-effort producer, and the
//! decisions that the example tasks take in each round of their loops.

use vstd::prelude::*;
use vstd::string::StringSliceAdditionalSpecFns;
use crate::message::{labelled_text, line_text, Message, Severity};
use crate::producer::log_best_effort;
use crate::queue::{after_enqueues, LogQueue};

verus! {

/// The simulated state of the input pin.
pub fn read_pin_state() -> (state: u32)
    ensures
        state == 5,
{
    5
}

/// The simulated amount of free memory, in kilobytes.
pub fn get_free_memory() -> (kilobytes: u32)
    ensures
        kilobytes == 128,
{
    128
}

/// The simulated processor load, in percent.
pub fn get_cpu_usage() -> (percent: u32)
    ensures
        percent == 45,
{
    45
}

/// Values above this are reported as out of the recommended range.
pub const RECOMMENDED_MAX: u32 = 100;

/// Pin states above this are reported as unexpected.
pub const EXPECTED_PIN_MAX: u32 = 10;

/// The lines that [`example_sync_function`] logs for `value`: the call, a
/// warning if the value is above [`RECOMMENDED_MAX`], and the result.
pub open spec fn sync_function_lines(uptime_ms: u64, value: u32) -> Seq<Seq<u8>> {
    let tag = "SyncFn".spec_bytes();
    let called = line_text(
        uptime_ms,
        tag,
        Severity::Info,
        labelled_text("Function called with value: ".spec_bytes(), value as nat, "".spec_bytes()),
    );
    let warned = line_text(
        uptime_ms,
        tag,
        Severity::Warn,
        labelled_text("Value ".spec_bytes(), value as nat, " exceeds recommended range".spec_bytes()),
    );
    let result = line_text(
        uptime_ms,
        tag,
        Severity::Debug,
        labelled_text("Calculated result: ".spec_bytes(), (value * 2) as nat, "".spec_bytes()),
    );
    if value > RECOMMENDED_MAX {
        seq![called, warned, result]
    } else {
        seq![called, result]
    }
}

/// A plain function that logs what it does, without ever waiting: it
/// doubles `value` and returns the result. Lines for which the queue has no
/// free slot are lost.
pub fn example_sync_function(queue: &mut LogQueue, uptime_ms: u64, value: u32) -> (result: u32)
    requires
        value * 2 <= u32::MAX,
    ensures
        result == value * 2,
        final(queue)@ == after_enqueues(
            old(queue)@,
            old(queue).capacity_spec(),
            sync_function_lines(uptime_ms, value),
        ),
        final(queue).capacity_spec() == old(queue).capacity_spec(),
        final(queue).line() == old(queue).line(),
{
    let ghost capacity = queue.capacity_spec();
    let ghost lines = sync_function_lines(uptime_ms, value);
    proof {
        reveal_with_fuel(after_enqueues, 4);
        assert(lines.skip(1).skip(1) =~= lines.skip(2));
    }
    let called = Message::labelled("Function called with value: ", value as u64, "");
    let _ = log_best_effort(queue, uptime_ms, "SyncFn", Severity::Info, called.as_str());
    if value > RECOMMENDED_MAX {
        let warned = Message::labelled("Value ", value as u64, " exceeds recommended range");
        let _ = log_best_effort(queue, uptime_ms, "SyncFn", Severity::Warn, warned.as_str());
    }
    let result = value * 2;
    let reported = Message::labelled("Calculated result: ", result as u64, "");
    let _ = log_best_effort(queue, uptime_ms, "SyncFn", Severity::Debug, reported.as_str());
    result
}

/// The lines that [`gpio_interrupt_handler`] logs for a pin in state
/// `state`: the interrupt, the state, and an error if the state is above
/// [`EXPECTED_PIN_MAX`].
pub open spec fn interrupt_lines(uptime_ms: u64, state: u32) -> Seq<Seq<u8>> {
    let tag = "ISR".spec_bytes();
    let triggered = line_text(uptime_ms, tag, Severity::Info, "GPIO interrupt triggered".spec_bytes());
    let read = line_text(
        uptime_ms,
        tag,
        Severity::Debug,
        labelled_text("Pin state: ".spec_bytes(), state as nat, "".spec_bytes()),
    );
    let unexpected = line_text(
        uptime_ms,
        tag,
        Severity::Error,
        labelled_text("Unexpected pin state: ".spec_bytes(), state as nat, "".spec_bytes()),
    );
    if state > EXPECTED_PIN_MAX {
        seq![triggered, read, unexpected]
    } else {
        seq![triggered, read]
    }
}

/// What an interrupt handler logs, without ever waiting, for a pin found in
/// state `state`.
pub fn report_interrupt(queue: &mut LogQueue, uptime_ms: u64, state: u32)
    ensures
        final(queue)@ == after_enqueues(
            old(queue)@,
            old(queue).capacity_spec(),
            interrupt_lines(uptime_ms, state),
        ),
        final(queue).capacity_spec() == old(queue).capacity_spec(),
        final(queue).line() == old(queue).line(),
{
    let ghost lines = interrupt_lines(uptime_ms, state);
    proof {
        reveal_with_fuel(after_enqueues, 4);
        assert(lines.skip(1).skip(1) =~= lines.skip(2));
    }
    let _ = log_best_effort(queue, uptime_ms, "ISR", Severity::Info, "GPIO interrupt triggered");
    let read = Message::labelled("Pin state: ", state as u64, "");
    let _ = log_best_effort(queue, uptime_ms, "ISR", Severity::Debug, read.as_str());
    if state > EXPECTED_PIN_MAX {
        let unexpected = Message::labelled("Unexpected pin state: ", state as u64, "");
        let _ = log_best_effort(queue, uptime_ms, "ISR", Severity::Error, unexpected.as_str());
    }
}

/// The handler of the input pin's interrupt: reads the pin and logs what it
/// found, without ever waiting.
pub fn gpio_interrupt_handler(queue: &mut LogQueue, uptime_ms: u64)
    ensures
        final(queue)@ == after_enqueues(
            old(queue)@,
            old(queue).capacity_spec(),
            interrupt_lines(uptime_ms, 5),
        ),
        final(queue).capacity_spec() == old(queue).capacity_spec(),
        final(queue).line() == old(queue).line(),
{
    let state = read_pin_state();
    report_interrupt(queue, uptime_ms, state);
}

/// The example task reports a checkpoint at every multiple of this.
pub const CHECKPOINT_EVERY: u32 = 10;

/// The example task stops once its count is above this.
pub const ITERATION_LIMIT: u32 = 100;

/// What one round of the example task logs.
#[derive(Clone, Copy, Debug, PartialEq, Eq, Structural)]
pub struct IterationPlan {
    /// The count of this round, reported at level `INFO`.
    pub iteration: u32,
    /// Whether a checkpoint is reported at level `DEBUG`.
    pub checkpoint: bool,
    /// Whether the approach of the threshold is reported at level `WARN`.
    pub approaching: bool,
    /// Whether the count is above the limit: reported at level `ERROR`, and
    /// the task ends.
    pub exceeded: bool,
}

/// One round of the example task, which has run `counter` rounds so far.
pub fn example_async_round(counter: u32) -> (plan: IterationPlan)
    requires
        counter < u32::MAX,
    ensures
        plan.iteration == counter + 1,
        plan.checkpoint == (plan.iteration % CHECKPOINT_EVERY == 0),
        plan.approaching == (50 < plan.iteration < 55),
        plan.exceeded == (plan.iteration > ITERATION_LIMIT),
{
    let iteration = counter + 1;
    IterationPlan {
        iteration,
        checkpoint: iteration % CHECKPOINT_EVERY == 0,
        approaching: iteration > 50 && iteration < 55,
        exceeded: iteration > ITERATION_LIMIT,
    }
}

/// Bytes that the echo task takes in per round.
pub const ECHO_CHUNK: u32 = 64;

/// What one round of the echo task logs.
#[derive(Clone, Copy, Debug, PartialEq, Eq, Structural)]
pub struct EchoPlan {
    /// Bytes taken in so far, this round included; reported at level
    /// `DEBUG`.
    pub total: u32,
    /// Whether the total is reported at level `INFO` as well.
    pub summary: bool,
    /// Whether high buffer usage is reported at level `WARN`.
    pub pressure: bool,
}

/// One round of the echo task, which has taken in `byte_count` bytes so
/// far.
pub fn usb_serial_echo_round(byte_count: u32) -> (plan: EchoPlan)
    requires
        byte_count + ECHO_CHUNK <= u32::MAX,
    ensures
        plan.total == byte_count + ECHO_CHUNK,
        plan.summary == (plan.total % 1000 == 0),
        plan.pressure == (plan.total == 5000),
{
    let total = byte_count + ECHO_CHUNK;
    EchoPlan { total, summary: total % 1000 == 0, pressure: total == 5000 }
}

/// Failed connection attempts in a row that the network task puts up with.
pub const MAX_RETRIES: u32 = 3;

/// What the network task does after an attempt to connect.
#[derive(Clone, Copy, Debug, PartialEq, Eq, Structural)]
pub enum NetworkVerdict {
    /// The connection stands: process data, then try again later.
    Connected,
    /// The attempt failed: report it at level `WARN` and try again later.
    Retry,
    /// Too many attempts failed: report it at level `ERROR` and end.
    GiveUp,
}

/// The count of failed attempts in a row after one more attempt.
pub open spec fn retries_after(retries: u32, connected: bool) -> int {
    if connected {
        0
    } else {
        retries + 1
    }
}

/// One attempt of the network task to connect, after `retries` failed
/// attempts in a row: the new count of failed attempts, and what to do.
pub fn network_round(retries: u32, connected: bool) -> (r: (u32, NetworkVerdict))
    requires
        retries < u32::MAX,
    ensures
        r.0 == retries_after(retries, connected),
        r.1 is Connected == connected,
        r.1 is Retry == (!connected && retries + 1 <= MAX_RETRIES),
        r.1 is GiveUp == (!connected && retries + 1 > MAX_RETRIES),
{
    if connected {
        (0, NetworkVerdict::Connected)
    } else {
        let failed = retries + 1;
        if failed <= MAX_RETRIES {
            (failed, NetworkVerdict::Retry)
        } else {
            (failed, NetworkVerdict::GiveUp)
        }
    }
}

/// Free memory below this many kilobytes is reported as low.
pub const LOW_MEMORY_KB: u32 = 10;

/// Processor load above this many percent is reported as high.
pub const HIGH_CPU_PERCENT: u32 = 80;

/// The warnings that the system monitor adds to its status line.
#[derive(Clone, Copy, Debug, PartialEq, Eq, Structural)]
pub struct MonitorPlan {
    /// Whether low memory is reported at level `WARN`.
    pub low_memory: bool,
    /// Whether high processor load is reported at level `WARN`.
    pub high_cpu: bool,
}

/// One round of the system monitor for the given readings.
pub fn system_monitor_round(free_memory: u32, cpu_usage: u32) -> (plan: MonitorPlan)
    ensures
        plan.low_memory == (free_memory < LOW_MEMORY_KB),
        plan.high_cpu == (cpu_usage > HIGH_CPU_PERCENT),
{
    MonitorPlan { low_memory: free_memory < LOW_MEMORY_KB, high_cpu: cpu_usage > HIGH_CPU_PERCENT }
}

/// The event task reports its count at every multiple of this.
pub const REPORT_EVERY: u32 = 100;

/// One round of the event task, which has seen `event_counter` events so
/// far: the new count, and whether it is reported at level `INFO`.
pub fn conditional_logging_round(event_counter: u32) -> (r: (u32, bool))
    requires
        event_counter < u32::MAX,
    ensures
        r.0 == event_counter + 1,
        r.1 == (r.0 % REPORT_EVERY == 0),
{
    let count = event_counter + 1;
    (count, count % REPORT_EVERY == 0)
}

} // verus!
