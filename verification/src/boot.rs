//! Bringing up the two cores. The first core boots, starts the consumer
//! before anything can log, starts its own tasks and launches the second
//! core exactly once, on a stack region that is handed out exactly once.
//! This module decides the order; the caller performs each action and
//! reports how it went.

use vstd::prelude::*;
use crate::config::CORE1_STACK_SIZE;

verus! {

/// Milliseconds given to the consumer to start before the banner is sent.
pub const CONSUMER_SETTLE_MS: u64 = 10;

/// Milliseconds given to all tasks to start before completion is reported.
pub const STARTUP_SETTLE_MS: u64 = 100;

/// Number of the step at which the boot sequence has run to its end.
pub const LAST_STEP: u8 = 19;

/// The lines that the first core logs while it boots.
#[derive(Clone, Copy, Debug, PartialEq, Eq, Structural)]
pub enum BootLine {
    Starting,
    UsbInit,
    UsbSpawned,
    SpawningCore0,
    SpawningCore1,
    Rule,
    Complete,
    UartInfo,
    UsbInfo,
    CoresInfo,
}

impl BootLine {
    /// The body of the line.
    pub open spec fn text_spec(self) -> &'static str {
        match self {
            BootLine::Starting => "System initialization starting...",
            BootLine::UsbInit => "Initializing USB HID keyboard...",
            BootLine::UsbSpawned => "USB HID keyboard task spawned",
            BootLine::SpawningCore0 => "Spawning Core 0 task",
            BootLine::SpawningCore1 => "Spawning Core 1",
            BootLine::Rule => "====================================",
            BootLine::Complete => "System startup complete!",
            BootLine::UartInfo => "- UART0: GPIO0(TX) / GPIO1(RX)",
            BootLine::UsbInfo => "- USB: HID Keyboard",
            BootLine::CoresInfo => "- Dual Core: Core0 + Core1 running",
        }
    }

    /// The body of the line.
    #[verifier::when_used_as_spec(text_spec)]
    pub fn text(self) -> (s: &'static str)
        ensures
            s == self.text_spec(),
    {
        match self {
            BootLine::Starting => "System initialization starting...",
            BootLine::UsbInit => "Initializing USB HID keyboard...",
            BootLine::UsbSpawned => "USB HID keyboard task spawned",
            BootLine::SpawningCore0 => "Spawning Core 0 task",
            BootLine::SpawningCore1 => "Spawning Core 1",
            BootLine::Rule => "====================================",
            BootLine::Complete => "System startup complete!",
            BootLine::UartInfo => "- UART0: GPIO0(TX) / GPIO1(RX)",
            BootLine::UsbInfo => "- USB: HID Keyboard",
            BootLine::CoresInfo => "- Dual Core: Core0 + Core1 running",
        }
    }
}

/// One action of the first core's boot sequence.
#[derive(Clone, Copy, Debug, PartialEq, Eq, Structural)]
pub enum BootAction {
    /// Initialise the hardware and configure the serial port.
    InitHardware,
    /// Start the consumer task.
    SpawnConsumer,
    /// Wait for the given number of milliseconds.
    Delay(u64),
    /// Send the start-up banner.
    SendBanner,
    /// Log the given line at level `INFO` with the tag `Main`.
    Log(BootLine),
    /// Start the USB task.
    SpawnUsb,
    /// Start the first core's heartbeat task.
    SpawnCore0Task,
    /// Take the second core's stack and start the second core on it.
    LaunchCore1,
    /// The sequence has run to its end; both cores are running.
    Running,
    /// A task could not be started: stop for good.
    Abort,
}

/// How the action last handed out went.
#[derive(Clone, Copy, Debug, PartialEq, Eq, Structural)]
pub enum BootEvent {
    /// The action was carried out.
    Completed,
    /// The action was to start a task and the task could not be started.
    SpawnFailed,
}

/// The action at each step of the boot sequence.
pub open spec fn plan(step: nat) -> BootAction {
    if step == 0 {
        BootAction::InitHardware
    } else if step == 1 {
        BootAction::SpawnConsumer
    } else if step == 2 {
        BootAction::Delay(CONSUMER_SETTLE_MS)
    } else if step == 3 {
        BootAction::SendBanner
    } else if step == 4 {
        BootAction::Log(BootLine::Starting)
    } else if step == 5 {
        BootAction::Log(BootLine::UsbInit)
    } else if step == 6 {
        BootAction::SpawnUsb
    } else if step == 7 {
        BootAction::Log(BootLine::UsbSpawned)
    } else if step == 8 {
        BootAction::Log(BootLine::SpawningCore0)
    } else if step == 9 {
        BootAction::SpawnCore0Task
    } else if step == 10 {
        BootAction::Log(BootLine::SpawningCore1)
    } else if step == 11 {
        BootAction::LaunchCore1
    } else if step == 12 {
        BootAction::Delay(STARTUP_SETTLE_MS)
    } else if step == 13 {
        BootAction::Log(BootLine::Rule)
    } else if step == 14 {
        BootAction::Log(BootLine::Complete)
    } else if step == 15 {
        BootAction::Log(BootLine::UartInfo)
    } else if step == 16 {
        BootAction::Log(BootLine::UsbInfo)
    } else if step == 17 {
        BootAction::Log(BootLine::CoresInfo)
    } else if step == 18 {
        BootAction::Log(BootLine::Rule)
    } else {
        BootAction::Running
    }
}

/// Whether an action puts a line into the queue.
pub open spec fn emits(action: BootAction) -> bool {
    action is SendBanner || action is Log
}

/// Where the boot sequence stands.
pub ghost struct BootView {
    /// Number of the step whose action is under way.
    pub step: nat,
    /// Whether the sequence was aborted.
    pub aborted: bool,
}

/// The state after `event` in state `state`: a failed start of a task
/// aborts, and an abort is final; anything else moves on by one step, up to
/// the last.
pub open spec fn after_event(state: BootView, event: BootEvent) -> BootView {
    if state.aborted || event is SpawnFailed {
        BootView { step: state.step, aborted: true }
    } else if state.step < LAST_STEP {
        BootView { step: state.step + 1, aborted: false }
    } else {
        state
    }
}

/// The action that is due in a state.
pub open spec fn due(state: BootView) -> BootAction {
    if state.aborted {
        BootAction::Abort
    } else {
        plan(state.step)
    }
}

/// The boot sequence of the first core.
pub struct Bootstrap {
    step: u8,
    aborted: bool,
}

impl View for Bootstrap {
    type V = BootView;

    closed spec fn view(&self) -> BootView {
        BootView { step: self.step as nat, aborted: self.aborted }
    }
}

impl Bootstrap {
    #[verifier::type_invariant]
    closed spec fn in_range(self) -> bool {
        self.step <= LAST_STEP
    }

    /// The sequence at its start: the hardware is to be initialised.
    pub fn new() -> (b: Bootstrap)
        ensures
            b@ == (BootView { step: 0, aborted: false }),
    {
        Bootstrap { step: 0, aborted: false }
    }

    /// The action that is due now.
    pub fn current(&self) -> (action: BootAction)
        ensures
            action == due(self@),
    {
        proof {
            use_type_invariant(self);
        }
        if self.aborted {
            BootAction::Abort
        } else {
            action_at(self.step)
        }
    }

    /// Takes note of how the action that was due went, and returns the
    /// action that is due next.
    pub fn advance(&mut self, event: BootEvent) -> (action: BootAction)
        ensures
            final(self)@ == after_event(old(self)@, event),
            action == due(final(self)@),
    {
        proof {
            use_type_invariant(&*self);
        }
        if self.aborted {
            return BootAction::Abort;
        }
        match event {
            BootEvent::SpawnFailed => {
                self.aborted = true;
                BootAction::Abort
            },
            BootEvent::Completed => {
                if self.step < LAST_STEP {
                    self.step = self.step + 1;
                }
                action_at(self.step)
            },
        }
    }
}

/// The action at a step of the boot sequence.
fn action_at(step: u8) -> (action: BootAction)
    ensures
        action == plan(step as nat),
{
    match step {
        0 => BootAction::InitHardware,
        1 => BootAction::SpawnConsumer,
        2 => BootAction::Delay(CONSUMER_SETTLE_MS),
        3 => BootAction::SendBanner,
        4 => BootAction::Log(BootLine::Starting),
        5 => BootAction::Log(BootLine::UsbInit),
        6 => BootAction::SpawnUsb,
        7 => BootAction::Log(BootLine::UsbSpawned),
        8 => BootAction::Log(BootLine::SpawningCore0),
        9 => BootAction::SpawnCore0Task,
        10 => BootAction::Log(BootLine::SpawningCore1),
        11 => BootAction::LaunchCore1,
        12 => BootAction::Delay(STARTUP_SETTLE_MS),
        13 => BootAction::Log(BootLine::Rule),
        14 => BootAction::Log(BootLine::Complete),
        15 => BootAction::Log(BootLine::UartInfo),
        16 => BootAction::Log(BootLine::UsbInfo),
        17 => BootAction::Log(BootLine::CoresInfo),
        18 => BootAction::Log(BootLine::Rule),
        _ => BootAction::Running,
    }
}

/// The consumer is started before any line is put into the queue and
/// before any other task is started.
pub proof fn law_consumer_starts_first(step: nat)
    requires
        emits(plan(step)) || plan(step) is SpawnUsb || plan(step) is SpawnCore0Task
            || plan(step) is LaunchCore1,
    ensures
        plan(1) is SpawnConsumer,
        step > 1,
{
}

/// The second core is launched at one step of the sequence and at no other.
pub proof fn law_core1_launched_once(step: nat)
    ensures
        plan(step) is LaunchCore1 <==> step == 11,
{
}

/// An aborted boot stays aborted, whatever is reported to it.
pub proof fn law_abort_is_final(state: BootView, event: BootEvent)
    requires
        state.aborted,
    ensures
        after_event(state, event) == state,
        due(after_event(state, event)) is Abort,
{
}

/// The exclusive right to the second core's stack region.
pub struct StackLease {
    bytes: usize,
}

impl StackLease {
    /// Size of the region in bytes.
    pub closed spec fn bytes_spec(&self) -> usize {
        self.bytes
    }

    /// Size of the region in bytes.
    #[verifier::when_used_as_spec(bytes_spec)]
    pub fn bytes(&self) -> (n: usize)
        ensures
            n == self.bytes_spec(),
    {
        self.bytes
    }
}

/// The second core's stack region, which can be taken once.
pub struct Core1Stack {
    taken: bool,
}

impl Core1Stack {
    /// Whether the region has been handed out.
    pub closed spec fn is_taken(&self) -> bool {
        self.taken
    }

    /// The region, not yet handed out.
    pub fn new() -> (s: Core1Stack)
        ensures
            !s.is_taken(),
    {
        Core1Stack { taken: false }
    }

    /// Hands out the region of [`CORE1_STACK_SIZE`] bytes the first time it
    /// is called, and nothing ever after.
    pub fn take(&mut self) -> (lease: Option<StackLease>)
        ensures
            lease.is_some() == !old(self).is_taken(),
            lease matches Some(l) ==> l.bytes_spec() == CORE1_STACK_SIZE,
            final(self).is_taken(),
    {
        if self.taken {
            None
        } else {
            self.taken = true;
            Some(StackLease { bytes: CORE1_STACK_SIZE })
        }
    }
}

/// One action of the second core's start.
#[derive(Clone, Copy, Debug, PartialEq, Eq, Structural)]
pub enum Core1Action {
    /// Create the second core's own executor.
    StartExecutor,
    /// Start the second core's heartbeat task on that executor.
    SpawnTask,
    /// The second core is running.
    Running,
    /// The task could not be started: stop for good.
    Abort,
}

/// The action of the second core after `event` ended the action `action`.
pub open spec fn core1_next(action: Core1Action, event: BootEvent) -> Core1Action {
    match action {
        Core1Action::Abort => Core1Action::Abort,
        _ => if event is SpawnFailed {
            Core1Action::Abort
        } else {
            match action {
                Core1Action::StartExecutor => Core1Action::SpawnTask,
                _ => Core1Action::Running,
            }
        },
    }
}

/// The first action of the second core.
pub fn core1_first() -> (action: Core1Action)
    ensures
        action is StartExecutor,
{
    Core1Action::StartExecutor
}

/// The action that follows `action` on the second core, given how it went.
pub fn core1_advance(action: Core1Action, event: BootEvent) -> (next: Core1Action)
    ensures
        next == core1_next(action, event),
{
    match action {
        Core1Action::Abort => Core1Action::Abort,
        Core1Action::StartExecutor => match event {
            BootEvent::SpawnFailed => Core1Action::Abort,
            BootEvent::Completed => Core1Action::SpawnTask,
        },
        _ => match event {
            BootEvent::SpawnFailed => Core1Action::Abort,
            BootEvent::Completed => Core1Action::Running,
        },
    }
}

} // verus!
