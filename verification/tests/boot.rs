use dualcore_log::boot::{
    core1_advance, core1_first, BootAction, BootEvent, BootLine, Bootstrap, Core1Action, Core1Stack,
    CONSUMER_SETTLE_MS, STARTUP_SETTLE_MS,
};
use dualcore_log::config::CORE1_STACK_SIZE;

#[test]
fn boot_runs_through_its_steps_in_order() {
    let expected = vec![
        BootAction::InitHardware,
        BootAction::SpawnConsumer,
        BootAction::Delay(10),
        BootAction::SendBanner,
        BootAction::Log(BootLine::Starting),
        BootAction::Log(BootLine::UsbInit),
        BootAction::SpawnUsb,
        BootAction::Log(BootLine::UsbSpawned),
        BootAction::Log(BootLine::SpawningCore0),
        BootAction::SpawnCore0Task,
        BootAction::Log(BootLine::SpawningCore1),
        BootAction::LaunchCore1,
        BootAction::Delay(100),
        BootAction::Log(BootLine::Rule),
        BootAction::Log(BootLine::Complete),
        BootAction::Log(BootLine::UartInfo),
        BootAction::Log(BootLine::UsbInfo),
        BootAction::Log(BootLine::CoresInfo),
        BootAction::Log(BootLine::Rule),
        BootAction::Running,
    ];
    let mut boot = Bootstrap::new();
    assert_eq!(boot.current(), expected[0]);
    for want in &expected[1..] {
        assert_eq!(boot.advance(BootEvent::Completed), *want);
        assert_eq!(boot.current(), *want);
    }
    assert_eq!(boot.advance(BootEvent::Completed), BootAction::Running);
    assert_eq!(boot.current(), BootAction::Running);
    assert_eq!(CONSUMER_SETTLE_MS, 10);
    assert_eq!(STARTUP_SETTLE_MS, 100);
}

#[test]
fn failed_spawn_aborts_the_boot_for_good() {
    let mut boot = Bootstrap::new();
    assert_eq!(boot.advance(BootEvent::Completed), BootAction::SpawnConsumer);
    assert_eq!(boot.advance(BootEvent::SpawnFailed), BootAction::Abort);
    assert_eq!(boot.current(), BootAction::Abort);
    assert_eq!(boot.advance(BootEvent::Completed), BootAction::Abort);
    assert_eq!(boot.advance(BootEvent::SpawnFailed), BootAction::Abort);
    assert_eq!(boot.current(), BootAction::Abort);
}

#[test]
fn boot_lines_have_their_text() {
    assert_eq!(BootLine::Starting.text(), "System initialization starting...");
    assert_eq!(BootLine::UsbInit.text(), "Initializing USB HID keyboard...");
    assert_eq!(BootLine::UsbSpawned.text(), "USB HID keyboard task spawned");
    assert_eq!(BootLine::SpawningCore0.text(), "Spawning Core 0 task");
    assert_eq!(BootLine::SpawningCore1.text(), "Spawning Core 1");
    assert_eq!(BootLine::Rule.text(), "====================================");
    assert_eq!(BootLine::Complete.text(), "System startup complete!");
    assert_eq!(BootLine::UartInfo.text(), "- UART0: GPIO0(TX) / GPIO1(RX)");
    assert_eq!(BootLine::UsbInfo.text(), "- USB: HID Keyboard");
    assert_eq!(BootLine::CoresInfo.text(), "- Dual Core: Core0 + Core1 running");
}

#[test]
fn second_core_stack_is_handed_out_once() {
    let mut stack = Core1Stack::new();
    let lease = stack.take().unwrap();
    assert_eq!(lease.bytes(), 4096);
    assert_eq!(lease.bytes(), CORE1_STACK_SIZE);
    assert!(stack.take().is_none());
    assert!(stack.take().is_none());
}

#[test]
fn second_core_starts_its_executor_then_its_task() {
    let first = core1_first();
    assert_eq!(first, Core1Action::StartExecutor);
    let second = core1_advance(first, BootEvent::Completed);
    assert_eq!(second, Core1Action::SpawnTask);
    assert_eq!(core1_advance(second, BootEvent::Completed), Core1Action::Running);
    assert_eq!(core1_advance(Core1Action::Running, BootEvent::Completed), Core1Action::Running);
    assert_eq!(core1_advance(second, BootEvent::SpawnFailed), Core1Action::Abort);
    assert_eq!(core1_advance(first, BootEvent::SpawnFailed), Core1Action::Abort);
    assert_eq!(core1_advance(Core1Action::Abort, BootEvent::Completed), Core1Action::Abort);
}
