use dualcore_log::tasks::{heartbeat_body, mark_body, started_body, Beat, Core, Heartbeat};

#[test]
fn cores_have_their_own_settings() {
    assert_eq!(Core::Core0.tag(), "Core0");
    assert_eq!(Core::Core1.tag(), "Core1");
    assert_eq!(Core::Core0.interval_ms(), 1000);
    assert_eq!(Core::Core1.interval_ms(), 1500);
    assert_eq!(Core::Core0.period(), 10);
    assert_eq!(Core::Core1.period(), 5);
    assert_eq!(Core::Core0.mark_label(), "Milestone reached: ");
    assert_eq!(Core::Core1.mark_label(), "Checkpoint: ");
}

#[test]
fn task_bodies_are_rendered() {
    assert_eq!(started_body(), "Task started");
    assert_eq!(heartbeat_body(0).as_str(), "Heartbeat, count=0");
    assert_eq!(heartbeat_body(5).as_str(), "Heartbeat, count=5");
    assert_eq!(heartbeat_body(u32::MAX).as_str(), "Heartbeat, count=4294967295");
    assert_eq!(mark_body(Core::Core0, 10).as_str(), "Milestone reached: 10");
    assert_eq!(mark_body(Core::Core1, 5).as_str(), "Checkpoint: 5");
}

#[test]
fn first_core_marks_every_tenth_heartbeat() {
    let mut task = Heartbeat::new(Core::Core0);
    assert_eq!(task.runs_on(), Core::Core0);
    for count in 0..35u32 {
        assert_eq!(task.counter(), count);
        let beat = task.beat();
        assert_eq!(
            beat,
            Beat { count, mark: count == 10 || count == 20 || count == 30, delay_ms: 1000 }
        );
    }
}

#[test]
fn second_core_marks_every_fifth_heartbeat() {
    let mut task = Heartbeat::new(Core::Core1);
    for count in 0..12u32 {
        let beat = task.beat();
        assert_eq!(beat, Beat { count, mark: count == 5 || count == 10, delay_ms: 1500 });
    }
    assert_eq!(task.counter(), 12);
}
