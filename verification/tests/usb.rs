use dualcore_log::usb::{
    after_press, create_usb_config, keyboard_round, press_report, release_report, EchoSession,
    EchoStep, KeyboardStep, PacketRead, CDC_MAX_PACKET_SIZE, HID_MAX_PACKET_SIZE, HID_POLL_MS,
    KEY_H, KEY_HOLD_MS, KEYSTROKE_INTERVAL_MS, USB_VID,
};

#[test]
fn keyboard_identity() {
    let id = create_usb_config(false);
    assert_eq!(id.vid, 0x2e8a);
    assert_eq!(id.vid, USB_VID);
    assert_eq!(id.pid, 0x000a);
    assert_eq!(id.manufacturer, "RP1 Embassy");
    assert_eq!(id.product, "RP1 HID Keyboard");
    assert_eq!(id.serial_number, "123456789ABC");
    assert_eq!(id.max_power, 100);
    assert_eq!(id.max_packet_size_0, 64);
    assert_eq!((id.device_class, id.device_sub_class, id.device_protocol), (0, 0, 0));
}

#[test]
fn composite_identity() {
    let id = create_usb_config(true);
    assert_eq!(id.pid, 0x000c);
    assert_eq!(id.product, "RP1 Serial + Keyboard");
    assert_eq!((id.device_class, id.device_sub_class, id.device_protocol), (0, 0, 0));
}

#[test]
fn keyboard_reports() {
    assert_eq!(KEY_H, 0x0B);
    assert_eq!(press_report(KEY_H), [0, 0, 0x0B, 0, 0, 0, 0, 0]);
    assert_eq!(press_report(4), [0, 0, 4, 0, 0, 0, 0, 0]);
    assert_eq!(release_report(), [0u8; 8]);
    assert_eq!(HID_MAX_PACKET_SIZE, 8);
    assert_eq!(HID_POLL_MS, 10);
    assert_eq!(CDC_MAX_PACKET_SIZE, 64);
    assert_eq!(KEYSTROKE_INTERVAL_MS, 1000);
    assert_eq!(KEY_HOLD_MS, 50);
}

#[test]
fn keyboard_loop_steps() {
    assert_eq!(keyboard_round(0), 1);
    assert_eq!(keyboard_round(41), 42);
    assert_eq!(after_press(true), KeyboardStep::Release);
    assert_eq!(after_press(false), KeyboardStep::ReportError);
}

#[test]
fn echo_session_counts_packets_with_data() {
    let mut s = EchoSession::new();
    assert_eq!(s.packets(), 0);
    assert_eq!(s.on_read(PacketRead::Data(0)), EchoStep::Idle);
    assert_eq!(s.packets(), 0);
    for i in 1..=250u32 {
        let step = s.on_read(PacketRead::Data(64));
        assert_eq!(step, EchoStep::Echo { report: i % 100 == 0 });
        assert_eq!(s.packets(), i);
        assert!(s.after_echo(true));
    }
    assert_eq!(s.on_read(PacketRead::Failed), EchoStep::Disconnect);
    assert_eq!(s.packets(), 250);
    assert!(!s.after_echo(false));
}
