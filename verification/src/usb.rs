//! The USB side of the device: how it identifies itself, the keyboard
//! reports it sends, and the decisions of its keyboard and serial-echo
//! loops. Talking to the bus is left to the caller.

use vstd::prelude::*;

verus! {

/// Vendor number of the device.
pub const USB_VID: u16 = 0x2e8a;

/// Product number of the device when it is a keyboard only.
pub const USB_PID_KEYBOARD: u16 = 0x000a;

/// Product number of the device when it is a serial port and a keyboard.
pub const USB_PID_COMPOSITE: u16 = 0x000c;

/// Current drawn from the bus, in units of 2 mA.
pub const USB_MAX_POWER: u16 = 100;

/// Largest packet of the control endpoint, in bytes.
pub const USB_CONTROL_PACKET: u8 = 64;

/// Largest packet of the serial port, in bytes.
pub const CDC_MAX_PACKET_SIZE: u16 = 64;

/// Largest packet of the keyboard, in bytes.
pub const HID_MAX_PACKET_SIZE: u16 = 8;

/// Milliseconds between two polls of the keyboard by the host.
pub const HID_POLL_MS: u8 = 10;

/// Usage code of the key `H`.
pub const KEY_H: u8 = 0x0B;

/// Milliseconds between two keystrokes of the keyboard loop.
pub const KEYSTROKE_INTERVAL_MS: u64 = 1000;

/// Milliseconds for which the keyboard loop holds a key down.
pub const KEY_HOLD_MS: u64 = 50;

/// The serial loop reports its packet count at every multiple of this.
pub const ECHO_REPORT_EVERY: u32 = 100;

/// How the device identifies itself to the host.
#[derive(Clone, Copy, Debug, PartialEq, Eq)]
pub struct UsbIdentity {
    pub vid: u16,
    pub pid: u16,
    pub manufacturer: &'static str,
    pub product: &'static str,
    pub serial_number: &'static str,
    pub max_power: u16,
    pub max_packet_size_0: u8,
    pub device_class: u8,
    pub device_sub_class: u8,
    pub device_protocol: u8,
}

/// The identity of the device, with or without the serial port. The device
/// class is left to the interfaces in both cases.
pub open spec fn usb_identity(with_serial: bool) -> UsbIdentity {
    UsbIdentity {
        vid: USB_VID,
        pid: if with_serial {
            USB_PID_COMPOSITE
        } else {
            USB_PID_KEYBOARD
        },
        manufacturer: "RP1 Embassy",
        product: if with_serial {
            "RP1 Serial + Keyboard"
        } else {
            "RP1 HID Keyboard"
        },
        serial_number: "123456789ABC",
        max_power: USB_MAX_POWER,
        max_packet_size_0: USB_CONTROL_PACKET,
        device_class: 0,
        device_sub_class: 0,
        device_protocol: 0,
    }
}

/// The identity of the device, with or without the serial port.
pub fn create_usb_config(with_serial: bool) -> (identity: UsbIdentity)
    ensures
        identity == usb_identity(with_serial),
{
    UsbIdentity {
        vid: USB_VID,
        pid: if with_serial {
            USB_PID_COMPOSITE
        } else {
            USB_PID_KEYBOARD
        },
        manufacturer: "RP1 Embassy",
        product: if with_serial {
            "RP1 Serial + Keyboard"
        } else {
            "RP1 HID Keyboard"
        },
        serial_number: "123456789ABC",
        max_power: USB_MAX_POWER,
        max_packet_size_0: USB_CONTROL_PACKET,
        device_class: 0,
        device_sub_class: 0,
        device_protocol: 0,
    }
}

/// The keyboard report with one key down and no modifier: the key's code
/// in the third byte, zero elsewhere.
pub fn press_report(code: u8) -> (report: [u8; 8])
    ensures
        report@ == seq![0u8, 0, code, 0, 0, 0, 0, 0],
{
    let report: [u8; 8] = [0, 0, code, 0, 0, 0, 0, 0];
    assert(report@ =~= seq![0u8, 0, code, 0, 0, 0, 0, 0]);
    report
}

/// The keyboard report with no key down.
pub fn release_report() -> (report: [u8; 8])
    ensures
        report@ == seq![0u8, 0, 0, 0, 0, 0, 0, 0],
{
    let report: [u8; 8] = [0, 0, 0, 0, 0, 0, 0, 0];
    assert(report@ =~= seq![0u8, 0, 0, 0, 0, 0, 0, 0]);
    report
}

/// What the keyboard loop does once the press of a key has been sent.
#[derive(Clone, Copy, Debug, PartialEq, Eq, Structural)]
pub enum KeyboardStep {
    /// Hold the key for [`KEY_HOLD_MS`], send the release and report the
    /// keystroke at level `DEBUG`.
    Release,
    /// The press could not be sent: report it at level `ERROR` and go on
    /// with the next round.
    ReportError,
}

/// Counts the round that the keyboard loop begins after `count` rounds.
pub fn keyboard_round(count: u32) -> (next: u32)
    requires
        count < u32::MAX,
    ensures
        next == count + 1,
{
    count + 1
}

/// What follows the attempt to send the press of a key.
pub fn after_press(sent: bool) -> (step: KeyboardStep)
    ensures
        step is Release == sent,
{
    if sent {
        KeyboardStep::Release
    } else {
        KeyboardStep::ReportError
    }
}

/// What came of reading one packet from the host.
#[derive(Clone, Copy, Debug, PartialEq, Eq, Structural)]
pub enum PacketRead {
    /// A packet of this many bytes arrived.
    Data(usize),
    /// The read failed.
    Failed,
}

/// What the serial loop does with what it read.
#[derive(Clone, Copy, Debug, PartialEq, Eq, Structural)]
pub enum EchoStep {
    /// Send the packet back; `report` says whether the packet count is
    /// reported at level `DEBUG` once that is done.
    Echo { report: bool },
    /// Nothing arrived: read again.
    Idle,
    /// The host is gone: report it at level `WARN` and wait for the next
    /// connection.
    Disconnect,
}

/// The packets echoed to one host.
pub struct EchoSession {
    packets: u32,
}

impl EchoSession {
    /// Number of packets taken in since the host connected.
    pub closed spec fn packets_spec(&self) -> u32 {
        self.packets
    }

    /// The session of a host that has just connected.
    pub fn new() -> (s: EchoSession)
        ensures
            s.packets_spec() == 0,
    {
        EchoSession { packets: 0 }
    }

    /// Number of packets taken in since the host connected.
    #[verifier::when_used_as_spec(packets_spec)]
    pub fn packets(&self) -> (n: u32)
        ensures
            n == self.packets_spec(),
    {
        self.packets
    }

    /// Decides what to do with what was read. A packet with data is counted
    /// and echoed, an empty one is passed over, a failed read ends the
    /// session.
    pub fn on_read(&mut self, read: PacketRead) -> (step: EchoStep)
        requires
            old(self).packets_spec() < u32::MAX,
        ensures
            (match read {
                PacketRead::Data(n) if n > 0 => final(self).packets_spec() == old(self).packets_spec()
                    + 1 && step == (EchoStep::Echo {
                    report: final(self).packets_spec() % ECHO_REPORT_EVERY == 0,
                }),
                PacketRead::Data(_) => final(self).packets_spec() == old(self).packets_spec()
                    && step is Idle,
                PacketRead::Failed => final(self).packets_spec() == old(self).packets_spec()
                    && step is Disconnect,
            }),
    {
        match read {
            PacketRead::Data(n) => {
                if n > 0 {
                    self.packets = self.packets + 1;
                    EchoStep::Echo { report: self.packets % ECHO_REPORT_EVERY == 0 }
                } else {
                    EchoStep::Idle
                }
            },
            PacketRead::Failed => EchoStep::Disconnect,
        }
    }

    /// What follows the attempt to send a packet back: the session goes on
    /// if it was sent and ends if it was not.
    pub fn after_echo(&self, sent: bool) -> (goes_on: bool)
        ensures
            goes_on == sent,
    {
        sent
    }
}

} // verus!
