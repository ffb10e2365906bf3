//! System configuration constants.

use vstd::prelude::*;

verus! {

/// Serial line speed in baud.
pub const BAUD_RATE: u32 = 115200;

/// Transmit pin of the serial port.
pub const TX_PIN: u8 = 0;

/// Receive pin of the serial port.
pub const RX_PIN: u8 = 1;

/// Heartbeat interval of the first core's task, in milliseconds.
pub const CORE0_INTERVAL_MS: u64 = 1000;

/// Heartbeat interval of the second core's task, in milliseconds.
pub const CORE1_INTERVAL_MS: u64 = 1500;

/// The first core reports a milestone every this many heartbeats.
pub const CORE0_MILESTONE: u32 = 10;

/// The second core reports a checkpoint every this many heartbeats.
pub const CORE1_CHECKPOINT: u32 = 5;

/// Size in bytes of the stack region reserved for the second core.
pub const CORE1_STACK_SIZE: usize = 4096;

/// Largest number of bytes one message can hold.
pub const MAX_LINE_LEN: usize = 256;

/// Number of message slots in the queue.
pub const QUEUE_CAPACITY: usize = 16;

/// Width to which the uptime is right-aligned in a rendered line.
pub const UPTIME_WIDTH: usize = 8;

} // verus!
