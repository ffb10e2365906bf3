//! Diagnostics for firmware on two cores that share one serial port.
//!
//! Tasks on either core render a line and put it into one bounded queue;
//! a single consumer takes the lines out in the order in which they went in
//! and writes them to the port. Task code waits for a free slot and never
//! loses a line; interrupt handlers never wait and lose the line if the
//! queue is full.
//!
//! The library holds the rules and leaves the waiting, the clock and the
//! hardware to its caller: every function here changes state in one short
//! step and returns.

pub mod banner;
pub mod boot;
pub mod buffer;
pub mod config;
pub mod consumer;
pub mod decimal;
pub mod key;
pub mod message;
pub mod producer;
pub mod queue;
pub mod tasks;
pub mod usage;
pub mod usb;
