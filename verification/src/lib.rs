//! Verified core for driving the backlight of an external display over its
//! USB HID control channel.
//!
//! The library covers the logic of the tool: the discrete brightness step
//! scale and its quantizer, the feature-report wire codec, the device
//! matching rule, and the key-driven adjustment decisions.  The surrounding
//! I/O (HID transport, terminal, progress display) lives outside the library
//! and exchanges plain values with it.

pub mod codec;
pub mod control;
pub mod locator;
pub mod quantize;
