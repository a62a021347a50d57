//! User-space driver core for a USB HID grid controller.
//!
//! The crate turns raw HID reports into discrete pad, button and encoder
//! events, maintains the device's illumination buffer, and maps events to
//! outbound note and control-channel messages.  All decoding, filtering and
//! encoding logic is verified; the I/O edges (reading the device descriptor,
//! sending packets) live outside the library.

pub mod dispatch;
pub mod handler;
pub mod maschine;
pub mod maschine_pad;
pub mod math;
pub mod messages;
pub mod mikro;
pub mod osc;
