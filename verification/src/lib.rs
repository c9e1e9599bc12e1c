//! Device-side control logic of a USB HID keyboard function.
//!
//! The logic drives a model of the USB peripheral, [`usb::Usb`]: the control
//! register of every endpoint, its transmit count and its transmit buffer in
//! packet memory. Every handler of [`hid::Hid`] states the peripheral it
//! leaves behind as a function of the peripheral it found.

pub mod descriptor;
pub mod endpoint;
pub mod hid;
pub mod lifecycle;
pub mod report;
pub mod request;
pub mod usb;

pub use descriptor::{HidClassDescriptorType, HidDescriptor};
pub use hid::Hid;
