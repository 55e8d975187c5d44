//! J-Link Commander: scripts, output parsing and the USB-driver switch.

pub mod firmware;
pub mod scan;
pub mod scripts;
pub mod types;
pub mod usb_driver;
