//! Verified core of the WinUSB Switcher: J-Link Commander scripts, parsing of
//! J-Link output, the USB-driver switch protocol and the download / install
//! decisions, separated from the process, file-system and GUI plumbing.

pub mod text;
pub mod jlink;
pub mod paths;
pub mod platform;
pub mod error;
pub mod state;
pub mod download;
pub mod bundled_jlink;
