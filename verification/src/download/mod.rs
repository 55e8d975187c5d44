//! Downloading and installing J-Link: where installers come from and go to,
//! how progress is reported, and the decisions around each step.

pub mod commands;
pub mod http;
pub mod installer;
pub mod types;
pub mod webview;
