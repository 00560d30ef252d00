//! Google Meet in a headless browser.
//!
//! The browser is driven over the DevTools protocol. Everything that decides
//! something stands here as a function of what was seen so far: which command
//! to send next, what a reply means, when to try again and when to give up.
//! Sockets, processes and timers belong to the caller, who carries each action
//! out and hands back what came of it.

pub mod audio_bridge;
pub mod browser;
pub mod caption;
pub mod cdp;
pub mod fake_camera;
pub mod join_flow;
pub mod polling;
pub mod rpc;
pub mod runner;
pub mod schemas;
pub mod tab;

pub use crate::meet_headless::runner::SessionSummary;
pub use crate::meet_headless::schemas::{
    all_controller_schemas as all_meet_headless_controller_schemas,
    all_registered_controllers as all_meet_headless_registered_controllers,
};
