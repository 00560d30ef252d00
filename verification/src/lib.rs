//! A meeting agent for Google Meet: what it decides, verified.
//!
//! The agent listens to a call, answers when it is spoken to, and speaks the
//! answer. [`meet_agent`] holds the course of a turn and the providers that
//! transcribe, reply and speak. [`meet_headless`] holds the browser that takes
//! part in the call: how it is started, how it joins, how captions and audio are
//! moved, and how a session ends.
//!
//! Nothing here waits or talks to the outside. Where the agent alternates
//! decisions with work that does, a function here takes what came of the work
//! and gives the next thing to do; its contract says exactly which. A law, a
//! proof function whose name begins with `law_`, states what then holds of a
//! whole course of such steps, whatever the outside answers.
//!
//! What is believed without proof are the calls into serde_json ([`json`]), into
//! base64 ([`base64_text`]) and into uuid ([`meet_headless::browser`]), and
//! `String::push` ([`text`]).

pub mod base64_text;
pub mod config;
pub mod json;
pub mod meet_agent;
pub mod meet_headless;
pub mod name_map;
pub mod pcm;
pub mod text;
