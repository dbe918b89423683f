//! shook: a webhook-driven deployment trigger.
//!
//! The library authenticates webhook deliveries with a keyed hash over the
//! raw request body, decodes them into a typed event model, matches events
//! against a configured allow-list, and plans the pull-then-restart deploy
//! cycle together with the unix-socket provisioning that precedes serving.

pub mod config;
pub mod daemon;
pub mod deploy;
pub mod events;
pub mod hexcode;
pub mod identity;
pub mod json;
pub mod numtext;
pub mod payload;
pub mod policy;
pub mod provision;
pub mod signature;
pub mod textutil;
