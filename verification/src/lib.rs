//! An in-process event distribution backbone for a live-stream bot.
//!
//! One bus carries every event of the system. Handlers subscribe to it, react to
//! the kinds of event they know, and publish what follows from them. A handler
//! that is slow loses events and is told so; a handler that fails ends alone.
//!
//! - `bus`: the bounded broadcast bus and its subscriptions.
//! - `stream`: what a subscription observes over a whole run.
//! - `scheduler`: the handlers of one process and the state of each.
//! - `isolation`: what the end of one handler does to the others.
//! - `event`: the events.
//! - `text`: the operations on text that the decisions below are made of.
//! - `chat`, `obs_commands`, `sound`, `voice`, `images`, `songs`, `music_video`,
//!   `eventsub`, `skybox`, `filters`: what the handlers decide, as functions from
//!   plain values to plain values. Reaching out of the process is left to the
//!   caller.

pub mod bus;
pub mod chat;
pub mod event;
pub mod eventsub;
pub mod filters;
pub mod images;
pub mod isolation;
pub mod music_video;
pub mod obs_commands;
pub mod scheduler;
pub mod skybox;
pub mod songs;
pub mod sound;
pub mod stream;
pub mod text;
pub mod voice;
