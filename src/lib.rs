//! Incremental response rendering for a terminal chat client: paced output of
//! streamed text, a status line with a small lifecycle state machine, and the
//! configuration records the client works with.

pub mod text;
pub mod pacing;
pub mod queue;
pub mod status;
pub mod render;
pub mod named;
pub mod config;
pub mod builder;
pub mod commands;
pub mod chat;
pub mod logger;
pub mod strings;
pub mod display;
pub mod interactive;
pub mod crypto;
