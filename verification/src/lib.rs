//! The core of a terminal chat client that also brokers commands to an
//! agent process.
//!
//! The library holds what the client decides and computes: which failed
//! calls are retried and when (`retry`), how the user directory is cached
//! (`directory`), what each call to the chat service sends and what its
//! answer means (`api`, `types`, `auth`, `error`), how a session of the
//! event stream runs (`socket`), how the agent process is started and
//! paired (`runner`, `gateway`, `commands`), how the results of
//! background work and the user's input change what the client holds
//! (`state`, `tasks`, `actions`, `keys`, `mouse`), and what the screen
//! says of it (`view`, `screen`, `wrap`). Sending, receiving, waiting and
//! drawing are left to the program around it.

pub mod actions;
pub mod api;
pub mod auth;
pub mod commands;
pub mod config;
pub mod directory;
pub mod error;
pub mod gateway;
pub mod input;
pub mod json;
pub mod keybinds;
pub mod keyed;
pub mod keys;
pub mod layout;
pub mod menu;
pub mod mouse;
pub mod onboarding;
pub mod redact;
pub mod retry;
pub mod runner;
pub mod screen;
pub mod socket;
pub mod state;
pub mod tasks;
pub mod text;
pub mod types;
pub mod view;
pub mod wrap;
