//! The menu of a personal-portfolio chat bot: a fixed tree of text panels
//! with inline keyboards, the commands and button presses that move between
//! them, and what the messaging transport is asked to do for each.
//!
//! Nothing here talks to the network. Every function takes plain values and
//! answers with plain values; the program around the library delivers updates
//! and carries out the replies.

pub mod command;
pub mod config;
pub mod dispatcher;
pub mod infos;
pub mod keyboard;
pub mod laws;
pub mod menu;
pub mod text;
