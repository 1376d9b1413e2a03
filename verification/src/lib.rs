//! Playback session management for a terminal music player.
//!
//! The player itself is an external program. This library holds the rules
//! around it: which items of a search answer can be played and in which
//! order, how the player is started, when its control channel counts as up,
//! which command each key sends, and what each command looks like on the
//! channel. Clocks, files, processes, the network and the terminal are the
//! caller's matter; the library is told what they report and says what to do
//! next.

pub mod text;
pub mod json;
pub mod item;
pub mod extract;
pub mod playlist;
pub mod search;
pub mod launch;
pub mod readiness;
pub mod command;
pub mod control;
