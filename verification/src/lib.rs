//! Core of a terminal chat client: a three-pane screen (channel list,
//! message view, input field) driven by keyboard input. This crate holds the
//! focus/mode state machine and the pure view composer that decides each
//! region's decoration; terminal drawing and event reading live outside.

pub mod args;
pub mod state;
pub mod view;
