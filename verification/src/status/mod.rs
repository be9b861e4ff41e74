//! The tmux status line.

pub mod cache;
