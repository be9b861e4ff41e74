//! The dashboard: its state, the keys it answers to, its modals and the
//! pieces of its drawing that are plain computation.

pub mod color;
pub mod flash;
pub mod state;
pub mod input;
pub mod new_modal;
pub mod recents;
pub mod rename_modal;
pub mod render;
