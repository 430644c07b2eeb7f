//! Conversation selection and prompt streaming for terminal surfaces.
//!
//! A terminal surface, shown as a GUI terminal view or as a TUI, targets its next
//! query at one conversation or at a new one. The models here decide which, and
//! what has to be done outside in consequence. They read the outside world from
//! an [`context::AppContext`] that the caller filled, and they append what they
//! want done to a list of effects, in the order in which it is to be done.
#![allow(unused_imports)]

pub mod context;
pub mod conversation_laws;
pub mod conversation_model;
pub mod events;
pub mod ids;
pub mod prompt_stream;
pub mod prompt_stream_laws;
pub mod surface;
pub mod surface_laws;
pub mod text;
pub mod tui_args;
