//! Core of an interactive terminal browser and editor for a remote key-value
//! store: the component composition protocol, the cancellable background-task
//! slots, and the two scene state machines built on top of them. The runtime
//! around this library performs the terminal and network work; everything
//! here is a deterministic state machine over plain values.

pub mod app;
pub mod cli;
pub mod components;
pub mod confirmation_popup;
pub mod context_help;
pub mod editor_buffer;
pub mod events;
pub mod foreground_task;
pub mod key_selector;
pub mod new_key_popup;
pub mod shared_state;
pub mod text;
pub mod ui;
pub mod utils;
pub mod value_editor;
