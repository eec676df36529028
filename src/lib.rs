//! Turns captured text into paced batches of synthetic key events, and holds
//! the state machines of the hotkey listener and the action dispatcher.

pub mod input_sim;
pub mod clipboard;
pub mod hotkey;
pub mod dispatch;
