//! Interactive terminal-prompt toolkit: selection carousels, bounded sliders
//! and a line editor, each built as a verified state machine around a shared
//! render–input–commit loop.
//!
//! The widgets here own the navigation/edit state and the ANSI frame
//! rendering; the surrounding binary owns the terminal itself (raw mode,
//! key decoding, writing frames out) and drives each machine with decoded
//! key events.

pub mod carousel;
pub mod error;
pub mod key;
pub mod prompt;
pub mod prompt_options;
pub mod render;
