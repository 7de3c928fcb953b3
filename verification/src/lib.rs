//! The core of a VT100/xterm style terminal emulator: an incremental UTF-8
//! decoder, an escape-sequence parser and the screen model that the parser's
//! actions are applied to.
pub mod color;
pub mod config;
pub mod escape;
pub mod terminal;
mod text;
