//! Turns raw hardware key events into logged text under the user's active
//! keyboard layout: a layout-detection fallback chain over the desktop
//! environment's query commands, and a keycode-to-text state machine that
//! tracks modifier state across the event stream.
pub mod logpath;
pub mod mapper;
pub mod resolver;
pub mod special;
pub mod text;
pub mod translate;
