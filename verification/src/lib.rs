//! Keyboard-input translation for an X11-style windowing backend.
//!
//! The crate turns raw key press/release protocol events plus an evolving
//! keyboard layout into normalized key events: it resolves a physical key
//! code to a symbol through the current layout and modifier/group state,
//! runs the symbol through a dead-key/accent compose state machine, and
//! corrects the reported modifier set for already-shifted printable
//! symbols.  Layout-change notifications from the server replace the
//! layout/state pair atomically; state-change notifications refresh the
//! modifier and group masks in place.
//!
//! A companion module holds the font/text-style configuration model that
//! the surrounding application consumes: font attribute records, ordered
//! fallback lists, style rules keyed on text attributes, and the textual
//! encodings of the renderer selection knobs.

pub mod compose;
pub mod font;
pub mod keyboard;
pub mod keymap;
pub mod keysyms;
pub mod modifiers;
pub mod protocol;
pub mod text;
