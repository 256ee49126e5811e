//! Verified protocol engine for VIA/Vial keyboard configuration: keycode
//! name/id translation, macro byte-stream codec, layout-option bit packing,
//! fixed-record entity codecs, capability negotiation and message framing.
pub mod strutil;
pub mod keycodes;
pub mod json;
pub mod macros;
pub mod protocol;
pub mod combo;
pub mod tap_dance;
pub mod key_override;
pub mod alt_repeat;
pub mod encoder;
pub mod layout;
pub mod qmk_settings;
pub mod keymap;
pub mod rgb;
