//! The widget kinds, one handle type for each.
//!
//! Every constructor works alike. Text is encoded first, and text that cannot
//! be encoded ends the construction before the toolkit is asked for anything:
//! a constructor asks for the right to call the toolkit's allocation, handed
//! in as `create`, only for text that can be encoded. Then `create` is called
//! once, and the address it returns is either wrapped in a handle or, where
//! it is null, reported as a failed creation.
//!
//! A handle never holds the null address. Its other operations hand the
//! record's address, with what the operation computes, to the entry point of
//! the toolkit that does the work.

pub mod button;
pub mod checkbox;
pub mod code;
pub mod color_picker;
pub mod gauge;
pub mod image_display;
pub mod label;
pub mod mdi;
pub mod menu;
pub mod panel;
pub mod slider;
pub mod table;
pub mod textbox;
pub mod window;
