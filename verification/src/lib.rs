//! The portable core of a binding to the Luigi immediate-mode UI toolkit.
//!
//! The toolkit owns every widget record and frees a widget together with its
//! parent. This crate holds what the binding itself decides: which text may
//! cross into the toolkit and how it is encoded, when a creation has failed,
//! which closure a callback token stands for, and how a handler's reply is
//! marshalled into a fixed native buffer. The toolkit's entry points are
//! handed in by the caller as plain functions over addresses and bytes, so
//! that all of it can be stated and proved without touching native memory.

pub mod callback;
pub mod element;
pub mod error;
pub mod geometry;
pub mod message;
pub mod registry;
pub mod shortcut;
pub mod startup;
pub mod text;
pub mod widgets;

pub use callback::Callbacks;
pub use element::{Element, ElementWrapper};
pub use error::Error;
pub use geometry::{rect, Rectangle};
pub use message::{EventHandler, UI_MSG_LEFT_DOWN, UI_MSG_TABLE_GET_ITEM};
pub use registry::Registry;
pub use shortcut::{Shortcut, ShortcutRecord};
pub use startup::init;
pub use text::measure_string_width;
pub use widgets::button::Button;
pub use widgets::checkbox::Checkbox;
pub use widgets::code::Code;
pub use widgets::color_picker::ColorPicker;
pub use widgets::gauge::Gauge;
pub use widgets::image_display::ImageDisplay;
pub use widgets::label::Label;
pub use widgets::mdi::{MDIChild, MDIClient};
pub use widgets::menu::Menu;
pub use widgets::panel::Panel;
pub use widgets::slider::Slider;
pub use widgets::table::Table;
pub use widgets::textbox::TextBox;
pub use widgets::window::Window;
