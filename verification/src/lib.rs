//! The rendering contract of a terminal widget framework.
//!
//! A drawable paints itself into a shared character-cell surface ([`buffer::Buffer`])
//! within a bounded rectangular region ([`layout::Rect`]). The capabilities in
//! [`widgets`] say how rendering is invoked: by value ([`widgets::Widget`],
//! [`widgets::StatefulWidget`]), through a shared borrow ([`widgets::Render`],
//! [`widgets::RenderWithState`]), or through an exclusive borrow
//! ([`widgets::RenderMut`]). Adapters bridge the reference form to the consuming
//! form, let an absent optional drawable render as a no-op, and let plain text
//! act as a drawable.

pub mod buffer;
pub mod layout;
pub mod style;
pub mod widgets;
