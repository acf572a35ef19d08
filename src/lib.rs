//! Render-target selection and pointer-input state for editable text widgets.
//!
//! The library decides, per widget, which display backend (a 2D sprite or a
//! UI image node) receives the rasterized text, routes images to it, maps
//! pointer hits into the text layout's pixel space, and runs the hover,
//! scroll and focus state machines that drive editing.
pub mod hover;
pub mod render_target;
pub mod geometry;
pub mod scroll;
pub mod focus;
pub mod config;
pub mod cursor_visibility;
