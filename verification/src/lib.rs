//! A labeled on/off toggle control for a retained-mode widget tree.
//!
//! The widget itself lives in [`widget`]; the surrounding modules model the
//! toolkit machinery it plugs into: integer geometry, layout constraints and
//! nodes, pointer/keyboard events, a layout-cache hasher, and the renderer
//! capability trait (with a headless backend for exercising it).

pub mod event;
pub mod geometry;
pub mod hasher;
pub mod layout;
pub mod null_renderer;
pub mod renderer;
pub mod widget;
