//! The capability trait a rendering backend must supply so that the toggle
//! widget can lay out and draw itself, together with the small value types
//! that cross that boundary.

use vstd::prelude::*;
use crate::geometry::Rectangle;
use crate::layout::Limits;

verus! {

/// Horizontal placement of text within its box.
#[derive(Clone, Copy, Debug, PartialEq, Eq, Structural)]
pub enum HorizontalAlignment {
    Left,
    Center,
    Right,
}

/// Vertical placement of text within its box.
#[derive(Clone, Copy, Debug, PartialEq, Eq, Structural)]
pub enum VerticalAlignment {
    Top,
    Center,
    Bottom,
}

/// An RGBA color with 8-bit channels.
#[derive(Clone, Copy, Debug, PartialEq, Eq, Structural)]
pub struct Color {
    pub red: u8,
    pub green: u8,
    pub blue: u8,
    pub alpha: u8,
}

/// What a rendering backend must supply for the toggle widget to work with
/// it: opaque font and style handles with their defaults, a default control
/// and text size, text measurement for layout, and the two drawing
/// capabilities the widget composes — one that renders the label, one that
/// renders the toggle track and knob around it.
///
/// Each exec method is pinned to a spec function the implementor chooses, so
/// that a widget drawn against any backend has an exact contract: the widget
/// never interprets fonts, styles, or outputs, it only passes them through.
pub trait Renderer: Sized {
    /// Opaque font handle; chosen by the backend, never interpreted.
    type Font;

    /// Opaque style handle; chosen by the backend or theme.
    type Style;

    /// Default styling in force where a widget passes no explicit color.
    type Defaults;

    /// What drawing produces: primitives, draw lists, or nothing at all for
    /// a headless backend.
    type Output;

    /// The control size a toggle takes when the application sets none.
    spec fn default_size_spec() -> u16;

    /// The font used where a widget sets none.
    spec fn default_font_spec() -> Self::Font;

    /// The style used where a widget sets none.
    spec fn default_style_spec() -> Self::Style;

    /// The text size used where a widget sets none.
    spec fn default_text_size_spec(&self) -> u16;

    /// The extent (width, height) this backend gives a run of text, within
    /// the given constraints.
    spec fn measure_spec(
        &self,
        content: Seq<char>,
        size: u16,
        font: Self::Font,
        limits: Limits,
    ) -> (u64, u64);

    /// The output of drawing a run of text.
    spec fn text_output_spec(
        &self,
        defaults: Self::Defaults,
        bounds: Rectangle,
        content: Seq<char>,
        size: u16,
        font: Self::Font,
        color: Option<Color>,
        horizontal_alignment: HorizontalAlignment,
        vertical_alignment: VerticalAlignment,
    ) -> Self::Output;

    /// The output of drawing a toggle: its track and knob composed over the
    /// already-rendered label.
    spec fn toggler_output_spec(
        &self,
        bounds: Rectangle,
        is_active: bool,
        is_mouse_over: bool,
        label: Self::Output,
        style: Self::Style,
    ) -> Self::Output;

    /// The backend's default control size for a toggle.
    fn default_size() -> (r: u16)
        ensures
            r == Self::default_size_spec(),
    ;

    /// The backend's default font.
    fn default_font() -> (r: Self::Font)
        ensures
            r == Self::default_font_spec(),
    ;

    /// The backend's default style.
    fn default_style() -> (r: Self::Style)
        ensures
            r == Self::default_style_spec(),
    ;

    /// The backend's default text size.
    fn default_text_size(&self) -> (r: u16)
        ensures
            r == self.default_text_size_spec(),
    ;

    /// Measures a run of text. The result never exceeds the given
    /// constraints, so boxes derived from it stay within the layout's
    /// coordinate budget.
    fn measure(&self, content: &str, size: u16, font: &Self::Font, limits: &Limits) -> (r: (
        u64,
        u64,
    ))
        ensures
            r == self.measure_spec(content@, size, *font, *limits),
            r.0 <= limits.max_width,
            r.1 <= limits.max_height,
    ;

    /// Draws a run of text into `bounds`. Where `color` is `None`, the
    /// backend decides from `defaults`.
    fn draw_text(
        &self,
        defaults: &Self::Defaults,
        bounds: Rectangle,
        content: &str,
        size: u16,
        font: &Self::Font,
        color: Option<Color>,
        horizontal_alignment: HorizontalAlignment,
        vertical_alignment: VerticalAlignment,
    ) -> (r: Self::Output)
        ensures
            r == self.text_output_spec(
                *defaults,
                bounds,
                content@,
                size,
                *font,
                color,
                horizontal_alignment,
                vertical_alignment,
            ),
    ;

    /// Draws a toggle's track and knob into `bounds`, composed with the
    /// already-rendered `label`.
    fn draw_toggler(
        &self,
        bounds: Rectangle,
        is_active: bool,
        is_mouse_over: bool,
        label: Self::Output,
        style: &Self::Style,
    ) -> (r: Self::Output)
        ensures
            r == self.toggler_output_spec(bounds, is_active, is_mouse_over, label, *style),
    ;
}

} // verus!
