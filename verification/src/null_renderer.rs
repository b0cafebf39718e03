//! A headless rendering backend: it paints nothing, records everything.
//!
//! Instead of pixels it produces [`Primitive`] values describing what would
//! have been drawn, which makes it both a stand-in where no window exists and
//! a witness in tests that the widget handed the backend exactly the bounds,
//! state, and text it promised to.

use vstd::prelude::*;
use crate::geometry::Rectangle;
use crate::layout::Limits;
use crate::renderer::Color;
use crate::renderer::HorizontalAlignment;
use crate::renderer::Renderer;
use crate::renderer::VerticalAlignment;

verus! {

/// A record of one draw call, nested as the calls composed.
#[derive(Debug, PartialEq, Eq)]
pub enum Primitive {
    /// A run of text: where it went, how many characters it had, and how it
    /// was styled. `color` is the resolved color: the explicit one where the
    /// widget passed one, else the default in force.
    Text {
        bounds: Rectangle,
        length: usize,
        size: u16,
        font: u64,
        color: Color,
        horizontal_alignment: HorizontalAlignment,
        vertical_alignment: VerticalAlignment,
    },
    /// A toggle's track and knob, composed over its rendered label.
    Toggler {
        bounds: Rectangle,
        is_active: bool,
        is_mouse_over: bool,
        label: Box<Primitive>,
        style: u64,
    },
}

/// The headless backend. It measures text at one layout unit per character,
/// clamped to the given constraints, and reports `default_text_size` as its
/// default text size.
#[derive(Clone, Copy, Debug, PartialEq, Eq, Structural)]
pub struct NullRenderer {
    /// The text size this backend reports where a widget sets none.
    pub default_text_size: u16,
}

/// The control size this backend gives a toggle when the application sets
/// none.
pub const NULL_DEFAULT_SIZE: u16 = 16;

impl Renderer for NullRenderer {
    /// Font handles are bare identifiers; 0 is the default face.
    type Font = u64;

    /// Style handles are bare identifiers; 0 is the default theme entry.
    type Style = u64;

    /// The default styling in force is just a color.
    type Defaults = Color;

    type Output = Primitive;

    open spec fn default_size_spec() -> u16 {
        NULL_DEFAULT_SIZE
    }

    open spec fn default_font_spec() -> u64 {
        0
    }

    open spec fn default_style_spec() -> u64 {
        0
    }

    open spec fn default_text_size_spec(&self) -> u16 {
        self.default_text_size
    }

    open spec fn measure_spec(
        &self,
        content: Seq<char>,
        size: u16,
        font: u64,
        limits: Limits,
    ) -> (u64, u64) {
        let width = if content.len() <= limits.max_width {
            content.len() as u64
        } else {
            limits.max_width as u64
        };
        let height = if size <= limits.max_height {
            size as u64
        } else {
            limits.max_height as u64
        };
        (width, height)
    }

    open spec fn text_output_spec(
        &self,
        defaults: Color,
        bounds: Rectangle,
        content: Seq<char>,
        size: u16,
        font: u64,
        color: Option<Color>,
        horizontal_alignment: HorizontalAlignment,
        vertical_alignment: VerticalAlignment,
    ) -> Primitive {
        Primitive::Text {
            bounds,
            length: content.len() as usize,
            size,
            font,
            color: (match color {
                Some(explicit) => explicit,
                None => defaults,
            }),
            horizontal_alignment,
            vertical_alignment,
        }
    }

    open spec fn toggler_output_spec(
        &self,
        bounds: Rectangle,
        is_active: bool,
        is_mouse_over: bool,
        label: Primitive,
        style: u64,
    ) -> Primitive {
        Primitive::Toggler { bounds, is_active, is_mouse_over, label: Box::new(label), style }
    }

    fn default_size() -> u16 {
        NULL_DEFAULT_SIZE
    }

    fn default_font() -> u64 {
        0
    }

    fn default_style() -> u64 {
        0
    }

    fn default_text_size(&self) -> u16 {
        self.default_text_size
    }

    fn measure(&self, content: &str, size: u16, font: &u64, limits: &Limits) -> (u64, u64) {
        let length: usize = content.unicode_len();
        let width: u64 = if length as u64 <= limits.max_width as u64 {
            length as u64
        } else {
            limits.max_width as u64
        };
        let height: u64 = if size as u64 <= limits.max_height as u64 {
            size as u64
        } else {
            limits.max_height as u64
        };
        (width, height)
    }

    fn draw_text(
        &self,
        defaults: &Color,
        bounds: Rectangle,
        content: &str,
        size: u16,
        font: &u64,
        color: Option<Color>,
        horizontal_alignment: HorizontalAlignment,
        vertical_alignment: VerticalAlignment,
    ) -> Primitive {
        Primitive::Text {
            bounds,
            length: content.unicode_len(),
            size,
            font: *font,
            color: (match color {
                Some(explicit) => explicit,
                None => *defaults,
            }),
            horizontal_alignment,
            vertical_alignment,
        }
    }

    fn draw_toggler(
        &self,
        bounds: Rectangle,
        is_active: bool,
        is_mouse_over: bool,
        label: Primitive,
        style: &u64,
    ) -> Primitive {
        Primitive::Toggler { bounds, is_active, is_mouse_over, label: Box::new(label), style: *style }
    }
}

} // verus!
