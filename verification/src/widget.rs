//! The toggle widget: a labeled on/off control composed of a text label and a
//! fixed-proportion toggle box laid out side by side.
//!
//! The widget is stateless across frames: the application supplies the
//! current `is_active` value at construction, and state changes flow one way
//! outward — a qualifying press maps the prospective new state through the
//! widget's callback into a message, never back into the widget.

use vstd::prelude::*;
use crate::event::Button;
use crate::event::Event;
use crate::event::MouseEvent;
use crate::event::Status;
use crate::geometry::Point;
use crate::geometry::Rectangle;
use crate::hasher::HashKey;
use crate::hasher::Hasher;
use crate::layout::Length;
use crate::layout::Limits;
use crate::layout::Node;
use crate::renderer::HorizontalAlignment;
use crate::renderer::Renderer;
use crate::renderer::VerticalAlignment;

verus! {

/// Discriminates a toggle's layout-cache contribution from that of unrelated
/// widget kinds which might feed coincidentally similar content.
pub const TOGGLER_KIND: u64 = 0x7467_6c72;

/// A labeled on/off toggle.
///
/// `R` is the rendering backend the widget is drawn against; `F` maps the
/// prospective new state to an application message and is invoked at most
/// once per qualifying event.
#[verifier::reject_recursive_types(Message)]
pub struct Toggler<Message, R: Renderer, F: Fn(bool) -> Message> {
    /// Current logical state, supplied by the owning application. The widget
    /// never changes it: activation is reported outward as a message.
    pub is_active: bool,
    /// Maps the prospective new state to an application message.
    pub on_toggle: F,
    /// Display text.
    pub label: String,
    /// Sizing intent along the main axis.
    pub width: Length,
    /// Height of the toggle box; its track is always twice as wide.
    pub size: u16,
    /// Overrides the backend's default text size when present.
    pub text_size: Option<u16>,
    /// Label alignment; the backend draws left-aligned when absent.
    pub text_align: Option<HorizontalAlignment>,
    /// Gap between the label box and the toggle box.
    pub spacing: u16,
    /// Font handle for the label, opaque to the widget.
    pub font: R::Font,
    /// Style handle for the toggle, opaque to the widget.
    pub style: R::Style,
    /// Ties the widget to the message type its callback produces.
    pub message: std::marker::PhantomData<Message>,
}

impl<Message, R: Renderer, F: Fn(bool) -> Message> Toggler<Message, R, F> {
    /// Creates a toggle showing `label`, reflecting the application state
    /// `is_active`, and reporting activation through `on_toggle`. Every
    /// other field starts at its default: the widget fills its row, the
    /// toggle box takes the backend's default size, text size and alignment
    /// are left to the backend, there is no gap, and font and style are the
    /// backend's defaults.
    pub fn new(is_active: bool, label: String, on_toggle: F) -> (r: Self)
        ensures
            r.is_active == is_active,
            r.on_toggle == on_toggle,
            r.label == label,
            r.width == Length::Fill,
            r.size == R::default_size_spec(),
            r.text_size is None,
            r.text_align is None,
            r.spacing == 0,
            r.font == R::default_font_spec(),
            r.style == R::default_style_spec(),
    {
        Toggler {
            is_active,
            on_toggle,
            label,
            width: Length::Fill,
            size: R::default_size(),
            text_size: None,
            text_align: None,
            spacing: 0,
            font: R::default_font(),
            style: R::default_style(),
            message: std::marker::PhantomData,
        }
    }

    /// Sets the size of the toggle box.
    pub fn size(self, size: u16) -> (r: Self)
        ensures
            r == (Toggler { size, ..self }),
    {
        Toggler { size, ..self }
    }

    /// Sets the sizing intent of the widget.
    pub fn width(self, width: Length) -> (r: Self)
        ensures
            r == (Toggler { width, ..self }),
    {
        Toggler { width, ..self }
    }

    /// Sets the text size of the label.
    pub fn text_size(self, text_size: u16) -> (r: Self)
        ensures
            r == (Toggler { text_size: Some(text_size), ..self }),
    {
        Toggler { text_size: Some(text_size), ..self }
    }

    /// Sets the alignment of the label.
    pub fn text_align(self, align: HorizontalAlignment) -> (r: Self)
        ensures
            r == (Toggler { text_align: Some(align), ..self }),
    {
        Toggler { text_align: Some(align), ..self }
    }

    /// Sets the gap between the label and the toggle box.
    pub fn spacing(self, spacing: u16) -> (r: Self)
        ensures
            r == (Toggler { spacing, ..self }),
    {
        Toggler { spacing, ..self }
    }

    /// Sets the font of the label.
    pub fn font(self, font: R::Font) -> (r: Self)
        ensures
            r == (Toggler { font, ..self }),
    {
        Toggler { font, ..self }
    }

    /// Sets the style of the toggle.
    pub fn style(self, style: R::Style) -> (r: Self)
        ensures
            r == (Toggler { style, ..self }),
    {
        Toggler { style, ..self }
    }

    /// The widget's sizing intent along the main axis, as the framework
    /// queries it.
    pub fn width_policy(&self) -> (r: Length)
        ensures
            r == self.width,
    {
        self.width
    }

    /// The widget's sizing intent across the main axis: a toggle is always
    /// intrinsically sized vertically and never expands to fill.
    pub fn height_policy(&self) -> (r: Length)
        ensures
            r == Length::Shrink,
    {
        Length::Shrink
    }

    /// The text size the label is shown at: the explicit override if one was
    /// set, else the backend's default.
    pub open spec fn spec_text_size(&self, renderer: R) -> u16 {
        match self.text_size {
            Some(text_size) => text_size,
            None => renderer.default_text_size_spec(),
        }
    }

    /// The alignment the label is shown with: the explicit override if one
    /// was set, else left.
    pub open spec fn spec_text_align(&self) -> HorizontalAlignment {
        match self.text_align {
            Some(align) => align,
            None => HorizontalAlignment::Left,
        }
    }

    /// The extent the backend gives the label at the effective text size.
    pub open spec fn spec_label_extent(&self, renderer: R, limits: Limits) -> (u64, u64) {
        renderer.measure_spec(self.label@, self.spec_text_size(renderer), self.font, limits)
    }

    /// The height of the laid-out row: intrinsic, the taller of the label
    /// and the toggle box.
    pub open spec fn spec_row_height(&self, renderer: R, limits: Limits) -> u64 {
        let label_height = self.spec_label_extent(renderer, limits).1;
        if label_height >= self.size as u64 {
            label_height
        } else {
            self.size as u64
        }
    }

    /// The width of the label's box, honoring the widget's sizing intent:
    /// under `Shrink` it fits the measured text; under `Fill` or a fixed
    /// width it takes whatever room the row leaves once the gap and the
    /// toggle box are paid for, which parks the toggle box at the row's far
    /// edge.
    pub open spec fn spec_label_width(&self, renderer: R, limits: Limits) -> u64 {
        let reserved = self.spacing + 2 * self.size;
        match self.width {
            Length::Fill => if limits.max_width >= reserved {
                (limits.max_width - reserved) as u64
            } else {
                0
            },
            Length::Shrink => self.spec_label_extent(renderer, limits).0,
            Length::Units(units) => if units >= reserved {
                (units - reserved) as u64
            } else {
                0
            },
        }
    }

    /// The label's box: at the start of the row, as wide as the sizing
    /// intent leaves it, as tall as its measured text, centered on the cross
    /// axis. How the text sits within a wider box is the alignment's
    /// business, applied when drawing.
    pub open spec fn spec_label_box(&self, renderer: R, limits: Limits) -> Rectangle {
        let extent = self.spec_label_extent(renderer, limits);
        let row_height = self.spec_row_height(renderer, limits);
        Rectangle {
            x: 0,
            y: ((row_height - extent.1) / 2) as u64,
            width: self.spec_label_width(renderer, limits),
            height: extent.1,
        }
    }

    /// The toggle's box: after the label and the gap, exactly twice as wide
    /// as tall, centered on the cross axis.
    pub open spec fn spec_toggle_box(&self, renderer: R, limits: Limits) -> Rectangle {
        let row_height = self.spec_row_height(renderer, limits);
        Rectangle {
            x: (self.spec_label_width(renderer, limits) + self.spacing) as u64,
            y: ((row_height - self.size as u64) / 2) as u64,
            width: (2 * self.size) as u64,
            height: self.size as u64,
        }
    }

    /// The overall row: anchored at the origin, as wide as the sizing intent
    /// asks, as tall as its tallest child.
    pub open spec fn spec_row_bounds(&self, renderer: R, limits: Limits) -> Rectangle {
        let row_width = match self.width {
            Length::Fill => limits.max_width as u64,
            Length::Shrink => (self.spec_label_extent(renderer, limits).0 + self.spacing + 2
                * self.size) as u64,
            Length::Units(units) => units as u64,
        };
        Rectangle { x: 0, y: 0, width: row_width, height: self.spec_row_height(renderer, limits) }
    }

    /// Lays the widget out within `limits`: a row of exactly two boxes,
    /// center-aligned on the cross axis — the label box, honoring the
    /// widget's sizing intent and the measured text, then, after the
    /// configured gap, a toggle box of fixed proportion, twice as wide as
    /// tall, whatever the label or the constraints. The row's width follows
    /// the widget's sizing intent; its height is intrinsic, never stretched
    /// by the constraints.
    pub fn layout(&self, renderer: &R, limits: &Limits) -> (r: Node)
        ensures
            r.bounds == self.spec_row_bounds(*renderer, *limits),
            r.children@.len() == 2,
            r.children@[0].bounds == self.spec_label_box(*renderer, *limits),
            r.children@[0].children@.len() == 0,
            r.children@[1].bounds == self.spec_toggle_box(*renderer, *limits),
            r.children@[1].children@.len() == 0,
            r.children@[1].bounds.width == 2 * self.size,
            r.children@[1].bounds.height == self.size,
    {
        let text_size: u16 = match self.text_size {
            Some(text_size) => text_size,
            None => renderer.default_text_size(),
        };
        let measured: (u64, u64) = renderer.measure(
            self.label.as_str(),
            text_size,
            &self.font,
            limits,
        );
        let label_height: u64 = measured.1;
        let toggle_width: u64 = 2 * (self.size as u64);
        let toggle_height: u64 = self.size as u64;
        let reserved: u64 = (self.spacing as u64) + toggle_width;
        let label_width: u64 = match self.width {
            Length::Fill => {
                let max_width = limits.max_width as u64;
                if max_width >= reserved {
                    max_width - reserved
                } else {
                    0
                }
            },
            Length::Shrink => measured.0,
            Length::Units(units) => {
                let units = units as u64;
                if units >= reserved {
                    units - reserved
                } else {
                    0
                }
            },
        };
        let row_height: u64 = if label_height >= toggle_height {
            label_height
        } else {
            toggle_height
        };
        let row_width: u64 = match self.width {
            Length::Fill => limits.max_width as u64,
            Length::Shrink => measured.0 + (self.spacing as u64) + toggle_width,
            Length::Units(units) => units as u64,
        };
        let label_box = Node::leaf(
            Rectangle {
                x: 0,
                y: (row_height - label_height) / 2,
                width: label_width,
                height: label_height,
            },
        );
        let toggle_box = Node::leaf(
            Rectangle {
                x: label_width + (self.spacing as u64),
                y: (row_height - toggle_height) / 2,
                width: toggle_width,
                height: toggle_height,
            },
        );
        let mut children: Vec<Node> = Vec::new();
        children.push(label_box);
        children.push(toggle_box);
        Node { bounds: Rectangle { x: 0, y: 0, width: row_width, height: row_height }, children }
    }

    /// Whether `event` at `cursor_position` activates the widget laid out as
    /// `layout`: a left-button press anywhere inside the overall bounds —
    /// the whole row is clickable, label included.
    pub open spec fn spec_activates(&self, event: Event, layout: Node, cursor_position: Point) -> bool {
        event.is_left_press() && layout.bounds.spec_contains(cursor_position)
    }

    /// Interprets one routed event. A left press inside the overall bounds
    /// maps the prospective new state `!is_active` through the callback,
    /// appends exactly that one message to the outgoing queue, and captures
    /// the event; any other event — a press outside, a release, a move, a
    /// key — is ignored and enqueues nothing. The rule is stateless:
    /// repeated identical events enqueue repeated messages.
    pub fn on_event(
        &self,
        event: Event,
        layout: &Node,
        cursor_position: Point,
        messages: &mut Vec<Message>,
    ) -> (r: Status)
        requires
            self.spec_activates(event, *layout, cursor_position) ==> call_requires(
                self.on_toggle,
                (!self.is_active,),
            ),
        ensures
            self.spec_activates(event, *layout, cursor_position) ==> {
                &&& r == Status::Captured
                &&& final(messages)@.len() == old(messages)@.len() + 1
                &&& final(messages)@ == old(messages)@.push(final(messages)@.last())
                &&& call_ensures(self.on_toggle, (!self.is_active,), final(messages)@.last())
            },
            !self.spec_activates(event, *layout, cursor_position) ==> {
                &&& r == Status::Ignored
                &&& final(messages)@ == old(messages)@
            },
    {
        match event {
            Event::Mouse(MouseEvent::ButtonPressed(Button::Left)) => {
                let mouse_over = layout.bounds.contains(cursor_position);
                if mouse_over {
                    messages.push((self.on_toggle)(!self.is_active));
                    Status::Captured
                } else {
                    Status::Ignored
                }
            },
            _ => Status::Ignored,
        }
    }

    /// What drawing the widget hands back: the label rendered into the first
    /// child box — explicit text size and alignment where set, otherwise the
    /// backend's defaults, no explicit color, vertically centered — composed
    /// under the toggle drawn into the second child box with the current
    /// state, whether the cursor is over the overall bounds, and the
    /// widget's style.
    pub open spec fn spec_draw(
        &self,
        renderer: R,
        defaults: R::Defaults,
        layout: Node,
        cursor_position: Point,
    ) -> R::Output {
        let label = renderer.text_output_spec(
            defaults,
            layout.children@[0].bounds,
            self.label@,
            self.spec_text_size(renderer),
            self.font,
            None,
            self.spec_text_align(),
            VerticalAlignment::Center,
        );
        renderer.toggler_output_spec(
            layout.children@[1].bounds,
            self.is_active,
            layout.bounds.spec_contains(cursor_position),
            label,
            self.style,
        )
    }

    /// Draws the widget into its laid-out boxes. The widget paints no pixels
    /// itself: it renders the label through the backend's text capability and
    /// delegates the track and knob to the backend's toggle capability. The
    /// layout must be the two-child row this widget produced; anything else
    /// is a framework invariant violation.
    pub fn draw(
        &self,
        renderer: &R,
        defaults: &R::Defaults,
        layout: &Node,
        cursor_position: Point,
    ) -> (r: R::Output)
        requires
            layout.children@.len() == 2,
        ensures
            r == self.spec_draw(*renderer, *defaults, *layout, cursor_position),
    {
        let bounds = layout.bounds;
        let label_layout = &layout.children[0];
        let toggler_layout = &layout.children[1];
        let text_size: u16 = match self.text_size {
            Some(text_size) => text_size,
            None => renderer.default_text_size(),
        };
        let text_align = match self.text_align {
            Some(align) => align,
            None => HorizontalAlignment::Left,
        };
        let label = renderer.draw_text(
            defaults,
            label_layout.bounds,
            self.label.as_str(),
            text_size,
            &self.font,
            None,
            text_align,
            VerticalAlignment::Center,
        );
        let is_mouse_over = bounds.contains(cursor_position);
        renderer.draw_toggler(toggler_layout.bounds, self.is_active, is_mouse_over, label, &self.style)
    }

    /// The widget's contribution to the framework's layout cache key: the
    /// widget kind and the label text, nothing else. Activation state,
    /// sizes, spacing, alignment, font, and style are deliberately left out;
    /// see [`lemma_layout_hash_ignores_state`].
    pub open spec fn layout_hash_key(&self) -> Seq<HashKey> {
        seq![HashKey::Word(TOGGLER_KIND), HashKey::Text(self.label@)]
    }

    /// Feeds the widget's layout cache key into the framework's hasher.
    pub fn hash_layout(&self, state: &mut Hasher)
        ensures
            final(state)@ == old(state)@ + self.layout_hash_key(),
    {
        state.write_u64(TOGGLER_KIND);
        state.write_str(self.label.as_str());
        proof {
            assert(final(state)@ =~= old(state)@ + self.layout_hash_key());
        }
    }
}

/// Law: the layout cache key covers only the widget kind and the label text.
/// Two toggles with the same label contribute identical keys, however they
/// differ in activation state, size, width, text size, alignment, spacing,
/// font, or style — so a cache keyed on this hash alone does not notice
/// layout-relevant changes to those fields.
pub proof fn lemma_layout_hash_ignores_state<Message, R: Renderer, F: Fn(bool) -> Message>(
    a: &Toggler<Message, R, F>,
    b: &Toggler<Message, R, F>,
)
    requires
        a.label@ == b.label@,
    ensures
        a.layout_hash_key() == b.layout_hash_key(),
{
}

} // verus!
