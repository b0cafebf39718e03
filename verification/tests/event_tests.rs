use std::cell::Cell;

use toggler::event::{Button, Event, KeyboardEvent, MouseEvent, Status};
use toggler::geometry::Point;
use toggler::hasher::{HashInput, Hasher};
use toggler::layout::{Length, Limits};
use toggler::null_renderer::NullRenderer;
use toggler::widget::Toggler;

#[derive(Debug, PartialEq, Eq, Clone, Copy)]
enum Msg {
    Toggled(bool),
}

fn renderer() -> NullRenderer {
    NullRenderer { default_text_size: 14 }
}

fn limits() -> Limits {
    Limits { max_width: 200, max_height: 100 }
}

fn left_press() -> Event {
    Event::Mouse(MouseEvent::ButtonPressed(Button::Left))
}

#[test]
fn press_inside_inactive_toggles_on() {
    // Scenario: new(false, "Dark mode", cb); press inside the overall bounds
    // -> cb(true) called once, Captured returned.
    let calls = Cell::new(0u32);
    let widget = Toggler::<Msg, NullRenderer, _>::new(false, "Dark mode".to_string(), |b| {
        calls.set(calls.get() + 1);
        Msg::Toggled(b)
    });
    let node = widget.layout(&renderer(), &limits());
    let mut messages: Vec<Msg> = Vec::new();
    let status = widget.on_event(left_press(), &node, Point { x: 5, y: 5 }, &mut messages);
    assert_eq!(status, Status::Captured);
    assert_eq!(calls.get(), 1);
    assert_eq!(messages, vec![Msg::Toggled(true)]);
}

#[test]
fn press_inside_active_toggles_off() {
    let calls = Cell::new(0u32);
    let widget = Toggler::<Msg, NullRenderer, _>::new(true, "Dark mode".to_string(), |b| {
        calls.set(calls.get() + 1);
        Msg::Toggled(b)
    });
    let node = widget.layout(&renderer(), &limits());
    let mut messages: Vec<Msg> = Vec::new();
    let status = widget.on_event(left_press(), &node, Point { x: 150, y: 0 }, &mut messages);
    assert_eq!(status, Status::Captured);
    assert_eq!(calls.get(), 1);
    assert_eq!(messages, vec![Msg::Toggled(false)]);
}

#[test]
fn press_outside_is_ignored() {
    // Scenario: press at a point outside bounds -> cb not called, Ignored.
    for is_active in [false, true] {
        let calls = Cell::new(0u32);
        let widget = Toggler::<Msg, NullRenderer, _>::new(is_active, "Dark mode".to_string(), |b| {
            calls.set(calls.get() + 1);
            Msg::Toggled(b)
        });
        let node = widget.layout(&renderer(), &limits());
        let mut messages: Vec<Msg> = Vec::new();
        // Just right of the 200-unit row, and just below its 16-unit height.
        for point in [Point { x: 200, y: 5 }, Point { x: 5, y: 16 }, Point { x: 999, y: 999 }] {
            let status = widget.on_event(left_press(), &node, point, &mut messages);
            assert_eq!(status, Status::Ignored);
        }
        assert_eq!(calls.get(), 0);
        assert!(messages.is_empty());
    }
}

#[test]
fn non_left_press_events_are_ignored() {
    // Any non-left-press / non-press event reports Ignored and enqueues
    // nothing, wherever the cursor is.
    let calls = Cell::new(0u32);
    let widget = Toggler::<Msg, NullRenderer, _>::new(false, "Dark mode".to_string(), |b| {
        calls.set(calls.get() + 1);
        Msg::Toggled(b)
    });
    let node = widget.layout(&renderer(), &limits());
    let inside = Point { x: 5, y: 5 };
    let events = [
        Event::Mouse(MouseEvent::ButtonPressed(Button::Right)),
        Event::Mouse(MouseEvent::ButtonPressed(Button::Middle)),
        Event::Mouse(MouseEvent::ButtonReleased(Button::Left)),
        Event::Mouse(MouseEvent::CursorMoved(inside)),
        Event::Keyboard(KeyboardEvent::KeyPressed),
        Event::Keyboard(KeyboardEvent::KeyReleased),
    ];
    let mut messages: Vec<Msg> = Vec::new();
    for event in events {
        let status = widget.on_event(event, &node, inside, &mut messages);
        assert_eq!(status, Status::Ignored);
    }
    assert_eq!(calls.get(), 0);
    assert!(messages.is_empty());
}

#[test]
fn repeated_presses_enqueue_repeated_messages() {
    // The rule is stateless: identical events produce identical messages,
    // with no debouncing.
    let widget = Toggler::<Msg, NullRenderer, _>::new(false, "Dark mode".to_string(), Msg::Toggled);
    let node = widget.layout(&renderer(), &limits());
    let mut messages: Vec<Msg> = Vec::new();
    for _ in 0..3 {
        let status = widget.on_event(left_press(), &node, Point { x: 1, y: 1 }, &mut messages);
        assert_eq!(status, Status::Captured);
    }
    assert_eq!(messages, vec![Msg::Toggled(true); 3]);
}

#[test]
fn boundary_points_of_the_row() {
    // Left and top edges are inside; right and bottom edges are not.
    let widget = Toggler::<Msg, NullRenderer, _>::new(false, "abc".to_string(), Msg::Toggled);
    // Row: Fill -> 200 wide; height max(label 14, toggle 16) = 16.
    let node = widget.layout(&renderer(), &limits());
    assert_eq!(node.bounds.width, 200);
    assert_eq!(node.bounds.height, 16);
    let mut messages: Vec<Msg> = Vec::new();
    let on_edge = widget.on_event(left_press(), &node, Point { x: 0, y: 0 }, &mut messages);
    assert_eq!(on_edge, Status::Captured);
    let at_corner = widget.on_event(left_press(), &node, Point { x: 199, y: 15 }, &mut messages);
    assert_eq!(at_corner, Status::Captured);
    let off_right = widget.on_event(left_press(), &node, Point { x: 200, y: 15 }, &mut messages);
    assert_eq!(off_right, Status::Ignored);
    let off_bottom = widget.on_event(left_press(), &node, Point { x: 199, y: 16 }, &mut messages);
    assert_eq!(off_bottom, Status::Ignored);
    assert_eq!(messages.len(), 2);
}

#[test]
fn hash_ignores_everything_but_the_label() {
    // Two widgets with identical labels but differing is_active, size, or
    // style hash identically: the key covers only the widget kind and label.
    let plain = Toggler::<Msg, NullRenderer, _>::new(false, "Dark mode".to_string(), Msg::Toggled);
    let dressed = Toggler::<Msg, NullRenderer, _>::new(true, "Dark mode".to_string(), Msg::Toggled)
        .size(99)
        .width(Length::Units(7))
        .text_size(31)
        .spacing(12)
        .font(5)
        .style(8);
    let mut first = Hasher::new();
    plain.hash_layout(&mut first);
    let mut second = Hasher::new();
    dressed.hash_layout(&mut second);
    assert_eq!(first.inputs, second.inputs);

    let other_label = Toggler::<Msg, NullRenderer, _>::new(false, "Light mode".to_string(), Msg::Toggled);
    let mut third = Hasher::new();
    other_label.hash_layout(&mut third);
    assert_ne!(first.inputs, third.inputs);
}

#[test]
fn hash_layout_appends_kind_then_label() {
    let widget = Toggler::<Msg, NullRenderer, _>::new(false, "ab".to_string(), Msg::Toggled);
    let mut hasher = Hasher::new();
    hasher.write_u64(7);
    widget.hash_layout(&mut hasher);
    assert_eq!(hasher.inputs.len(), 3);
    assert_eq!(hasher.inputs[0], HashInput::Word(7));
    assert_eq!(hasher.inputs[1], HashInput::Word(toggler::widget::TOGGLER_KIND));
    assert_eq!(hasher.inputs[2], HashInput::Text("ab".to_string()));
}

#[test]
fn hasher_keeps_written_values_in_order() {
    let mut hasher = Hasher::new();
    assert!(hasher.inputs.is_empty());
    hasher.write_str("x");
    hasher.write_u64(3);
    hasher.write_str("y");
    assert_eq!(
        hasher.inputs,
        vec![
            HashInput::Text("x".to_string()),
            HashInput::Word(3),
            HashInput::Text("y".to_string()),
        ]
    );
}
