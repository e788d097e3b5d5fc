//! Wrapper delegation: padding arithmetic, the enable/disable gate, the
//! position-tracking wrapper, size constraints and the drawing model.

use cursive::direction::Direction;
use cursive::event::Callback;
use cursive::event::Event;
use cursive::event::EventResult;
use cursive::event::Key;
use cursive::geom::Margins;
use cursive::geom::Vec2;
use cursive::printer::Printer;
use cursive::printer::Surface;
use cursive::view::View;
use cursive::views::AnyView;
use cursive::views::Boxed;
use cursive::views::Button;
use cursive::views::Dummy;
use cursive::views::Enableable;
use cursive::views::PaddedView;
use cursive::views::Resized;
use cursive::views::Scroll;
use cursive::views::SizeConstraint;
use cursive::views::Text;
use cursive::views::TrackedView;

#[test]
fn disabled_wrapper_ignores_every_event_and_keeps_inner_state() {
    let mut wrapper = Enableable::new(Text::new("inner"));
    wrapper.disable();
    assert!(!wrapper.is_enabled());
    let before = wrapper.view.clone();
    for event in [
        Event::Key(Key::Enter),
        Event::Char('x'),
        Event::Refresh,
        Event::WindowResize,
        Event::Exit,
    ] {
        assert_eq!(wrapper.wrap_on_event(event), EventResult::Ignored);
        assert_eq!(wrapper.view, before);
    }
    wrapper.enable();
    assert!(wrapper.is_enabled());
}

#[test]
fn disabled_wrapper_around_a_button_never_fires() {
    let mut wrapper = Enableable::new(Button::new("go", Callback::Quit)).disabled();
    assert_eq!(
        wrapper.wrap_on_event(Event::Key(Key::Enter)),
        EventResult::Ignored
    );
    // Enabled again, the button fires.
    wrapper.enable();
    assert_eq!(
        wrapper.wrap_on_event(Event::Key(Key::Enter)),
        EventResult::Consumed(Some(Callback::Quit))
    );
}

#[test]
fn disabled_wrapper_draws_in_the_inactive_style() {
    let mut wrapper = Enableable::new(Text::new("dim")).disabled();
    let printer = Printer::new(Vec2::new(10, 2));
    let mut surface = Surface::new();
    wrapper.wrap_draw(&printer, &mut surface);
    assert_eq!(surface.records.len(), 1);
    assert!(!surface.records[0].enabled);
}

#[test]
fn padded_view_adjusts_sizes_and_event_coordinates() {
    let mut padded = PaddedView::lrtb(2, 2, 1, 0, Text::new("pad"));
    // The text wants (3, 1); the margins add (4, 1).
    let size = padded.wrap_required_size(Vec2::new(20, 10));
    assert_eq!(size, Vec2::new(7, 2));
    padded.set_margins(Margins::lrtb(1, 0, 0, 0));
    let size = padded.wrap_required_size(Vec2::new(20, 10));
    assert_eq!(size, Vec2::new(4, 1));
}

#[test]
fn padded_draw_insets_the_region() {
    let mut padded = PaddedView::lrtb(2, 1, 1, 0, Text::new("in"));
    let printer = Printer::new(Vec2::new(10, 5));
    let mut surface = Surface::new();
    padded.wrap_draw(&printer, &mut surface);
    assert_eq!(surface.records.len(), 1);
    assert_eq!(surface.records[0].pos, Vec2::new(2, 1));
    assert_eq!(surface.records[0].text, "in");
}

#[test]
fn tracking_wrapper_records_the_draw_offset() {
    let mut tracker = TrackedView::new(Text::new("here"));
    assert_eq!(tracker.offset(), Vec2::new(0, 0));
    let printer = Printer::new(Vec2::new(30, 10)).offset(Vec2::new(4, 2));
    let mut surface = Surface::new();
    tracker.wrap_draw(&printer, &mut surface);
    assert_eq!(tracker.offset(), Vec2::new(4, 2));
    // The wrapped view drew unchanged, at the same offset.
    assert_eq!(surface.records[0].pos, Vec2::new(4, 2));
}

#[test]
fn track_view_with_id_wraps_under_a_name() {
    let named = TrackedView::new(Dummy).with_id("spot");
    assert_eq!(named.name, "spot");
}

#[test]
fn size_constraints_shape_the_answer() {
    assert_eq!(SizeConstraint::Free.result(50, 7), 7);
    assert_eq!(SizeConstraint::Full.result(50, 7), 50);
    assert_eq!(SizeConstraint::Fixed(12).result(50, 7), 12);
    assert_eq!(SizeConstraint::AtMost(5).result(50, 7), 5);
    assert_eq!(SizeConstraint::AtMost(9).result(50, 7), 7);
    assert_eq!(SizeConstraint::AtLeast(9).result(50, 7), 9);
    assert_eq!(SizeConstraint::AtLeast(5).result(50, 7), 7);
}

#[test]
fn resized_applies_both_axes() {
    let mut resized = Resized::with_fixed_width(10, Text::new("abc"));
    let size = resized.wrap_required_size(Vec2::new(40, 10));
    assert_eq!(size, Vec2::new(10, 1));
}

#[test]
fn boxed_wraps_and_unwraps() {
    let boxed = Boxed::boxed(Text::new("inside"));
    match *boxed.unwrap() {
        AnyView::Text(t) => assert_eq!(t.get_content(), "inside"),
        _ => panic!("expected the boxed text"),
    }
}

#[test]
fn scroll_marks_axes() {
    let scroll = Scroll::new(Dummy).scroll_x(true);
    assert!(scroll.scroll_x);
    assert!(scroll.scroll_y);
    let scroll = scroll.scroll_y(false);
    assert!(!scroll.scroll_y);
}

#[test]
fn button_draws_its_label_between_brackets() {
    let mut button = Button::new("ok", Callback::Noop);
    let printer = Printer::new(Vec2::new(10, 1));
    let mut surface = Surface::new();
    button.draw(&printer, &mut surface);
    assert_eq!(surface.records.len(), 3);
    assert_eq!(surface.records[0].text, "<");
    assert_eq!(surface.records[0].pos, Vec2::new(0, 0));
    assert_eq!(surface.records[1].text, "ok");
    assert_eq!(surface.records[1].pos, Vec2::new(1, 0));
    assert_eq!(surface.records[2].text, ">");
    assert_eq!(surface.records[2].pos, Vec2::new(3, 0));
}

#[test]
fn button_takes_focus_and_text_declines() {
    let mut button = Button::new("ok", Callback::Noop);
    assert!(button.take_focus(Direction::none()));
    let mut text = Text::new("no");
    assert!(!text.take_focus(Direction::none()));
}

#[test]
fn dummy_never_needs_relayout() {
    let dummy = Dummy;
    assert!(!dummy.needs_relayout());
    let text = Text::new("t");
    assert!(!text.needs_relayout());
}
