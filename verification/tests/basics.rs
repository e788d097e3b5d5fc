//! Geometry, events, triggers and the paint journal.

use cursive::event::Event;
use cursive::event::EventResult;
use cursive::event::EventTrigger;
use cursive::event::Key;
use cursive::event::MouseButton;
use cursive::event::MouseEvent;
use cursive::geom::Margins;
use cursive::geom::Vec2;
use cursive::printer::Printer;
use cursive::backend::Backend;
use cursive::printer::Surface;

#[test]
fn vector_arithmetic_saturates() {
    let a = Vec2::new(3, 7);
    assert_eq!(a.saturating_add(Vec2::new(2, 1)), Vec2::new(5, 8));
    assert_eq!(a.saturating_sub(Vec2::new(5, 3)), Vec2::new(0, 4));
    assert_eq!(
        Vec2::new(usize::MAX, 0).saturating_add(Vec2::new(1, 0)),
        Vec2::new(usize::MAX, 0)
    );
}

#[test]
fn fits_in_rect_checks_both_axes() {
    let p = Vec2::new(4, 2);
    assert!(p.fits_in_rect(Vec2::new(4, 2), Vec2::new(1, 1)));
    assert!(p.fits_in_rect(Vec2::new(0, 0), Vec2::new(5, 3)));
    assert!(!p.fits_in_rect(Vec2::new(0, 0), Vec2::new(4, 3)));
    assert!(!p.fits_in_rect(Vec2::new(5, 0), Vec2::new(5, 5)));
}

#[test]
fn margins_combine_sides() {
    let m = Margins::lrtb(1, 2, 3, 4);
    assert_eq!(m.combined(), Vec2::new(3, 7));
    assert_eq!(m.top_left(), Vec2::new(1, 3));
    assert_eq!(m.bot_right(), Vec2::new(2, 4));
}

#[test]
fn relativized_moves_only_mouse_offsets() {
    let mouse = Event::Mouse {
        offset: Vec2::new(1, 1),
        position: Vec2::new(5, 5),
        event: MouseEvent::Press(MouseButton::Left),
    };
    match mouse.relativized(Vec2::new(2, 0)) {
        Event::Mouse { offset, position, .. } => {
            assert_eq!(offset, Vec2::new(3, 1));
            assert_eq!(position, Vec2::new(5, 5));
        }
        _ => panic!("still a mouse event"),
    }
    let key = Event::Key(Key::Esc);
    assert_eq!(key.relativized(Vec2::new(9, 9)), key);
}

#[test]
fn grabs_focus_only_on_press() {
    assert!(MouseEvent::Press(MouseButton::Right).grabs_focus());
    assert!(!MouseEvent::Release(MouseButton::Left).grabs_focus());
    assert!(!MouseEvent::WheelUp.grabs_focus());
}

#[test]
fn triggers_match_their_events() {
    let exact = EventTrigger::Exact(Event::Char('q'));
    assert!(exact.matches(&Event::Char('q')));
    assert!(!exact.matches(&Event::Char('r')));
    assert!(EventTrigger::AnyKey.matches(&Event::Key(Key::Tab)));
    assert!(EventTrigger::AnyKey.matches(&Event::Char('x')));
    assert!(!EventTrigger::AnyKey.matches(&Event::Refresh));
    assert!(EventTrigger::AnyMouse.matches(&Event::Mouse {
        offset: Vec2::new(0, 0),
        position: Vec2::new(0, 0),
        event: MouseEvent::WheelDown,
    }));
    assert!(EventTrigger::Always.matches(&Event::Exit));
}

#[test]
fn event_results_report_consumption() {
    assert!(EventResult::Consumed(None).is_consumed());
    assert!(!EventResult::Ignored.is_consumed());
}

#[test]
fn the_paint_journal_records_positions_and_styles() {
    let mut surface = Surface::new();
    let printer = Printer::new(Vec2::new(10, 3));
    printer.print(&mut surface, Vec2::new(2, 1), "hi");
    let inset = printer.offset(Vec2::new(1, 1)).focused(false).enabled(false);
    inset.print(&mut surface, Vec2::new(0, 0), "lo");
    assert_eq!(surface.records.len(), 2);
    assert_eq!(surface.records[0].pos, Vec2::new(2, 1));
    assert!(surface.records[0].focused);
    assert!(surface.records[0].enabled);
    assert_eq!(surface.records[1].pos, Vec2::new(1, 1));
    assert!(!surface.records[1].focused);
    assert!(!surface.records[1].enabled);
    surface.clear();
    assert!(surface.records.is_empty());
}

#[test]
fn the_backend_replays_its_script() {
    let mut b = Backend::scripted(vec![Event::Refresh, Event::Exit], Vec2::new(9, 9));
    assert_eq!(b.screen_size(), Vec2::new(9, 9));
    assert_eq!(b.poll_event(), Some(Event::Refresh));
    assert_eq!(b.poll_event(), Some(Event::Exit));
    assert_eq!(b.poll_event(), None);
    let mut d = Backend::Dummy;
    assert_eq!(d.poll_event(), None);
    assert_eq!(d.screen_size(), Vec2::new(80, 24));
    assert_eq!(d.name(), "dummy");
}
