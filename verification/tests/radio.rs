//! Exclusive-selection families: one selected member at a time, change
//! notification, and the drawn marks.

use cursive::event::Callback;
use cursive::event::Event;
use cursive::event::EventResult;
use cursive::event::Key;
use cursive::geom::Vec2;
use cursive::printer::Printer;
use cursive::printer::Surface;
use cursive::views::RadioButtonConfig;
use cursive::views::RadioGroup;

#[test]
fn selecting_one_member_deselects_every_other() {
    let mut group: RadioGroup<u32> = RadioGroup::new();
    let a = group.button(10, "a");
    let mut b = group.button(20, "b");
    let c = group.button(30, "c");
    assert!(a.is_selected(&group));
    b.select(&mut group);
    assert_eq!(group.selected_id(), 1);
    assert!(!a.is_selected(&group));
    assert!(b.is_selected(&group));
    assert!(!c.is_selected(&group));
    assert_eq!(*group.selection(), 20);
}

#[test]
fn selection_change_carries_the_group_callback() {
    let mut group: RadioGroup<u32> = RadioGroup::new().on_change(Callback::Mark(5));
    let _a = group.button(1, "a");
    let mut b = group.button(2, "b");
    let result = b.select(&mut group);
    assert_eq!(result, EventResult::Consumed(Some(Callback::Mark(5))));
    // Without a callback the result is still consumed.
    let mut plain: RadioGroup<u32> = RadioGroup::new();
    let mut x = plain.button(1, "x");
    assert_eq!(x.select(&mut plain), EventResult::Consumed(None));
}

#[test]
fn button_str_uses_the_label_as_value() {
    let mut group: RadioGroup<String> = RadioGroup::new();
    let _one = group.button_str("one");
    let two = group.button_str("two");
    let mut two = two;
    two.select(&mut group);
    assert_eq!(*group.selection(), "two");
}

#[test]
fn chainable_selection_variants() {
    let mut group: RadioGroup<u32> = RadioGroup::new();
    let _a = group.button(1, "a");
    let b = group.button(2, "b").selected(&mut group);
    assert!(b.is_selected(&group));
    let c = group.button(3, "c").with_selected(false, &mut group);
    assert!(!c.is_selected(&group));
    assert!(b.is_selected(&group));
}

#[test]
fn enter_and_space_select_an_enabled_button() {
    let mut group: RadioGroup<u32> = RadioGroup::new();
    let _a = group.button(1, "a");
    let mut b = group.button(2, "b");
    assert_eq!(
        b.on_event(&mut group, Event::Key(Key::Enter)),
        EventResult::Consumed(None)
    );
    assert!(b.is_selected(&group));
    let mut c = group.button(3, "c");
    assert_eq!(
        c.on_event(&mut group, Event::Char(' ')),
        EventResult::Consumed(None)
    );
    assert!(c.is_selected(&group));
    // An unrelated key is ignored.
    assert_eq!(
        c.on_event(&mut group, Event::Char('z')),
        EventResult::Ignored
    );
}

#[test]
fn a_disabled_button_ignores_selection_events() {
    let mut group: RadioGroup<u32> = RadioGroup::new();
    let _a = group.button(1, "a");
    let mut b = group.button(2, "b").disabled();
    assert!(!b.is_enabled());
    assert_eq!(
        b.on_event(&mut group, Event::Key(Key::Enter)),
        EventResult::Ignored
    );
    assert!(!b.is_selected(&group));
    b.set_enabled(true);
    assert!(b.is_enabled());
}

#[test]
fn req_size_counts_marks_brackets_and_label() {
    let mut group: RadioGroup<u32> = RadioGroup::new();
    let a = group.button(1, "ab");
    // "(X)" plus " " plus "ab": 3 + 1 + 2 columns, one row.
    assert_eq!(a.req_size(&group), Vec2::new(6, 1));
    let unlabeled = group.button(2, "");
    assert_eq!(unlabeled.req_size(&group), Vec2::new(3, 1));
}

#[test]
fn draw_internal_paints_the_selected_mark() {
    let mut group: RadioGroup<u32> = RadioGroup::new();
    let a = group.button(1, "go");
    let printer = Printer::new(Vec2::new(20, 1));
    let mut surface = Surface::new();
    a.draw_internal(&group, &printer, &mut surface);
    let texts: Vec<&str> = surface.records.iter().map(|r| r.text.as_str()).collect();
    assert_eq!(texts, vec!["(", "X", ")", " ", "go"]);
    // An unselected button paints the uncheck mark.
    let b = group.button(2, "no");
    let mut surface = Surface::new();
    b.draw_internal(&group, &printer, &mut surface);
    let texts: Vec<&str> = surface.records.iter().map(|r| r.text.as_str()).collect();
    assert_eq!(texts, vec!["(", " ", ")", " ", "no"]);
}

#[test]
fn custom_marks_are_used() {
    let config = RadioButtonConfig {
        check: "=>",
        uncheck: "--",
        left_bracket: "[",
        right_bracket: "]",
        post_label_space: " ",
    };
    let mut group: RadioGroup<u32> = RadioGroup::with_config(config);
    let a = group.button(1, "z");
    // "[=>]" plus " " plus "z".
    assert_eq!(a.req_size(&group), Vec2::new(6, 1));
}
