//! Layer stack behavior: counts over add/pop sequences, full-screen
//! layers, repositioning, and lookup of named layers.

use cursive::event::Callback;
use cursive::event::Event;
use cursive::event::EventResult;
use cursive::event::Key;
use cursive::traits::Identifiable;
use cursive::geom::Vec2;
use cursive::views::Button;
use cursive::views::Dummy;
use cursive::views::LayerPosition;
use cursive::views::StackView;
use cursive::views::Text;

#[test]
fn layer_count_equals_adds_minus_pops() {
    let mut stack = StackView::new();
    assert!(stack.is_empty());
    stack.add_layer(Text::new("a"));
    stack.add_layer(Text::new("b"));
    stack.add_fullscreen_layer(Text::new("c"));
    assert_eq!(stack.len(), 3);
    assert!(stack.pop_layer().is_some());
    assert_eq!(stack.len(), 2);
    stack.add_layer(Dummy);
    assert!(stack.pop_layer().is_some());
    assert!(stack.pop_layer().is_some());
    // 4 adds, 3 pops: one layer left.
    assert_eq!(stack.len(), 1);
}

#[test]
fn pop_on_empty_stack_yields_none() {
    let mut stack = StackView::new();
    assert!(stack.pop_layer().is_none());
    assert_eq!(stack.len(), 0);
    stack.add_layer(Dummy);
    assert!(stack.pop_layer().is_some());
    assert!(stack.pop_layer().is_none());
}

#[test]
fn pop_returns_the_topmost_layer() {
    let mut stack = StackView::new();
    stack.add_layer(Text::new("bottom"));
    stack.add_layer(Text::new("top"));
    let top = stack.pop_layer().expect("layer");
    match *top {
        cursive::views::AnyView::Text(t) => assert_eq!(t.get_content(), "top"),
        _ => panic!("expected the text layer"),
    }
}

#[test]
fn fullscreen_flag_is_kept() {
    let mut stack = StackView::new();
    stack.add_layer(Dummy);
    stack.add_fullscreen_layer(Dummy);
    assert!(!stack.layers[0].fullscreen);
    assert!(stack.layers[1].fullscreen);
}

#[test]
fn reposition_layer_moves_to_front_and_back() {
    let mut stack = StackView::new();
    stack.add_layer(Text::new("a"));
    stack.add_layer(Text::new("b"));
    stack.add_layer(Text::new("c"));
    // Move the bottom layer to the front.
    stack.reposition_layer(LayerPosition::FromBack(0), LayerPosition::FromFront(0));
    let content = |stack: &StackView, i: usize| match &stack.layers[i].view {
        cursive::views::AnyView::Text(t) => t.get_content().to_string(),
        _ => panic!("expected text"),
    };
    assert_eq!(content(&stack, 0), "b");
    assert_eq!(content(&stack, 1), "c");
    assert_eq!(content(&stack, 2), "a");
    // And back again.
    stack.reposition_layer(LayerPosition::FromFront(0), LayerPosition::FromBack(0));
    assert_eq!(content(&stack, 0), "a");
    assert_eq!(content(&stack, 1), "b");
    assert_eq!(content(&stack, 2), "c");
}

#[test]
fn find_layer_from_name_reports_the_first_match() {
    let mut stack = StackView::new();
    stack.add_layer(Text::new("plain"));
    stack.add_layer(Text::new("hello").with_id("greeting"));
    let name = String::from("greeting");
    assert_eq!(
        stack.find_layer_from_name(&name),
        Some(LayerPosition::FromBack(1))
    );
    let missing = String::from("nothing");
    assert_eq!(stack.find_layer_from_name(&missing), None);
}

#[test]
fn layer_sizes_follow_layout() {
    let mut stack = StackView::new();
    stack.add_layer(Text::new("hello"));
    stack.add_fullscreen_layer(Dummy);
    stack.layout(Vec2::new(20, 10));
    let sizes = stack.layer_sizes();
    // The text layer wants its content size; the full-screen layer takes
    // the whole viewport.
    assert_eq!(sizes[0], Vec2::new(5, 1));
    assert_eq!(sizes[1], Vec2::new(20, 10));
    // The floating layer is centered.
    assert_eq!(stack.layers[0].offset, Vec2::new(7, 4));
    assert_eq!(stack.layers[1].offset, Vec2::new(0, 0));
}

#[test]
fn top_layer_receives_events() {
    let mut stack = StackView::new();
    stack.add_layer(Text::new("background"));
    stack.add_layer(Button::new("ok", Callback::Mark(7)));
    let result = stack.on_event(Event::Key(Key::Enter));
    assert_eq!(result, EventResult::Consumed(Some(Callback::Mark(7))));
    // An empty stack ignores events.
    let mut empty = StackView::new();
    assert_eq!(empty.on_event(Event::Key(Key::Enter)), EventResult::Ignored);
}
