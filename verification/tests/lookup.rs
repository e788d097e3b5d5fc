//! Name- and path-based lookup: type-checked hits, misses on wrong name
//! or kind, transparency of wrappers, and mutation through the result.

use cursive::cursive::Cursive;
use cursive::traits::Identifiable;
use cursive::view::Selector;
use cursive::view::ViewPath;
use cursive::geom::Margins;
use cursive::views::AnyView;
use cursive::views::Enableable;
use cursive::views::PaddedView;
use cursive::views::Text;
use cursive::views::ViewType;

#[test]
fn lookup_by_name_and_type_finds_the_node() {
    let mut siv = Cursive::dummy();
    siv.add_layer(Text::new("first").with_id("text"));
    let found = siv.call_on_name("text", ViewType::Text);
    match found {
        Some(AnyView::Text(t)) => assert_eq!(t.get_content(), "first"),
        _ => panic!("expected to find the text node"),
    }
}

#[test]
fn lookup_with_wrong_type_or_name_finds_nothing() {
    let mut siv = Cursive::dummy();
    siv.add_layer(Text::new("first").with_id("text"));
    assert!(siv.call_on_name("text", ViewType::Button).is_none());
    assert!(siv.call_on_name("other", ViewType::Text).is_none());
}

#[test]
fn lookup_descends_through_wrappers() {
    let mut siv = Cursive::dummy();
    let view = PaddedView::new(
        Margins::lrtb(1, 1, 0, 0),
        Enableable::new(Text::new("wrapped").with_id("inner")),
    );
    siv.add_layer(view);
    let found = siv.call_on_name("inner", ViewType::Text);
    match found {
        Some(AnyView::Text(t)) => assert_eq!(t.get_content(), "wrapped"),
        _ => panic!("lookup must descend through wrappers"),
    }
}

#[test]
fn mutation_through_lookup_is_visible_afterwards() {
    let mut siv = Cursive::dummy();
    siv.add_layer(Text::new("before").with_id("text"));
    match siv.call_on_name("text", ViewType::Text) {
        Some(AnyView::Text(t)) => t.set_content("after"),
        _ => panic!("expected the text node"),
    }
    match siv.find_name("text", ViewType::Text) {
        Some(AnyView::Text(t)) => assert_eq!(t.get_content(), "after"),
        _ => panic!("expected the text node"),
    }
}

#[test]
fn first_match_in_walk_order_wins() {
    let mut siv = Cursive::dummy();
    siv.add_layer(Text::new("bottom").with_id("dup"));
    siv.add_layer(Text::new("top").with_id("dup"));
    match siv.call_on_name("dup", ViewType::Text) {
        Some(AnyView::Text(t)) => assert_eq!(t.get_content(), "bottom"),
        _ => panic!("expected the first match, bottom first"),
    }
}

#[test]
fn call_on_id_and_find_id_are_aliases() {
    let mut siv = Cursive::dummy();
    siv.add_layer(Text::new("x").with_id("t"));
    assert!(siv.call_on_id("t", ViewType::Text).is_some());
    assert!(siv.find_id("t", ViewType::Text).is_some());
    assert!(siv.find_id("t", ViewType::Dummy).is_none());
}

#[test]
fn view_path_records_choices_in_order() {
    let root = ViewPath::new();
    assert_eq!(root.to_vec(), Vec::<usize>::new());
    let deeper = root.add(1);
    let deepest = deeper.add(0);
    // `add` prepends: the root-side choice added last comes first.
    assert_eq!(deepest.to_vec(), vec![0, 1]);
}

#[test]
fn path_lookup_descends_by_recorded_choices() {
    let mut siv = Cursive::dummy();
    // Two screens: the screen set becomes a decision node.
    siv.add_layer(Text::new("s0-l0"));
    siv.add_layer(Text::new("s0-l1"));
    siv.add_active_screen();
    siv.add_layer(Text::new("s1-l0"));
    siv.set_screen(0);
    // Address screen 0, layer 1.
    let root = ViewPath::new();
    let tail = root.add(1);
    let path = tail.add(0);
    let found = siv.call_on(&Selector::Path(&path), ViewType::Text);
    match found {
        Some(AnyView::Text(t)) => assert_eq!(t.get_content(), "s0-l1"),
        _ => panic!("expected the addressed layer"),
    }
    // A path that does not fit the tree shape finds nothing.
    let root2 = ViewPath::new();
    let too_deep0 = root2.add(9);
    let too_deep = too_deep0.add(0);
    assert!(siv.call_on(&Selector::Path(&too_deep), ViewType::Text).is_none());
}

#[test]
fn selector_id_goes_through_call_on() {
    let mut siv = Cursive::dummy();
    siv.add_layer(Text::new("x").with_id("t"));
    let sel = Selector::Id("t");
    assert!(siv.call_on(&sel, ViewType::Text).is_some());
}

#[test]
fn debug_name_reports_the_kind() {
    let mut siv = Cursive::dummy();
    siv.add_layer(Text::new("x").with_id("t"));
    assert_eq!(siv.debug_name("t"), Some("Text"));
    assert_eq!(siv.debug_name("missing"), None);
}
