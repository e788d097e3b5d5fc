//! End-to-end controller behavior: screens keeping their layers, quit
//! triggers, default callbacks, the menu overlay, focus moves and the
//! cross-thread callback channel.

use cursive::backend::Backend;
use cursive::channel::send_callback;
use cursive::cursive::Cursive;
use cursive::event::Callback;
use cursive::event::Event;
use cursive::event::Key;
use cursive::event::MouseButton;
use cursive::event::MouseEvent;
use cursive::geom::Vec2;
use cursive::theme::Theme;
use cursive::view::Selector;
use cursive::view::ViewPath;
use cursive::traits::Identifiable;
use cursive::views::AnyView;
use cursive::views::Button;
use cursive::views::MenubarState;
use cursive::views::Text;
use cursive::views::ViewType;

fn content_of(view: &AnyView) -> &str {
    match view {
        AnyView::Text(t) => t.get_content(),
        _ => panic!("expected a text layer"),
    }
}

#[test]
fn screens_keep_their_layers_across_switches() {
    let mut siv = Cursive::dummy();
    assert_eq!(siv.active_screen(), 0);
    siv.add_layer(Text::new("on screen zero"));
    let second = siv.add_active_screen();
    assert_eq!(second, 1);
    assert_eq!(siv.active_screen(), 1);
    assert_eq!(siv.screen().len(), 0);
    siv.add_layer(Text::new("on screen one"));
    assert_eq!(siv.screen().len(), 1);
    siv.set_screen(0);
    // The original layer is still present and unchanged.
    assert_eq!(siv.screen().len(), 1);
    assert_eq!(content_of(&siv.screen().layers[0].view), "on screen zero");
    siv.set_screen(1);
    assert_eq!(content_of(&siv.screen().layers[0].view), "on screen one");
}

#[test]
fn a_global_quit_callback_stops_the_loop() {
    let mut siv = Cursive::from_backend(Backend::scripted(
        vec![Event::Char('q')],
        Vec2::new(40, 12),
    ));
    siv.add_global_callback(Event::Char('q'), Callback::Quit);
    assert!(siv.is_running());
    let mut steps = 0;
    while siv.is_running() && steps < 100 {
        siv.step();
        steps += 1;
    }
    assert!(!siv.is_running());
    assert!(steps < 100);
}

#[test]
fn the_interrupt_chord_quits_by_default() {
    let mut siv = Cursive::dummy();
    siv.on_event(Event::CtrlChar('c'));
    assert!(!siv.is_running());
    let mut siv = Cursive::dummy();
    siv.on_event(Event::Exit);
    assert!(!siv.is_running());
}

#[test]
fn a_resize_clears_the_screen_by_default() {
    let mut siv = Cursive::from_backend(Backend::scripted(Vec::new(), Vec2::new(20, 5)));
    let clears = match &siv.backend {
        Backend::Scripted(s) => s.clears,
        Backend::Dummy => unreachable!(),
    };
    siv.on_event(Event::WindowResize);
    match &siv.backend {
        Backend::Scripted(s) => assert_eq!(s.clears, clears + 1),
        Backend::Dummy => unreachable!(),
    }
}

#[test]
fn set_global_callback_replaces_earlier_ones() {
    let mut siv = Cursive::dummy();
    siv.add_global_callback(Event::Char('m'), Callback::Mark(1));
    siv.set_global_callback(Event::Char('m'), Callback::Mark(2));
    siv.on_event(Event::Char('m'));
    assert_eq!(siv.marks, vec![2]);
    siv.clear_global_callbacks(Event::Char('m'));
    siv.on_event(Event::Char('m'));
    assert_eq!(siv.marks, vec![2]);
}

#[test]
fn a_consumed_event_never_reaches_global_callbacks() {
    let mut siv = Cursive::dummy();
    siv.add_layer(Button::new("eat", Callback::Mark(1)));
    siv.add_global_callback(Event::Key(Key::Enter), Callback::Mark(9));
    siv.on_event(Event::Key(Key::Enter));
    // The button consumed the event; only its own callback ran.
    assert_eq!(siv.marks, vec![1]);
}

#[test]
fn callbacks_from_other_threads_run_in_submission_order() {
    let mut siv = Cursive::dummy();
    assert!(send_callback(siv.cb_sink(), Callback::Mark(1)));
    assert!(send_callback(siv.cb_sink(), Callback::Mark(2)));
    assert!(send_callback(siv.cb_sink(), Callback::Mark(3)));
    let processed = siv.process_events();
    assert!(processed);
    assert_eq!(siv.marks, vec![1, 2, 3]);
    // Nothing left: an empty pass reports a boring cycle.
    assert!(!siv.process_events());
}

#[test]
fn a_quitting_callback_stops_the_drain_and_the_rest_waits() {
    let mut siv = Cursive::dummy();
    assert!(send_callback(siv.cb_sink(), Callback::Mark(1)));
    assert!(send_callback(siv.cb_sink(), Callback::Quit));
    assert!(send_callback(siv.cb_sink(), Callback::Mark(2)));
    assert!(siv.process_events());
    // The drain stopped at the quit; the last callback is still waiting.
    assert_eq!(siv.marks, vec![1]);
    assert!(!siv.is_running());
    assert!(siv.process_events());
    assert_eq!(siv.marks, vec![1, 2]);
}

#[test]
fn a_cloned_sink_reaches_the_same_controller() {
    let mut siv = Cursive::dummy();
    let sink = cursive::channel::clone_sink(siv.cb_sink());
    assert!(send_callback(&sink, Callback::Mark(42)));
    siv.process_events();
    assert_eq!(siv.marks, vec![42]);
}

#[test]
fn menubar_state_machine_walks_its_states() {
    let mut siv = Cursive::dummy();
    {
        let bar = siv.menubar();
        bar.add_leaf("quit", Callback::Quit);
        bar.add_subtree("file");
        assert_eq!(bar.len(), 2);
    }
    assert_eq!(siv.menubar.state, MenubarState::Inactive);
    siv.select_menubar();
    assert_eq!(siv.menubar.state, MenubarState::Selected);
    assert_eq!(siv.menubar.selected_index, 0);
    // The arrows move the highlight with wrap-around.
    siv.on_event(Event::Key(Key::Right));
    assert_eq!(siv.menubar.selected_index, 1);
    siv.on_event(Event::Key(Key::Right));
    assert_eq!(siv.menubar.selected_index, 0);
    siv.on_event(Event::Key(Key::Left));
    assert_eq!(siv.menubar.selected_index, 1);
    // Choosing the subtree opens a submenu; escape closes everything.
    siv.on_event(Event::Key(Key::Enter));
    assert_eq!(siv.menubar.state, MenubarState::Submenu);
    assert!(siv.menubar.has_submenu());
    siv.on_event(Event::Key(Key::Esc));
    assert_eq!(siv.menubar.state, MenubarState::Inactive);
    // Choosing a leaf runs its action and dismisses the bar.
    siv.select_menubar();
    siv.on_event(Event::Key(Key::Enter));
    assert_eq!(siv.menubar.state, MenubarState::Inactive);
    assert!(!siv.is_running());
}

#[test]
fn a_selected_menubar_captures_input_before_the_tree() {
    let mut siv = Cursive::dummy();
    siv.menubar().add_subtree("file");
    siv.add_layer(Button::new("never", Callback::Mark(1)));
    siv.select_menubar();
    siv.on_event(Event::Key(Key::Enter));
    // The overlay consumed the event; the button never saw it.
    assert_eq!(siv.marks, Vec::<u64>::new());
}

#[test]
fn a_top_row_click_selects_a_permanently_visible_menubar() {
    let mut siv = Cursive::dummy();
    siv.menubar().add_subtree("file");
    siv.set_autohide_menu(false);
    siv.on_event(Event::Mouse {
        offset: Vec2::new(0, 0),
        position: Vec2::new(2, 0),
        event: MouseEvent::Press(MouseButton::Left),
    });
    assert!(siv.menubar.receive_events());
    // With autohide on, the same click passes through to the tree.
    let mut hidden = Cursive::dummy();
    hidden.menubar().add_subtree("file");
    hidden.on_event(Event::Mouse {
        offset: Vec2::new(0, 0),
        position: Vec2::new(2, 0),
        event: MouseEvent::Press(MouseButton::Left),
    });
    assert!(!hidden.menubar.receive_events());
}

#[test]
fn focus_moves_the_target_layer_to_the_front() {
    let mut siv = Cursive::dummy();
    siv.add_layer(Button::new("target", Callback::Noop).with_id("btn"));
    siv.add_layer(Text::new("covering"));
    assert!(siv.focus_name("btn").is_ok());
    // The focused layer is now topmost.
    let top = siv.screen().layers.last().expect("layer");
    match &top.view {
        AnyView::Named { name, .. } => assert_eq!(name, "btn"),
        _ => panic!("expected the named button layer on top"),
    }
}

#[test]
fn focus_failures_are_reported_and_harmless() {
    let mut siv = Cursive::dummy();
    siv.add_layer(Text::new("words").with_id("txt"));
    // A text leaf declines the focus.
    assert!(siv.focus_name("txt").is_err());
    // An unknown name is a plain failure.
    assert!(siv.focus_id("missing").is_err());
    assert_eq!(siv.screen().len(), 1);
}

#[test]
fn focus_by_path_brings_the_addressed_layer_forward() {
    let mut siv = Cursive::dummy();
    siv.add_layer(Button::new("below", Callback::Noop));
    siv.add_layer(Text::new("above"));
    // One screen: the path carries only the layer choice.
    let root = ViewPath::new();
    let path = root.add(0);
    assert!(siv.focus(&Selector::Path(&path)).is_ok());
    match &siv.screen().layers.last().expect("layer").view {
        AnyView::Button(b) => assert_eq!(b.label, "below"),
        _ => panic!("expected the button layer on top"),
    }
    // A path to a non-focusable layer fails and changes nothing.
    let root2 = ViewPath::new();
    let to_text = root2.add(0);
    assert!(siv.focus(&Selector::Path(&to_text)).is_err());
}

#[test]
fn the_debug_console_toggles_on_and_off() {
    let mut siv = Cursive::dummy();
    assert_eq!(siv.screen().len(), 0);
    siv.toggle_debug_console();
    assert_eq!(siv.screen().len(), 1);
    siv.toggle_debug_console();
    assert_eq!(siv.screen().len(), 0);
    siv.show_debug_console();
    siv.show_debug_console();
    assert_eq!(siv.screen().len(), 2);
}

#[test]
fn controller_constructors_report_the_backend() {
    let siv = Cursive::dummy();
    assert_eq!(siv.backend_name(), "dummy");
    let siv = Cursive::new(|| Backend::scripted(Vec::new(), Vec2::new(10, 4)));
    assert_eq!(siv.backend_name(), "scripted");
    let ok: Result<Cursive, u8> = Cursive::try_new(|| Ok(Backend::Dummy));
    assert!(ok.is_ok());
    let err: Result<Cursive, u8> = Cursive::try_new(|| Err(7));
    assert_eq!(err.err(), Some(7));
}

#[test]
fn quit_and_noop_behave() {
    let mut siv = Cursive::dummy();
    siv.noop();
    assert!(siv.is_running());
    siv.quit();
    assert!(!siv.is_running());
}

#[test]
fn pop_layer_through_the_controller() {
    let mut siv = Cursive::dummy();
    assert!(siv.pop_layer().is_none());
    siv.add_layer(Text::new("gone soon"));
    let popped = siv.pop_layer().expect("layer");
    assert_eq!(content_of(&*popped), "gone soon");
    assert!(siv.pop_layer().is_none());
}

#[test]
fn scripted_input_reaches_a_named_view() {
    // A button press arriving from the backend fires its callback.
    let mut siv = Cursive::from_backend(Backend::scripted(
        vec![Event::Key(Key::Enter)],
        Vec2::new(30, 10),
    ));
    siv.add_layer(Button::new("fire", Callback::Mark(11)));
    assert!(siv.process_events());
    assert_eq!(siv.marks, vec![11]);
}

#[test]
fn theme_updates_clear_the_screen() {
    let mut siv = Cursive::from_backend(Backend::scripted(Vec::new(), Vec2::new(10, 4)));
    let clears = match &siv.backend {
        Backend::Scripted(s) => s.clears,
        Backend::Dummy => unreachable!(),
    };
    siv.set_theme(Theme { shadow: false, background: 3 });
    assert_eq!(siv.current_theme().background, 3);
    siv.update_theme(|t| Theme { shadow: true, ..t });
    assert!(siv.current_theme().shadow);
    match &siv.backend {
        Backend::Scripted(s) => assert_eq!(s.clears, clears + 2),
        Backend::Dummy => unreachable!(),
    }
}

#[test]
fn lookup_by_name_with_both_types_via_controller() {
    let mut siv = Cursive::dummy();
    siv.add_layer(Button::new("b", Callback::Noop).with_id("same"));
    siv.add_layer(Text::new("t").with_id("same"));
    // The first matching node of the requested kind wins, whatever other
    // kinds carry the name.
    assert!(matches!(
        siv.call_on_name("same", ViewType::Button),
        Some(AnyView::Button(_))
    ));
    assert!(matches!(
        siv.call_on_name("same", ViewType::Text),
        Some(AnyView::Text(_))
    ));
}
