//! The frame-rate policy of the idle loop: no redraw without input when
//! auto-refresh is off, and exactly one redraw per threshold crossing
//! when a target rate is set.

use cursive::backend::Backend;
use cursive::cursive::Cursive;
use cursive::geom::Vec2;
use cursive::views::Text;

fn presents(siv: &Cursive) -> u64 {
    match &siv.backend {
        Backend::Scripted(s) => s.presents,
        Backend::Dummy => panic!("the scripted backend is expected"),
    }
}

fn scripted() -> Cursive {
    Cursive::from_backend(Backend::scripted(Vec::new(), Vec2::new(40, 12)))
}

#[test]
fn idle_cycles_with_auto_refresh_disabled_never_redraw() {
    let mut siv = scripted();
    assert_eq!(siv.fps, 0);
    let before = presents(&siv);
    for _ in 0..10 {
        siv.post_events(false);
    }
    assert_eq!(presents(&siv), before);
    assert_eq!(siv.boring_frame_count, 10);
}

#[test]
fn a_processed_event_redraws_at_once() {
    let mut siv = scripted();
    let before = presents(&siv);
    siv.post_events(true);
    assert_eq!(presents(&siv), before + 1);
    assert_eq!(siv.boring_frame_count, 0);
}

#[test]
fn idle_redraw_waits_for_the_threshold_then_fires_once() {
    let mut siv = scripted();
    // 1000 / 30 = 33 poll slots per second; at 10 frames per second the
    // threshold is 3 idle frames.
    siv.set_fps(10);
    let before = presents(&siv);
    siv.post_events(false);
    siv.post_events(false);
    siv.post_events(false);
    // Counts 1, 2, 3; the threshold was never reached before a count of 3.
    assert_eq!(presents(&siv), before);
    assert_eq!(siv.boring_frame_count, 3);
    // The crossing cycle redraws exactly once and restarts the count.
    siv.post_events(false);
    assert_eq!(presents(&siv), before + 1);
    assert_eq!(siv.boring_frame_count, 1);
    // The next crossing needs another full threshold of idle frames.
    siv.post_events(false);
    siv.post_events(false);
    assert_eq!(presents(&siv), before + 1);
    siv.post_events(false);
    assert_eq!(presents(&siv), before + 2);
}

#[test]
fn a_high_target_rate_redraws_every_idle_cycle() {
    let mut siv = scripted();
    // 33 slots divided by 60 frames is 0; the threshold floor is one
    // idle frame.
    siv.set_fps(60);
    let before = presents(&siv);
    siv.post_events(false);
    siv.post_events(false);
    siv.post_events(false);
    // Counts hit the floor of 1 from the second cycle on.
    assert_eq!(presents(&siv), before + 2);
}

#[test]
fn set_autorefresh_is_a_rate_shortcut() {
    let mut siv = scripted();
    siv.set_autorefresh(true);
    assert_eq!(siv.fps, 30);
    siv.set_autorefresh(false);
    assert_eq!(siv.fps, 0);
}

#[test]
fn refresh_resets_the_idle_count_and_presents() {
    let mut siv = scripted();
    siv.post_events(false);
    siv.post_events(false);
    assert_eq!(siv.boring_frame_count, 2);
    let before = presents(&siv);
    siv.refresh();
    assert_eq!(siv.boring_frame_count, 0);
    assert_eq!(presents(&siv), before + 1);
}

#[test]
fn changed_layer_footprints_clear_the_screen() {
    let mut siv = scripted();
    let clears_of = |siv: &Cursive| match &siv.backend {
        Backend::Scripted(s) => s.clears,
        Backend::Dummy => panic!("the scripted backend is expected"),
    };
    siv.refresh();
    let clears = clears_of(&siv);
    // Nothing changed: the next refresh does not clear.
    siv.refresh();
    assert_eq!(clears_of(&siv), clears);
    // A new layer changes the footprints: the next refresh clears once.
    siv.add_layer(Text::new("fresh"));
    siv.refresh();
    assert_eq!(clears_of(&siv), clears + 1);
}
