//! The root controller: owns the component tree (a callback shell holding
//! a screen set of layer stacks), the menu overlay, the backend and the
//! cross-thread callback channel, and runs the cooperative event loop
//! that interleaves input polling, deferred callback execution and
//! frame-rate-limited redraw.

use vstd::prelude::*;
use vstd::string::*;
use crate::backend::Backend;
use crate::direction::Direction;
use crate::event::Callback;
use crate::event::Event;
use crate::event::EventResult;
use crate::event::EventTrigger;
use crate::geom::Vec2;
use crate::printer::Printer;
use crate::printer::Surface;
use crate::theme::Theme;
use crate::view::Selector;
use crate::views::any::AnyView;
use crate::views::any::IntoBoxedView;
use crate::views::any::ViewType;
use crate::views::menubar::bar_paint_from;
use crate::views::menubar::Menubar;
use crate::views::menubar::MenubarState;
use crate::views::on_event::OnEventView;
use crate::views::screens::ScreensView;
use crate::views::stack::Child;
use crate::views::stack::fg_boundary_of;
use crate::views::stack::find_name_in_layers;
use crate::views::stack::found_layer;
use crate::views::stack::LayerPosition;
use crate::views::stack::paint_of;
use crate::views::stack::stack_path_layer;
use crate::views::stack::StackView;

verus! {

/// Identifies a screen in the controller.
pub type ScreenId = usize;

/// The sending half of the deferred-callback channel: a cloneable handle,
/// safe to hand to other threads, and the only path for them to reach the
/// controller.
pub type CbSink = crossbeam_channel::Sender<Callback>;

/// How long the loop rests between two empty input polls, in
/// milliseconds. The resting itself is the embedder's duty; the loop only
/// counts the idle frames.
pub const INPUT_POLL_DELAY_MS: u64 = 30;

/// The name under which the debug console layer is added, so that the
/// toggle can find it again.
pub const DEBUG_VIEW_NAME: &'static str = "debug_console";

/// The central controller of the toolkit.
///
/// It owns the component tree, polls the backend for input, routes events
/// through the menu overlay or the tree, drains deferred callbacks sent
/// from other threads, and redraws under the frame-rate policy. Only one
/// thread ever touches it; other threads reach it through `cb_sink`.
pub struct Cursive {
    /// The visual theme.
    pub theme: Theme,
    /// The component tree: a callback shell around the screen set.
    pub root: OnEventView<ScreensView<StackView>>,
    /// The menu overlay.
    pub menubar: Menubar,
    /// The layer sizes of the last drawn frame; when they change, the
    /// viewport is cleared before redrawing.
    pub last_sizes: Vec<Vec2>,
    /// False once `quit` ran; checked between every unit of work.
    pub running: bool,
    /// The terminal backend.
    pub backend: Backend,
    /// The paint journal of the current frame.
    pub surface: Surface,
    /// The receiving half of the deferred-callback channel.
    pub cb_source: crossbeam_channel::Receiver<Callback>,
    /// The sending half of the deferred-callback channel.
    pub cb_sink: crossbeam_channel::Sender<Callback>,
    /// Deferred callbacks already taken out of the channel but not yet
    /// run, because a callback stopped the loop mid-drain; they run first
    /// on the next pass.
    pub pending_cbs: Vec<Callback>,
    /// Target frames per second while idle; 0 disables auto-refresh.
    pub fps: u32,
    /// How many idle frames passed since the last redraw.
    pub boring_frame_count: u32,
    /// The journal of executed `Mark` callbacks, in execution order: the
    /// observable trace of application-defined deferred work.
    pub marks: Vec<u64>,
}

impl Cursive {
    /// The tree and overlay indices point at what they address.
    pub open spec fn wf(self) -> bool {
        &&& self.root.inner.wf()
        &&& self.menubar.wf()
    }

    /// The layers of the active screen, as a spec-level value.
    pub open spec fn active_layers(self) -> Seq<Child> {
        self.root.inner.screens@[self.root.inner.active as int].layers@
    }

    /// Whether `self` is a freshly built controller over `backend`, as a
    /// spec-level value: one empty screen, an empty hidden menu, the
    /// default theme, no idle frames yet, and the default callbacks
    /// (interrupt and exit quit; a resize clears).
    pub open spec fn is_fresh(self, backend: Backend) -> bool {
        &&& self.theme == (Theme { shadow: true, background: 0 })
        &&& self.root.inner.screens@.len() == 1
        &&& self.root.inner.screens@[0].layers@.len() == 0
        &&& self.root.inner.active == 0
        &&& self.root.pre@ =~= seq![
            (EventTrigger::Exact(Event::CtrlChar('c')), Callback::Quit),
            (EventTrigger::Exact(Event::Exit), Callback::Quit),
            (EventTrigger::Exact(Event::WindowResize), Callback::Clear),
        ]
        &&& self.root.pre_inner@.len() == 0
        &&& self.root.post_inner@.len() == 0
        &&& self.root.post@.len() == 0
        &&& self.menubar.autohide
        &&& self.menubar.state == MenubarState::Inactive
        &&& self.menubar.items@.len() == 0
        &&& self.menubar.selected_index == 0
        &&& self.last_sizes@.len() == 0
        &&& self.running
        &&& self.backend == backend
        &&& self.surface.painted().len() == 0
        &&& self.pending_cbs@.len() == 0
        &&& self.fps == 0
        &&& self.boring_frame_count == 0
        &&& self.marks@.len() == 0
        &&& self.wf()
    }

    /// A controller over the given backend, with the default callbacks
    /// wired.
    pub fn from_backend(backend: Backend) -> (r: Cursive)
        ensures
            r.is_fresh(backend),
    {
        let (cb_sink, cb_source) = crate::channel::callback_channel();
        let mut cursive = Cursive {
            theme: crate::theme::load_default(),
            root: OnEventView::new(ScreensView::single_screen(StackView::new())),
            menubar: Menubar::new(),
            last_sizes: Vec::new(),
            running: true,
            backend,
            surface: Surface::new(),
            cb_source,
            cb_sink,
            pending_cbs: Vec::new(),
            fps: 0,
            boring_frame_count: 0,
            marks: Vec::new(),
        };
        cursive.reset_default_callbacks();
        cursive
    }

    /// A controller over the backend the given function builds.
    pub fn new<F: FnOnce() -> Backend>(backend_init: F) -> (r: Cursive)
        requires
            call_requires(backend_init, ()),
        ensures
            exists|b: Backend| #[trigger] call_ensures(backend_init, (), b) && r.is_fresh(b),
    {
        let backend = backend_init();
        Self::from_backend(backend)
    }

    /// A controller over the backend the given function builds, when it
    /// succeeds; its error otherwise.
    pub fn try_new<F: FnOnce() -> Result<Backend, E>, E>(backend_init: F) -> (r: Result<
        Cursive,
        E,
    >)
        requires
            call_requires(backend_init, ()),
        ensures
            match r {
                Ok(c) => exists|b: Backend| #[trigger] call_ensures(backend_init, (), Ok(b))
                    && c.is_fresh(b),
                Err(e) => call_ensures(backend_init, (), Err(e)),
            },
    {
        match backend_init() {
            Ok(backend) => Ok(Self::from_backend(backend)),
            Err(e) => Err(e),
        }
    }

    /// A controller over the silent dummy backend; mostly for tests.
    pub fn dummy() -> (r: Cursive)
        ensures
            r.is_fresh(Backend::Dummy),
    {
        Self::from_backend(Backend::Dummy)
    }

    /// This resets the default callbacks: the interrupt chord and the
    /// exit signal quit; a window resize clears the screen.
    pub fn reset_default_callbacks(&mut self)
        ensures
            final(self).root.pre@ =~= old(self).root.pre@ + seq![
                (EventTrigger::Exact(Event::CtrlChar('c')), Callback::Quit),
                (EventTrigger::Exact(Event::Exit), Callback::Quit),
                (EventTrigger::Exact(Event::WindowResize), Callback::Clear),
            ],
            final(self).root.pre_inner@ =~= old(self).root.pre_inner@,
            final(self).root.post_inner@ =~= old(self).root.post_inner@,
            final(self).root.post@ =~= old(self).root.post@,
            final(self).root.inner == old(self).root.inner,
            *final(self) == (Cursive { root: final(self).root, ..*old(self) }),
    {
        self.set_on_pre_event(EventTrigger::Exact(Event::CtrlChar('c')), Callback::Quit);
        self.set_on_pre_event(EventTrigger::Exact(Event::Exit), Callback::Quit);
        self.set_on_pre_event(EventTrigger::Exact(Event::WindowResize), Callback::Clear);
    }

    /// A sink for deferred callbacks: other threads send callbacks
    /// through it, and the event loop runs them in arrival order on the
    /// next cycle.
    pub fn cb_sink(&self) -> (r: &CbSink)
        ensures
            r == &self.cb_sink,
    {
        &self.cb_sink
    }

    /// Selects the menu overlay: it will capture input before the tree.
    /// An empty bar declines and nothing changes.
    pub fn select_menubar(&mut self)
        ensures
            *final(self) == (Cursive { menubar: old(self).menubar.focused_spec(), ..*old(self) }),
            old(self).wf() ==> final(self).wf(),
    {
        self.menubar.take_focus(Direction::none());
    }

    /// Sets the menu autohide feature: when enabled (the default) the bar
    /// is only visible while selected; when disabled it is always visible
    /// and reserves the top row.
    pub fn set_autohide_menu(&mut self, autohide: bool)
        ensures
            *final(self) == (Cursive {
                menubar: (Menubar { autohide, ..old(self).menubar }),
                ..*old(self)
            }),
    {
        self.menubar.autohide = autohide;
    }

    /// The menu overlay, to add entries to.
    pub fn menubar(&mut self) -> (r: &mut Menubar)
        ensures
            *r == old(self).menubar,
            *final(self) == (Cursive { menubar: *final(r), ..*old(self) }),
    {
        &mut self.menubar
    }

    /// The theme in use.
    pub fn current_theme(&self) -> (r: &Theme)
        ensures
            r == &self.theme,
    {
        &self.theme
    }

    /// Sets the theme and clears the screen, so the next frame redraws
    /// everything in the new colors.
    pub fn set_theme(&mut self, theme: Theme)
        ensures
            final(self).theme == theme,
            final(self).backend == old(self).backend.cleared(),
            final(self).surface.painted() =~= Seq::empty(),
            *final(self) == (Cursive {
                theme,
                backend: final(self).backend,
                surface: final(self).surface,
                ..*old(self)
            }),
    {
        self.theme = theme;
        self.clear();
    }

    /// Updates the theme through the given function and clears the
    /// screen, so the next frame redraws in the new colors.
    pub fn update_theme<F: FnOnce(Theme) -> Theme>(&mut self, f: F)
        requires
            call_requires(f, (old(self).theme,)),
        ensures
            exists|t: Theme|
                {
                    &&& #[trigger] call_ensures(f, (old(self).theme,), t)
                    &&& final(self).theme == t
                },
            final(self).backend == old(self).backend.cleared(),
            final(self).surface.painted() =~= Seq::empty(),
            *final(self) == (Cursive {
                theme: final(self).theme,
                backend: final(self).backend,
                surface: final(self).surface,
                ..*old(self)
            }),
    {
        let t = f(self.theme);
        self.set_theme(t);
    }

    /// Clears the whole screen; users rarely call this directly.
    pub fn clear(&mut self)
        ensures
            final(self).backend == old(self).backend.cleared(),
            final(self).surface.painted() =~= Seq::empty(),
            *final(self) == (Cursive {
                backend: final(self).backend,
                surface: final(self).surface,
                ..*old(self)
            }),
    {
        self.backend.clear(self.theme.background);
        self.surface.clear();
    }

    /// Sets the idle refresh rate, in frames per second; 0 (the default)
    /// disables auto-refresh.
    pub fn set_fps(&mut self, fps: u32)
        ensures
            *final(self) == (Cursive { fps, ..*old(self) }),
    {
        self.fps = fps;
    }

    /// Enables or disables automatic refresh: a shortcut for `set_fps`
    /// with 30 or 0.
    pub fn set_autorefresh(&mut self, autorefresh: bool)
        ensures
            *final(self) == (Cursive {
                fps: if autorefresh {
                    30u32
                } else {
                    0u32
                },
                ..*old(self)
            }),
    {
        if autorefresh {
            self.set_fps(30);
        } else {
            self.set_fps(0);
        }
    }

    /// The currently active screen.
    pub fn screen(&self) -> (r: &StackView)
        requires
            self.wf(),
        ensures
            *r == self.root.inner.screens@[self.root.inner.active as int],
    {
        match self.root.get_inner().screen() {
            Some(s) => s,
            None => unreached(),
        }
    }

    /// The currently active screen, for mutation.
    pub fn screen_mut(&mut self) -> (r: &mut StackView)
        requires
            old(self).wf(),
        ensures
            *r == old(self).root.inner.screens@[old(self).root.inner.active as int],
            final(self).root.inner.active == old(self).root.inner.active,
            final(self).root.inner.screens@ =~= old(self).root.inner.screens@.update(
                old(self).root.inner.active as int,
                *final(r),
            ),
            final(self).root.pre@ =~= old(self).root.pre@,
            final(self).root.pre_inner@ =~= old(self).root.pre_inner@,
            final(self).root.post_inner@ =~= old(self).root.post_inner@,
            final(self).root.post@ =~= old(self).root.post@,
            *final(self) == (Cursive { root: final(self).root, ..*old(self) }),
    {
        match self.root.get_inner_mut().screen_mut() {
            Some(s) => s,
            None => unreached(),
        }
    }

    /// The identifier of the active screen.
    pub fn active_screen(&self) -> (r: ScreenId)
        ensures
            r == self.root.inner.active,
    {
        self.root.get_inner().active_screen()
    }

    /// Adds a new screen and returns its identifier; the active screen
    /// does not change.
    pub fn add_screen(&mut self) -> (r: ScreenId)
        ensures
            final(self).root.inner.screens@.len() == old(self).root.inner.screens@.len() + 1,
            final(self).root.inner.screens@.drop_last() =~= old(self).root.inner.screens@,
            final(self).root.inner.screens@.last().layers@.len() == 0,
            final(self).root.inner.active == old(self).root.inner.active,
            r == old(self).root.inner.screens@.len(),
            final(self).root.pre@ =~= old(self).root.pre@,
            final(self).root.pre_inner@ =~= old(self).root.pre_inner@,
            final(self).root.post_inner@ =~= old(self).root.post_inner@,
            final(self).root.post@ =~= old(self).root.post@,
            *final(self) == (Cursive { root: final(self).root, ..*old(self) }),
            old(self).wf() ==> final(self).wf(),
    {
        self.root.get_inner_mut().add_screen(StackView::new())
    }

    /// Adds a new screen, makes it active, and returns its identifier.
    pub fn add_active_screen(&mut self) -> (r: ScreenId)
        ensures
            final(self).root.inner.screens@.len() == old(self).root.inner.screens@.len() + 1,
            final(self).root.inner.screens@.drop_last() =~= old(self).root.inner.screens@,
            final(self).root.inner.screens@.last().layers@.len() == 0,
            final(self).root.inner.active == old(self).root.inner.screens@.len(),
            r == old(self).root.inner.screens@.len(),
            final(self).root.pre@ =~= old(self).root.pre@,
            final(self).root.pre_inner@ =~= old(self).root.pre_inner@,
            final(self).root.post_inner@ =~= old(self).root.post_inner@,
            final(self).root.post@ =~= old(self).root.post@,
            *final(self) == (Cursive { root: final(self).root, ..*old(self) }),
            final(self).root.inner.wf(),
            old(self).menubar.wf() ==> final(self).wf(),
    {
        let res = self.add_screen();
        self.set_screen(res);
        res
    }

    /// Makes the screen with the given identifier active: an index
    /// change, not a tree rebuild; every screen keeps its layers.
    pub fn set_screen(&mut self, screen_id: ScreenId)
        requires
            screen_id < old(self).root.inner.screens@.len(),
        ensures
            final(self).root.inner.active == screen_id,
            final(self).root.inner.screens@ =~= old(self).root.inner.screens@,
            final(self).root.pre@ =~= old(self).root.pre@,
            final(self).root.pre_inner@ =~= old(self).root.pre_inner@,
            final(self).root.post_inner@ =~= old(self).root.post_inner@,
            final(self).root.post@ =~= old(self).root.post@,
            *final(self) == (Cursive { root: final(self).root, ..*old(self) }),
            old(self).menubar.wf() ==> final(self).wf(),
    {
        self.root.get_inner_mut().set_active_screen(screen_id);
    }

    /// Adds a global callback, run when the given event reaches the root
    /// with no view catching it.
    pub fn add_global_callback(&mut self, event: Event, cb: Callback)
        ensures
            final(self).root.post@ =~= old(self).root.post@.push(
                (EventTrigger::Exact(event), cb),
            ),
            final(self).root.pre@ =~= old(self).root.pre@,
            final(self).root.pre_inner@ =~= old(self).root.pre_inner@,
            final(self).root.post_inner@ =~= old(self).root.post_inner@,
            final(self).root.inner == old(self).root.inner,
            *final(self) == (Cursive { root: final(self).root, ..*old(self) }),
    {
        self.set_on_post_event(EventTrigger::Exact(event), cb);
    }

    /// Registers a callback for ignored events: like
    /// `add_global_callback`, for any trigger.
    pub fn set_on_post_event(&mut self, trigger: EventTrigger, cb: Callback)
        ensures
            final(self).root.post@ =~= old(self).root.post@.push((trigger, cb)),
            final(self).root.pre@ =~= old(self).root.pre@,
            final(self).root.pre_inner@ =~= old(self).root.pre_inner@,
            final(self).root.post_inner@ =~= old(self).root.post_inner@,
            final(self).root.inner == old(self).root.inner,
            *final(self) == (Cursive { root: final(self).root, ..*old(self) }),
    {
        self.root.set_on_event(trigger, cb);
    }

    /// Registers a priority callback: a matching event goes to it instead
    /// of the view tree, and the fallback callbacks are skipped too.
    pub fn set_on_pre_event(&mut self, trigger: EventTrigger, cb: Callback)
        ensures
            final(self).root.pre@ =~= old(self).root.pre@.push((trigger, cb)),
            final(self).root.pre_inner@ =~= old(self).root.pre_inner@,
            final(self).root.post_inner@ =~= old(self).root.post_inner@,
            final(self).root.post@ =~= old(self).root.post@,
            final(self).root.inner == old(self).root.inner,
            *final(self) == (Cursive { root: final(self).root, ..*old(self) }),
    {
        self.root.set_on_pre_event(trigger, cb);
    }

    /// Registers a priority inner handler: a matching event is answered
    /// with the given consumed result before the tree sees it.
    pub fn set_on_pre_event_inner(&mut self, trigger: EventTrigger, result: Option<Callback>)
        ensures
            final(self).root.pre_inner@ =~= old(self).root.pre_inner@.push((trigger, result)),
            final(self).root.pre@ =~= old(self).root.pre@,
            final(self).root.post_inner@ =~= old(self).root.post_inner@,
            final(self).root.post@ =~= old(self).root.post@,
            final(self).root.inner == old(self).root.inner,
            *final(self) == (Cursive { root: final(self).root, ..*old(self) }),
    {
        self.root.set_on_pre_event_inner(trigger, result);
    }

    /// Registers an inner handler consulted when the tree ignored a
    /// matching event.
    pub fn set_on_event_inner(&mut self, trigger: EventTrigger, result: Option<Callback>)
        ensures
            final(self).root.post_inner@ =~= old(self).root.post_inner@.push((trigger, result)),
            final(self).root.pre@ =~= old(self).root.pre@,
            final(self).root.pre_inner@ =~= old(self).root.pre_inner@,
            final(self).root.post@ =~= old(self).root.post@,
            final(self).root.inner == old(self).root.inner,
            *final(self) == (Cursive { root: final(self).root, ..*old(self) }),
    {
        self.root.set_on_event_inner(trigger, result);
    }

    /// Makes `cb` the only global callback for the given event: any other
    /// registration for exactly that event is removed first.
    pub fn set_global_callback(&mut self, event: Event, cb: Callback)
        ensures
            final(self).root.post@ =~= crate::views::on_event::without_exact(
                old(self).root.post@,
                event,
            ).push((EventTrigger::Exact(event), cb)),
            final(self).root.pre@ =~= crate::views::on_event::without_exact(
                old(self).root.pre@,
                event,
            ),
            final(self).root.pre_inner@ =~= crate::views::on_event::without_exact(
                old(self).root.pre_inner@,
                event,
            ),
            final(self).root.post_inner@ =~= crate::views::on_event::without_exact(
                old(self).root.post_inner@,
                event,
            ),
            final(self).root.inner == old(self).root.inner,
            *final(self) == (Cursive { root: final(self).root, ..*old(self) }),
    {
        self.clear_global_callbacks(event);
        self.add_global_callback(event, cb);
    }

    /// Removes any callback tied to exactly the given event.
    pub fn clear_global_callbacks(&mut self, event: Event)
        ensures
            final(self).root.pre@ =~= crate::views::on_event::without_exact(
                old(self).root.pre@,
                event,
            ),
            final(self).root.pre_inner@ =~= crate::views::on_event::without_exact(
                old(self).root.pre_inner@,
                event,
            ),
            final(self).root.post_inner@ =~= crate::views::on_event::without_exact(
                old(self).root.post_inner@,
                event,
            ),
            final(self).root.post@ =~= crate::views::on_event::without_exact(
                old(self).root.post@,
                event,
            ),
            final(self).root.inner == old(self).root.inner,
            *final(self) == (Cursive { root: final(self).root, ..*old(self) }),
    {
        self.root.clear_event(event);
    }

    /// Adds a floating layer to the active screen.
    pub fn add_layer<T: IntoBoxedView>(&mut self, view: T)
        requires
            old(self).wf(),
        ensures
            final(self).active_layers() =~= old(self).active_layers().push(
                Child {
                    view: view.to_any_spec(),
                    fullscreen: false,
                    size: Vec2 { x: 0, y: 0 },
                    offset: Vec2 { x: 0, y: 0 },
                },
            ),
            final(self).root.inner.active == old(self).root.inner.active,
            final(self).root.inner.screens@.len() == old(self).root.inner.screens@.len(),
            forall|j: int|
                0 <= j < old(self).root.inner.screens@.len() && j != old(self).root.inner.active
                    ==> final(self).root.inner.screens@[j] == old(self).root.inner.screens@[j],
            final(self).root.pre@ =~= old(self).root.pre@,
            final(self).root.pre_inner@ =~= old(self).root.pre_inner@,
            final(self).root.post_inner@ =~= old(self).root.post_inner@,
            final(self).root.post@ =~= old(self).root.post@,
            *final(self) == (Cursive { root: final(self).root, ..*old(self) }),
            final(self).wf(),
    {
        self.screen_mut().add_layer(view);
    }

    /// Adds a full-screen layer to the active screen; full-screen layers
    /// carry no floating decoration and occupy the whole viewport.
    pub fn add_fullscreen_layer<T: IntoBoxedView>(&mut self, view: T)
        requires
            old(self).wf(),
        ensures
            final(self).active_layers() =~= old(self).active_layers().push(
                Child {
                    view: view.to_any_spec(),
                    fullscreen: true,
                    size: Vec2 { x: 0, y: 0 },
                    offset: Vec2 { x: 0, y: 0 },
                },
            ),
            final(self).root.inner.active == old(self).root.inner.active,
            final(self).root.inner.screens@.len() == old(self).root.inner.screens@.len(),
            forall|j: int|
                0 <= j < old(self).root.inner.screens@.len() && j != old(self).root.inner.active
                    ==> final(self).root.inner.screens@[j] == old(self).root.inner.screens@[j],
            final(self).root.pre@ =~= old(self).root.pre@,
            final(self).root.pre_inner@ =~= old(self).root.pre_inner@,
            final(self).root.post_inner@ =~= old(self).root.post_inner@,
            final(self).root.post@ =~= old(self).root.post@,
            *final(self) == (Cursive { root: final(self).root, ..*old(self) }),
            final(self).wf(),
    {
        self.screen_mut().add_fullscreen_layer(view);
    }

    /// Removes and returns the topmost layer of the active screen;
    /// nothing when it is empty.
    pub fn pop_layer(&mut self) -> (r: Option<Box<AnyView>>)
        requires
            old(self).wf(),
        ensures
            old(self).active_layers().len() == 0 ==> r is None && final(self).active_layers()
                =~= old(self).active_layers(),
            old(self).active_layers().len() > 0 ==> {
                &&& final(self).active_layers() =~= old(self).active_layers().drop_last()
                &&& match r {
                    Some(v) => *v == old(self).active_layers().last().view,
                    None => false,
                }
            },
            final(self).root.inner.active == old(self).root.inner.active,
            final(self).root.inner.screens@.len() == old(self).root.inner.screens@.len(),
            forall|j: int|
                0 <= j < old(self).root.inner.screens@.len() && j != old(self).root.inner.active
                    ==> final(self).root.inner.screens@[j] == old(self).root.inner.screens@[j],
            final(self).root.pre@ =~= old(self).root.pre@,
            final(self).root.pre_inner@ =~= old(self).root.pre_inner@,
            final(self).root.post_inner@ =~= old(self).root.post_inner@,
            final(self).root.post@ =~= old(self).root.post@,
            *final(self) == (Cursive { root: final(self).root, ..*old(self) }),
            final(self).wf(),
    {
        self.screen_mut().pop_layer()
    }

    /// Moves a layer of the active screen to the front, the back, or an
    /// explicit position, without destroying its state.
    pub fn reposition_layer(&mut self, layer: LayerPosition, position: LayerPosition)
        requires
            old(self).wf(),
            old(self).root.inner.screens@[old(self).root.inner.active as int].valid_pos(layer),
        ensures
            ({
                let layers = old(self).active_layers();
                let k = old(self).root.inner.screens@[old(
                    self,
                ).root.inner.active as int].index_of(layer);
                final(self).active_layers() =~= layers.remove(k).insert(
                    StackView::insert_index_of(position, layers.len() - 1),
                    layers[k],
                )
            }),
            final(self).root.inner.active == old(self).root.inner.active,
            final(self).root.inner.screens@.len() == old(self).root.inner.screens@.len(),
            forall|j: int|
                0 <= j < old(self).root.inner.screens@.len() && j != old(self).root.inner.active
                    ==> final(self).root.inner.screens@[j] == old(self).root.inner.screens@[j],
            final(self).root.pre@ =~= old(self).root.pre@,
            final(self).root.pre_inner@ =~= old(self).root.pre_inner@,
            final(self).root.post_inner@ =~= old(self).root.post_inner@,
            final(self).root.post@ =~= old(self).root.post@,
            *final(self) == (Cursive { root: final(self).root, ..*old(self) }),
            final(self).wf(),
    {
        self.screen_mut().reposition_layer(layer, position);
    }

    /// Whether the loop keeps going: true until `quit` is called.
    pub fn is_running(&self) -> (r: bool)
        ensures
            r == self.running,
    {
        self.running
    }

    /// Stops the event loop: checked between every unit of work, so a
    /// callback running mid-drain halts the loop at once.
    pub fn quit(&mut self)
        ensures
            *final(self) == (Cursive { running: false, ..*old(self) }),
    {
        self.running = false;
    }

    /// Does not do anything.
    pub fn noop(&mut self)
        ensures
            *final(self) == *old(self),
    {
    }

    /// The size of the screen, in characters.
    pub fn screen_size(&self) -> (r: Vec2)
        ensures
            r == self.backend.spec_screen_size(),
    {
        self.backend.screen_size()
    }

    /// Tears the backend down: releases the terminal (raw mode,
    /// alternate screen) exactly once, on every exit path. The owner of
    /// the controller calls this when it goes out of scope, normal
    /// return or unwind alike.
    pub fn finish(&mut self)
        ensures
            *final(self) == (Cursive { backend: final(self).backend, ..*old(self) }),
            final(self).backend == match old(self).backend {
                Backend::Dummy => old(self).backend,
                Backend::Scripted(s) => Backend::Scripted(
                    crate::backend::ScriptedBackend { finished: true, ..s },
                ),
            },
    {
        self.backend.finish();
    }

    /// The name of the backend in use, for diagnostics.
    pub fn backend_name(&self) -> (r: &str)
        ensures
            self.backend is Dummy ==> r@ == "dummy"@,
            self.backend is Scripted ==> r@ == "scripted"@,
    {
        self.backend.name()
    }

    /// Shows the debug console: a named, scrollable layer added to the
    /// active screen, found again by `toggle_debug_console`.
    pub fn show_debug_console(&mut self)
        requires
            old(self).wf(),
        ensures
            final(self).active_layers().len() == old(self).active_layers().len() + 1,
            final(self).active_layers().drop_last() =~= old(self).active_layers(),
            is_debug_child(final(self).active_layers().last()),
            layers_frame(*old(self), *final(self)),
            final(self).wf(),
    {
        let view = crate::views::named::Named::new(
            DEBUG_VIEW_NAME,
            crate::views::scroll::Scroll::new(crate::views::dummy::Dummy).scroll_x(true),
        );
        self.add_layer(view);
    }

    /// Shows the debug console, or removes it when a layer of the active
    /// screen already holds it.
    pub fn toggle_debug_console(&mut self)
        requires
            old(self).wf(),
        ensures
            debug_toggled(old(self).active_layers(), final(self).active_layers()),
            layers_frame(*old(self), *final(self)),
            final(self).wf(),
    {
        let name = DEBUG_VIEW_NAME.to_owned();
        let found = self.screen().find_layer_from_name(&name);
        match found {
            Some(pos) => {
                self.screen_mut().remove_layer(pos);
            },
            None => {
                self.show_debug_console();
            },
        }
    }

    /// Tries to find the view addressed by the selector, for mutation: a
    /// name is searched in the active screen's layers, in tree-walk
    /// order and through every wrapper; a path descends via its recorded
    /// branch choices. Lookup itself never mutates the tree; a miss,
    /// including a name found only on nodes of the wrong kind, is a
    /// normal empty result.
    pub fn call_on(&mut self, sel: &Selector, t: ViewType) -> (r: Option<&mut AnyView>)
        requires
            old(self).wf(),
        ensures
            match sel {
                Selector::Id(name) => match r {
                    Some(v) => final(self).name_lookup_hit(*old(self), name@, t, *v, *final(v)),
                    None => final(self).name_lookup_miss(*old(self), name@, t),
                },
                Selector::Path(p) => match r {
                    Some(v) => final(self).path_lookup_hit(*old(self), p.entries(), *v, *final(v)),
                    None => old(self).path_target(p.entries()) is None && *final(self) == *old(
                        self,
                    ),
                },
            },
            final(self).wf(),
    {
        match sel {
            Selector::Id(name) => self.call_on_name(name, t),
            Selector::Path(p) => {
                let entries = p.to_vec();
                self.call_on_path(&entries)
            },
        }
    }

    /// What a name lookup hit leaves behind, as a spec-level value:
    /// `found` is the first node wrapped under the name with the right
    /// kind, and the tree afterwards carries `left` in its place.
    pub open spec fn name_lookup_hit(
        self,
        pre: Cursive,
        name: Seq<char>,
        t: ViewType,
        found: AnyView,
        left: AnyView,
    ) -> bool {
        let layers = pre.active_layers();
        let k = found_layer(layers, name, t);
        &&& 0 <= k < layers.len()
        &&& layers[k].view.find_name_spec(name, t) == Some(found)
        &&& self.active_layers() =~= layers.update(
            k,
            Child { view: layers[k].view.replace_name_spec(name, t, left), ..layers[k] },
        )
        &&& layers_frame(pre, self)
    }

    /// What a name lookup miss leaves behind, as a spec-level value: the
    /// controller untouched.
    pub open spec fn name_lookup_miss(self, pre: Cursive, name: Seq<char>, t: ViewType) -> bool {
        &&& find_name_in_layers(pre.active_layers(), name, t) is None
        &&& layers_frame(pre, self)
        &&& self.active_layers() =~= pre.active_layers()
    }

    /// Tries to find the first view wrapped under `name` with the kind
    /// `t` in the active screen, for mutation.
    pub fn call_on_name(&mut self, name: &str, t: ViewType) -> (r: Option<&mut AnyView>)
        requires
            old(self).wf(),
        ensures
            match r {
                Some(v) => final(self).name_lookup_hit(*old(self), name@, t, *v, *final(v)),
                None => final(self).name_lookup_miss(*old(self), name@, t),
            },
            final(self).wf(),
    {
        let name_s = name.to_owned();
        let screen = self.screen_mut();
        screen.find_name_mut(&name_s, t)
    }

    /// Tries to find the view identified by `id`: the historical name of
    /// `call_on_name`.
    pub fn call_on_id(&mut self, id: &str, t: ViewType) -> (r: Option<&mut AnyView>)
        requires
            old(self).wf(),
        ensures
            match r {
                Some(v) => final(self).name_lookup_hit(*old(self), id@, t, *v, *final(v)),
                None => final(self).name_lookup_miss(*old(self), id@, t),
            },
            final(self).wf(),
    {
        self.call_on_name(id, t)
    }

    /// Finds the view wrapped under the given name with the kind `t`.
    pub fn find_name(&mut self, id: &str, t: ViewType) -> (r: Option<&mut AnyView>)
        requires
            old(self).wf(),
        ensures
            match r {
                Some(v) => final(self).name_lookup_hit(*old(self), id@, t, *v, *final(v)),
                None => final(self).name_lookup_miss(*old(self), id@, t),
            },
            final(self).wf(),
    {
        self.call_on_name(id, t)
    }

    /// Finds the view wrapped under the given name: the historical name
    /// of `find_name`.
    pub fn find_id(&mut self, id: &str, t: ViewType) -> (r: Option<&mut AnyView>)
        requires
            old(self).wf(),
        ensures
            match r {
                Some(v) => final(self).name_lookup_hit(*old(self), id@, t, *v, *final(v)),
                None => final(self).name_lookup_miss(*old(self), id@, t),
            },
            final(self).wf(),
    {
        self.call_on_name(id, t)
    }

    /// The screen and layer a path addresses, as a spec-level value. A
    /// branch choice is recorded only at decision nodes - nodes with more
    /// than one child - so the screen set consumes an entry only when it
    /// holds several screens, and a stack only when it holds several
    /// layers; a path that does not fit the current tree shape addresses
    /// nothing.
    pub open spec fn path_target(self, entries: Seq<usize>) -> Option<(int, int)> {
        let ns = self.root.inner.screens@.len() as int;
        if ns == 0 {
            None
        } else if ns > 1 {
            if entries.len() >= 1 && (entries[0] as int) < ns {
                match stack_path_layer(
                    self.root.inner.screens@[entries[0] as int].layers@,
                    entries.skip(1),
                ) {
                    Some(l) => Some((entries[0] as int, l)),
                    None => None,
                }
            } else {
                None
            }
        } else {
            match stack_path_layer(self.root.inner.screens@[0].layers@, entries) {
                Some(l) => Some((0int, l)),
                None => None,
            }
        }
    }

    /// What a path lookup hit leaves behind, as a spec-level value:
    /// `found` is the addressed layer's view, and the tree afterwards
    /// carries `left` in its place.
    pub open spec fn path_lookup_hit(
        self,
        pre: Cursive,
        entries: Seq<usize>,
        found: AnyView,
        left: AnyView,
    ) -> bool {
        match pre.path_target(entries) {
            Some((s, l)) => {
                &&& found == pre.root.inner.screens@[s].layers@[l].view
                &&& self == (Cursive { root: self.root, ..pre })
                &&& self.root == (OnEventView { inner: self.root.inner, ..pre.root })
                &&& self.root.inner.active == pre.root.inner.active
                &&& self.root.inner.screens@.len() == pre.root.inner.screens@.len()
                &&& forall|j: int|
                    0 <= j < pre.root.inner.screens@.len() && j != s
                        ==> self.root.inner.screens@[j] == pre.root.inner.screens@[j]
                &&& self.root.inner.screens@[s].layers@ =~= pre.root.inner.screens@[s].layers@.update(
                    l,
                    Child { view: left, ..pre.root.inner.screens@[s].layers@[l] },
                )
            },
            None => false,
        }
    }

    /// Tries to find the view addressed by the recorded branch choices,
    /// for mutation.
    pub fn call_on_path(&mut self, entries: &Vec<usize>) -> (r: Option<&mut AnyView>)
        requires
            old(self).wf(),
        ensures
            match r {
                Some(v) => final(self).path_lookup_hit(*old(self), entries@, *v, *final(v)),
                None => old(self).path_target(entries@) is None && *final(self) == *old(self),
            },
            final(self).wf(),
    {
        let ns = self.root.inner.screens.len();
        let (si, li_entries_from): (usize, usize) = if ns > 1 {
            if entries.len() >= 1 && entries[0] < ns {
                (entries[0], 1)
            } else {
                return None;
            }
        } else {
            (0, 0)
        };
        let nl = self.root.inner.screens[si].layers.len();
        let remaining = entries.len() - li_entries_from;
        let li: usize = if nl == 0 {
            return None;
        } else if nl > 1 {
            if remaining == 1 && entries[li_entries_from] < nl {
                entries[li_entries_from]
            } else {
                return None;
            }
        } else {
            if remaining == 0 {
                0
            } else {
                return None;
            }
        };
        proof {
            if li_entries_from == 1 {
                assert(entries@.skip(1).len() == entries@.len() - 1);
                if entries@.len() >= 2 {
                    assert(entries@.skip(1)[0] == entries@[1]);
                }
            }
        }
        Some(&mut self.root.inner.screens[si].layers[li].view)
    }

    /// Whether moving the focus by name would succeed on these layers, as
    /// a spec-level value: some layer holds the name, and at the first
    /// such layer the named node accepts the focus.
    pub open spec fn focus_target_ok(layers: Seq<Child>, name: Seq<char>) -> bool {
        exists|li: int|
            #![auto]
            {
                &&& 0 <= li < layers.len()
                &&& layers[li].view.contains_name_spec(name)
                &&& forall|j: int| 0 <= j < li ==> !layers[j].view.contains_name_spec(name)
                &&& match layers[li].view.find_by_name_spec(name) {
                    Some(t) => t.accepts_focus(),
                    None => false,
                }
            }
    }

    /// Moves the focus to the view wrapped under `name`: when the first
    /// layer of the active screen holding the name has a named node that
    /// accepts the focus, that layer comes to the front, where focus and
    /// default input routing live. Failure is reported, not fatal, and
    /// leaves the controller unchanged.
    pub fn focus_name(&mut self, name: &str) -> (r: Result<(), ()>)
        requires
            old(self).wf(),
        ensures
            r is Ok <==> Cursive::focus_target_ok(old(self).active_layers(), name@),
            r is Err ==> *final(self) == *old(self),
            r is Ok ==> exists|li: int|
                #![auto]
                {
                    &&& 0 <= li < old(self).active_layers().len()
                    &&& old(self).active_layers()[li].view.contains_name_spec(name@)
                    &&& forall|j: int|
                        0 <= j < li ==> !old(self).active_layers()[j].view.contains_name_spec(
                            name@,
                        )
                    &&& final(self).active_layers() =~= old(self).active_layers().remove(li).push(
                        old(self).active_layers()[li],
                    )
                    &&& layers_frame(*old(self), *final(self))
                },
            final(self).wf(),
    {
        let name_s = name.to_owned();
        let found = self.screen().find_layer_from_name(&name_s);
        match found {
            Some(pos) => {
                let li = match pos {
                    LayerPosition::FromBack(i) => i,
                    LayerPosition::FromFront(i) => {
                        let n = self.screen().len();
                        n - 1 - i
                    },
                };
                proof {
                    crate::views::any::lemma_contains_iff_found(
                        old(self).active_layers()[li as int].view,
                        name@,
                    );
                }
                let target = match self.screen().layers[li].view.find_by_name(&name_s) {
                    Some(t) => t,
                    None => unreached(),
                };
                if target.focusable() {
                    self.screen_mut().move_to_front(LayerPosition::FromBack(li));
                    proof {
                        lemma_first_containing_unique(
                            old(self).active_layers(),
                            name@,
                            li as int,
                        );
                    }
                    Ok(())
                } else {
                    proof {
                        lemma_first_containing_unique(
                            old(self).active_layers(),
                            name@,
                            li as int,
                        );
                    }
                    Err(())
                }
            },
            None => Err(()),
        }
    }

    /// Moves the focus by name: the historical name of `focus_name`.
    pub fn focus_id(&mut self, id: &str) -> (r: Result<(), ()>)
        requires
            old(self).wf(),
        ensures
            r is Ok <==> Cursive::focus_target_ok(old(self).active_layers(), id@),
            r is Err ==> *final(self) == *old(self),
            final(self).wf(),
    {
        self.focus_name(id)
    }

    /// Whether moving the focus along a path would succeed, as a
    /// spec-level value: the path must address a layer of the active
    /// screen whose view accepts the focus.
    pub open spec fn focus_path_ok(self, entries: Seq<usize>) -> bool {
        match self.path_target(entries) {
            Some((s, l)) => s == self.root.inner.active
                && self.root.inner.screens@[s].layers@[l].view.accepts_focus(),
            None => false,
        }
    }

    /// Moves the focus to the view the selector addresses: by name as
    /// `focus_name`, or by path when the path addresses a layer of the
    /// active screen whose view accepts the focus; that layer then comes
    /// to the front. Failure is reported, not fatal, and leaves the
    /// controller unchanged.
    pub fn focus(&mut self, sel: &Selector) -> (r: Result<(), ()>)
        requires
            old(self).wf(),
        ensures
            match sel {
                Selector::Id(name) => r is Ok <==> Cursive::focus_target_ok(
                    old(self).active_layers(),
                    name@,
                ),
                Selector::Path(p) => {
                    &&& (r is Ok <==> old(self).focus_path_ok(p.entries()))
                    &&& r is Ok ==> {
                        let l = old(self).path_target(p.entries()).unwrap().1;
                        &&& final(self).active_layers() =~= old(self).active_layers().remove(
                            l,
                        ).push(old(self).active_layers()[l])
                        &&& layers_frame(*old(self), *final(self))
                    }
                },
            },
            r is Err ==> *final(self) == *old(self),
            final(self).wf(),
    {
        match sel {
            Selector::Id(name) => self.focus_name(name),
            Selector::Path(p) => {
                let entries = p.to_vec();
                self.focus_path(&entries)
            },
        }
    }

    /// Moves the focus along a path of recorded branch choices.
    fn focus_path(&mut self, entries: &Vec<usize>) -> (r: Result<(), ()>)
        requires
            old(self).wf(),
        ensures
            r is Ok <==> old(self).focus_path_ok(entries@),
            r is Err ==> *final(self) == *old(self),
            r is Ok ==> {
                let l = old(self).path_target(entries@).unwrap().1;
                &&& final(self).active_layers() =~= old(self).active_layers().remove(l).push(
                    old(self).active_layers()[l],
                )
                &&& layers_frame(*old(self), *final(self))
            },
            final(self).wf(),
    {
        let ns = self.root.inner.screens.len();
        let (si, li_entries_from): (usize, usize) = if ns > 1 {
            if entries.len() >= 1 && entries[0] < ns {
                (entries[0], 1)
            } else {
                return Err(());
            }
        } else {
            (0, 0)
        };
        let nl = self.root.inner.screens[si].layers.len();
        let remaining = entries.len() - li_entries_from;
        let li: usize = if nl == 0 {
            return Err(());
        } else if nl > 1 {
            if remaining == 1 && entries[li_entries_from] < nl {
                entries[li_entries_from]
            } else {
                return Err(());
            }
        } else {
            if remaining == 0 {
                0
            } else {
                return Err(());
            }
        };
        proof {
            if li_entries_from == 1 {
                assert(entries@.skip(1).len() == entries@.len() - 1);
                if entries@.len() >= 2 {
                    assert(entries@.skip(1)[0] == entries@[1]);
                }
            }
        }
        if si != self.root.get_inner().active_screen() {
            return Err(());
        }
        let accepts = self.root.inner.screens[si].layers[li].view.focusable();
        if accepts {
            self.screen_mut().move_to_front(LayerPosition::FromBack(li));
            Ok(())
        } else {
            Err(())
        }
    }

    /// The kind name of the first node wrapped under `name` in the
    /// active screen, for diagnostics.
    pub fn debug_name(&self, name: &str) -> (r: Option<&'static str>)
        requires
            self.wf(),
        ensures
            match r {
                Some(s) => exists|li: int|
                    #![auto]
                    {
                        &&& 0 <= li < self.active_layers().len()
                        &&& self.active_layers()[li].view.contains_name_spec(name@)
                        &&& forall|j: int|
                            0 <= j < li ==> !self.active_layers()[j].view.contains_name_spec(
                                name@,
                            )
                        &&& match self.active_layers()[li].view.find_by_name_spec(name@) {
                            Some(t) => s@ == crate::views::any::type_name_seq(t.type_of()),
                            None => false,
                        }
                    },
                None => forall|j: int|
                    0 <= j < self.active_layers().len()
                        ==> !self.active_layers()[j].view.contains_name_spec(name@),
            },
    {
        let name_s = name.to_owned();
        let found = self.screen().find_layer_from_name(&name_s);
        match found {
            Some(pos) => {
                let li = match pos {
                    LayerPosition::FromBack(i) => i,
                    LayerPosition::FromFront(i) => {
                        let n = self.screen().len();
                        n - 1 - i
                    },
                };
                proof {
                    crate::views::any::lemma_contains_iff_found(
                        self.active_layers()[li as int].view,
                        name@,
                    );
                }
                match self.screen().layers[li].view.find_by_name(&name_s) {
                    Some(t) => Some(t.kind_name()),
                    None => unreached(),
                }
            },
            None => None,
        }
    }

    /// Whether a mouse event at the top row takes the focus to the menu
    /// overlay, as a spec-level value: the bar must be permanently
    /// visible (autohide off), have no open submenu, and the action must
    /// be one that grabs focus.
    pub open spec fn menu_grab(self, e: Event) -> bool {
        match e {
            Event::Mouse { position, event: me, .. } => {
                &&& me.spec_grabs_focus()
                &&& !self.menubar.autohide
                &&& self.menubar.state != MenubarState::Submenu
                &&& position.y == 0
            },
            _ => false,
        }
    }

    /// Whether `post` is this controller after one event was dispatched,
    /// as a spec-level value. A focus-grabbing top-row click may first
    /// select the menu overlay; a selected overlay then consumes the
    /// event; otherwise the tree sees it, one row down when the bar
    /// reserves the top row. A consumed result's deferred callback runs
    /// against the controller before the dispatch returns.
    pub open spec fn dispatched(self, e: Event, post: Cursive) -> bool {
        let c1 = Cursive {
            menubar: if self.menu_grab(e) {
                self.menubar.focused_spec()
            } else {
                self.menubar
            },
            ..self
        };
        if c1.menubar.state != MenubarState::Inactive {
            let c2 = Cursive {
                menubar: Menubar {
                    state: c1.menubar.step_spec(e).0,
                    selected_index: c1.menubar.step_spec(e).1 as usize,
                    ..c1.menubar
                },
                ..c1
            };
            match c1.menubar.step_spec(e).2 {
                EventResult::Consumed(Some(cb)) => cb.applied(c2, post),
                _ => post == c2,
            }
        } else {
            exists|root2: OnEventView<ScreensView<StackView>>, res: EventResult|
                {
                    &&& #[trigger] dispatch_witness(root2, res)
                    &&& c1.root.dispatched(
                        e.spec_relativized(
                            Vec2 {
                                x: 0,
                                y: if c1.menubar.autohide {
                                    0
                                } else {
                                    1
                                },
                            },
                        ),
                        root2,
                        res,
                    )
                    &&& match res {
                        EventResult::Consumed(Some(cb)) => cb.applied(
                            Cursive { root: root2, ..c1 },
                            post,
                        ),
                        _ => post == (Cursive { root: root2, ..c1 }),
                    }
                }
        }
    }

    /// Processes one event: the menu overlay first when it is selected or
    /// a top-row click selects it, the tree otherwise; when nothing
    /// consumed the event, the registered global callbacks get it. An
    /// attached deferred callback runs at once.
    pub fn on_event(&mut self, event: Event)
        requires
            old(self).wf(),
        ensures
            old(self).dispatched(event, *final(self)),
            final(self).wf(),
    {
        let grab = match event {
            Event::Mouse { position, event: m, .. } => m.grabs_focus() && !self.menubar.autohide
                && !self.menubar.has_submenu() && position.y == 0,
            _ => false,
        };
        proof {
            assert(grab == old(self).menu_grab(event));
        }
        if grab {
            self.select_menubar();
        }
        let ghost c1 = *self;
        proof {
            assert(c1 == (Cursive {
                menubar: if old(self).menu_grab(event) {
                    old(self).menubar.focused_spec()
                } else {
                    old(self).menubar
                },
                ..*old(self)
            }));
        }
        if self.menubar.receive_events() {
            let res = self.menubar.on_event(event);
            let ghost c2 = *self;
            res.process(self);
            proof {
                assert(c2 == (Cursive {
                    menubar: Menubar {
                        state: c1.menubar.step_spec(event).0,
                        selected_index: c1.menubar.step_spec(event).1 as usize,
                        ..c1.menubar
                    },
                    ..c1
                }));
                assert(old(self).dispatched(event, *self));
            }
        } else {
            let offset: usize = if self.menubar.autohide {
                0
            } else {
                1
            };
            let result = self.root.on_event(event.relativized(Vec2::new(0, offset)));
            let ghost root2 = self.root;
            let ghost c2 = *self;
            result.process(self);
            proof {
                assert(old(self).dispatched(event, *self)) by {
                    assert(c2 == (Cursive { root: root2, ..c1 }));
                    assert(dispatch_witness(root2, result));
                    assert({
                        &&& c1.root.dispatched(
                            event.spec_relativized(
                                Vec2 {
                                    x: 0,
                                    y: if c1.menubar.autohide {
                                        0
                                    } else {
                                        1
                                    },
                                },
                            ),
                            root2,
                            result,
                        )
                        &&& match result {
                            EventResult::Consumed(Some(cb)) => cb.applied(
                                Cursive { root: root2, ..c1 },
                                *self,
                            ),
                            _ => *self == (Cursive { root: root2, ..c1 }),
                        }
                    });
                }
            }
        }
    }
}

/// At the first layer holding a name, and only there, the success of a
/// focus move is decided by whether the named node accepts the focus.
pub proof fn lemma_first_containing_unique(layers: Seq<Child>, name: Seq<char>, li: int)
    requires
        0 <= li < layers.len(),
        layers[li].view.contains_name_spec(name),
        forall|j: int| 0 <= j < li ==> !layers[j].view.contains_name_spec(name),
    ensures
        Cursive::focus_target_ok(layers, name) <==> match layers[li].view.find_by_name_spec(
            name,
        ) {
            Some(t) => t.accepts_focus(),
            None => false,
        },
{
    let accepts = match layers[li].view.find_by_name_spec(name) {
        Some(t) => t.accepts_focus(),
        None => false,
    };
    if accepts {
        assert(Cursive::focus_target_ok(layers, name));
    } else if Cursive::focus_target_ok(layers, name) {
        let li2 = choose|li2: int|
            #![auto]
            {
                &&& 0 <= li2 < layers.len()
                &&& layers[li2].view.contains_name_spec(name)
                &&& forall|j: int| 0 <= j < li2 ==> !layers[j].view.contains_name_spec(name)
                &&& match layers[li2].view.find_by_name_spec(name) {
                    Some(t) => t.accepts_focus(),
                    None => false,
                }
            };
        assert(li2 == li);
    }
}

/// Saturating increment of an idle-frame counter, as a spec-level value.
pub open spec fn bump32(c: u32) -> u32 {
    if c == u32::MAX {
        c
    } else {
        (c + 1) as u32
    }
}

/// How many idle frames are tolerated before a redraw is forced, for a
/// target rate of `fps` frames per second, as a spec-level value: at
/// least one, else the idle budget divided among the frames.
pub open spec fn repeats(fps: u32) -> int {
    let r = 1000int / (INPUT_POLL_DELAY_MS as int) / (fps as int);
    if r < 1 {
        1
    } else {
        r
    }
}

/// Marks a controller value as the intermediate state of a relation
/// chain; used to name the witnesses of the loop relations.
pub open spec fn cursive_witness(c: Cursive) -> bool {
    true
}

/// Marks a controller value and an early-stop flag as the outcome of a
/// drain phase; used to name the witnesses of the loop relations.
pub open spec fn phase_witness(c: Cursive, stopped: bool) -> bool {
    true
}

impl Cursive {
    /// The viewport the tree is laid out against: the screen minus the
    /// top row when the menu bar reserves it, as a spec-level value.
    pub open spec fn viewport_spec(self) -> Vec2 {
        self.backend.spec_screen_size().spec_sub(
            Vec2 {
                x: 0,
                y: if self.menubar.autohide {
                    0
                } else {
                    1
                },
            },
        )
    }

    /// The printer the tree draws with, as a spec-level value: below the
    /// reserved row, unfocused while the menu overlay captures input.
    pub open spec fn tree_printer_spec(self) -> Printer {
        let off = Vec2 {
            x: 0,
            y: if self.menubar.autohide {
                0int
            } else {
                1int
            } as usize,
        };
        Printer {
            offset: (Vec2 { x: 0, y: 0 }).spec_add(off),
            size: self.backend.spec_screen_size().spec_sub(off),
            focused: self.menubar.state == MenubarState::Inactive,
            enabled: true,
        }
    }

    /// The printer the menu bar draws with, as a spec-level value.
    pub open spec fn bar_printer_spec(self) -> Printer {
        Printer {
            offset: Vec2 { x: 0, y: 0 },
            size: self.backend.spec_screen_size(),
            focused: self.menubar.state != MenubarState::Inactive,
            enabled: true,
        }
    }

    /// Whether `post` is `c` after one two-phase layout pass, as a
    /// spec-level value: every layer of the active screen measured and
    /// committed against the viewport; everything else untouched.
    pub open spec fn laid_out(self, post: Cursive) -> bool {
        &&& post == (Cursive { root: post.root, ..self })
        &&& post.root == (OnEventView { inner: post.root.inner, ..self.root })
        &&& post.root.inner.active == self.root.inner.active
        &&& post.root.inner.screens@.len() == self.root.inner.screens@.len()
        &&& forall|j: int|
            0 <= j < self.root.inner.screens@.len() && j != self.root.inner.active
                ==> post.root.inner.screens@[j] == self.root.inner.screens@[j]
        &&& post.active_layers() =~= self.active_layers().map_values(
            |ch: Child| ch.layout_spec(self.viewport_spec()),
        )
    }

    /// Runs the two-phase layout: measure against the viewport, then
    /// commit.
    fn layout(&mut self)
        requires
            old(self).wf(),
        ensures
            old(self).laid_out(*final(self)),
            final(self).wf(),
    {
        let size = self.screen_size();
        let offset: usize = if self.menubar.autohide {
            0
        } else {
            1
        };
        let size = size.saturating_sub(Vec2::new(0, offset));
        self.root.get_inner_mut().layout(size);
    }

    /// Whether `post` is `c` after one draw pass, as a spec-level value:
    /// when any layer's footprint changed since the last frame the
    /// viewport was cleared first (a correctness requirement, since
    /// rendering overwrites a shared cell grid in place); then the
    /// background layers, the menu bar when visible, and the foreground
    /// layers were painted in that order.
    pub open spec fn drawn(self, post: Cursive) -> bool {
        let sizes = self.active_layers().map_values(|ch: Child| ch.size);
        let changed = !(self.last_sizes@ == sizes);
        let layers = self.active_layers();
        let k = fg_boundary_of(layers);
        let tree_p = self.tree_printer_spec();
        let base = if changed {
            Seq::<crate::printer::PaintSpec>::empty()
        } else {
            self.surface.painted()
        };
        &&& post == (Cursive {
            root: post.root,
            last_sizes: post.last_sizes,
            backend: post.backend,
            surface: post.surface,
            ..self
        })
        &&& post.root == (OnEventView { inner: post.root.inner, ..self.root })
        &&& post.root.inner.active == self.root.inner.active
        &&& post.root.inner.screens@.len() == self.root.inner.screens@.len()
        &&& forall|j: int|
            0 <= j < self.root.inner.screens@.len() && j != self.root.inner.active
                ==> post.root.inner.screens@[j] == self.root.inner.screens@[j]
        &&& post.last_sizes@ == sizes
        &&& post.backend == if changed {
            self.backend.cleared()
        } else {
            self.backend
        }
        &&& post.active_layers().len() == layers.len()
        &&& forall|j: int|
            0 <= j < layers.len() ==> post.active_layers()[j] == layers[j].drawn_spec(tree_p)
        &&& post.surface.painted() =~= base + paint_of(layers.subrange(0, k), tree_p) + (
        if self.menubar.autohide && self.menubar.state == MenubarState::Inactive {
            Seq::<crate::printer::PaintSpec>::empty()
        } else {
            bar_paint_from(self.menubar.items@, self.bar_printer_spec(), 0)
        }) + paint_of(layers.subrange(k, layers.len() as int), tree_p)
    }

    /// Draws the frame: background layers, then the menu bar, then the
    /// foreground layers, clearing first when the layer footprints
    /// changed.
    fn draw(&mut self)
        requires
            old(self).wf(),
        ensures
            old(self).drawn(*final(self)),
            final(self).wf(),
    {
        let sizes = self.screen().layer_sizes();
        let same = sizes_eq(&self.last_sizes, &sizes);
        if !same {
            self.clear();
        }
        self.last_sizes = sizes;
        let printer = Printer::new(self.screen_size());
        let selected = self.menubar.receive_events();
        let offset: usize = if self.menubar.autohide {
            0
        } else {
            1
        };
        let sv_printer = printer.offset(Vec2::new(0, offset)).focused(!selected);
        let ghost layers0 = self.active_layers();
        let screens = self.root.get_inner_mut();
        screens.draw_bg(&sv_printer, &mut self.surface);
        if self.menubar.visible() {
            let mprinter = printer.focused(selected);
            self.menubar.draw(&mprinter, &mut self.surface);
        }
        let ghost layers_mid = self.active_layers();
        let screens = self.root.get_inner_mut();
        screens.draw_fg(&sv_printer, &mut self.surface);
        proof {
            let k = fg_boundary_of(layers0);
            crate::views::stack::lemma_fg_boundary_bounds(layers0);
            assert(forall|j: int|
                0 <= j < layers0.len() ==> layers0[j].fullscreen == layers_mid[j].fullscreen);
            crate::views::stack::lemma_fg_boundary_same(layers0, layers_mid);
            assert(layers_mid.subrange(k, layers_mid.len() as int) =~= layers0.subrange(
                k,
                layers0.len() as int,
            ));
        }
    }

    /// Whether `post` is `c` after one full refresh, as a spec-level
    /// value: the idle counter reset, a layout pass, a draw pass, and the
    /// frame presented.
    pub open spec fn refreshed(self, post: Cursive) -> bool {
        exists|c1: Cursive, c2: Cursive|
            {
                &&& #[trigger] cursive_witness(c1)
                &&& #[trigger] cursive_witness(c2)
                &&& (Cursive { boring_frame_count: 0, ..self }).laid_out(c1)
                &&& c1.drawn(c2)
                &&& post == (Cursive { backend: c2.backend.presented(), ..c2 })
            }
    }

    /// Refreshes the screen: resets the idle counter, lays the tree out,
    /// draws it and presents the frame.
    pub fn refresh(&mut self)
        requires
            old(self).wf(),
        ensures
            old(self).refreshed(*final(self)),
            final(self).boring_frame_count == 0,
            final(self).wf(),
    {
        self.boring_frame_count = 0;
        let ghost c0 = *self;
        self.layout();
        let ghost c1 = *self;
        self.draw();
        let ghost c2 = *self;
        self.backend.refresh();
        proof {
            assert(cursive_witness(c1) && cursive_witness(c2));
            assert(c0 == (Cursive { boring_frame_count: 0, ..*old(self) }));
        }
    }
}

/// Whether `a@` and `b@` hold the same sizes.
fn sizes_eq(a: &Vec<Vec2>, b: &Vec<Vec2>) -> (r: bool)
    ensures
        r == (a@ == b@),
{
    let n = a.len();
    if n != b.len() {
        return false;
    }
    let mut i: usize = 0;
    while i < n
        invariant
            i <= n,
            n == a@.len(),
            n == b@.len(),
            forall|j: int| 0 <= j < i ==> a@[j] == b@[j],
        decreases n - i,
    {
        if !(a[i] == b[i]) {
            return false;
        }
        i = i + 1;
    }
    proof {
        assert(a@ =~= b@);
    }
    true
}

/// Marks a pair as the tree and result a dispatch produced; used to
/// name the witnesses of a dispatch relation.
pub open spec fn dispatch_witness(root: OnEventView<ScreensView<StackView>>, res: EventResult) -> bool {
    true
}

/// Whether `b` equals `a` everywhere but in the stashed callbacks, as a
/// spec-level value.
pub open spec fn eq_except_pending(a: Cursive, b: Cursive) -> bool {
    b == (Cursive { pending_cbs: b.pending_cbs, ..a })
}

/// Whether `post` equals `c` except that the active screen's layers and
/// the registered callbacks may differ as views, as a spec-level value:
/// the frame every layer operation preserves.
pub open spec fn layers_frame(c: Cursive, post: Cursive) -> bool {
    &&& post == (Cursive { root: post.root, ..c })
    &&& post.root.pre@ =~= c.root.pre@
    &&& post.root.pre_inner@ =~= c.root.pre_inner@
    &&& post.root.post_inner@ =~= c.root.post_inner@
    &&& post.root.post@ =~= c.root.post@
    &&& post.root.inner.active == c.root.inner.active
    &&& post.root.inner.screens@.len() == c.root.inner.screens@.len()
    &&& forall|j: int|
        0 <= j < c.root.inner.screens@.len() && j != c.root.inner.active
            ==> post.root.inner.screens@[j] == c.root.inner.screens@[j]
}

/// Whether `v` is the debug console view: a scrollable placeholder
/// wrapped under the debug name.
pub open spec fn is_debug_view(v: AnyView) -> bool {
    match v {
        AnyView::Named { name, view } => name@ == "debug_console"@ && match *view {
            AnyView::Scrolled { scroll_x, scroll_y, view } => scroll_x && scroll_y && *view
                == AnyView::Dummy,
            _ => false,
        },
        _ => false,
    }
}

/// Whether `c` is a freshly added debug console layer.
pub open spec fn is_debug_child(c: Child) -> bool {
    &&& !c.fullscreen
    &&& c.size == (Vec2 { x: 0, y: 0 })
    &&& c.offset == (Vec2 { x: 0, y: 0 })
    &&& is_debug_view(c.view)
}

/// Whether `post` is `pre` with the debug console toggled: the first
/// layer holding the debug name removed when one exists, a fresh debug
/// layer appended otherwise.
pub open spec fn debug_toggled(pre: Seq<Child>, post: Seq<Child>) -> bool {
    if forall|j: int| 0 <= j < pre.len() ==> !pre[j].view.contains_name_spec("debug_console"@) {
        &&& post.len() == pre.len() + 1
        &&& post.drop_last() =~= pre
        &&& is_debug_child(post.last())
    } else {
        exists|k: int|
            {
                &&& 0 <= k < pre.len()
                &&& pre[k].view.contains_name_spec("debug_console"@)
                &&& forall|j: int|
                    0 <= j < k ==> !pre[j].view.contains_name_spec("debug_console"@)
                &&& post =~= pre.remove(k)
            }
    }
}

impl Menubar {
    /// The bar after being selected, as a spec-level value.
    pub open spec fn focused_spec(self) -> Menubar {
        if self.items@.len() > 0 && self.state == MenubarState::Inactive {
            Menubar { state: MenubarState::Selected, selected_index: 0, ..self }
        } else {
            self
        }
    }
}

impl Callback {
    /// Whether `post` is `c` after this deferred callback ran, as a
    /// spec-level value.
    pub open spec fn applied(self, c: Cursive, post: Cursive) -> bool {
        match self {
            Callback::Quit => post == (Cursive { running: false, ..c }),
            Callback::Noop => post == c,
            Callback::Clear => {
                &&& post.backend == c.backend.cleared()
                &&& post.surface.painted() =~= Seq::<crate::printer::PaintSpec>::empty()
                &&& post == (Cursive { backend: post.backend, surface: post.surface, ..c })
            },
            Callback::SelectMenubar => {
                &&& post.menubar == c.menubar.focused_spec()
                &&& post == (Cursive { menubar: post.menubar, ..c })
            },
            Callback::Mark(n) => {
                &&& post.marks@ =~= c.marks@.push(n)
                &&& post == (Cursive { marks: post.marks, ..c })
            },
            Callback::PopLayer => {
                &&& layers_frame(c, post)
                &&& if c.active_layers().len() == 0 {
                    post.active_layers() =~= c.active_layers()
                } else {
                    post.active_layers() =~= c.active_layers().drop_last()
                }
            },
            Callback::ShowDebugConsole => {
                &&& layers_frame(c, post)
                &&& post.active_layers().len() == c.active_layers().len() + 1
                &&& post.active_layers().drop_last() =~= c.active_layers()
                &&& is_debug_child(post.active_layers().last())
            },
            Callback::ToggleDebugConsole => {
                &&& layers_frame(c, post)
                &&& debug_toggled(c.active_layers(), post.active_layers())
            },
        }
    }

    /// Runs this deferred callback against the controller. Execution
    /// context is passed explicitly; the callback captures nothing.
    pub fn call(self, s: &mut Cursive)
        requires
            old(s).wf(),
        ensures
            self.applied(*old(s), *final(s)),
            final(s).wf(),
    {
        match self {
            Callback::Quit => s.quit(),
            Callback::Noop => (),
            Callback::Clear => s.clear(),
            Callback::SelectMenubar => s.select_menubar(),
            Callback::Mark(n) => s.marks.push(n),
            Callback::PopLayer => {
                s.pop_layer();
            },
            Callback::ShowDebugConsole => s.show_debug_console(),
            Callback::ToggleDebugConsole => s.toggle_debug_console(),
        }
    }
}

/// Whether `post` is `c` after the input drain loop over `events`, with
/// `stopped` saying whether the loop returned early because a handler
/// stopped the controller, as a spec-level value: each pending event is
/// taken from the backend and dispatched, until none is left or the
/// running flag falls.
pub open spec fn input_phase_rel(c: Cursive, events: Seq<Event>, post: Cursive, stopped: bool) -> bool
    decreases events.len(),
{
    if events.len() == 0 {
        post == c && !stopped
    } else {
        exists|mid: Cursive|
            {
                &&& #[trigger] cursive_witness(mid)
                &&& (Cursive { backend: c.backend.polled(), ..c }).dispatched(events[0], mid)
                &&& if !mid.running {
                    post == mid && stopped
                } else {
                    input_phase_rel(mid, events.skip(1), post, stopped)
                }
            }
    }
}

/// Whether `post` is `c` after running the queued callbacks `cbs` in
/// order, as a spec-level value: each runs against the controller; when
/// one stops the controller, the rest is stashed for the next pass and
/// `stopped` holds.
pub open spec fn cb_phase_rel(c: Cursive, cbs: Seq<Callback>, post: Cursive, stopped: bool) -> bool
    decreases cbs.len(),
{
    if cbs.len() == 0 {
        post == c && !stopped
    } else {
        exists|mid: Cursive|
            {
                &&& #[trigger] cursive_witness(mid)
                &&& cbs[0].applied(c, mid)
                &&& if mid.running {
                    cb_phase_rel(mid, cbs.skip(1), post, stopped)
                } else {
                    &&& eq_except_pending(mid, post)
                    &&& post.pending_cbs@ =~= cbs.skip(1)
                    &&& stopped
                }
            }
    }
}

/// Whether `post` and `r` are the state and report of one event-and-
/// callback pass, given that the channel handed over `received`, as a
/// spec-level value: pending input is dispatched first, stopping at once
/// when the controller stops; then the stashed and freshly received
/// callbacks run in arrival order, stopping the same way. The report
/// says whether anything at all was processed.
pub open spec fn process_rel(c: Cursive, received: Seq<Callback>, post: Cursive, r: bool) -> bool {
    exists|c1: Cursive, stopped1: bool|
        {
            &&& #[trigger] phase_witness(c1, stopped1)
            &&& input_phase_rel(c, c.backend.pending(), c1, stopped1)
            &&& if stopped1 {
                post == c1 && r
            } else {
                exists|c1e: Cursive, stopped2: bool|
                    {
                        &&& #[trigger] phase_witness(c1e, stopped2)
                        &&& eq_except_pending(c1, c1e)
                        &&& c1e.pending_cbs@ =~= Seq::<Callback>::empty()
                        &&& cb_phase_rel(c1e, c1.pending_cbs@ + received, post, stopped2)
                        &&& r == (c.backend.pending().len() > 0 || c1.pending_cbs@.len()
                            + received.len() > 0)
                    }
            }
        }
}

/// Every dispatch leaves the loop bookkeeping alone: the pending input,
/// the channel halves, the idle policy and the stashed callbacks come
/// out as they went in.
pub proof fn lemma_dispatched_frame(c: Cursive, e: Event, post: Cursive)
    requires
        c.dispatched(e, post),
    ensures
        post.backend.pending() =~= c.backend.pending(),
        post.cb_sink == c.cb_sink,
        post.cb_source == c.cb_source,
        post.fps == c.fps,
        post.boring_frame_count == c.boring_frame_count,
        post.pending_cbs == c.pending_cbs,
        post.theme == c.theme,
        post.last_sizes == c.last_sizes,
{
    let c1 = Cursive {
        menubar: if c.menu_grab(e) {
            c.menubar.focused_spec()
        } else {
            c.menubar
        },
        ..c
    };
    if c1.menubar.state != MenubarState::Inactive {
    } else {
        let (root2, res) = choose|root2: OnEventView<ScreensView<StackView>>, res: EventResult|
            {
                &&& #[trigger] dispatch_witness(root2, res)
                &&& c1.root.dispatched(
                    e.spec_relativized(
                        Vec2 {
                            x: 0,
                            y: if c1.menubar.autohide {
                                0
                            } else {
                                1
                            },
                        },
                    ),
                    root2,
                    res,
                )
                &&& match res {
                    EventResult::Consumed(Some(cb)) => cb.applied(Cursive { root: root2, ..c1 }, post),
                    _ => post == (Cursive { root: root2, ..c1 }),
                }
            };
    }
}

impl Cursive {
    /// Dispatches every pending input event, in order. Reports whether
    /// any event was taken and whether the drain stopped early because a
    /// handler stopped the controller.
    fn drain_inputs(&mut self) -> (r: (bool, bool))
        requires
            old(self).wf(),
        ensures
            final(self).wf(),
            input_phase_rel(*old(self), old(self).backend.pending(), *final(self), r.1),
            r.0 == (old(self).backend.pending().len() > 0),
        decreases old(self).backend.pending().len(),
    {
        let polled = self.backend.poll_event();
        match polled {
            None => (false, false),
            Some(e) => {
                let ghost c_polled = *self;
                self.on_event(e);
                let ghost mid = *self;
                proof {
                    lemma_dispatched_frame(c_polled, e, mid);
                    assert(cursive_witness(mid));
                }
                if !self.running {
                    (true, true)
                } else {
                    let rec = self.drain_inputs();
                    (true, rec.1)
                }
            },
        }
    }

    /// Runs the queued callbacks from `i` on, in order, against the
    /// controller; when one stops it, stashes the rest for the next pass
    /// and reports the early stop.
    fn run_queue(&mut self, queue: &Vec<Callback>, i: usize) -> (stopped: bool)
        requires
            old(self).wf(),
            i <= queue@.len(),
        ensures
            final(self).wf(),
            cb_phase_rel(*old(self), queue@.skip(i as int), *final(self), stopped),
        decreases queue@.len() - i,
    {
        if i == queue.len() {
            proof {
                assert(queue@.skip(i as int) =~= Seq::<Callback>::empty());
            }
            false
        } else {
            let cb = queue[i];
            cb.call(self);
            let ghost mid = *self;
            proof {
                assert(cursive_witness(mid));
                assert(queue@.skip(i as int)[0] == queue@[i as int]);
                assert(queue@.skip(i as int).skip(1) =~= queue@.skip(i + 1));
            }
            if !self.running {
                let mut rest: Vec<Callback> = Vec::new();
                let n = queue.len();
                let mut j: usize = i + 1;
                while j < n
                    invariant
                        i + 1 <= j <= n,
                        n == queue@.len(),
                        rest@ =~= queue@.subrange(i + 1, j as int),
                        *self == mid,
                    decreases n - j,
                {
                    rest.push(queue[j]);
                    j = j + 1;
                }
                proof {
                    assert(queue@.subrange(i + 1, n as int) =~= queue@.skip(i + 1));
                }
                self.pending_cbs = rest;
                true
            } else {
                self.run_queue(queue, i + 1)
            }
        }
    }

    /// Performs the first half of a step: dispatches every pending input
    /// event, then drains the cross-thread callback queue without
    /// blocking, running each callback in arrival order. Stops early, and
    /// still reports that something happened, the instant the running
    /// flag falls. Reports whether any event or callback was processed.
    pub fn process_events(&mut self) -> (r: bool)
        requires
            old(self).wf(),
        ensures
            final(self).wf(),
            exists|received: Seq<Callback>|
                #[trigger] process_rel(*old(self), received, *final(self), r),
    {
        let drained_inputs = self.drain_inputs();
        let ghost c1 = *self;
        proof {
            assert(cursive_witness(c1));
        }
        if drained_inputs.1 {
            proof {
                assert(phase_witness(c1, true));
                assert(process_rel(*old(self), Seq::<Callback>::empty(), *self, true));
            }
            return true;
        }
        let mut queue: Vec<Callback> = Vec::new();
        core::mem::swap(&mut queue, &mut self.pending_cbs);
        let ghost c1e = *self;
        let drained = crate::channel::drain_callbacks(&self.cb_source);
        let n = drained.len();
        let mut k: usize = 0;
        while k < n
            invariant
                k <= n,
                n == drained@.len(),
                queue@ =~= c1.pending_cbs@ + drained@.subrange(0, k as int),
                *self == c1e,
            decreases n - k,
        {
            queue.push(drained[k]);
            k = k + 1;
        }
        proof {
            assert(queue@ =~= c1.pending_cbs@ + drained@);
            assert(cursive_witness(c1e));
        }
        let stopped = self.run_queue(&queue, 0);
        let r = drained_inputs.0 || queue.len() > 0;
        proof {
            assert(queue@.skip(0) =~= queue@);
            assert(phase_witness(c1, false));
            assert(phase_witness(c1e, stopped));
            assert(process_rel(*old(self), drained@, *self, r));
        }
        r
    }

    /// Performs the second half of a step. When something was processed,
    /// the frame is redrawn at once. When nothing was, the idle-frame
    /// counter grows; once the frame-rate policy's threshold is crossed a
    /// synthetic refresh tick is dispatched - so periodic consumers still
    /// get it - and exactly one redraw runs, restarting the count. With
    /// auto-refresh disabled an idle pass draws nothing at all.
    pub fn post_events(&mut self, received_something: bool)
        requires
            old(self).wf(),
        ensures
            final(self).wf(),
            received_something ==> old(self).refreshed(*final(self)),
            !received_something && !(old(self).fps > 0 && old(self).boring_frame_count as int
                >= repeats(old(self).fps)) ==> *final(self) == (Cursive {
                boring_frame_count: bump32(old(self).boring_frame_count),
                ..*old(self)
            }),
            !received_something && old(self).fps > 0 && old(self).boring_frame_count as int
                >= repeats(old(self).fps) ==> {
                &&& exists|mid: Cursive, mid2: Cursive|
                    {
                        &&& #[trigger] cursive_witness(mid)
                        &&& #[trigger] cursive_witness(mid2)
                        &&& old(self).dispatched(Event::Refresh, mid)
                        &&& mid.refreshed(mid2)
                        &&& *final(self) == (Cursive {
                            boring_frame_count: bump32(mid2.boring_frame_count),
                            ..mid2
                        })
                    }
                &&& final(self).boring_frame_count == 1
            },
    {
        let boring = !received_something;
        let refresh_now = if !boring {
            true
        } else if self.fps > 0 {
            let base: u32 = (1000u64 / INPUT_POLL_DELAY_MS) as u32;
            let reps: u32 = base / self.fps;
            let reps: u32 = if reps == 0 {
                1
            } else {
                reps
            };
            self.boring_frame_count >= reps
        } else {
            false
        };
        if refresh_now {
            if boring {
                self.on_event(Event::Refresh);
            }
            let ghost mid = *self;
            self.refresh();
            let ghost mid2 = *self;
            proof {
                assert(cursive_witness(mid) && cursive_witness(mid2));
            }
        }
        if boring {
            if self.boring_frame_count < u32::MAX {
                self.boring_frame_count = self.boring_frame_count + 1;
            }
        }
    }

    /// Performs a single step of the event loop: processes pending input
    /// and callbacks, then redraws or counts the idle frame. Reports
    /// whether anything was processed.
    pub fn step(&mut self) -> (r: bool)
        requires
            old(self).wf(),
        ensures
            final(self).wf(),
            exists|received: Seq<Callback>, mid: Cursive|
                {
                    &&& #[trigger] process_rel(*old(self), received, mid, r)
                    &&& (r ==> mid.refreshed(*final(self)))
                    &&& (!r && !(mid.fps > 0 && mid.boring_frame_count as int >= repeats(mid.fps))
                        ==> *final(self) == (Cursive {
                        boring_frame_count: bump32(mid.boring_frame_count),
                        ..mid
                    }))
                },
    {
        let received_something = self.process_events();
        let ghost mid = *self;
        self.post_events(received_something);
        proof {
            assert(cursive_witness(mid));
        }
        received_something
    }
}

impl EventResult {
    /// Runs the attached deferred callback, if the event was consumed
    /// with one; otherwise does nothing.
    pub fn process(self, s: &mut Cursive)
        requires
            old(s).wf(),
        ensures
            match self {
                EventResult::Consumed(Some(cb)) => cb.applied(*old(s), *final(s)),
                _ => *final(s) == *old(s),
            },
            final(s).wf(),
    {
        match self {
            EventResult::Consumed(Some(cb)) => cb.call(s),
            _ => (),
        }
    }
}

} // verus!
