//! The application's reactions to the window system: a state and an event go
//! in, the next state and the one thing for the caller to do come out.

use vstd::prelude::*;

use crate::events::{ElementState, PhysicalKey, UserEvent, WindowEvent};
use crate::state::GraphicsState;
use crate::surface::PhysicalSize;

verus! {

/// The width of a new window's drawable area, in logical pixels.
pub const WINDOW_WIDTH: u32 = 1280;

/// The height of a new window's drawable area, in logical pixels.
pub const WINDOW_HEIGHT: u32 = 720;

/// The title of the window.
pub const WINDOW_TITLE: &'static str = "msdftext";

/// What the caller is to do after an event.
#[derive(Clone, Copy, Debug, PartialEq, Eq, Structural)]
pub enum AppAction {
    /// Nothing.
    Nothing,
    /// Create the window and set its title. On a native target, set up the
    /// GPU state for it and report with `window_created`; on the web, report
    /// with `window_awaiting_graphics`.
    CreateWindow,
    /// Start setting up the GPU state for the window in the background; it
    /// comes back as `UserEvent::WasmGraphicsInitialized`.
    SetUpGraphicsInBackground,
    /// Leave the event loop.
    Exit,
    /// Configure the surface with the configuration of the GPU state.
    ConfigureSurface,
    /// Draw a frame.
    Render,
    /// Make the window borderless fullscreen (`true`) or windowed (`false`).
    SetFullscreen(bool),
    /// Ask the window for a redraw.
    RequestRedraw,
}

/// The application: whether its window exists, its GPU state if set up, and
/// whether it can still start a background setup of the GPU state (which it
/// does at most once).
pub struct App {
    has_window: bool,
    state: Option<GraphicsState>,
    background_setup_available: bool,
}

/// Resuming asks for a window and GPU state, unless the GPU state is already
/// there; it changes nothing.
pub open spec fn resumed_step(before: App, after: App, action: AppAction) -> bool {
    &&& after == before
    &&& action == if before.spec_state() is Some {
        AppAction::Nothing
    } else {
        AppAction::CreateWindow
    }
}

/// Once the window exists, the GPU state it got is kept; without one the
/// application exits.
pub open spec fn window_created_step(
    before: App,
    graphics: Option<GraphicsState>,
    after: App,
    action: AppAction,
) -> bool {
    &&& after.spec_has_window()
    &&& after.spec_background_setup_available() == before.spec_background_setup_available()
    &&& after.spec_state() == if graphics is Some {
        graphics
    } else {
        before.spec_state()
    }
    &&& action == if graphics is Some {
        AppAction::Nothing
    } else {
        AppAction::Exit
    }
}

/// Once the window exists while its GPU state is still to come (web), a
/// background setup is started if none was yet; the application does not
/// exit, and its GPU state stays as it was.
pub open spec fn window_awaiting_graphics_step(before: App, after: App, action: AppAction) -> bool {
    &&& after.spec_has_window()
    &&& after.spec_state() == before.spec_state()
    &&& !after.spec_background_setup_available()
    &&& action == if before.spec_background_setup_available() {
        AppAction::SetUpGraphicsInBackground
    } else {
        AppAction::Nothing
    }
}

/// Suspending drops the GPU state and keeps the window.
pub open spec fn suspended_step(before: App, after: App) -> bool {
    &&& after.spec_has_window() == before.spec_has_window()
    &&& after.spec_background_setup_available() == before.spec_background_setup_available()
    &&& after.spec_state() is None
}

/// GPU state set up in the background is kept, and a window that exists is
/// asked to redraw; a redraw request changes nothing.
pub open spec fn user_event_step(before: App, event: UserEvent, after: App, action: AppAction) -> bool {
    match event {
        UserEvent::WasmGraphicsInitialized(s) => {
            &&& after.spec_has_window() == before.spec_has_window()
            &&& after.spec_background_setup_available()
                == before.spec_background_setup_available()
            &&& after.spec_state() == Some(s)
            &&& action == if before.spec_has_window() {
                AppAction::RequestRedraw
            } else {
                AppAction::Nothing
            }
        },
        UserEvent::RedrawRequest => after == before && action == AppAction::Nothing,
    }
}

/// The reaction to a window event. Without a window or GPU state nothing
/// happens. Otherwise: closing exits; a resize resizes the GPU state and asks
/// for the surface to be configured when the new size has area; a redraw
/// draws when the surface is configured; a fresh press of Escape exits; a
/// fresh press of F11 switches between fullscreen and windowed; nothing else
/// does anything.
pub open spec fn window_event_step(
    before: App,
    event: WindowEvent,
    is_fullscreen: bool,
    after: App,
    action: AppAction,
) -> bool {
    if !before.spec_has_window() || before.spec_state() is None {
        after == before && action == AppAction::Nothing
    } else {
        let s = before.spec_state()->0;
        match event {
            WindowEvent::Resized(size) => {
                &&& after.spec_has_window() == before.spec_has_window()
                &&& after.spec_background_setup_available()
                    == before.spec_background_setup_available()
                &&& after.spec_state() matches Some(t) && t.is_resized_from(s, size.width, size.height)
                &&& action == if size.width > 0 && size.height > 0 {
                    AppAction::ConfigureSurface
                } else {
                    AppAction::Nothing
                }
            },
            _ => {
                &&& after == before
                &&& action == match event {
                    WindowEvent::CloseRequested => AppAction::Exit,
                    WindowEvent::RedrawRequested => if s.spec_is_surface_configured() {
                        AppAction::Render
                    } else {
                        AppAction::Nothing
                    },
                    WindowEvent::KeyboardInput { physical_key, repeat, state } => {
                        if repeat || state != ElementState::Pressed {
                            AppAction::Nothing
                        } else if physical_key == PhysicalKey::Escape {
                            AppAction::Exit
                        } else if physical_key == PhysicalKey::F11 {
                            AppAction::SetFullscreen(!is_fullscreen)
                        } else {
                            AppAction::Nothing
                        }
                    },
                    _ => AppAction::Nothing,
                }
            },
        }
    }
}

/// After the application was suspended, resuming asks for a new window and
/// GPU state.
pub proof fn lemma_resume_after_suspend_recreates(a: App, b: App, c: App, r: AppAction)
    requires
        suspended_step(a, b),
        resumed_step(b, c, r),
    ensures
        r == AppAction::CreateWindow,
{
}

/// Once the window got its GPU state, resuming again changes nothing and asks
/// for nothing.
pub proof fn lemma_resume_after_setup_is_quiet(
    a: App,
    g: GraphicsState,
    b: App,
    c: App,
    r1: AppAction,
    r2: AppAction,
)
    requires
        window_created_step(a, Some(g), b, r1),
        resumed_step(b, c, r2),
    ensures
        r1 == AppAction::Nothing,
        r2 == AppAction::Nothing,
        c == b,
{
}

/// While suspended, the application ignores every window event.
pub proof fn lemma_suspended_ignores_window_events(
    a: App,
    b: App,
    event: WindowEvent,
    is_fullscreen: bool,
    c: App,
    r: AppAction,
)
    requires
        suspended_step(a, b),
        window_event_step(b, event, is_fullscreen, c, r),
    ensures
        r == AppAction::Nothing,
        c == b,
{
}

/// Pressing F11 twice leaves fullscreen as it was: the first press switches
/// it, the second switches it back, and the application is unchanged.
pub proof fn lemma_fullscreen_toggles_back(
    a: App,
    is_fullscreen: bool,
    b: App,
    c: App,
    r1: AppAction,
    r2: AppAction,
)
    requires
        a.spec_has_window(),
        a.spec_state() is Some,
        window_event_step(a, f11_press(), is_fullscreen, b, r1),
        window_event_step(b, f11_press(), !is_fullscreen, c, r2),
    ensures
        r1 == AppAction::SetFullscreen(!is_fullscreen),
        r2 == AppAction::SetFullscreen(is_fullscreen),
        c == a,
{
}

/// On the web, resuming creates the window and starts one background setup
/// of the GPU state; the application keeps running meanwhile, and when the
/// state arrives it is kept and the window is asked to redraw.
pub proof fn lemma_web_resume_sets_up_in_background(
    a: App,
    b: App,
    c: App,
    g: GraphicsState,
    d: App,
    r1: AppAction,
    r2: AppAction,
    r3: AppAction,
)
    requires
        a.spec_state() is None,
        a.spec_background_setup_available(),
        resumed_step(a, b, r1),
        window_awaiting_graphics_step(b, c, r2),
        user_event_step(c, UserEvent::WasmGraphicsInitialized(g), d, r3),
    ensures
        r1 == AppAction::CreateWindow,
        r2 == AppAction::SetUpGraphicsInBackground,
        c.spec_has_window(),
        c.spec_state() is None,
        r3 == AppAction::RequestRedraw,
        d.spec_state() == Some(g),
{
}

/// The background setup of the GPU state is started at most once.
pub proof fn lemma_background_setup_once(a: App, b: App, c: App, r1: AppAction, r2: AppAction)
    requires
        window_awaiting_graphics_step(a, b, r1),
        window_awaiting_graphics_step(b, c, r2),
    ensures
        r2 == AppAction::Nothing,
{
}

/// With a window and GPU state, closing the window and a fresh press of
/// Escape both exit and change nothing, whether or not the window is
/// fullscreen.
pub proof fn lemma_close_and_escape_exit(
    a: App,
    event: WindowEvent,
    is_fullscreen: bool,
    b: App,
    r: AppAction,
)
    requires
        a.spec_has_window(),
        a.spec_state() is Some,
        event == WindowEvent::CloseRequested || event == escape_press(),
        window_event_step(a, event, is_fullscreen, b, r),
    ensures
        r == AppAction::Exit,
        b == a,
{
}

/// Whether the window is fullscreen matters only to a fresh press of F11:
/// for every other event, the action and the resulting application are the
/// same either way.
pub proof fn lemma_only_f11_reads_fullscreen(
    a: App,
    event: WindowEvent,
    b1: App,
    r1: AppAction,
    b2: App,
    r2: AppAction,
)
    requires
        event != f11_press(),
        window_event_step(a, event, false, b1, r1),
        window_event_step(a, event, true, b2, r2),
    ensures
        r1 == r2,
        b1.spec_has_window() == b2.spec_has_window(),
        b1.spec_background_setup_available() == b2.spec_background_setup_available(),
        b1.spec_state() is Some <==> b2.spec_state() is Some,
{
}

/// A fresh press of Escape.
pub open spec fn escape_press() -> WindowEvent {
    WindowEvent::KeyboardInput {
        physical_key: PhysicalKey::Escape,
        repeat: false,
        state: ElementState::Pressed,
    }
}

/// A fresh press of F11.
pub open spec fn f11_press() -> WindowEvent {
    WindowEvent::KeyboardInput {
        physical_key: PhysicalKey::F11,
        repeat: false,
        state: ElementState::Pressed,
    }
}

/// After a resize, the next redraw draws exactly when the new size has area.
pub proof fn lemma_redraw_after_resize(
    a: App,
    size: PhysicalSize,
    f1: bool,
    b: App,
    r1: AppAction,
    f2: bool,
    c: App,
    r2: AppAction,
)
    requires
        a.spec_has_window(),
        a.spec_state() is Some,
        window_event_step(a, WindowEvent::Resized(size), f1, b, r1),
        window_event_step(b, WindowEvent::RedrawRequested, f2, c, r2),
    ensures
        r2 == AppAction::Render <==> (size.width > 0 && size.height > 0),
        r1 == AppAction::ConfigureSurface <==> (size.width > 0 && size.height > 0),
{
}

impl App {
    pub closed spec fn spec_has_window(self) -> bool {
        self.has_window
    }

    pub closed spec fn spec_state(self) -> Option<GraphicsState> {
        self.state
    }

    pub closed spec fn spec_background_setup_available(self) -> bool {
        self.background_setup_available
    }

    /// An application with no window and no GPU state yet, which can still
    /// set up its GPU state in the background.
    pub fn new() -> (r: App)
        ensures
            !r.spec_has_window(),
            r.spec_state() is None,
            r.spec_background_setup_available(),
    {
        App { has_window: false, state: None, background_setup_available: true }
    }

    /// Whether the window exists.
    pub fn has_window(&self) -> (r: bool)
        ensures
            r == self.spec_has_window(),
    {
        self.has_window
    }

    /// The GPU state, if set up.
    pub fn graphics(&self) -> (r: Option<&GraphicsState>)
        ensures
            r == match self.spec_state() {
                Some(s) => Some(&s),
                None => None,
            },
    {
        match &self.state {
            Some(s) => Some(s),
            None => None,
        }
    }

    /// The application came (back) to the foreground.
    pub fn resumed(&mut self) -> (r: AppAction)
        ensures
            resumed_step(*old(self), *final(self), r),
    {
        if self.state.is_some() {
            return AppAction::Nothing;
        }
        AppAction::CreateWindow
    }

    /// The window was created, and the GPU state for it set up (`Some`) or
    /// not (`None`).
    pub fn window_created(&mut self, graphics: Option<GraphicsState>) -> (r: AppAction)
        ensures
            window_created_step(*old(self), graphics, *final(self), r),
    {
        self.has_window = true;
        match graphics {
            Some(s) => {
                self.state = Some(s);
                AppAction::Nothing
            },
            None => AppAction::Exit,
        }
    }

    /// The window was created, and its GPU state is to be set up in the
    /// background (web).
    pub fn window_awaiting_graphics(&mut self) -> (r: AppAction)
        ensures
            window_awaiting_graphics_step(*old(self), *final(self), r),
    {
        self.has_window = true;
        if self.background_setup_available {
            self.background_setup_available = false;
            AppAction::SetUpGraphicsInBackground
        } else {
            AppAction::Nothing
        }
    }

    /// The application went to the background.
    pub fn suspended(&mut self)
        ensures
            suspended_step(*old(self), *final(self)),
    {
        self.state = None;
    }

    /// An event the application sent to itself.
    pub fn user_event(&mut self, event: UserEvent) -> (r: AppAction)
        ensures
            user_event_step(*old(self), event, *final(self), r),
    {
        match event {
            UserEvent::WasmGraphicsInitialized(s) => {
                self.state = Some(s);
                if self.has_window {
                    AppAction::RequestRedraw
                } else {
                    AppAction::Nothing
                }
            },
            UserEvent::RedrawRequest => AppAction::Nothing,
        }
    }

    /// An event of the window; `is_fullscreen` tells whether the window is
    /// fullscreen now.
    pub fn window_event(&mut self, event: WindowEvent, is_fullscreen: bool) -> (r: AppAction)
        ensures
            window_event_step(*old(self), event, is_fullscreen, *final(self), r),
    {
        if !self.has_window {
            return AppAction::Nothing;
        }
        let mut state = match self.state.take() {
            Some(s) => s,
            None => return AppAction::Nothing,
        };
        let action = match event {
            WindowEvent::CloseRequested => AppAction::Exit,
            WindowEvent::Resized(size) => {
                if state.resize(size.width, size.height) {
                    AppAction::ConfigureSurface
                } else {
                    AppAction::Nothing
                }
            },
            WindowEvent::RedrawRequested => {
                if state.render() {
                    AppAction::Render
                } else {
                    AppAction::Nothing
                }
            },
            WindowEvent::KeyboardInput { physical_key, repeat, state: key_state } => {
                match (physical_key, repeat, key_state) {
                    (PhysicalKey::Escape, false, ElementState::Pressed) => AppAction::Exit,
                    (PhysicalKey::F11, false, ElementState::Pressed) => {
                        if !is_fullscreen {
                            AppAction::SetFullscreen(true)
                        } else {
                            AppAction::SetFullscreen(false)
                        }
                    },
                    _ => AppAction::Nothing,
                }
            },
            WindowEvent::Other => AppAction::Nothing,
        };
        self.state = Some(state);
        action
    }
}

} // verus!
