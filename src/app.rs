use vstd::prelude::*;
use crate::input::{key_movement, movement_for_key, KeyCode, KeyState, Movement};

verus! {

/// The application before and after its window and render context exist.
/// The only transition is the window becoming ready.
pub enum App<S> {
    Uninitialized,
    Initialized(S),
}

/// What the windowing layer reports.
#[derive(Clone, Copy, Debug, PartialEq, Eq, Structural)]
pub enum WindowEvent {
    CloseRequested,
    RedrawRequested,
    Resized { width: u32, height: u32 },
    KeyboardInput { code: KeyCode, state: KeyState },
    Other,
}

/// What is to be done about an event.
#[derive(Clone, Copy, Debug, PartialEq, Eq, Structural)]
pub enum Action {
    /// Nothing: the event is not handled, or there is no context yet.
    Ignore,
    /// Leave the event loop.
    Exit,
    /// Run the update callback, then render and present a frame.
    Redraw,
    /// Reconfigure the surface, depth buffer and aspect ratio for a new size.
    Resize { width: u32, height: u32 },
    /// Move the camera.
    Move(Movement),
}

/// The action for `event`; before initialization every event is rejected.
pub open spec fn event_action(initialized: bool, event: WindowEvent) -> Action {
    if !initialized {
        Action::Ignore
    } else {
        match event {
            WindowEvent::CloseRequested => Action::Exit,
            WindowEvent::RedrawRequested => Action::Redraw,
            WindowEvent::Resized { width, height } => Action::Resize { width, height },
            WindowEvent::KeyboardInput { code, state } => match key_movement(code, state) {
                Some(m) => Action::Move(m),
                None => Action::Ignore,
            },
            WindowEvent::Other => Action::Ignore,
        }
    }
}

impl<S> App<S> {
    pub fn new() -> (a: App<S>)
        ensures
            a is Uninitialized,
    {
        App::Uninitialized
    }

    /// Whether a context still has to be made for the window.
    pub fn needs_context(&self) -> (r: bool)
        ensures
            r == self is Uninitialized,
    {
        match self {
            App::Uninitialized => true,
            App::Initialized(_) => false,
        }
    }

    /// The window is ready: an uninitialized application takes `context`; one that
    /// already has a context keeps it.
    pub fn resumed(&mut self, context: S)
        ensures
            *old(self) is Uninitialized ==> *final(self) == App::Initialized(context),
            *old(self) is Initialized ==> *final(self) == *old(self),
    {
        if self.needs_context() {
            *self = App::Initialized(context);
        }
    }

    /// Decides what to do about a window event.
    pub fn window_event(&self, event: WindowEvent) -> (r: Action)
        ensures
            r == event_action(self is Initialized, event),
    {
        if self.needs_context() {
            return Action::Ignore;
        }
        match event {
            WindowEvent::CloseRequested => Action::Exit,
            WindowEvent::RedrawRequested => Action::Redraw,
            WindowEvent::Resized { width, height } => Action::Resize { width, height },
            WindowEvent::KeyboardInput { code, state } => match movement_for_key(code, state) {
                Some(m) => Action::Move(m),
                None => Action::Ignore,
            },
            WindowEvent::Other => Action::Ignore,
        }
    }
}

} // verus!
