//! The viewer's lifecycle: waiting for a window, then running.
//!
//! The application is a state machine over the events of the window system.
//! Each step takes an event, moves to the next state and names the one thing
//! the caller has to do for it.

use vstd::prelude::*;

use crate::graphics::{
    frame_commands, CameraUpdate, DeviceEvent, Graphics, GraphicsView, PhysicalSize,
    RenderCommand, WindowEvent,
};

verus! {

/// Where the viewer is in its life.
#[derive(Debug)]
pub enum State {
    /// The graphics state is live.
    Ready(Graphics),
    /// Not yet running. The flag tells whether start-up is still to be
    /// launched; once launched it is not launched again.
    Init(bool),
}

/// What a [`State`] is.
pub enum StateView {
    Ready(GraphicsView),
    Init(bool),
}

impl View for State {
    type V = StateView;

    open spec fn view(&self) -> StateView {
        match self {
            State::Ready(gfx) => StateView::Ready(gfx@),
            State::Init(pending) => StateView::Init(*pending),
        }
    }
}

/// What the caller has to do after a step.
#[derive(Clone, Debug, PartialEq, Eq)]
pub enum Action {
    /// Nothing.
    Idle,
    /// Create the window, acquire the GPU, load the asset, and hand the
    /// graphics state back through `user_event`.
    Launch,
    /// Ask the window for a redraw.
    RequestRedraw,
    /// Reconfigure the surface to this size, recreate the depth buffer and
    /// upload the camera.
    Reconfigure(PhysicalSize),
    /// Upload the camera, then record these commands in one render pass,
    /// submit it and present.
    Render(Vec<RenderCommand>),
    /// Leave the event loop.
    Exit,
    /// Update the camera.
    Camera(CameraUpdate),
}

/// What an [`Action`] is.
pub enum ActionView {
    Idle,
    Launch,
    RequestRedraw,
    Reconfigure(PhysicalSize),
    Render(Seq<RenderCommand>),
    Exit,
    Camera(CameraUpdate),
}

impl View for Action {
    type V = ActionView;

    open spec fn view(&self) -> ActionView {
        match self {
            Action::Idle => ActionView::Idle,
            Action::Launch => ActionView::Launch,
            Action::RequestRedraw => ActionView::RequestRedraw,
            Action::Reconfigure(size) => ActionView::Reconfigure(*size),
            Action::Render(commands) => ActionView::Render(commands@),
            Action::Exit => ActionView::Exit,
            Action::Camera(update) => ActionView::Camera(*update),
        }
    }
}

/// The state after the window system resumed the application.
pub open spec fn after_resumed(state: StateView) -> StateView {
    match state {
        StateView::Init(true) => StateView::Init(false),
        _ => state,
    }
}

/// What to do when the window system resumed the application: launch
/// start-up, once.
pub open spec fn resumed_action(state: StateView) -> ActionView {
    match state {
        StateView::Init(true) => ActionView::Launch,
        _ => ActionView::Idle,
    }
}

/// The state after a window event. Only a running viewer changes: a resize
/// sets the surface size, other events go to the graphics state.
pub open spec fn after_window_event(state: StateView, event: WindowEvent) -> StateView {
    match state {
        StateView::Ready(gfx) => match event {
            WindowEvent::Resized(size) => StateView::Ready(gfx.resized(size)),
            WindowEvent::RedrawRequested => state,
            WindowEvent::CloseRequested => state,
            _ => StateView::Ready(gfx.after_window_event(event)),
        },
        StateView::Init(_) => state,
    }
}

/// What to do for a window event. A close request ends the loop in any
/// state; everything else only concerns a running viewer.
pub open spec fn window_event_action(state: StateView, event: WindowEvent) -> ActionView {
    match event {
        WindowEvent::CloseRequested => ActionView::Exit,
        WindowEvent::Resized(size) => match state {
            StateView::Ready(gfx) => ActionView::Reconfigure(
                PhysicalSize { width: gfx.resized(size).width, height: gfx.resized(size).height },
            ),
            StateView::Init(_) => ActionView::Idle,
        },
        WindowEvent::RedrawRequested => match state {
            StateView::Ready(gfx) => ActionView::Render(frame_commands(gfx.model)),
            StateView::Init(_) => ActionView::Idle,
        },
        _ => match state {
            StateView::Ready(gfx) => ActionView::Camera(gfx.window_camera_update(event)),
            StateView::Init(_) => ActionView::Idle,
        },
    }
}

/// What to do for a device event.
pub open spec fn device_event_action(state: StateView, event: DeviceEvent) -> ActionView {
    match state {
        StateView::Ready(gfx) => ActionView::Camera(gfx.device_camera_update(event)),
        StateView::Init(_) => ActionView::Idle,
    }
}

/// What to do when the event queue ran empty: a running viewer draws again.
pub open spec fn about_to_wait_action(state: StateView) -> ActionView {
    match state {
        StateView::Ready(_) => ActionView::RequestRedraw,
        StateView::Init(_) => ActionView::Idle,
    }
}

/// The application.
#[derive(Debug)]
pub struct App {
    state: State,
}

impl View for App {
    type V = StateView;

    closed spec fn view(&self) -> StateView {
        self.state@
    }
}

impl App {
    /// An application that has not started yet.
    pub fn new() -> (r: App)
        ensures
            r@ == StateView::Init(true),
    {
        App { state: State::Init(true) }
    }

    /// The graphics state, once the viewer is running.
    pub fn graphics(&self) -> (r: Option<&Graphics>)
        ensures
            match r {
                Some(gfx) => self@ == StateView::Ready(gfx@),
                None => self@ is Init,
            },
    {
        match &self.state {
            State::Ready(gfx) => Some(gfx),
            State::Init(_) => None,
        }
    }

    /// Whether start-up is still to be launched.
    pub fn launch_pending(&self) -> (r: bool)
        ensures
            r == (self@ == StateView::Init(true)),
    {
        match &self.state {
            State::Ready(_) => false,
            State::Init(pending) => *pending,
        }
    }

    /// The window system resumed the application.
    pub fn resumed(&mut self) -> (action: Action)
        ensures
            final(self)@ == after_resumed(old(self)@),
            action@ == resumed_action(old(self)@),
    {
        if self.launch_pending() {
            self.state = State::Init(false);
            Action::Launch
        } else {
            Action::Idle
        }
    }

    /// Start-up finished and hands over the graphics state: the viewer runs
    /// from now on.
    pub fn user_event(&mut self, graphics: Graphics) -> (action: Action)
        ensures
            final(self)@ == StateView::Ready(graphics@),
            action@ == ActionView::RequestRedraw,
    {
        self.state = State::Ready(graphics);
        Action::RequestRedraw
    }

    /// The surface was resized.
    fn resized(&mut self, size: PhysicalSize) -> (action: Action)
        ensures
            final(self)@ == after_window_event(old(self)@, WindowEvent::Resized(size)),
            action@ == window_event_action(old(self)@, WindowEvent::Resized(size)),
    {
        match &mut self.state {
            State::Ready(gfx) => {
                gfx.resize(size);
                Action::Reconfigure(PhysicalSize { width: gfx.width(), height: gfx.height() })
            },
            State::Init(_) => Action::Idle,
        }
    }

    /// A redraw is due.
    fn draw(&self) -> (action: Action)
        ensures
            action@ == window_event_action(self@, WindowEvent::RedrawRequested),
    {
        match &self.state {
            State::Ready(gfx) => Action::Render(gfx.draw()),
            State::Init(_) => Action::Idle,
        }
    }

    /// A window event arrived.
    pub fn window_event(&mut self, event: &WindowEvent) -> (action: Action)
        ensures
            final(self)@ == after_window_event(old(self)@, *event),
            action@ == window_event_action(old(self)@, *event),
    {
        match event {
            WindowEvent::Resized(size) => self.resized(*size),
            WindowEvent::RedrawRequested => self.draw(),
            WindowEvent::CloseRequested => Action::Exit,
            other => {
                match &mut self.state {
                    State::Ready(gfx) => Action::Camera(gfx.handle_window_event(other)),
                    State::Init(_) => Action::Idle,
                }
            },
        }
    }

    /// A device event arrived.
    pub fn device_event(&self, event: &DeviceEvent) -> (action: Action)
        ensures
            action@ == device_event_action(self@, *event),
    {
        match &self.state {
            State::Ready(gfx) => Action::Camera(gfx.handle_device_event(event)),
            State::Init(_) => Action::Idle,
        }
    }

    /// The event queue ran empty.
    pub fn about_to_wait(&self) -> (action: Action)
        ensures
            action@ == about_to_wait_action(self@),
    {
        match &self.state {
            State::Ready(_) => Action::RequestRedraw,
            State::Init(_) => Action::Idle,
        }
    }
}

impl StateView {
    /// A running viewer has a surface that is not empty and a model with a
    /// material.
    pub open spec fn wf(self) -> bool {
        match self {
            StateView::Ready(gfx) => gfx.wf(),
            StateView::Init(_) => true,
        }
    }
}

/// Start-up is launched once: the first resume launches it, and no resume
/// after that does.
pub proof fn lemma_launch_once(state: StateView)
    ensures
        resumed_action(state) is Launch <==> state == StateView::Init(true),
        resumed_action(after_resumed(state)) is Idle,
        after_resumed(after_resumed(state)) == after_resumed(state),
{
}

/// A running viewer stays running, and keeps a surface that is not empty,
/// whatever window event arrives; a viewer that is not running stays as it
/// is.
pub proof fn lemma_window_event_keeps_running(state: StateView, event: WindowEvent)
    requires
        state.wf(),
    ensures
        after_window_event(state, event).wf(),
        state is Ready <==> after_window_event(state, event) is Ready,
        state is Init ==> after_window_event(state, event) == state,
        state matches StateView::Ready(gfx) ==> after_window_event(state, event)->Ready_0.model
            == gfx.model,
{
}

/// No surface of width or height zero is ever asked for: every reconfigure
/// names a size of at least one by one, the size the state then holds.
pub proof fn lemma_reconfigure_never_empty(state: StateView, event: WindowEvent)
    ensures
        window_event_action(state, event) matches ActionView::Reconfigure(size) ==> {
            &&& size.width >= 1
            &&& size.height >= 1
            &&& event matches WindowEvent::Resized(asked)
            &&& asked.width >= 1 ==> size.width == asked.width
            &&& asked.height >= 1 ==> size.height == asked.height
            &&& after_window_event(state, event) matches StateView::Ready(gfx)
            &&& gfx.width == size.width
            &&& gfx.height == size.height
        },
{
}

/// Nothing is drawn, reconfigured or moved before the viewer runs: until
/// then every window event but a close request, and every device event, asks
/// for nothing.
pub proof fn lemma_idle_until_ready(state: StateView, window: WindowEvent, device: DeviceEvent)
    requires
        state is Init,
    ensures
        window != WindowEvent::CloseRequested ==> window_event_action(state, window) is Idle,
        window == WindowEvent::CloseRequested ==> window_event_action(state, window) is Exit,
        device_event_action(state, device) is Idle,
        about_to_wait_action(state) is Idle,
{
}

} // verus!
