//! What the event loop does with each event.
//!
//! The loop itself belongs to the window system. For every event it hands
//! over, the functions here change the renderer's state and say what the
//! loop is to do on the window, the surface or itself.

use vstd::prelude::*;
use crate::input::{ElementState, Event, Key, WindowEvent};
use crate::state::{State, SurfaceError};
use crate::surface::{PhysicalSize, SurfaceConfiguration};

verus! {

/// Where the program runs.
#[derive(Clone, Copy, Debug, PartialEq, Eq, Structural)]
pub enum Target {
    /// In a window of its own, which can be closed.
    Native,
    /// In a page of a browser, which has nothing to close.
    Web,
}

/// What the event loop does after an event.
#[derive(Clone, Copy, Debug, PartialEq, Eq)]
pub enum Action {
    /// Nothing but to go on polling.
    Poll,
    /// Ask the window for a redraw.
    RequestRedraw,
    /// Draw a frame: update the state, then render.
    Redraw,
    /// Apply the configuration to the surface.
    Configure(SurfaceConfiguration),
    /// Note that a frame was dropped, and go on.
    Warn,
    /// Leave the loop.
    Exit,
}

/// Whether an event that the renderer did not take asks to leave: the
/// window is being closed, or Escape went down.
pub open spec fn asks_to_exit(event: WindowEvent) -> bool {
    match event {
        WindowEvent::CloseRequested => true,
        WindowEvent::KeyboardInput { key: Some(Key::Escape), state: ElementState::Pressed } => true,
        _ => false,
    }
}

/// The new size that an event of the window brings, if it brings one.
pub open spec fn new_size_of(event: WindowEvent) -> Option<PhysicalSize> {
    match event {
        WindowEvent::Resized(size) => Some(size),
        WindowEvent::ScaleFactorChanged { new_inner_size } => Some(new_inner_size),
        _ => None,
    }
}

/// The surface configuration of `config` at another size.
pub open spec fn resized(config: SurfaceConfiguration, size: PhysicalSize)
    -> SurfaceConfiguration {
    SurfaceConfiguration { width: size.width, height: size.height, ..config }
}

/// What the loop does after an event of the window, for a renderer that
/// had the surface configuration `config` when the event came.
pub open spec fn window_action(config: SurfaceConfiguration, event: WindowEvent, target: Target)
    -> Action {
    if State::consumes(event) {
        Action::Poll
    } else if target == Target::Native && asks_to_exit(event) {
        Action::Exit
    } else {
        match new_size_of(event) {
            Some(size) => if size.is_drawable() {
                Action::Configure(resized(config, size))
            } else {
                Action::Poll
            },
            None => Action::Poll,
        }
    }
}

/// Takes an event of the renderer's window. The renderer gets the event
/// first. What it does not take is handled here: a request to close and
/// Escape leave the loop where there is a window to close, and a new size
/// is passed to the renderer, whose surface is then to be configured.
pub fn on_window_event(state: &mut State, event: &WindowEvent, target: Target) -> (action: Action)
    requires
        old(state).wf(),
    ensures
        final(state).wf(),
        action == window_action(*old(state).surface_config(), *event, target),
        final(state).controller() == State::controller_after(old(state).controller(), *event),
        final(state).mouse_lock() == State::mouse_lock_after(old(state).mouse_lock(), *event),
        action matches Action::Configure(config) ==> {
            &&& config == *final(state).surface_config()
            &&& new_size_of(*event) == Some(final(state).current_size())
            &&& final(state).projection().aspect_is(config.width, config.height)
        },
        !(action is Configure) ==> {
            &&& final(state).current_size() == old(state).current_size()
            &&& final(state).surface_config() == old(state).surface_config()
            &&& final(state).projection() == old(state).projection()
        },
        final(state).same_resources(old(state)),
        final(state).render_pipeline() == old(state).render_pipeline(),
        final(state).last_render_time() == old(state).last_render_time(),
        final(state).camera() == old(state).camera(),
        final(state).system_uniform() == old(state).system_uniform(),
        final(state).camera_uniform() == old(state).camera_uniform(),
{
    if state.handle_input(event) {
        return Action::Poll;
    }
    match event {
        WindowEvent::CloseRequested => match target {
            Target::Native => Action::Exit,
            Target::Web => Action::Poll,
        },
        WindowEvent::KeyboardInput { key: Some(Key::Escape), state: ElementState::Pressed } => {
            match target {
                Target::Native => Action::Exit,
                Target::Web => Action::Poll,
            }
        },
        WindowEvent::Resized(physical_size) => match state.resize(*physical_size) {
            Some(config) => Action::Configure(config),
            None => Action::Poll,
        },
        WindowEvent::ScaleFactorChanged { new_inner_size } => match state.resize(*new_inner_size) {
            Some(config) => Action::Configure(config),
            None => Action::Poll,
        },
        _ => Action::Poll,
    }
}

/// Takes an event of the event loop. When all events are in, a redraw is
/// asked for; a motion of the mouse goes to the renderer; an event of the
/// window is handled as `on_window_event` says; a request to redraw draws a
/// frame. Nothing else has an effect.
pub fn on_event(state: &mut State, event: &Event, target: Target) -> (action: Action)
    requires
        old(state).wf(),
    ensures
        final(state).wf(),
        match *event {
            Event::MainEventsCleared => action == Action::RequestRedraw && *final(state) == *old(
                state,
            ),
            Event::MouseMotion(delta) => {
                &&& action == Action::Poll
                &&& old(state).mouse_lock() ==> final(state).controller() == old(
                    state,
                ).controller().after_mouse(delta)
                &&& !old(state).mouse_lock() ==> *final(state) == *old(state)
            },
            Event::Window(window_event) => {
                &&& action == window_action(*old(state).surface_config(), window_event, target)
                &&& final(state).controller() == State::controller_after(
                    old(state).controller(),
                    window_event,
                )
                &&& final(state).mouse_lock() == State::mouse_lock_after(
                    old(state).mouse_lock(),
                    window_event,
                )
                &&& action matches Action::Configure(config) ==> {
                    &&& config == *final(state).surface_config()
                    &&& new_size_of(window_event) == Some(final(state).current_size())
                    &&& final(state).projection().aspect_is(config.width, config.height)
                }
            },
            Event::RedrawRequested => action == Action::Redraw && *final(state) == *old(state),
            Event::Other => action == Action::Poll && *final(state) == *old(state),
        },
        !(action is Configure) ==> {
            &&& final(state).current_size() == old(state).current_size()
            &&& final(state).surface_config() == old(state).surface_config()
            &&& final(state).projection() == old(state).projection()
        },
        final(state).same_resources(old(state)),
        final(state).render_pipeline() == old(state).render_pipeline(),
        final(state).last_render_time() == old(state).last_render_time(),
        final(state).camera() == old(state).camera(),
        final(state).system_uniform() == old(state).system_uniform(),
        final(state).camera_uniform() == old(state).camera_uniform(),
{
    match event {
        Event::MainEventsCleared => Action::RequestRedraw,
        Event::MouseMotion(delta) => {
            state.handle_mouse_input(delta.dx, delta.dy);
            Action::Poll
        },
        Event::Window(window_event) => on_window_event(state, window_event, target),
        Event::RedrawRequested => Action::Redraw,
        Event::Other => Action::Poll,
    }
}

/// What the loop does about a frame that the surface did not give.
pub open spec fn recovery(config: SurfaceConfiguration, error: SurfaceError) -> Action {
    match error {
        SurfaceError::Lost | SurfaceError::Outdated => Action::Configure(config),
        SurfaceError::OutOfMemory => Action::Exit,
        SurfaceError::Timeout => Action::Warn,
    }
}

/// Decides what follows when the surface gave no frame. A surface that is
/// lost or outdated is configured once more, for the size the renderer has,
/// and the next frame tries again. Without memory the loop ends. After a
/// timeout the frame is dropped and nothing else happens. In no case does
/// the renderer's state change.
pub fn recover(state: &mut State, error: SurfaceError) -> (action: Action)
    requires
        old(state).wf(),
    ensures
        final(state).wf(),
        action == recovery(*old(state).surface_config(), error),
        action matches Action::Configure(config) ==> config.spec_size() == old(
            state,
        ).current_size(),
        final(state).current_size() == old(state).current_size(),
        final(state).surface_config() == old(state).surface_config(),
        final(state).projection() == old(state).projection(),
        final(state).same_resources(old(state)),
        final(state).render_pipeline() == old(state).render_pipeline(),
        final(state).last_render_time() == old(state).last_render_time(),
        final(state).mouse_lock() == old(state).mouse_lock(),
        final(state).camera() == old(state).camera(),
        final(state).controller() == old(state).controller(),
        final(state).system_uniform() == old(state).system_uniform(),
        final(state).camera_uniform() == old(state).camera_uniform(),
{
    match error {
        SurfaceError::Lost | SurfaceError::Outdated => {
            let size = state.current_size();
            let configure = state.resize(size);
            proof {
                final(state).projection().lemma_same(old(state).projection());
            }
            match configure {
                Some(config) => Action::Configure(config),
                None => Action::Poll,
            }
        },
        SurfaceError::OutOfMemory => Action::Exit,
        SurfaceError::Timeout => Action::Warn,
    }
}

} // verus!
