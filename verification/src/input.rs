//! How the main loop reacts to window and input events.

use vstd::prelude::*;
use crate::swapchain::Extent2D;

verus! {

/// The keys the main loop reacts to.
#[derive(Clone, Copy, Debug, PartialEq, Eq, Structural)]
pub enum Key {
    Escape,
    Num1,
    Other,
}

/// An event from the window system, reduced to what the main loop reads.
#[derive(Clone, Copy, Debug, PartialEq, Eq, Structural)]
pub enum InputEvent {
    Quit,
    KeyDown { key: Key, repeat: bool },
    MouseMotion,
    WindowResized { width: i32, height: i32 },
    Other,
}

/// What the application does after an event, besides the state change.
#[derive(Clone, Copy, Debug, PartialEq, Eq, Structural)]
pub enum EventAction {
    Nothing,
    /// Turn the camera by the mouse motion.
    Look,
    /// Recreate the swapchain for the new window size.
    Resize(Extent2D),
}

/// The main loop's state: whether it keeps running and whether renderables
/// are drawn as wireframe.
#[derive(Clone, Copy, Debug, PartialEq, Eq, Structural)]
pub struct AppState {
    pub running: bool,
    pub wireframe: bool,
}

/// The state after `event`.
pub open spec fn state_after(state: AppState, event: InputEvent) -> AppState {
    match event {
        InputEvent::Quit => AppState { running: false, ..state },
        InputEvent::KeyDown { key: Key::Escape, repeat: false } => AppState { running: false, ..state },
        InputEvent::KeyDown { key: Key::Num1, repeat: false } => AppState {
            wireframe: !state.wireframe,
            ..state
        },
        _ => state,
    }
}

/// The action that `event` asks of the application.
pub open spec fn action_for(event: InputEvent) -> EventAction {
    match event {
        InputEvent::MouseMotion => EventAction::Look,
        InputEvent::WindowResized { width, height } => EventAction::Resize(
            Extent2D { width: width as u32, height: height as u32 },
        ),
        _ => EventAction::Nothing,
    }
}

impl AppState {
    /// Running, with filled polygons.
    pub fn new() -> (r: AppState)
        ensures
            r.running,
            !r.wireframe,
    {
        AppState { running: true, wireframe: false }
    }

    /// Reacts to one event: quitting and Escape stop the loop, key `1`
    /// toggles wireframe, mouse motion turns the camera and a resize
    /// recreates the swapchain.  Repeated key presses are ignored.
    pub fn handle_event(&mut self, event: &InputEvent) -> (r: EventAction)
        ensures
            *final(self) == state_after(*old(self), *event),
            final(self).wireframe == if *event == (InputEvent::KeyDown { key: Key::Num1, repeat: false }) {
                !old(self).wireframe
            } else {
                old(self).wireframe
            },
            final(self).running == (old(self).running && *event != InputEvent::Quit && *event
                != (InputEvent::KeyDown { key: Key::Escape, repeat: false })),
            r == action_for(*event),
    {
        match event {
            InputEvent::Quit => {
                self.running = false;
                EventAction::Nothing
            },
            InputEvent::KeyDown { key, repeat } => {
                if !*repeat {
                    match key {
                        Key::Escape => {
                            self.running = false;
                        },
                        Key::Num1 => {
                            self.wireframe = !self.wireframe;
                        },
                        Key::Other => {},
                    }
                }
                EventAction::Nothing
            },
            InputEvent::MouseMotion => EventAction::Look,
            InputEvent::WindowResized { width, height } => EventAction::Resize(
                Extent2D { width: *width as u32, height: *height as u32 },
            ),
            InputEvent::Other => EventAction::Nothing,
        }
    }
}

/// Pressing key `1` twice, without repeats, restores the wireframe setting;
/// no event turns a stopped loop back on.
pub proof fn lemma_wireframe_toggle_and_quit(state: AppState, event: InputEvent)
    ensures
        state_after(
            state_after(state, InputEvent::KeyDown { key: Key::Num1, repeat: false }),
            InputEvent::KeyDown { key: Key::Num1, repeat: false },
        ) == state,
        !state.running ==> !state_after(state, event).running,
{
}

/// Only a fresh press of key `1` changes the wireframe setting, and it
/// flips it; only quitting or a fresh press of Escape changes whether the
/// loop runs, and they stop it.  Every other event, other keys and repeated
/// presses among them, leaves both settings as they were.
pub proof fn lemma_only_their_keys_change_settings(state: AppState, event: InputEvent)
    ensures
        event != (InputEvent::KeyDown { key: Key::Num1, repeat: false }) ==> state_after(
            state,
            event,
        ).wireframe == state.wireframe,
        event == (InputEvent::KeyDown { key: Key::Num1, repeat: false }) ==> state_after(
            state,
            event,
        ).wireframe == !state.wireframe,
        (event == InputEvent::Quit || event == (InputEvent::KeyDown {
            key: Key::Escape,
            repeat: false,
        })) ==> !state_after(state, event).running,
        (event != InputEvent::Quit && event != (InputEvent::KeyDown {
            key: Key::Escape,
            repeat: false,
        })) ==> state_after(state, event).running == state.running,
{
}

} // verus!
