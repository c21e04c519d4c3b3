//! What the application does in answer to the events of its window.
//!
//! The host turns each event of the window system into an [`Input`], asks
//! [`loop_action`] what the window itself has to do, and hands the input to
//! [`Controls::handle`], which keeps the switches of the application and says
//! what the host has to do for it.

use vstd::prelude::*;

verus! {

/// A key of the keyboard, as far as the application tells keys apart.
#[derive(Debug, Clone, Copy, PartialEq, Eq, Structural)]
pub enum Key {
    Space,
    P,
    R,
    Key1,
    Key2,
    Key3,
    Escape,
    Other,
}

/// An axis of space.
#[derive(Debug, Clone, Copy, PartialEq, Eq, Structural)]
pub enum Axis {
    X,
    Y,
    Z,
}

/// An event of the window system.
#[derive(Debug, Clone, Copy, PartialEq, Eq, Structural)]
pub enum Input {
    /// The drawing area has a new size.
    Resized { width: u32, height: u32 },
    /// The user asks to close the window.
    CloseRequested,
    /// A key went down (`pressed`) or up.
    Keyboard { key: Key, pressed: bool },
    /// A mouse button went down (`pressed`) or up; `left` tells the left
    /// button from the others.
    MouseButton { left: bool, pressed: bool },
    /// The mouse moved.
    MouseMotion,
    /// The mouse wheel turned.
    MouseWheel,
    /// The window needs to be drawn again.
    RedrawRequested,
    /// All redraw requests of this round have been served.
    RedrawEventsCleared,
    /// Any other event.
    Other,
}

/// What the event loop does with the window in answer to an input.
#[derive(Debug, Clone, Copy, PartialEq, Eq, Structural)]
pub enum LoopAction {
    /// Take the new size of the drawing area.
    Resize { width: u32, height: u32 },
    /// Leave the event loop.
    Exit,
    /// Draw a frame.
    Render,
    /// Ask the window system for another redraw.
    RequestRedraw,
    /// Nothing.
    Proceed,
}

/// What the host does for the application in answer to an input.
#[derive(Debug, Clone, Copy, PartialEq, Eq, Structural)]
pub enum Reaction {
    /// Recompute the camera's projection for the new aspect ratio.
    ResizeCamera,
    /// Rebuild the surface from its script, and restart the quad's motion.
    Reload,
    /// Turn the camera around the surface by the distance that the mouse
    /// moved.
    Orbit,
    /// Move the camera towards the surface or away from it by the turn of the
    /// wheel.
    Zoom,
    /// Nothing.
    Ignore,
}

/// The switches of the application.
#[derive(Debug, Clone, Copy, PartialEq, Eq, Structural)]
pub struct Controls {
    /// The left mouse button is down: the mouse drags the camera.
    pub pressed: bool,
    /// The surface spins.
    pub play: bool,
    /// The reference quad is shown.
    pub show: bool,
    /// The axis around which the surface spins.
    pub axis: Axis,
}

/// What the event loop does with the window: it takes a new size, leaves when
/// the window is closed or the escape key goes down, and keeps redrawing.
pub open spec fn loop_action_of(input: Input) -> LoopAction {
    match input {
        Input::Resized { width, height } => LoopAction::Resize { width, height },
        Input::CloseRequested => LoopAction::Exit,
        Input::Keyboard { key: Key::Escape, pressed: true } => LoopAction::Exit,
        Input::RedrawRequested => LoopAction::Render,
        Input::RedrawEventsCleared => LoopAction::RequestRedraw,
        _ => LoopAction::Proceed,
    }
}

/// The switches after an input. The left mouse button sets `pressed`; a key
/// that goes up toggles `play` (space) or `show` (P), or picks the axis (1, 2,
/// 3). Nothing else changes a switch.
pub open spec fn controls_after(controls: Controls, input: Input) -> Controls {
    match input {
        Input::MouseButton { left, pressed } => Controls { pressed: left && pressed, ..controls },
        Input::Keyboard { key, pressed: false } => match key {
            Key::Space => Controls { play: !controls.play, ..controls },
            Key::P => Controls { show: !controls.show, ..controls },
            Key::Key1 => Controls { axis: Axis::X, ..controls },
            Key::Key2 => Controls { axis: Axis::Y, ..controls },
            Key::Key3 => Controls { axis: Axis::Z, ..controls },
            _ => controls,
        },
        _ => controls,
    }
}

/// What the host does for the application. The mouse turns the camera only
/// while the left button is down.
pub open spec fn reaction_to(controls: Controls, input: Input) -> Reaction {
    match input {
        Input::Resized { .. } => Reaction::ResizeCamera,
        Input::Keyboard { key: Key::R, pressed: false } => Reaction::Reload,
        Input::MouseWheel => Reaction::Zoom,
        Input::MouseMotion => if controls.pressed {
            Reaction::Orbit
        } else {
            Reaction::Ignore
        },
        _ => Reaction::Ignore,
    }
}

/// What the event loop does with the window in answer to `input`.
pub fn loop_action(input: Input) -> (action: LoopAction)
    ensures
        action == loop_action_of(input),
{
    match input {
        Input::Resized { width, height } => LoopAction::Resize { width, height },
        Input::CloseRequested => LoopAction::Exit,
        Input::Keyboard { key, pressed } => {
            match key {
                Key::Escape => if pressed {
                    LoopAction::Exit
                } else {
                    LoopAction::Proceed
                },
                _ => LoopAction::Proceed,
            }
        },
        Input::RedrawRequested => LoopAction::Render,
        Input::RedrawEventsCleared => LoopAction::RequestRedraw,
        _ => LoopAction::Proceed,
    }
}

impl Controls {
    /// The switches at the start: nothing is pressed, the surface stands
    /// still, the quad is shown, and the axis is `Z`.
    pub fn new() -> (controls: Self)
        ensures
            controls == (Controls { pressed: false, play: false, show: true, axis: Axis::Z }),
    {
        Controls { pressed: false, play: false, show: true, axis: Axis::Z }
    }

    /// Takes an input: updates the switches and says what the host has to do.
    pub fn handle(&mut self, input: Input) -> (reaction: Reaction)
        ensures
            *final(self) == controls_after(*old(self), input),
            reaction == reaction_to(*old(self), input),
    {
        match input {
            Input::Resized { width, height } => Reaction::ResizeCamera,
            Input::MouseButton { left, pressed } => {
                self.pressed = left && pressed;
                Reaction::Ignore
            },
            Input::MouseWheel => Reaction::Zoom,
            Input::MouseMotion => {
                if self.pressed {
                    Reaction::Orbit
                } else {
                    Reaction::Ignore
                }
            },
            Input::Keyboard { key, pressed } => {
                if pressed {
                    return Reaction::Ignore;
                }
                match key {
                    Key::Space => {
                        self.play = !self.play;
                        Reaction::Ignore
                    },
                    Key::P => {
                        self.show = !self.show;
                        Reaction::Ignore
                    },
                    Key::Key1 => {
                        self.axis = Axis::X;
                        Reaction::Ignore
                    },
                    Key::Key2 => {
                        self.axis = Axis::Y;
                        Reaction::Ignore
                    },
                    Key::Key3 => {
                        self.axis = Axis::Z;
                        Reaction::Ignore
                    },
                    Key::R => Reaction::Reload,
                    _ => Reaction::Ignore,
                }
            },
            _ => Reaction::Ignore,
        }
    }
}

} // verus!
