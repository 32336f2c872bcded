//! The camera's controls: which movement and rotation inputs are held.
//!
//! The camera's position and orientation are floating-point state of the
//! renderer; what is kept here is the part that input events drive.

use vstd::prelude::*;

verus! {

/// A key of the keyboard, as far as the camera tells keys apart.
#[derive(Copy, Clone, PartialEq, Eq, Structural, Debug)]
pub enum Key {
    Space,
    LShift,
    A,
    D,
    W,
    S,
    Up,
    Down,
    Right,
    Left,
    /// Any key that is bound to nothing.
    Other,
}

/// An event of the window, as far as the game reads it.
#[derive(Copy, Clone, PartialEq, Eq, Structural, Debug)]
pub enum WindowEvent {
    /// The window was closed.
    Closed,
    /// A key went down (`pressed`) or up. `key` is `None` where the
    /// keyboard reported a key without a virtual key code.
    KeyboardInput { pressed: bool, key: Option<Key> },
    /// Any other event.
    Other,
}

/// The controls of the camera: for each direction of movement and of
/// rotation, whether its key is held.
#[derive(Copy, Clone, PartialEq, Eq, Structural, Debug)]
pub struct Camera {
    pub moving_up: bool,
    pub moving_left: bool,
    pub moving_down: bool,
    pub moving_right: bool,
    pub moving_forward: bool,
    pub moving_backward: bool,
    pub rotating_left: bool,
    pub rotating_right: bool,
    pub rotating_up: bool,
    pub rotating_down: bool,
}

impl Camera {
    /// The controls with no key held.
    pub open spec fn idle() -> Camera {
        Camera {
            moving_up: false,
            moving_left: false,
            moving_down: false,
            moving_right: false,
            moving_forward: false,
            moving_backward: false,
            rotating_left: false,
            rotating_right: false,
            rotating_up: false,
            rotating_down: false,
        }
    }

    /// The controls once `key` went down (`pressed`) or up: the one control
    /// that the key is bound to follows it, all others stay.
    pub open spec fn with_key(self, key: Key, pressed: bool) -> Camera {
        match key {
            Key::Space => Camera { moving_up: pressed, ..self },
            Key::LShift => Camera { moving_down: pressed, ..self },
            Key::A => Camera { moving_left: pressed, ..self },
            Key::D => Camera { moving_right: pressed, ..self },
            Key::W => Camera { moving_forward: pressed, ..self },
            Key::S => Camera { moving_backward: pressed, ..self },
            Key::Up => Camera { rotating_up: pressed, ..self },
            Key::Down => Camera { rotating_down: pressed, ..self },
            Key::Right => Camera { rotating_right: pressed, ..self },
            Key::Left => Camera { rotating_left: pressed, ..self },
            Key::Other => self,
        }
    }

    /// The controls after a window event: only keyboard input with a known
    /// key changes them.
    pub open spec fn after(self, event: WindowEvent) -> Camera {
        match event {
            WindowEvent::KeyboardInput { pressed, key: Some(key) } => self.with_key(key, pressed),
            _ => self,
        }
    }

    /// The controls with no key held.
    pub fn new() -> (camera: Camera)
        ensures
            camera == Camera::idle(),
    {
        Camera {
            moving_up: false,
            moving_left: false,
            moving_down: false,
            moving_right: false,
            moving_forward: false,
            moving_backward: false,
            rotating_left: false,
            rotating_right: false,
            rotating_up: false,
            rotating_down: false,
        }
    }

    /// Presses or releases the control that `key` is bound to.
    pub fn set_key(&mut self, key: Key, pressed: bool)
        ensures
            *final(self) == old(self).with_key(key, pressed),
    {
        match key {
            Key::Space => self.moving_up = pressed,
            Key::LShift => self.moving_down = pressed,
            Key::A => self.moving_left = pressed,
            Key::D => self.moving_right = pressed,
            Key::W => self.moving_forward = pressed,
            Key::S => self.moving_backward = pressed,
            Key::Up => self.rotating_up = pressed,
            Key::Down => self.rotating_down = pressed,
            Key::Right => self.rotating_right = pressed,
            Key::Left => self.rotating_left = pressed,
            Key::Other => (),
        }
    }

    /// Follows a window event: a key that is bound to a control presses or
    /// releases it, everything else is ignored.
    pub fn process_input(&mut self, event: &WindowEvent)
        ensures
            *final(self) == old(self).after(*event),
    {
        match *event {
            WindowEvent::KeyboardInput { pressed, key: Some(key) } => self.set_key(key, pressed),
            _ => (),
        }
    }
}

} // verus!
