//! A voxel world: blocks, chunks, terrain generation and the meshes that a
//! renderer draws for them, with the state of the game that shows it.

use vstd::prelude::*;

pub mod camera;
pub mod renderer;
pub mod world;

use crate::camera::{Camera, WindowEvent};

verus! {

/// The length of one tick of the game loop, in nanoseconds: a sixtieth of a
/// second.
pub const TICK_NANOS: u64 = 16_666_667;

/// The state of a running game.
#[derive(Copy, Clone, PartialEq, Eq, Structural, Debug)]
pub struct GameState {
    pub should_quit: bool,
    pub camera: Camera,
}

/// What the game loop does after a frame.
#[derive(Copy, Clone, PartialEq, Eq, Structural, Debug)]
pub enum Action {
    Stop,
    Continue,
}

impl GameState {
    /// The state after a window event: closing the window asks the game to
    /// quit, every other event goes to the camera.
    pub open spec fn after(self, event: WindowEvent) -> GameState {
        match event {
            WindowEvent::Closed => GameState { should_quit: true, ..self },
            _ => GameState { camera: self.camera.after(event), ..self },
        }
    }

    /// The state in which a game starts: running, with no key held.
    pub fn load() -> (state: GameState)
        ensures
            !state.should_quit,
            state.camera == Camera::idle(),
    {
        GameState { should_quit: false, camera: Camera::new() }
    }

    /// Follows a window event.
    pub fn handle_event(&mut self, event: &WindowEvent)
        ensures
            *final(self) == old(self).after(*event),
    {
        match *event {
            WindowEvent::Closed => self.should_quit = true,
            _ => self.camera.process_input(event),
        }
    }

    /// Whether the game loop goes on after this frame.
    pub fn next_action(&self) -> (action: Action)
        ensures
            action == (if self.should_quit {
                Action::Stop
            } else {
                Action::Continue
            }),
    {
        if self.should_quit {
            Action::Stop
        } else {
            Action::Continue
        }
    }
}

/// The clock of the game loop: it keeps the time that has passed since the
/// last whole tick.
#[derive(Copy, Clone, PartialEq, Eq, Structural, Debug)]
pub struct FrameClock {
    accumulator: u64,
}

impl FrameClock {
    /// The nanoseconds passed since the last whole tick.
    pub closed spec fn pending(&self) -> int {
        self.accumulator as int
    }

    /// A clock at the start of a tick.
    pub fn new() -> (clock: FrameClock)
        ensures
            clock.pending() == 0,
    {
        FrameClock { accumulator: 0 }
    }

    /// Accounts for the `elapsed` nanoseconds of a frame: every whole tick
    /// in the time passed is dropped. Returns how long to sleep until the
    /// next tick is due, in nanoseconds.
    pub fn advance(&mut self, elapsed: u64) -> (sleep: u64)
        ensures
            final(self).pending() == (old(self).pending() + elapsed) % (TICK_NANOS as int),
            sleep == TICK_NANOS - final(self).pending(),
            0 < sleep <= TICK_NANOS,
    {
        let total: u128 = self.accumulator as u128 + elapsed as u128;
        self.accumulator = (total % (TICK_NANOS as u128)) as u64;
        TICK_NANOS - self.accumulator
    }
}

} // verus!
