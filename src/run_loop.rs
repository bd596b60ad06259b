use vstd::prelude::*;
use crate::frame::{SurfaceFault, FaultResponse, fault_response, fault_response_spec};
use crate::surface::SurfaceSize;

verus! {

/// What the window system reports to the run loop.
#[derive(Clone, Copy, Debug, PartialEq, Eq, Structural)]
pub enum Signal {
    CloseRequested,
    /// The window's drawable area changed, to the given pixel size.
    Resized { width: u32, height: u32 },
    RedrawRequested,
    /// Every pending event has been handled: time for the caller's tick.
    EventsCleared,
    Other,
}

/// What the run loop is to do next.
#[derive(Clone, Copy, Debug, PartialEq, Eq, Structural)]
pub enum Action {
    /// Leave the loop.
    Exit,
    /// Configure the surface with this size.
    Configure(SurfaceSize),
    /// Upload the camera, then render and present a frame.
    Render,
    /// Ask for a redraw and run the caller's tick.
    Tick,
    /// Nothing; wait for the next event.
    Wait,
}

/// The run loop's own state: the surface size and whether the caller asked
/// to exit.
pub struct LoopState {
    pub size: SurfaceSize,
    pub exit_requested: bool,
}

impl LoopState {
    pub fn new(size: SurfaceSize) -> (r: Self)
        ensures
            r.size == size,
            !r.exit_requested,
    {
        LoopState { size, exit_requested: false }
    }

    /// Asks the loop to stop at the end of the current tick.
    pub fn exit(&mut self)
        ensures
            final(self).exit_requested,
            final(self).size == old(self).size,
    {
        self.exit_requested = true;
    }

    /// The step the loop takes for a window signal. A resize to a size with
    /// a zero dimension is ignored.
    pub fn on_signal(&mut self, s: Signal) -> (r: Action)
        ensures
            final(self).exit_requested == old(self).exit_requested,
            match s {
                Signal::CloseRequested => r == Action::Exit && final(self).size == old(self).size,
                Signal::Resized { width, height } => if width > 0 && height > 0 {
                    r == Action::Configure(SurfaceSize { width, height }) && final(self).size == (
                    SurfaceSize { width, height })
                } else {
                    r == Action::Wait && final(self).size == old(self).size
                },
                Signal::RedrawRequested => r == Action::Render && final(self).size == old(
                    self,
                ).size,
                Signal::EventsCleared => r == Action::Tick && final(self).size == old(self).size,
                Signal::Other => r == Action::Wait && final(self).size == old(self).size,
            },
    {
        match s {
            Signal::CloseRequested => Action::Exit,
            Signal::Resized { width, height } => {
                if self.size.resize(width, height) {
                    Action::Configure(self.size)
                } else {
                    Action::Wait
                }
            },
            Signal::RedrawRequested => Action::Render,
            Signal::EventsCleared => Action::Tick,
            Signal::Other => Action::Wait,
        }
    }

    /// The step after the caller's tick: exit when it was asked for.
    pub fn after_tick(&self) -> (r: Action)
        ensures
            r == (if self.exit_requested {
                Action::Exit
            } else {
                Action::Wait
            }),
    {
        if self.exit_requested {
            Action::Exit
        } else {
            Action::Wait
        }
    }

    /// The step after a frame: nothing on success; after a fault, configure
    /// the surface again with the last known size, exit, or go on, as
    /// `fault_response` decides.
    pub fn after_frame(&self, outcome: Result<(), SurfaceFault>) -> (r: Action)
        ensures
            match outcome {
                Ok(_) => r == Action::Wait,
                Err(f) => match fault_response_spec(f) {
                    FaultResponse::Reconfigure => r == Action::Configure(self.size),
                    FaultResponse::Exit => r == Action::Exit,
                    FaultResponse::Skip => r == Action::Wait,
                },
            },
    {
        match outcome {
            Ok(_) => Action::Wait,
            Err(f) => match fault_response(f) {
                FaultResponse::Reconfigure => Action::Configure(self.size),
                FaultResponse::Exit => Action::Exit,
                FaultResponse::Skip => Action::Wait,
            },
        }
    }
}

} // verus!
