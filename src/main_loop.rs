//! The decisions of the application loop, as a state machine.
//!
//! The loop alternates work that only the surrounding runtime can do (setting up the
//! device, drawing, awaiting input, running the update function, restoring the device)
//! with decisions. [`MainLoop`] makes the decisions: it is told what happened as an
//! [`Observation`] and answers with the next [`Instruction`] to carry out.
use vstd::prelude::*;

use crate::task::TaskKind;

verus! {

/// How a finished loop ended.
#[derive(Clone, Copy, Debug, PartialEq, Eq)]
pub enum Outcome {
    /// The loop ended on a `Quit` task or because its inputs were exhausted.
    Finished,
    /// The device could not be set up; no iteration ran and nothing needs restoring.
    SetupFailed,
    /// Drawing failed; the device was restored before the loop ended.
    RenderFailed,
}

/// Where the loop stands.
#[derive(Clone, Copy, Debug, PartialEq, Eq)]
pub enum Phase {
    /// The device has not been set up yet.
    Init,
    /// A draw of the current state has been asked for.
    Rendering,
    /// Awaiting the first of a message on the channel and an item of the event stream.
    Waiting,
    /// The update function has been handed an input. Holds the resize that the backend
    /// reported for that input, if any.
    Dispatching(Option<(u16, u16)>),
    /// Restoring the device has been asked for; the loop will end with the outcome held.
    Restoring(Outcome),
    /// The loop has ended.
    Terminated(Outcome),
}

/// What the runtime reports back after carrying out an instruction.
#[derive(Clone, Copy, Debug, PartialEq, Eq)]
pub enum Observation {
    /// The device was set up.
    Initialized,
    /// Setting up the device failed.
    InitFailed,
    /// The view was drawn.
    Drawn,
    /// Drawing failed.
    DrawFailed,
    /// A message arrived on the channel.
    Message,
    /// Every sender of the channel is gone and the channel is empty.
    ChannelClosed,
    /// The event stream yielded an event, for which the backend reported this resize.
    DeviceEvent(Option<(u16, u16)>),
    /// The event stream yielded an error.
    DeviceFailed,
    /// The event stream has ended.
    DeviceEnded,
    /// The update function returned a task of this kind and this render hint.
    Updated(TaskKind, bool),
    /// The device was restored.
    Restored,
}

/// What the runtime is to do next.
#[derive(Clone, Copy, Debug, PartialEq, Eq)]
pub enum Instruction {
    /// Set up the device.
    InitDevice,
    /// Draw the current state once.
    Draw,
    /// Await the first of a message on the channel and an item of the event stream.
    Wait,
    /// Hand the input just received to the update function; where a resize is given,
    /// resize the backend to it first.
    Dispatch(Option<(u16, u16)>),
    /// Restore the device.
    Restore,
    /// Return to the caller.
    Exit(Outcome),
}

/// The phase that follows `p` once `o` has been observed. An observation that does not
/// answer the phase's instruction leaves the phase as it is.
pub open spec fn next(p: Phase, o: Observation) -> Phase {
    match p {
        Phase::Init => match o {
            Observation::Initialized => Phase::Rendering,
            Observation::InitFailed => Phase::Terminated(Outcome::SetupFailed),
            _ => p,
        },
        Phase::Rendering => match o {
            Observation::Drawn => Phase::Waiting,
            Observation::DrawFailed => Phase::Restoring(Outcome::RenderFailed),
            _ => p,
        },
        Phase::Waiting => match o {
            Observation::Message => Phase::Dispatching(None),
            Observation::DeviceEvent(resize) => Phase::Dispatching(resize),
            Observation::ChannelClosed => Phase::Restoring(Outcome::Finished),
            Observation::DeviceFailed => Phase::Restoring(Outcome::Finished),
            Observation::DeviceEnded => Phase::Restoring(Outcome::Finished),
            _ => p,
        },
        Phase::Dispatching(resize) => match o {
            Observation::Updated(kind, should_render) => {
                if kind == TaskKind::Quit {
                    Phase::Restoring(Outcome::Finished)
                } else if resize.is_some() || should_render {
                    Phase::Rendering
                } else {
                    Phase::Waiting
                }
            },
            _ => p,
        },
        Phase::Restoring(outcome) => match o {
            Observation::Restored => Phase::Terminated(outcome),
            _ => p,
        },
        Phase::Terminated(_) => p,
    }
}

/// The instruction that the runtime carries out in phase `p`.
pub open spec fn instruction_of(p: Phase) -> Instruction {
    match p {
        Phase::Init => Instruction::InitDevice,
        Phase::Rendering => Instruction::Draw,
        Phase::Waiting => Instruction::Wait,
        Phase::Dispatching(resize) => Instruction::Dispatch(resize),
        Phase::Restoring(_) => Instruction::Restore,
        Phase::Terminated(outcome) => Instruction::Exit(outcome),
    }
}

/// The decision maker of the application loop.
pub struct MainLoop {
    phase: Phase,
}

impl View for MainLoop {
    type V = Phase;

    closed spec fn view(&self) -> Phase {
        self.phase
    }
}

impl MainLoop {
    /// A loop that has not set up the device yet.
    pub fn new() -> (r: MainLoop)
        ensures
            r@ == Phase::Init,
    {
        MainLoop { phase: Phase::Init }
    }

    /// The phase the loop is in.
    pub fn phase(&self) -> (r: Phase)
        ensures
            r == self@,
    {
        self.phase
    }

    /// The instruction to carry out now.
    pub fn instruction(&self) -> (r: Instruction)
        ensures
            r == instruction_of(self@),
    {
        match self.phase {
            Phase::Init => Instruction::InitDevice,
            Phase::Rendering => Instruction::Draw,
            Phase::Waiting => Instruction::Wait,
            Phase::Dispatching(resize) => Instruction::Dispatch(resize),
            Phase::Restoring(_) => Instruction::Restore,
            Phase::Terminated(outcome) => Instruction::Exit(outcome),
        }
    }

    /// Takes in what happened and returns the instruction to carry out next.
    pub fn observe(&mut self, o: Observation) -> (r: Instruction)
        ensures
            final(self)@ == next(old(self)@, o),
            r == instruction_of(final(self)@),
    {
        let p = match self.phase {
            Phase::Init => match o {
                Observation::Initialized => Phase::Rendering,
                Observation::InitFailed => Phase::Terminated(Outcome::SetupFailed),
                _ => self.phase,
            },
            Phase::Rendering => match o {
                Observation::Drawn => Phase::Waiting,
                Observation::DrawFailed => Phase::Restoring(Outcome::RenderFailed),
                _ => self.phase,
            },
            Phase::Waiting => match o {
                Observation::Message => Phase::Dispatching(None),
                Observation::DeviceEvent(resize) => Phase::Dispatching(resize),
                Observation::ChannelClosed => Phase::Restoring(Outcome::Finished),
                Observation::DeviceFailed => Phase::Restoring(Outcome::Finished),
                Observation::DeviceEnded => Phase::Restoring(Outcome::Finished),
                _ => self.phase,
            },
            Phase::Dispatching(resize) => match o {
                Observation::Updated(TaskKind::Quit, _) => Phase::Restoring(Outcome::Finished),
                Observation::Updated(_, should_render) => {
                    if resize.is_some() || should_render {
                        Phase::Rendering
                    } else {
                        Phase::Waiting
                    }
                },
                _ => self.phase,
            },
            Phase::Restoring(outcome) => match o {
                Observation::Restored => Phase::Terminated(outcome),
                _ => self.phase,
            },
            Phase::Terminated(_) => self.phase,
        };
        self.phase = p;
        self.instruction()
    }
}

} // verus!
