//! Inputs of the update function, and what the loop receives while it waits.
use vstd::prelude::*;

use crate::backend::Event;
use crate::main_loop::Observation;

verus! {

/// The input handed to the update function in one iteration.
pub enum Update<M, E: Event> {
    /// An event of the terminal backend.
    Terminal(E),
    /// A message of the application's own type.
    Message(M),
}

/// What the loop received while it waited on the channel and the event stream.
pub enum Wake<M, E: Event> {
    /// A message from the channel.
    Message(M),
    /// Every sender of the channel is gone and the channel is empty.
    ChannelClosed,
    /// An event from the event stream.
    Device(E),
    /// The event stream yielded an error.
    DeviceFailed,
    /// The event stream has ended.
    DeviceEnded,
}

impl<M, E: Event> Wake<M, E> {
    /// The input that this wake hands to the update function, if any.
    pub open spec fn input(self) -> Option<Update<M, E>> {
        match self {
            Wake::Message(m) => Some(Update::Message(m)),
            Wake::Device(e) => Some(Update::Terminal(e)),
            _ => None,
        }
    }

    /// Whether `o` is what the loop is told of this wake; for an event, with the resize
    /// that the backend reports for it.
    pub open spec fn observed_as(self, o: Observation) -> bool {
        match self {
            Wake::Message(_) => o == Observation::Message,
            Wake::ChannelClosed => o == Observation::ChannelClosed,
            Wake::Device(e) => o == Observation::DeviceEvent(e.reported_resize()),
            Wake::DeviceFailed => o == Observation::DeviceFailed,
            Wake::DeviceEnded => o == Observation::DeviceEnded,
        }
    }

    /// Parts a wake into what the loop is told of it and the input for the update
    /// function. For an event, the backend is asked whether it is a resize.
    pub fn split(self) -> (r: (Observation, Option<Update<M, E>>))
        ensures
            self.observed_as(r.0),
            r.1 == self.input(),
    {
        match self {
            Wake::Message(m) => (Observation::Message, Some(Update::Message(m))),
            Wake::ChannelClosed => (Observation::ChannelClosed, None),
            Wake::Device(e) => {
                let resize = e.resize();
                (Observation::DeviceEvent(resize), Some(Update::Terminal(e)))
            },
            Wake::DeviceFailed => (Observation::DeviceFailed, None),
            Wake::DeviceEnded => (Observation::DeviceEnded, None),
        }
    }
}

} // verus!
