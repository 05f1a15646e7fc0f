//! Tasks returned by the update function.
use vstd::prelude::*;

use crate::main_loop::Observation;

verus! {

/// A task to be carried out by the runtime once an update has returned.
///
/// `W` is the background work: for the runtime, a future whose output is a message.
pub enum Task<W> {
    /// Work to run in the background. Its result is sent back to the application as a
    /// message. Work that fails or panics sends nothing, and nothing reports it.
    Perform(W),
    /// Nothing to do.
    Nothing,
    /// Quit the application. Work already running in the background is not cancelled.
    /// A quitting iteration draws nothing: neither the render hint returned with it nor a
    /// resize reported for its input leads to a draw.
    Quit,
}

/// The kind of a task, without its work.
#[derive(Clone, Copy, Debug, PartialEq, Eq)]
pub enum TaskKind {
    Perform,
    Nothing,
    Quit,
}

impl<W> Task<W> {
    /// Which variant the task is, without its work.
    pub open spec fn kind(self) -> TaskKind {
        match self {
            Task::Perform(_) => TaskKind::Perform,
            Task::Nothing => TaskKind::Nothing,
            Task::Quit => TaskKind::Quit,
        }
    }

    /// The work that a `Perform` hands to the executor.
    pub open spec fn work(self) -> Option<W> {
        match self {
            Task::Perform(w) => Some(w),
            _ => Option::None,
        }
    }

    /// A task that runs `work` in the background.
    pub fn perform(work: W) -> (r: Self)
        ensures
            r == Task::Perform(work),
    {
        Task::Perform(work)
    }

    /// Parts the result of an update into what the loop is told of it and the work to
    /// spawn.
    pub fn settle(self, should_render: bool) -> (r: (Observation, Option<W>))
        ensures
            r.0 == Observation::Updated(self.kind(), should_render),
            r.1 == self.work(),
    {
        match self {
            Task::Perform(w) => (Observation::Updated(TaskKind::Perform, should_render), Some(w)),
            Task::Nothing => (Observation::Updated(TaskKind::Nothing, should_render), Option::None),
            Task::Quit => (Observation::Updated(TaskKind::Quit, should_render), Option::None),
        }
    }
}

} // verus!
