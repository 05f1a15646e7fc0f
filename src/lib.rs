//! An Elm-style architecture for terminal user interfaces.
//!
//! An application is a state, an update function that takes one input at a time and
//! returns a [`Task`] together with whether the interface should be drawn again, and a
//! view function that draws the state. Inputs are terminal events and messages of the
//! application's own type, which background tasks and subscriptions send.
//!
//! The loop that runs an application is described here as a state machine,
//! [`main_loop::MainLoop`]: it is told what happened and answers with what to do next.
//! It draws once before the first input is handled, draws after an iteration exactly when
//! the terminal was resized or the update asked for it, and restores the terminal exactly
//! once on its way out. The laws that every run obeys are stated and proved in [`runs`].
pub mod backend;
pub mod main_loop;
pub mod runs;
pub mod task;
pub mod update;

pub use task::Task;
pub use update::Update;
