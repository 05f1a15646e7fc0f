//! What the loop needs from a terminal backend.
use vstd::prelude::*;

pub mod crossterm;
pub mod termion;
pub mod termwiz;

verus! {

/// What the loop needs from a backend's event type.
pub trait Event {
    /// The size that the backend reports for this event: the new (columns, rows) of the
    /// terminal where the event is a resize, `None` otherwise.
    spec fn reported_resize(&self) -> Option<(u16, u16)>;

    /// The new size of the terminal, as (columns, rows), where this event is a resize.
    fn resize(&self) -> (r: Option<(u16, u16)>)
        ensures
            r == self.reported_resize(),
    ;
}

/// Construction from nothing, for types that cannot offer `Default`.
pub trait New: Sized {
    fn new() -> Self;
}

} // verus!
