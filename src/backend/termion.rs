//! Events of the termion backend.
use ratatui::termion::event::Event as TermionEvent;
use vstd::prelude::*;

verus! {

#[verifier::external_type_specification]
#[verifier::external_body]
pub struct ExTermionEvent(TermionEvent);

/// A termion event, or a resize.
///
/// Termion does not report resizes itself: the runtime watches for the window-change
/// signal and reports the new size as [`Event::Resize`].
pub enum Event {
    Termion(TermionEvent),
    /// The terminal now has this many columns and rows.
    Resize(u16, u16),
}

impl Event {
    /// The size this event reports, where it is a resize.
    pub open spec fn size(self) -> Option<(u16, u16)> {
        match self {
            Event::Resize(width, height) => Some((width, height)),
            Event::Termion(_) => None,
        }
    }
}

impl super::Event for Event {
    open spec fn reported_resize(&self) -> Option<(u16, u16)> {
        self.size()
    }

    fn resize(&self) -> (r: Option<(u16, u16)>)
        ensures
            r == self.size(),
    {
        match self {
            Event::Resize(width, height) => Some((*width, *height)),
            Event::Termion(_) => None,
        }
    }
}

} // verus!
