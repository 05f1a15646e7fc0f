//! Events of the crossterm backend.
use ratatui::crossterm::event::Event as CrosstermEvent;
use ratatui::crossterm::event::{KeyEvent, MouseEvent};
use vstd::prelude::*;

verus! {

#[verifier::external_type_specification]
#[verifier::external_body]
pub struct ExKeyEvent(KeyEvent);

#[verifier::external_type_specification]
#[verifier::external_body]
pub struct ExMouseEvent(MouseEvent);

#[verifier::external_type_specification]
pub struct ExCrosstermEvent(CrosstermEvent);

impl super::Event for CrosstermEvent {
    /// The (columns, rows) that a resize carries.
    open spec fn reported_resize(&self) -> Option<(u16, u16)> {
        match self {
            CrosstermEvent::Resize(width, height) => Some((*width, *height)),
            _ => None,
        }
    }

    fn resize(&self) -> (r: Option<(u16, u16)>) {
        match self {
            CrosstermEvent::Resize(width, height) => Some((*width, *height)),
            _ => None,
        }
    }
}

} // verus!
