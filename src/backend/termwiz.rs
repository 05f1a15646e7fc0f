//! Events of the termwiz backend.
use ratatui::termwiz::input::{InputEvent, KeyEvent, MouseEvent, PixelMouseEvent};
use vstd::prelude::*;

verus! {

#[verifier::external_type_specification]
#[verifier::external_body]
pub struct ExKeyEvent(KeyEvent);

#[verifier::external_type_specification]
#[verifier::external_body]
pub struct ExMouseEvent(MouseEvent);

#[verifier::external_type_specification]
#[verifier::external_body]
pub struct ExPixelMouseEvent(PixelMouseEvent);

#[verifier::external_type_specification]
pub struct ExInputEvent(InputEvent);

impl super::Event for InputEvent {
    /// The columns and rows of a resize, each cast to `u16`.
    open spec fn reported_resize(&self) -> Option<(u16, u16)> {
        match self {
            InputEvent::Resized { cols, rows } => Some((*cols as u16, *rows as u16)),
            _ => None,
        }
    }

    fn resize(&self) -> (r: Option<(u16, u16)>) {
        match self {
            InputEvent::Resized { cols, rows } => Some((*cols as u16, *rows as u16)),
            _ => None,
        }
    }
}

} // verus!
