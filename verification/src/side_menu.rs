//! What the side menu asks of the workspace.
use vstd::prelude::*;
use iced::widget::pane_grid;
use crate::pane::Kind;

verus! {

/// A request of the side menu.
#[derive(Debug)]
pub enum Event {
    /// Show the resource: in the pane that shows it already, else in the
    /// only pane if that is empty, else in a new pane.
    Open(Kind),
    /// Show the resource in the given pane.
    Replace(Kind, pane_grid::Pane),
    /// Close the given pane.
    Close(pane_grid::Pane),
    /// Let two panes exchange what they show.
    Swap(pane_grid::Pane, pane_grid::Pane),
}

} // verus!
