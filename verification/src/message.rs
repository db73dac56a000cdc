//! The messages of the workspace.
use vstd::prelude::*;
use crate::persistence::Timestamp;

verus! {

/// Why a layout could not be saved.
#[derive(Debug)]
pub struct SaveError {
    pub reason: String,
}

/// What can happen to the workspace.
#[derive(Debug)]
pub enum Message {
    /// The user did something to the grid or to one of its panes.
    Pane(crate::pane::Message),
    /// The side menu asks for something.
    SideMenu(crate::side_menu::Event),
    /// The selected text was gathered: its pieces, each with a key for the
    /// row it stands in.
    SelectedText(Vec<(u32, String)>),
    /// Something was reported to the history.
    History,
    /// The window is to close.
    Close,
    /// The regular tick, with its time.
    Tick(Timestamp),
    /// A save of the layout has ended.
    DashboardSaved(Result<(), SaveError>),
}

} // verus!
