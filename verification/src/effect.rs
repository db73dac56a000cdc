//! What the workspace asks its surroundings to do. The workspace decides;
//! buffers, history, clipboard, window and disk are someone else's.
use vstd::prelude::*;
use iced::widget::pane_grid;
use crate::grid::pane_number;
use crate::persistence::Timestamp;
use crate::snapshot::Snapshot;

verus! {

/// A task for the surroundings of the workspace.
#[derive(Debug, PartialEq, Eq)]
pub enum Effect {
    /// Nothing is to be done.
    Nothing,
    /// The buffer of the pane takes the keyboard.
    FocusBuffer(pane_grid::Pane),
    /// The buffer of the pane handles what happened inside it.
    UpdateBuffer(pane_grid::Pane),
    /// The buffer of the pane scrolls to its start.
    ScrollToStart(pane_grid::Pane),
    /// The buffer of the pane scrolls to its end.
    ScrollToEnd(pane_grid::Pane),
    /// The selected text is gathered and handed back.
    CopySelection,
    /// The text is written to the clipboard.
    WriteClipboard(String),
    /// The history handles what was reported to it.
    UpdateHistory,
    /// The history does its regular work for the given time, and the
    /// snapshot, if there is one, is saved.
    Tick { now: Timestamp, save: Option<Snapshot> },
    /// The history is closed; after that the snapshot, if there is one, is
    /// saved; after that the window is asked to close.
    Shutdown { save: Option<Snapshot> },
    /// The window closes.
    CloseWindow,
}

/// An effect with panes by their numbers and text as characters.
pub enum EffectView {
    Nothing,
    FocusBuffer(nat),
    UpdateBuffer(nat),
    ScrollToStart(nat),
    ScrollToEnd(nat),
    CopySelection,
    WriteClipboard(Seq<char>),
    UpdateHistory,
    Tick { now: Timestamp, save: Option<Snapshot> },
    Shutdown { save: Option<Snapshot> },
    CloseWindow,
}

impl View for Effect {
    type V = EffectView;

    open spec fn view(&self) -> EffectView {
        match *self {
            Effect::Nothing => EffectView::Nothing,
            Effect::FocusBuffer(pane) => EffectView::FocusBuffer(pane_number(pane)),
            Effect::UpdateBuffer(pane) => EffectView::UpdateBuffer(pane_number(pane)),
            Effect::ScrollToStart(pane) => EffectView::ScrollToStart(pane_number(pane)),
            Effect::ScrollToEnd(pane) => EffectView::ScrollToEnd(pane_number(pane)),
            Effect::CopySelection => EffectView::CopySelection,
            Effect::WriteClipboard(text) => EffectView::WriteClipboard(text@),
            Effect::UpdateHistory => EffectView::UpdateHistory,
            Effect::Tick { now, save } => EffectView::Tick { now, save },
            Effect::Shutdown { save } => EffectView::Shutdown { save },
            Effect::CloseWindow => EffectView::CloseWindow,
        }
    }
}

} // verus!
