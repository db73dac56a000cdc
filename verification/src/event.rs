//! Input that reaches the workspace from outside the grid.
use vstd::prelude::*;

verus! {

/// A key that was pressed, or a request of the window.
#[derive(Clone, Copy, Debug, PartialEq, Eq)]
pub enum Event {
    Escape,
    Copy,
    Home,
    End,
    CloseRequested,
}

} // verus!
