//! The layout of a chat client's workspace: a grid of panes that can be split,
//! closed, resized and swapped, the pane that has focus, and the debounced
//! saving of the layout.
//!
//! The grid itself is `iced`'s `pane_grid::State`. Every decision taken around
//! it is verified against a mathematical model of that state; the calls into
//! `iced` are the only statements taken on trust, and they are gathered in
//! the `grid` module.

pub mod event;
pub mod pane;
pub mod side_menu;
pub mod layout;
pub mod grid;
pub mod consistency;
pub mod snapshot;
pub mod persistence;
pub mod effect;
pub mod text;
pub mod message;
pub mod transition;
pub mod screen;
pub mod laws;


pub use crate::effect::Effect;
pub use crate::message::Message;
pub use crate::screen::Dashboard;
