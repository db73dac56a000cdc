//! What each message does to the workspace, stated over what the workspace
//! holds.
use vstd::prelude::*;
use iced::widget::pane_grid;
use crate::effect::EffectView;
use crate::event::Event;
use crate::grid::{pane_number, resize_ratio, resize_split};
use crate::layout::{is_proper_ratio, Grid};
use crate::message::Message;
use crate::pane::{Buffer, Drag, Kind, PaneState, Settings};
use crate::persistence::{save_due, Timestamp};
use crate::text::{joined, piece_view};

verus! {

/// What a workspace holds.
pub struct DashboardView {
    /// The grid of panes.
    pub grid: Grid,
    /// The pane that has focus, if one has.
    pub focus: Option<nat>,
    /// The time of the last change that is not saved yet, if there is one.
    pub last_changed: Option<Timestamp>,
}

/// The number of the pane, if there is one.
pub open spec fn number_of(pane: Option<pane_grid::Pane>) -> Option<nat> {
    match pane {
        Some(pane) => Some(pane_number(pane)),
        None => None,
    }
}

impl DashboardView {
    /// Every pane of the grid is held by exactly one leaf of its layout.
    pub open spec fn wf(self) -> bool {
        self.grid.wf()
    }

    /// The workspace with an unsaved change made at `now`.
    pub open spec fn changed(self, grid: Grid, now: Timestamp) -> DashboardView {
        DashboardView { grid, last_changed: Some(now), ..self }
    }

    /// Giving focus to a pane. Nothing happens if it has focus already;
    /// else it gets focus, and its buffer is asked to take the keyboard if
    /// the grid has the pane.
    pub open spec fn focus_pane(self, pane: nat) -> (DashboardView, EffectView) {
        if self.focus == Some(pane) {
            (self, EffectView::Nothing)
        } else {
            (
                DashboardView { focus: Some(pane), ..self },
                if self.grid.panes.contains_key(pane) {
                    EffectView::FocusBuffer(pane)
                } else {
                    EffectView::Nothing
                },
            )
        }
    }

    /// Setting the ratio of a split. A ratio that is not strictly between
    /// zero and one is not taken; the change is noted either way.
    pub open spec fn resize(self, split: nat, ratio: u32, now: Timestamp) -> DashboardView {
        self.changed(
            if is_proper_ratio(ratio) {
                self.grid.resize(split, ratio)
            } else {
                self.grid
            },
            now,
        )
    }

    /// Closing the focused pane. Focus goes to the sibling that the grid
    /// names. The only pane of a grid is not closed: its buffer is emptied
    /// and focus stays. Without focus nothing happens.
    pub open spec fn close_focused(self, now: Timestamp) -> (DashboardView, EffectView) {
        match self.focus {
            Some(pane) => {
                let (closed, removed) = self.grid.close(pane);
                match removed {
                    Some((_, sibling)) => self.changed(closed, now).focus_pane(sibling),
                    None => (
                        self.changed(
                            if closed.panes.contains_key(pane) {
                                closed.with_state(
                                    pane,
                                    PaneState {
                                        buffer: Buffer::Empty,
                                        settings: closed.panes[pane].settings,
                                    },
                                )
                            } else {
                                closed
                            },
                            now,
                        ),
                        EffectView::Nothing,
                    ),
                }
            },
            None => (self, EffectView::Nothing),
        }
    }

    /// Splitting the focused pane along an axis. The new pane is empty, has
    /// the given settings and gets focus. The change is noted even if the
    /// grid could not split. Without focus nothing happens.
    pub open spec fn split_focused(self, axis: pane_grid::Axis, now: Timestamp, settings: Settings) -> (
        DashboardView,
        EffectView,
    ) {
        match self.focus {
            Some(pane) => {
                let (split, made) = self.grid.split(
                    axis,
                    pane,
                    PaneState { buffer: Buffer::Empty, settings },
                );
                match made {
                    Some((new_pane, _)) => self.changed(split, now).focus_pane(new_pane),
                    None => (self.changed(split, now), EffectView::Nothing),
                }
            },
            None => (self, EffectView::Nothing),
        }
    }

    /// Something happened inside the buffer of a pane: the buffer handles
    /// it if the grid has the pane.
    pub open spec fn buffer_message(self, pane: nat) -> EffectView {
        if self.grid.panes.contains_key(pane) {
            EffectView::UpdateBuffer(pane)
        } else {
            EffectView::Nothing
        }
    }

    /// Showing or hiding the user list of the focused pane. Nothing happens
    /// without focus or if the grid does not have the focused pane.
    pub open spec fn toggle_user_list(self, now: Timestamp) -> DashboardView {
        match self.focus {
            Some(pane) => if self.grid.panes.contains_key(pane) {
                self.changed(
                    self.grid.with_state(
                        pane,
                        PaneState {
                            buffer: self.grid.panes[pane].buffer,
                            settings: self.grid.panes[pane].settings.toggled(),
                        },
                    ),
                    now,
                )
            } else {
                self
            },
            None => self,
        }
    }

    /// Drawing the focused pane alone, or, if a pane is drawn alone, all of
    /// them again. This is no change that is saved.
    pub open spec fn toggle_maximize(self) -> DashboardView {
        if self.grid.maximized.is_some() {
            DashboardView { grid: self.grid.restore(), ..self }
        } else {
            match self.focus {
                Some(pane) => DashboardView { grid: self.grid.maximize(pane), ..self },
                None => self,
            }
        }
    }

    /// Dropping a pane on a region of another. On the centre the two
    /// exchange what they show; on an edge the dropped pane moves beside the
    /// other. A drop that names a pane that the grid does not have moves
    /// nothing; the change is noted either way.
    pub open spec fn drop_pane(
        self,
        pane: nat,
        target: nat,
        region: pane_grid::Region,
        now: Timestamp,
    ) -> DashboardView {
        self.changed(
            if self.grid.panes.contains_key(pane) && self.grid.panes.contains_key(target) {
                match region {
                    pane_grid::Region::Center => self.grid.exchange(pane, target),
                    pane_grid::Region::Edge(_) => self.grid.split_with(target, pane, region),
                }
            } else {
                self.grid
            },
            now,
        )
    }

    /// What the user did to the grid or to one of its panes.
    pub open spec fn pane_message(
        self,
        message: crate::pane::Message,
        now: Timestamp,
        settings: Settings,
    ) -> (DashboardView, EffectView) {
        match message {
            crate::pane::Message::PaneClicked(pane) => self.focus_pane(pane_number(pane)),
            crate::pane::Message::PaneResized(event) => (
                self.resize(resize_split(event), resize_ratio(event), now),
                EffectView::Nothing,
            ),
            crate::pane::Message::PaneDragged(Drag::Dropped { pane, target, region }) => (
                self.drop_pane(pane_number(pane), pane_number(target), region, now),
                EffectView::Nothing,
            ),
            crate::pane::Message::PaneDragged(Drag::Unfinished) => (self, EffectView::Nothing),
            crate::pane::Message::ClosePane => self.close_focused(now),
            crate::pane::Message::SplitPane(axis) => self.split_focused(axis, now, settings),
            crate::pane::Message::Buffer(pane) => (self, self.buffer_message(pane_number(pane))),
            crate::pane::Message::ToggleShowUserList => (
                self.toggle_user_list(now),
                EffectView::Nothing,
            ),
            crate::pane::Message::MaximizePane => (self.toggle_maximize(), EffectView::Nothing),
        }
    }

    /// Opening a resource. If a pane shows it already, focus is given to one
    /// such pane and nothing else changes. Else, if the grid is one empty pane,
    /// that pane shows the resource with the given settings and gets focus.
    /// Else the focused pane, or without focus the pane made last, is split
    /// horizontally; the new pane shows the resource and gets focus, and the
    /// change is noted even if the grid could not split.
    pub open spec fn open(
        self,
        kind: Kind,
        now: Timestamp,
        settings: Settings,
        after: DashboardView,
        effect: EffectView,
    ) -> bool {
        let state = PaneState { buffer: Buffer::of(kind), settings };
        if self.grid.shows(kind@) {
            exists|pane: nat|
                #![trigger self.grid.shown_in(pane, kind@)]
                self.grid.shown_in(pane, kind@) && (after, effect) == self.focus_pane(pane)
        } else {
            match self.grid.sole_empty_pane() {
                Some(pane) => (after, effect) == self.changed(
                    self.grid.with_state(pane, state),
                    now,
                ).focus_pane(pane),
                None => {
                    let target = match self.focus {
                        Some(pane) => pane,
                        None => self.grid.newest(),
                    };
                    let (split, made) = self.grid.split(pane_grid::Axis::Horizontal, target, state);
                    match made {
                        Some((pane, _)) => (after, effect) == self.changed(split, now).focus_pane(
                            pane,
                        ),
                        None => after == self.changed(split, now) && effect == EffectView::Nothing,
                    }
                },
            }
        }
    }

    /// Showing a resource in a given pane: the pane keeps its settings and
    /// gets focus. Nothing happens if the grid does not have the pane.
    pub open spec fn replace(self, kind: Kind, pane: nat, now: Timestamp) -> (
        DashboardView,
        EffectView,
    ) {
        if self.grid.panes.contains_key(pane) {
            self.changed(
                self.grid.with_state(
                    pane,
                    PaneState {
                        buffer: Buffer::of(kind),
                        settings: self.grid.panes[pane].settings,
                    },
                ),
                now,
            ).focus_pane(pane)
        } else {
            (self, EffectView::Nothing)
        }
    }

    /// Closing a given pane: focus is dropped if that pane had it.
    pub open spec fn close(self, pane: nat, now: Timestamp) -> DashboardView {
        DashboardView {
            grid: self.grid.close(pane).0,
            focus: if self.focus == Some(pane) {
                None
            } else {
                self.focus
            },
            last_changed: Some(now),
        }
    }

    /// Swapping two panes: each stays where it is and shows what the other
    /// showed, with the settings of the other; the first gets focus.
    /// Nothing is exchanged unless the grid has both; the change is noted
    /// either way.
    pub open spec fn swap(self, from: nat, to: nat, now: Timestamp) -> (DashboardView, EffectView) {
        self.changed(self.grid.exchange(from, to), now).focus_pane(from)
    }

    /// What the side menu asks for.
    pub open spec fn side_menu_event(
        self,
        event: crate::side_menu::Event,
        now: Timestamp,
        settings: Settings,
        after: DashboardView,
        effect: EffectView,
    ) -> bool {
        match event {
            crate::side_menu::Event::Open(kind) => self.open(kind, now, settings, after, effect),
            crate::side_menu::Event::Replace(kind, pane) => (after, effect) == self.replace(
                kind,
                pane_number(pane),
                now,
            ),
            crate::side_menu::Event::Close(pane) => after == self.close(pane_number(pane), now)
                && effect == EffectView::Nothing,
            crate::side_menu::Event::Swap(from, to) => (after, effect) == self.swap(
                pane_number(from),
                pane_number(to),
                now,
            ),
        }
    }

    /// The regular tick: the history does its work, and a layout whose last
    /// change is old enough is saved and counts as saved from then on.
    pub open spec fn tick(self, now: Timestamp) -> (DashboardView, EffectView) {
        if save_due(self.last_changed, now) {
            (
                DashboardView { last_changed: None, ..self },
                EffectView::Tick { now, save: Some(self.grid.snapshot()) },
            )
        } else {
            (self, EffectView::Tick { now, save: None })
        }
    }

    /// What a message does to the workspace at the time `now`, and what it
    /// asks of the surroundings.
    pub open spec fn update(
        self,
        message: Message,
        now: Timestamp,
        settings: Settings,
        after: DashboardView,
        effect: EffectView,
    ) -> bool {
        match message {
            Message::Pane(message) => (after, effect) == self.pane_message(message, now, settings),
            Message::SideMenu(event) => self.side_menu_event(event, now, settings, after, effect),
            Message::SelectedText(contents) => after == self && effect == EffectView::WriteClipboard(
                joined(contents@.map_values(|piece: (u32, String)| piece_view(piece))),
            ),
            Message::History => after == self && effect == EffectView::UpdateHistory,
            Message::Close => after == self && effect == EffectView::CloseWindow,
            Message::Tick(at) => (after, effect) == self.tick(at),
            Message::DashboardSaved(_) => after == self && effect == EffectView::Nothing,
        }
    }

    /// The pane that a key acts on: the focused one, if the grid has it.
    pub open spec fn focused_pane(self) -> Option<nat> {
        match self.focus {
            Some(pane) => if self.grid.panes.contains_key(pane) {
                Some(pane)
            } else {
                None
            },
            None => None,
        }
    }

    /// What a key or a request of the window does. A request to close has
    /// the history closed, then the layout saved if it has unsaved changes,
    /// however recent, then the window closed.
    pub open spec fn handle_event(self, event: Event) -> (DashboardView, EffectView) {
        match event {
            Event::Escape => (DashboardView { focus: None, ..self }, EffectView::Nothing),
            Event::Copy => (self, EffectView::CopySelection),
            Event::Home => (
                self,
                match self.focused_pane() {
                    Some(pane) => EffectView::ScrollToStart(pane),
                    None => EffectView::Nothing,
                },
            ),
            Event::End => (
                self,
                match self.focused_pane() {
                    Some(pane) => EffectView::ScrollToEnd(pane),
                    None => EffectView::Nothing,
                },
            ),
            Event::CloseRequested => (
                self,
                EffectView::Shutdown {
                    save: if self.last_changed.is_some() {
                        Some(self.grid.snapshot())
                    } else {
                        None
                    },
                },
            ),
        }
    }
}

} // verus!
