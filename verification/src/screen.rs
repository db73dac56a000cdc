//! The workspace: the grid of panes, the pane that has focus and the time of
//! the last unsaved change, with everything that can happen to them.
use vstd::prelude::*;
use iced::widget::pane_grid;
use crate::consistency::{
    lemma_close, lemma_exchange, lemma_from_shape, lemma_leaves, lemma_resize, lemma_split,
    lemma_split_with, lemma_with_state,
};
use crate::event::Event;
use crate::effect::Effect;
use crate::grid::{
    event_ratio, grid_close, grid_get, grid_get_mut, grid_ids, grid_layout, grid_len,
    grid_maximize, grid_maximized, grid_new, grid_resize, grid_restore, grid_split,
    grid_split_with, grid_view, grid_with_configuration, config_view, pane_number,
    pane_precedes, resize_ratio, resize_split, same_pane,
};
use crate::layout::{Grid, Shape, WHOLE_RATIO};
use crate::message::Message;
use crate::pane::{Buffer, Config, Drag, Kind, PaneState, Settings};
use crate::persistence::{is_save_due, Timestamp};
use crate::snapshot::{lemma_from_shape_snapshot, snapshot_node, Snapshot};
use crate::text::selected_text;
use crate::transition::{number_of, DashboardView};

verus! {

/// The workspace of the client.
pub struct Dashboard {
    panes: pane_grid::State<PaneState>,
    focus: Option<pane_grid::Pane>,
    last_changed: Option<Timestamp>,
}

/// The pane with the highest number among the given ones.
fn newest_of(ids: &Vec<pane_grid::Pane>) -> (best: Option<pane_grid::Pane>)
    ensures
        match best {
            Some(pane) => {
                &&& exists|i: int| 0 <= i < ids@.len() && pane_number(#[trigger] ids@[i]) == pane_number(pane)
                &&& forall|i: int| 0 <= i < ids@.len() ==> pane_number(#[trigger] ids@[i]) <= pane_number(pane)
            },
            None => ids@.len() == 0,
        },
{
    if ids.len() == 0 {
        return None;
    }
    let mut best = ids[0];
    let mut i: usize = 1;
    while i < ids.len()
        invariant
            1 <= i <= ids.len(),
            exists|k: int| 0 <= k < i && pane_number(#[trigger] ids@[k]) == pane_number(best),
            forall|k: int| 0 <= k < i ==> pane_number(#[trigger] ids@[k]) <= pane_number(best),
        decreases ids.len() - i,
    {
        if pane_precedes(&best, &ids[i]) {
            best = ids[i];
        }
        i += 1;
    }
    Some(best)
}

impl Dashboard {
    /// What the workspace holds.
    pub closed spec fn view(&self) -> DashboardView {
        DashboardView {
            grid: grid_view(self.panes),
            focus: number_of(self.focus),
            last_changed: self.last_changed,
        }
    }

    /// Every pane of the grid is held by exactly one leaf of its layout.
    pub open spec fn wf(&self) -> bool {
        self@.wf()
    }

    /// A workspace of one empty pane with the settings of a new pane,
    /// without focus and with nothing to save; with it the resources whose
    /// history is to be tracked, of which there are none.
    pub fn empty(config: &Config) -> (made: (Dashboard, Vec<Kind>))
        ensures
            made.0.wf(),
            made.0@ == (DashboardView {
                grid: Grid::from_shape(
                    Shape::Leaf {
                        state: PaneState { buffer: Buffer::Empty, settings: config.new_buffer },
                    },
                ),
                focus: None,
                last_changed: None,
            }),
            made.1@.len() == 0,
    {
        let first = PaneState::new(Buffer::empty(), config.new_buffer);
        proof {
            lemma_from_shape(Shape::Leaf { state: first });
        }
        let (panes, _) = grid_new(first);
        let dashboard = Dashboard { panes, focus: None, last_changed: None };
        let resources = dashboard.track();
        proof {
            if resources@.len() > 0 {
                assert(dashboard@.grid.tracks(resources@[0]));
            }
        }
        (dashboard, resources)
    }

    /// The workspace of a configuration that was read back, without focus
    /// and with nothing to save; with it the resources whose history is to
    /// be tracked. Written out again, the workspace gives what
    /// `Snapshot::of_configuration` reads from the configuration.
    pub fn restore(configuration: pane_grid::Configuration<PaneState>) -> (made: (Dashboard, Vec<Kind>))
        ensures
            made.0.wf(),
            made.0@ == (DashboardView {
                grid: Grid::from_shape(config_view(configuration)),
                focus: None,
                last_changed: None,
            }),
            made.0@.grid.snapshot() == Snapshot::of_shape(config_view(configuration)),
            forall|i: int| 0 <= i < made.1@.len() ==> made.0@.grid.tracks(#[trigger] made.1@[i]),
            forall|kind: Kind| made.0@.grid.tracks(kind) ==> made.1@.contains(kind),
    {
        proof {
            lemma_from_shape(config_view(configuration));
            lemma_from_shape_snapshot(config_view(configuration));
        }
        let panes = grid_with_configuration(configuration);
        let dashboard = Dashboard { panes, focus: None, last_changed: None };
        let resources = dashboard.track();
        (dashboard, resources)
    }

    /// The grid, for drawing it.
    pub fn grid(&self) -> (state: &pane_grid::State<PaneState>)
        ensures
            grid_view(*state) == self@.grid,
    {
        &self.panes
    }

    /// The pane that has focus.
    pub fn focus(&self) -> (pane: Option<pane_grid::Pane>)
        ensures
            number_of(pane) == self@.focus,
    {
        self.focus
    }

    /// The time of the last change that is not saved yet.
    pub fn last_changed(&self) -> (at: Option<Timestamp>)
        ensures
            at == self@.last_changed,
    {
        self.last_changed
    }

    /// Whether the pane has focus.
    pub fn is_focused(&self, pane: &pane_grid::Pane) -> (focused: bool)
        ensures
            focused == (self@.focus == Some(pane_number(*pane))),
    {
        match &self.focus {
            Some(own) => same_pane(own, pane),
            None => false,
        }
    }

    /// The number of panes.
    pub fn len(&self) -> (len: usize)
        requires
            self.wf(),
        ensures
            len == self@.grid.layout.leaf_count(),
            len >= 1,
    {
        proof {
            lemma_leaves(self@.grid.layout);
        }
        grid_len(&self.panes)
    }

    /// The state of a pane.
    pub fn pane(&self, pane: &pane_grid::Pane) -> (found: Option<&PaneState>)
        ensures
            found == if self@.grid.panes.contains_key(pane_number(*pane)) {
                Some(&self@.grid.panes[pane_number(*pane)])
            } else {
                None
            },
    {
        grid_get(&self.panes, pane)
    }

    /// The pane that alone is drawn.
    pub fn maximized(&self) -> (pane: Option<pane_grid::Pane>)
        ensures
            number_of(pane) == self@.grid.maximized,
    {
        grid_maximized(&self.panes)
    }

    /// The layout as it is written out.
    pub fn snapshot(&self) -> (snapshot: Snapshot)
        ensures
            snapshot == self@.grid.snapshot(),
    {
        snapshot_node(&self.panes, grid_layout(&self.panes))
    }

    /// Gives focus to a pane.
    pub fn focus_pane(&mut self, pane: pane_grid::Pane) -> (effect: Effect)
        ensures
            (final(self)@, effect@) == old(self)@.focus_pane(pane_number(pane)),
    {
        if self.is_focused(&pane) {
            Effect::Nothing
        } else {
            self.focus = Some(pane);
            if grid_get(&self.panes, &pane).is_some() {
                Effect::FocusBuffer(pane)
            } else {
                Effect::Nothing
            }
        }
    }

    /// Sets the ratio of a split as a resize event asks.
    pub fn resize(&mut self, event: &pane_grid::ResizeEvent, now: Timestamp)
        requires
            old(self).wf(),
        ensures
            final(self).wf(),
            final(self)@ == old(self)@.resize(resize_split(*event), resize_ratio(*event), now),
    {
        let ratio = event_ratio(event);
        if 0 < ratio && ratio < WHOLE_RATIO {
            proof {
                lemma_resize(self@.grid, resize_split(*event), resize_ratio(*event));
            }
            grid_resize(&mut self.panes, event);
        }
        self.last_changed = Some(now);
    }

    /// Closes the focused pane.
    pub fn close_focused(&mut self, now: Timestamp) -> (effect: Effect)
        requires
            old(self).wf(),
        ensures
            final(self).wf(),
            (final(self)@, effect@) == old(self)@.close_focused(now),
    {
        match self.focus {
            Some(pane) => {
                self.last_changed = Some(now);
                proof {
                    lemma_close(self@.grid, pane_number(pane));
                }
                match grid_close(&mut self.panes, &pane) {
                    Some((_, sibling)) => self.focus_pane(sibling),
                    None => {
                        let ghost closed = self@.grid;
                        match grid_get_mut(&mut self.panes, &pane) {
                            Some(state) => {
                                state.buffer = Buffer::Empty;
                            },
                            None => {},
                        }
                        proof {
                            if closed.panes.contains_key(pane_number(pane)) {
                                lemma_with_state(
                                    closed,
                                    pane_number(pane),
                                    self@.grid.panes[pane_number(pane)],
                                );
                            }
                        }
                        Effect::Nothing
                    },
                }
            },
            None => Effect::Nothing,
        }
    }

    /// Splits the focused pane along an axis.
    pub fn split_focused(&mut self, axis: pane_grid::Axis, now: Timestamp, settings: Settings) -> (effect:
        Effect)
        requires
            old(self).wf(),
        ensures
            final(self).wf(),
            (final(self)@, effect@) == old(self)@.split_focused(axis, now, settings),
    {
        match self.focus {
            Some(pane) => {
                let state = PaneState::new(Buffer::empty(), settings);
                proof {
                    lemma_split(self@.grid, axis, pane_number(pane), state);
                }
                let made = grid_split(&mut self.panes, axis, &pane, state);
                self.last_changed = Some(now);
                match made {
                    Some((new_pane, _)) => self.focus_pane(new_pane),
                    None => Effect::Nothing,
                }
            },
            None => Effect::Nothing,
        }
    }

    /// Hands what happened inside a buffer to that buffer.
    pub fn buffer_message(&self, pane: pane_grid::Pane) -> (effect: Effect)
        ensures
            effect@ == self@.buffer_message(pane_number(pane)),
    {
        if grid_get(&self.panes, &pane).is_some() {
            Effect::UpdateBuffer(pane)
        } else {
            Effect::Nothing
        }
    }

    /// Shows or hides the user list of the focused pane.
    pub fn toggle_user_list(&mut self, now: Timestamp)
        requires
            old(self).wf(),
        ensures
            final(self).wf(),
            final(self)@ == old(self)@.toggle_user_list(now),
    {
        match self.focus {
            Some(pane) => {
                match grid_get_mut(&mut self.panes, &pane) {
                    Some(state) => {
                        state.settings.show_user_list = !state.settings.show_user_list;
                        self.last_changed = Some(now);
                    },
                    None => {},
                }
                proof {
                    if old(self)@.grid.panes.contains_key(pane_number(pane)) {
                        lemma_with_state(
                            old(self)@.grid,
                            pane_number(pane),
                            self@.grid.panes[pane_number(pane)],
                        );
                    }
                }
            },
            None => {},
        }
    }

    /// Draws the focused pane alone, or all panes again.
    pub fn toggle_maximize(&mut self)
        requires
            old(self).wf(),
        ensures
            final(self).wf(),
            final(self)@ == old(self)@.toggle_maximize(),
    {
        if grid_maximized(&self.panes).is_some() {
            grid_restore(&mut self.panes);
        } else {
            match self.focus {
                Some(pane) => {
                    grid_maximize(&mut self.panes, &pane);
                },
                None => {},
            }
        }
    }

    /// The panes of the grid, in no fixed order.
    pub fn panes(&self) -> (ids: Vec<pane_grid::Pane>)
        ensures
            forall|i: int, j: int|
                0 <= i < j < ids@.len() ==> pane_number(#[trigger] ids@[i]) != pane_number(
                    #[trigger] ids@[j],
                ),
            forall|i: int|
                0 <= i < ids@.len() ==> self@.grid.panes.contains_key(
                    pane_number(#[trigger] ids@[i]),
                ),
            forall|pane: nat| #[trigger]
                self@.grid.panes.contains_key(pane) ==> exists|i: int|
                    0 <= i < ids@.len() && pane_number(#[trigger] ids@[i]) == pane,
    {
        grid_ids(&self.panes)
    }

    /// A pane that shows the resource, if there is one.
    pub fn find(&self, kind: &Kind) -> (found: Option<pane_grid::Pane>)
        ensures
            match found {
                Some(pane) => self@.grid.shown_in(pane_number(pane), kind@),
                None => !self@.grid.shows(kind@),
            },
    {
        let ids = grid_ids(&self.panes);
        let mut i: usize = 0;
        while i < ids.len()
            invariant
                i <= ids.len(),
                forall|k: int|
                    0 <= k < i ==> !self@.grid.shown_in(pane_number(#[trigger] ids@[k]), kind@),
            decreases ids.len() - i,
        {
            let showing = match grid_get(&self.panes, &ids[i]) {
                Some(state) => state.buffer.is_showing(kind),
                None => false,
            };
            if showing {
                return Some(ids[i]);
            }
            i += 1;
        }
        proof {
            assert forall|pane: nat| !self@.grid.shown_in(pane, kind@) by {
                if self@.grid.panes.contains_key(pane) {
                    let k = choose|k: int|
                        0 <= k < ids@.len() && pane_number(#[trigger] ids@[k]) == pane;
                    assert(!self@.grid.shown_in(pane_number(ids@[k]), kind@));
                }
            }
        }
        None
    }

    /// The only pane of the grid, if the grid has one pane and that pane is
    /// empty.
    pub fn sole_empty_pane(&self) -> (found: Option<pane_grid::Pane>)
        requires
            self.wf(),
        ensures
            number_of(found) == self@.grid.sole_empty_pane(),
    {
        proof {
            lemma_leaves(self@.grid.layout);
        }
        if grid_len(&self.panes) != 1 {
            return None;
        }
        let ids = grid_ids(&self.panes);
        proof {
            let sole = self@.grid.layout->pane;
            assert(self@.grid.layout.panes().contains(sole));
            assert(self@.grid.panes.contains_key(sole));
        }
        if ids.len() == 0 {
            return None;
        }
        let id = ids[0];
        proof {
            assert(self@.grid.panes.contains_key(pane_number(ids@[0])));
            assert(self@.grid.layout.panes().contains(pane_number(id)));
        }
        match grid_get(&self.panes, &id) {
            Some(state) => if state.buffer.is_empty() {
                Some(id)
            } else {
                None
            },
            None => None,
        }
    }

    /// The pane that was made last.
    pub fn newest(&self) -> (found: Option<pane_grid::Pane>)
        requires
            self.wf(),
        ensures
            number_of(found) == Some(self@.grid.newest()),
            self@.grid.is_newest(self@.grid.newest()),
    {
        let ids = grid_ids(&self.panes);
        let best = newest_of(&ids);
        proof {
            lemma_leaves(self@.grid.layout);
            let first = self@.grid.layout.first_pane();
            assert(self@.grid.panes.contains_key(first));
            match best {
                Some(pane) => {
                    assert forall|other: nat| self@.grid.panes.contains_key(other) implies other
                        <= pane_number(pane) by {
                        let k = choose|k: int|
                            0 <= k < ids@.len() && pane_number(#[trigger] ids@[k]) == other;
                        assert(pane_number(ids@[k]) <= pane_number(pane));
                    }
                    assert(self@.grid.is_newest(pane_number(pane)));
                },
                None => {
                    let k = choose|k: int|
                        0 <= k < ids@.len() && pane_number(#[trigger] ids@[k]) == first;
                    assert(false);
                },
            }
        }
        best
    }

    /// Moves a pane that was dropped on a region of another.
    pub fn drop_pane(
        &mut self,
        pane: pane_grid::Pane,
        target: pane_grid::Pane,
        region: pane_grid::Region,
        now: Timestamp,
    )
        requires
            old(self).wf(),
        ensures
            final(self).wf(),
            final(self)@ == old(self)@.drop_pane(
                pane_number(pane),
                pane_number(target),
                region,
                now,
            ),
    {
        match region {
            pane_grid::Region::Center => {
                self.exchange(&pane, &target);
            },
            pane_grid::Region::Edge(_) => {
                if grid_get(&self.panes, &pane).is_some() && grid_get(&self.panes, &target).is_some() {
                    proof {
                        lemma_split_with(
                            self@.grid,
                            pane_number(target),
                            pane_number(pane),
                            region,
                        );
                    }
                    grid_split_with(&mut self.panes, &target, &pane, region);
                }
            },
        }
        self.last_changed = Some(now);
    }

    /// Handles what the user did to the grid or to one of its panes.
    pub fn pane_message(&mut self, message: crate::pane::Message, now: Timestamp, settings: Settings) -> (effect:
        Effect)
        requires
            old(self).wf(),
        ensures
            final(self).wf(),
            (final(self)@, effect@) == old(self)@.pane_message(message, now, settings),
    {
        match message {
            crate::pane::Message::PaneClicked(pane) => self.focus_pane(pane),
            crate::pane::Message::PaneResized(event) => {
                self.resize(&event, now);
                Effect::Nothing
            },
            crate::pane::Message::PaneDragged(Drag::Dropped { pane, target, region }) => {
                self.drop_pane(pane, target, region, now);
                Effect::Nothing
            },
            crate::pane::Message::PaneDragged(Drag::Unfinished) => Effect::Nothing,
            crate::pane::Message::ClosePane => self.close_focused(now),
            crate::pane::Message::SplitPane(axis) => self.split_focused(axis, now, settings),
            crate::pane::Message::Buffer(pane) => self.buffer_message(pane),
            crate::pane::Message::ToggleShowUserList => {
                self.toggle_user_list(now);
                Effect::Nothing
            },
            crate::pane::Message::MaximizePane => {
                self.toggle_maximize();
                Effect::Nothing
            },
        }
    }

    /// Opens a resource.
    pub fn open(&mut self, kind: Kind, now: Timestamp, settings: Settings) -> (effect: Effect)
        requires
            old(self).wf(),
        ensures
            final(self).wf(),
            old(self)@.open(kind, now, settings, final(self)@, effect@),
    {
        match self.find(&kind) {
            Some(pane) => {
                return self.focus_pane(pane);
            },
            None => {},
        }
        match self.sole_empty_pane() {
            Some(pane) => {
                match grid_get_mut(&mut self.panes, &pane) {
                    Some(state) => {
                        *state = PaneState::new(Buffer::from(kind), settings);
                    },
                    None => {},
                }
                proof {
                    lemma_with_state(
                        old(self)@.grid,
                        pane_number(pane),
                        self@.grid.panes[pane_number(pane)],
                    );
                }
                self.last_changed = Some(now);
                return self.focus_pane(pane);
            },
            None => {},
        }
        let target = match self.focus {
            Some(pane) => pane,
            None => match self.newest() {
                Some(pane) => pane,
                None => {
                    return Effect::Nothing;
                },
            },
        };
        let state = PaneState::new(Buffer::from(kind), settings);
        proof {
            lemma_split(self@.grid, pane_grid::Axis::Horizontal, pane_number(target), state);
        }
        let made = grid_split(&mut self.panes, pane_grid::Axis::Horizontal, &target, state);
        self.last_changed = Some(now);
        match made {
            Some((pane, _)) => self.focus_pane(pane),
            None => Effect::Nothing,
        }
    }

    /// Shows a resource in a given pane.
    pub fn replace(&mut self, kind: Kind, pane: pane_grid::Pane, now: Timestamp) -> (effect: Effect)
        requires
            old(self).wf(),
        ensures
            final(self).wf(),
            (final(self)@, effect@) == old(self)@.replace(kind, pane_number(pane), now),
    {
        let found = match grid_get_mut(&mut self.panes, &pane) {
            Some(state) => {
                state.buffer = Buffer::from(kind);
                true
            },
            None => false,
        };
        if found {
            proof {
                lemma_with_state(
                    old(self)@.grid,
                    pane_number(pane),
                    self@.grid.panes[pane_number(pane)],
                );
            }
            self.last_changed = Some(now);
            self.focus_pane(pane)
        } else {
            Effect::Nothing
        }
    }

    /// Closes a given pane.
    pub fn close(&mut self, pane: pane_grid::Pane, now: Timestamp)
        requires
            old(self).wf(),
        ensures
            final(self).wf(),
            final(self)@ == old(self)@.close(pane_number(pane), now),
    {
        proof {
            lemma_close(self@.grid, pane_number(pane));
        }
        let _ = grid_close(&mut self.panes, &pane);
        self.last_changed = Some(now);
        if self.is_focused(&pane) {
            self.focus = None;
        }
    }

    /// Exchanges the states of two panes, if the grid has both.
    fn exchange(&mut self, first: &pane_grid::Pane, second: &pane_grid::Pane)
        requires
            old(self).wf(),
        ensures
            final(self).wf(),
            final(self)@ == (DashboardView {
                grid: old(self)@.grid.exchange(pane_number(*first), pane_number(*second)),
                ..old(self)@
            }),
    {
        proof {
            lemma_exchange(self@.grid, pane_number(*first), pane_number(*second));
        }
        let shown_first = match grid_get(&self.panes, first) {
            Some(state) => state.clone(),
            None => {
                return ;
            },
        };
        let shown_second = match grid_get(&self.panes, second) {
            Some(state) => state.clone(),
            None => {
                return ;
            },
        };
        match grid_get_mut(&mut self.panes, first) {
            Some(state) => {
                *state = shown_second;
            },
            None => {},
        }
        match grid_get_mut(&mut self.panes, second) {
            Some(state) => {
                *state = shown_first;
            },
            None => {},
        }
    }

    /// Swaps two panes.
    pub fn swap(&mut self, from: pane_grid::Pane, to: pane_grid::Pane, now: Timestamp) -> (effect:
        Effect)
        requires
            old(self).wf(),
        ensures
            final(self).wf(),
            (final(self)@, effect@) == old(self)@.swap(pane_number(from), pane_number(to), now),
    {
        self.exchange(&from, &to);
        self.last_changed = Some(now);
        self.focus_pane(from)
    }

    /// Handles what the side menu asks for.
    pub fn side_menu_event(&mut self, event: crate::side_menu::Event, now: Timestamp, settings: Settings) -> (effect:
        Effect)
        requires
            old(self).wf(),
        ensures
            final(self).wf(),
            old(self)@.side_menu_event(event, now, settings, final(self)@, effect@),
    {
        match event {
            crate::side_menu::Event::Open(kind) => self.open(kind, now, settings),
            crate::side_menu::Event::Replace(kind, pane) => self.replace(kind, pane, now),
            crate::side_menu::Event::Close(pane) => {
                self.close(pane, now);
                Effect::Nothing
            },
            crate::side_menu::Event::Swap(from, to) => self.swap(from, to, now),
        }
    }

    /// The regular tick.
    pub fn tick(&mut self, now: Timestamp) -> (effect: Effect)
        ensures
            (final(self)@, effect@) == old(self)@.tick(now),
    {
        if is_save_due(self.last_changed, now) {
            let snapshot = self.snapshot();
            self.last_changed = None;
            Effect::Tick { now, save: Some(snapshot) }
        } else {
            Effect::Tick { now, save: None }
        }
    }

    /// Handles a message at the time `now`. New panes get the settings that
    /// the configuration has for them.
    pub fn update(&mut self, message: Message, now: Timestamp, config: &Config) -> (effect: Effect)
        requires
            old(self).wf(),
        ensures
            final(self).wf(),
            old(self)@.update(message, now, config.new_buffer, final(self)@, effect@),
    {
        match message {
            Message::Pane(message) => self.pane_message(message, now, config.new_buffer),
            Message::SideMenu(event) => self.side_menu_event(event, now, config.new_buffer),
            Message::SelectedText(contents) => Effect::WriteClipboard(selected_text(&contents)),
            Message::History => Effect::UpdateHistory,
            Message::Close => Effect::CloseWindow,
            Message::Tick(at) => self.tick(at),
            Message::DashboardSaved(_) => Effect::Nothing,
        }
    }

    /// Handles a message as `update` does, and lists the resources whose
    /// history the panes need once it is handled: a message may have changed
    /// what the panes show.
    pub fn update_and_track(&mut self, message: Message, now: Timestamp, config: &Config) -> (done: (
        Effect,
        Vec<Kind>,
    ))
        requires
            old(self).wf(),
        ensures
            final(self).wf(),
            old(self)@.update(message, now, config.new_buffer, final(self)@, done.0@),
            forall|i: int| 0 <= i < done.1@.len() ==> final(self)@.grid.tracks(#[trigger] done.1@[i]),
            forall|kind: Kind| final(self)@.grid.tracks(kind) ==> done.1@.contains(kind),
    {
        let effect = self.update(message, now, config);
        let resources = self.track();
        (effect, resources)
    }

    /// Handles a key or a request of the window.
    pub fn handle_event(&mut self, event: Event) -> (effect: Effect)
        ensures
            (final(self)@, effect@) == old(self)@.handle_event(event),
    {
        match event {
            Event::Escape => {
                self.focus = None;
                Effect::Nothing
            },
            Event::Copy => Effect::CopySelection,
            Event::Home => match self.focus {
                Some(pane) => if grid_get(&self.panes, &pane).is_some() {
                    Effect::ScrollToStart(pane)
                } else {
                    Effect::Nothing
                },
                None => Effect::Nothing,
            },
            Event::End => match self.focus {
                Some(pane) => if grid_get(&self.panes, &pane).is_some() {
                    Effect::ScrollToEnd(pane)
                } else {
                    Effect::Nothing
                },
                None => Effect::Nothing,
            },
            Event::CloseRequested => {
                let snapshot = self.snapshot();
                Effect::Shutdown {
                    save: if self.last_changed.is_some() {
                        Some(snapshot)
                    } else {
                        None
                    },
                }
            },
        }
    }

    /// The resources whose history the panes need: each resource that a
    /// pane shows, and no other.
    pub fn track(&self) -> (resources: Vec<Kind>)
        ensures
            forall|i: int| 0 <= i < resources@.len() ==> self@.grid.tracks(#[trigger] resources@[i]),
            forall|kind: Kind| self@.grid.tracks(kind) ==> resources@.contains(kind),
    {
        let ids = grid_ids(&self.panes);
        let mut resources: Vec<Kind> = Vec::new();
        let mut i: usize = 0;
        while i < ids.len()
            invariant
                i <= ids.len(),
                forall|k: int|
                    0 <= k < ids@.len() ==> self@.grid.panes.contains_key(
                        pane_number(#[trigger] ids@[k]),
                    ),
                forall|j: int|
                    0 <= j < resources@.len() ==> self@.grid.tracks(#[trigger] resources@[j]),
                forall|k: int|
                    0 <= k < i ==> match self@.grid.panes[pane_number(
                        #[trigger] ids@[k],
                    )].buffer.kind() {
                        Some(kind) => resources@.contains(kind),
                        None => true,
                    },
            decreases ids.len() - i,
        {
            let ghost before = resources@;
            match grid_get(&self.panes, &ids[i]) {
                Some(state) => match state.resource() {
                    Some(kind) => {
                        resources.push(kind);
                        proof {
                            let pane = pane_number(ids@[i as int]);
                            assert(self@.grid.panes[pane].buffer.kind() == Some(kind));
                            assert(resources@ == before.push(kind));
                            assert(resources@[before.len() as int] == kind);
                            assert forall|k: int| 0 <= k < i implies match self@.grid.panes[pane_number(
                                #[trigger] ids@[k],
                            )].buffer.kind() {
                                Some(shown) => resources@.contains(shown),
                                None => true,
                            } by {
                                match self@.grid.panes[pane_number(ids@[k])].buffer.kind() {
                                    Some(shown) => {
                                        let j = choose|j: int|
                                            0 <= j < before.len() && before[j] == shown;
                                        assert(resources@[j] == shown);
                                    },
                                    None => {},
                                }
                            }
                        }
                    },
                    None => {},
                },
                None => {},
            }
            i += 1;
        }
        proof {
            assert forall|kind: Kind| self@.grid.tracks(kind) implies resources@.contains(kind) by {
                let pane = choose|pane: nat|
                    #![trigger self@.grid.panes[pane]]
                    self@.grid.panes.contains_key(pane) && self@.grid.panes[pane].buffer.kind()
                        == Some(kind);
                let k = choose|k: int|
                    0 <= k < ids@.len() && pane_number(#[trigger] ids@[k]) == pane;
                assert(self@.grid.panes[pane_number(ids@[k])].buffer.kind() == Some(kind));
            }
        }
        resources
    }
}

} // verus!
