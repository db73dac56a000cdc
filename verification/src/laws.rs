//! What holds of the workspace whatever happens to it.
use vstd::prelude::*;
use iced::widget::pane_grid;
use crate::consistency::{
    lemma_close, lemma_count, lemma_exchange, lemma_grid_stays_proper, lemma_leaves,
    lemma_resize, lemma_shape_proper, lemma_split, lemma_split_with, lemma_with_state,
};
use crate::effect::EffectView;
use crate::event::Event;
use crate::grid::{pane_number, resize_ratio, resize_split};
use crate::layout::{Grid, Layout, Shape};
use crate::pane::{Buffer, Drag, Kind, PaneState, Settings};
use crate::persistence::{Timestamp, SAVE_AFTER};
use crate::message::Message;
use crate::transition::DashboardView;

verus! {

/// A layout always has a leaf, and a well-formed grid always has a pane.
pub proof fn law_never_empty(grid: Grid)
    ensures
        grid.layout.leaf_count() >= 1,
        grid.wf() ==> grid.panes.dom().finite() && grid.panes.dom().len() >= 1,
{
    lemma_leaves(grid.layout);
}

/// In a well-formed grid every pane that has a state is held by exactly
/// one leaf, and a pane that has none is held by no leaf.
pub proof fn law_each_pane_in_one_leaf(grid: Grid, pane: nat)
    requires
        grid.wf(),
    ensures
        grid.panes.contains_key(pane) ==> grid.layout.count(pane) == 1,
        !grid.panes.contains_key(pane) ==> grid.layout.count(pane) == 0,
{
    lemma_count(grid.layout, pane);
}

/// Whatever the user does to the grid or to one of its panes, a well-formed
/// workspace stays well formed.
pub proof fn law_pane_message_keeps_consistency(
    before: DashboardView,
    message: crate::pane::Message,
    now: Timestamp,
    settings: Settings,
)
    requires
        before.wf(),
    ensures
        before.pane_message(message, now, settings).0.wf(),
{
    match message {
        crate::pane::Message::PaneClicked(_) => {},
        crate::pane::Message::PaneResized(event) => {
            lemma_resize(before.grid, resize_split(event), resize_ratio(event));
        },
        crate::pane::Message::PaneDragged(Drag::Dropped { pane, target, region }) => {
            lemma_exchange(before.grid, pane_number(pane), pane_number(target));
            if before.grid.panes.contains_key(pane_number(pane)) && before.grid.panes.contains_key(
                pane_number(target),
            ) {
                lemma_split_with(before.grid, pane_number(target), pane_number(pane), region);
            }
        },
        crate::pane::Message::PaneDragged(Drag::Unfinished) => {},
        crate::pane::Message::ClosePane => {
            match before.focus {
                Some(pane) => {
                    lemma_close(before.grid, pane);
                    let closed = before.grid.close(pane).0;
                    if closed.panes.contains_key(pane) {
                        lemma_with_state(
                            closed,
                            pane,
                            PaneState { buffer: Buffer::Empty, settings: closed.panes[pane].settings },
                        );
                    }
                },
                None => {},
            }
        },
        crate::pane::Message::SplitPane(axis) => {
            match before.focus {
                Some(pane) => {
                    lemma_split(
                        before.grid,
                        axis,
                        pane,
                        PaneState { buffer: Buffer::Empty, settings },
                    );
                },
                None => {},
            }
        },
        crate::pane::Message::Buffer(_) => {},
        crate::pane::Message::ToggleShowUserList => {
            match before.focus {
                Some(pane) => {
                    if before.grid.panes.contains_key(pane) {
                        lemma_with_state(
                            before.grid,
                            pane,
                            PaneState {
                                buffer: before.grid.panes[pane].buffer,
                                settings: before.grid.panes[pane].settings.toggled(),
                            },
                        );
                    }
                },
                None => {},
            }
        },
        crate::pane::Message::MaximizePane => {},
    }
}

/// Whatever the side menu asks for, a well-formed workspace stays well
/// formed.
pub proof fn law_side_menu_keeps_consistency(
    before: DashboardView,
    event: crate::side_menu::Event,
    now: Timestamp,
    settings: Settings,
    after: DashboardView,
    effect: EffectView,
)
    requires
        before.wf(),
        before.side_menu_event(event, now, settings, after, effect),
    ensures
        after.wf(),
{
    match event {
        crate::side_menu::Event::Open(kind) => {
            let state = PaneState { buffer: Buffer::of(kind), settings };
            if !before.grid.shows(kind@) {
                match before.grid.sole_empty_pane() {
                    Some(pane) => {
                        lemma_with_state(before.grid, pane, state);
                    },
                    None => {
                        let target = match before.focus {
                            Some(pane) => pane,
                            None => before.grid.newest(),
                        };
                        lemma_split(before.grid, pane_grid::Axis::Horizontal, target, state);
                    },
                }
            }
        },
        crate::side_menu::Event::Replace(kind, pane) => {
            let pane = pane_number(pane);
            if before.grid.panes.contains_key(pane) {
                lemma_with_state(
                    before.grid,
                    pane,
                    PaneState { buffer: Buffer::of(kind), settings: before.grid.panes[pane].settings },
                );
            }
        },
        crate::side_menu::Event::Close(pane) => {
            lemma_close(before.grid, pane_number(pane));
        },
        crate::side_menu::Event::Swap(from, to) => {
            lemma_exchange(before.grid, pane_number(from), pane_number(to));
        },
    }
}

/// Whatever message arrives, a well-formed workspace stays well formed: it
/// keeps at least one pane, and each of its panes is held by exactly one
/// leaf. By induction this holds after any run of messages.
pub proof fn law_update_keeps_consistency(
    before: DashboardView,
    message: Message,
    now: Timestamp,
    settings: Settings,
    after: DashboardView,
    effect: EffectView,
)
    requires
        before.wf(),
        before.update(message, now, settings, after, effect),
    ensures
        after.wf(),
        after.grid.layout.leaf_count() >= 1,
        after.grid.panes.dom().len() >= 1,
        forall|pane: nat| after.grid.panes.contains_key(pane) ==> after.grid.layout.count(pane) == 1,
        forall|pane: nat| !after.grid.panes.contains_key(pane) ==> after.grid.layout.count(pane) == 0,
{
    match message {
        Message::Pane(message) => {
            law_pane_message_keeps_consistency(before, message, now, settings);
        },
        Message::SideMenu(event) => {
            law_side_menu_keeps_consistency(before, event, now, settings, after, effect);
        },
        _ => {},
    }
    law_never_empty(after.grid);
    assert forall|pane: nat| after.grid.panes.contains_key(pane) implies after.grid.layout.count(
        pane,
    ) == 1 by {
        law_each_pane_in_one_leaf(after.grid, pane);
    }
    assert forall|pane: nat| !after.grid.panes.contains_key(pane) implies after.grid.layout.count(
        pane,
    ) == 0 by {
        law_each_pane_in_one_leaf(after.grid, pane);
    }
}

/// A grid made from an arrangement whose ratios are strictly between zero
/// and one has only such ratios.
pub proof fn law_restored_ratios(shape: Shape)
    ensures
        Grid::from_shape(shape).layout.proper() == shape.proper(),
{
    lemma_shape_proper(shape, 0);
}

/// Whatever message arrives, the ratio of every split stays strictly
/// between zero and one: a new split is even, and no other ratio is taken
/// when a split is resized.
pub proof fn law_update_keeps_ratios(
    before: DashboardView,
    message: Message,
    now: Timestamp,
    settings: Settings,
    after: DashboardView,
    effect: EffectView,
)
    requires
        before.grid.layout.proper(),
        before.update(message, now, settings, after, effect),
    ensures
        after.grid.layout.proper(),
{
    let empty = PaneState { buffer: Buffer::Empty, settings };
    match message {
        Message::Pane(message) => {
            match message {
                crate::pane::Message::PaneResized(event) => {
                    lemma_grid_stays_proper(
                        before.grid,
                        pane_grid::Axis::Horizontal,
                        0,
                        0,
                        empty,
                        pane_grid::Region::Center,
                        resize_split(event),
                        resize_ratio(event),
                    );
                },
                crate::pane::Message::PaneDragged(Drag::Dropped { pane, target, region }) => {
                    lemma_grid_stays_proper(
                        before.grid,
                        pane_grid::Axis::Horizontal,
                        pane_number(target),
                        pane_number(pane),
                        empty,
                        region,
                        0,
                        0,
                    );
                },
                crate::pane::Message::ClosePane => {
                    match before.focus {
                        Some(pane) => {
                            lemma_grid_stays_proper(
                                before.grid,
                                pane_grid::Axis::Horizontal,
                                0,
                                pane,
                                empty,
                                pane_grid::Region::Center,
                                0,
                                0,
                            );
                        },
                        None => {},
                    }
                },
                crate::pane::Message::SplitPane(axis) => {
                    match before.focus {
                        Some(pane) => {
                            lemma_grid_stays_proper(
                                before.grid,
                                axis,
                                pane,
                                0,
                                empty,
                                pane_grid::Region::Center,
                                0,
                                0,
                            );
                        },
                        None => {},
                    }
                },
                _ => {},
            }
        },
        Message::SideMenu(event) => {
            match event {
                crate::side_menu::Event::Open(kind) => {
                    let target = match before.focus {
                        Some(pane) => pane,
                        None => before.grid.newest(),
                    };
                    lemma_grid_stays_proper(
                        before.grid,
                        pane_grid::Axis::Horizontal,
                        target,
                        0,
                        PaneState { buffer: Buffer::of(kind), settings },
                        pane_grid::Region::Center,
                        0,
                        0,
                    );
                },
                crate::side_menu::Event::Close(pane) => {
                    lemma_grid_stays_proper(
                        before.grid,
                        pane_grid::Axis::Horizontal,
                        0,
                        pane_number(pane),
                        empty,
                        pane_grid::Region::Center,
                        0,
                        0,
                    );
                },
                _ => {},
            }
        },
        _ => {},
    }
}

/// What reaches the workspace: a message with its time and the settings for
/// new panes, or a key or request of the window.
pub enum Input {
    Message { message: Message, now: Timestamp, settings: Settings },
    Event { event: Event },
}

/// One step of a run: what reached the workspace, and the workspace and the
/// effect that came of it.
pub struct Step {
    pub input: Input,
    pub after: DashboardView,
    pub effect: EffectView,
}

/// Whether a step can follow on the given workspace.
pub open spec fn follows(before: DashboardView, step: Step) -> bool {
    match step.input {
        Input::Message { message, now, settings } => before.update(
            message,
            now,
            settings,
            step.after,
            step.effect,
        ),
        Input::Event { event } => (step.after, step.effect) == before.handle_event(event),
    }
}

/// The workspace at the end of a run.
pub open spec fn end_of(start: DashboardView, steps: Seq<Step>) -> DashboardView {
    if steps.len() == 0 {
        start
    } else {
        steps.last().after
    }
}

/// Whether the steps are a run from the given start: each step follows on
/// the workspace that the step before it left.
pub open spec fn is_run(start: DashboardView, steps: Seq<Step>) -> bool
    decreases steps.len(),
{
    if steps.len() == 0 {
        true
    } else {
        &&& is_run(start, steps.drop_last())
        &&& follows(end_of(start, steps.drop_last()), steps.last())
    }
}

/// After any run from a well-formed workspace the workspace is well formed:
/// it has at least one pane, and each of its panes is held by exactly one
/// leaf of the layout.
pub proof fn law_runs_keep_consistency(start: DashboardView, steps: Seq<Step>)
    requires
        start.wf(),
        is_run(start, steps),
    ensures
        end_of(start, steps).wf(),
        end_of(start, steps).grid.layout.leaf_count() >= 1,
        end_of(start, steps).grid.panes.dom().len() >= 1,
        forall|pane: nat|
            end_of(start, steps).grid.panes.contains_key(pane) ==> end_of(
                start,
                steps,
            ).grid.layout.count(pane) == 1,
        forall|pane: nat|
            !end_of(start, steps).grid.panes.contains_key(pane) ==> end_of(
                start,
                steps,
            ).grid.layout.count(pane) == 0,
    decreases steps.len(),
{
    if steps.len() > 0 {
        let before = end_of(start, steps.drop_last());
        let step = steps.last();
        law_runs_keep_consistency(start, steps.drop_last());
        match step.input {
            Input::Message { message, now, settings } => {
                law_update_keeps_consistency(
                    before,
                    message,
                    now,
                    settings,
                    step.after,
                    step.effect,
                );
            },
            Input::Event { .. } => {},
        }
    }
    let end = end_of(start, steps);
    law_never_empty(end.grid);
    assert forall|pane: nat| end.grid.panes.contains_key(pane) implies end.grid.layout.count(pane)
        == 1 by {
        law_each_pane_in_one_leaf(end.grid, pane);
    }
    assert forall|pane: nat| !end.grid.panes.contains_key(pane) implies end.grid.layout.count(pane)
        == 0 by {
        law_each_pane_in_one_leaf(end.grid, pane);
    }
}

/// Closing the only pane of a workspace leaves the layout as it is: the
/// pane stays, with an empty buffer and its settings, and keeps focus.
pub proof fn law_sole_pane_is_emptied(before: DashboardView, pane: nat, now: Timestamp)
    requires
        before.wf(),
        before.focus == Some(pane),
        before.grid.layout == (Layout::Leaf { pane }),
    ensures
        before.close_focused(now).0.grid.layout == before.grid.layout,
        before.close_focused(now).0.grid.panes == before.grid.panes.insert(
            pane,
            PaneState { buffer: Buffer::Empty, settings: before.grid.panes[pane].settings },
        ),
        before.close_focused(now).0.focus == Some(pane),
        before.close_focused(now).0.last_changed == Some(now),
        before.close_focused(now).1 == EffectView::Nothing,
{
    lemma_close(before.grid, pane);
    assert(before.grid.layout.panes().contains(pane));
}

/// When the focused pane is closed and the grid has another pane, focus
/// goes to the sibling that the grid names, which is a pane of the grid
/// afterwards.
pub proof fn law_close_moves_focus_to_sibling(before: DashboardView, pane: nat, now: Timestamp)
    requires
        before.wf(),
        before.focus == Some(pane),
        before.grid.close(pane).1.is_some(),
    ensures
        before.close_focused(now).0.focus == Some(before.grid.close(pane).1.unwrap().1),
        before.close_focused(now).0.grid.panes.contains_key(
            before.grid.close(pane).1.unwrap().1,
        ),
        !before.close_focused(now).0.grid.panes.contains_key(pane),
        before.close_focused(now).1 == EffectView::FocusBuffer(
            before.grid.close(pane).1.unwrap().1,
        ),
{
    lemma_close(before.grid, pane);
}

/// When the side menu closes the focused pane, no pane has focus
/// afterwards, whether the grid could close the pane or not.
pub proof fn law_menu_close_drops_focus(before: DashboardView, pane: nat, now: Timestamp)
    requires
        before.focus == Some(pane),
    ensures
        before.close(pane, now).focus.is_none(),
{
}

/// A tick saves exactly when the last unsaved change is at least
/// `SAVE_AFTER` old, and what it saves is the layout as it is then.
pub proof fn law_tick_saves_when_due(before: DashboardView, now: Timestamp)
    ensures
        before.tick(now).1 == (EffectView::Tick {
            now,
            save: if before.last_changed.is_some() && now.elapsed_since(
                before.last_changed.unwrap(),
            ) >= SAVE_AFTER {
                Some(before.grid.snapshot())
            } else {
                None
            },
        }),
{
}

/// After two changes the time runs from the second: a tick saves exactly
/// when `SAVE_AFTER` has passed since then, and once it has saved, no later
/// tick saves again until something changes.
pub proof fn law_debounce(
    before: DashboardView,
    first_grid: Grid,
    first: Timestamp,
    second_grid: Grid,
    second: Timestamp,
    now: Timestamp,
    later: Timestamp,
)
    ensures
        ({
            let changed = before.changed(first_grid, first).changed(second_grid, second);
            let (ticked, effect) = changed.tick(now);
            &&& effect == (EffectView::Tick {
                now,
                save: if now.elapsed_since(second) >= SAVE_AFTER {
                    Some(second_grid.snapshot())
                } else {
                    None
                },
            })
            &&& now.elapsed_since(second) >= SAVE_AFTER ==> ticked.tick(later).1
                == (EffectView::Tick { now: later, save: None })
        }),
{
}

/// Opening a resource that a pane shows already changes nothing but the
/// focus, which goes to a pane that shows the resource: the grid and the
/// time of the last change stay as they are.
pub proof fn law_open_shown_changes_focus_only(
    before: DashboardView,
    kind: Kind,
    now: Timestamp,
    settings: Settings,
    after: DashboardView,
    effect: EffectView,
)
    requires
        before.grid.shows(kind@),
        before.open(kind, now, settings, after, effect),
    ensures
        after.grid == before.grid,
        after.last_changed == before.last_changed,
        after.focus.is_some(),
        after.grid.shown_in(after.focus.unwrap(), kind@),
        effect == EffectView::Nothing || effect == EffectView::FocusBuffer(after.focus.unwrap()),
{
}

/// Opening a resource a second time never adds a pane.
pub proof fn law_open_twice(
    before: DashboardView,
    kind: Kind,
    settings: Settings,
    first: Timestamp,
    between: DashboardView,
    first_effect: EffectView,
    second: Timestamp,
    after: DashboardView,
    second_effect: EffectView,
)
    requires
        before.wf(),
        before.open(kind, first, settings, between, first_effect),
        between.open(kind, second, settings, after, second_effect),
    ensures
        after.grid.layout == between.grid.layout,
        after.grid.panes.dom() == between.grid.panes.dom(),
{
    let state = PaneState { buffer: Buffer::of(kind), settings };
    assert(state.buffer.kind() == Some(kind));
    assert(state.buffer.shows(kind@));
    if before.grid.shows(kind@) {
        assert(between.grid.shows(kind@));
    } else {
        match before.grid.sole_empty_pane() {
            Some(pane) => {
                assert(between.grid.shown_in(pane, kind@));
            },
            None => {
                let target = match before.focus {
                    Some(pane) => pane,
                    None => before.grid.newest(),
                };
                lemma_split(before.grid, pane_grid::Axis::Horizontal, target, state);
                let (split, made) = before.grid.split(pane_grid::Axis::Horizontal, target, state);
                match made {
                    Some((pane, _)) => {
                        assert(between.grid.shown_in(pane, kind@));
                    },
                    None => {
                        assert(between.grid.layout == before.grid.layout);
                        assert(between.grid.panes == before.grid.panes);
                        assert(between.focus == before.focus);
                        assert(!between.grid.shows(kind@)) by {
                            if between.grid.shows(kind@) {
                                let shown = choose|pane: nat| between.grid.shown_in(pane, kind@);
                                assert(before.grid.shown_in(shown, kind@));
                            }
                        }
                        assert(between.grid.sole_empty_pane() == before.grid.sole_empty_pane());
                        assert(between.grid.newest() == before.grid.newest());
                        assert(between.grid.last_id >= before.grid.last_id);
                        assert(between.grid.wf());
                        let again = match between.focus {
                            Some(pane) => pane,
                            None => between.grid.newest(),
                        };
                        lemma_split(between.grid, pane_grid::Axis::Horizontal, again, state);
                    },
                }
            },
        }
    }
}

} // verus!
