//! The form in which a layout is written out and read back: the tree of
//! splits without the numbers of its panes, each leaf with the resource it
//! shows and its settings.
use vstd::prelude::*;
use iced::widget::pane_grid;
use crate::consistency::lemma_shape;
use crate::grid::{
    config_view, configuration_parts, grid_get, grid_view, node_parts, node_view,
    ConfigurationParts, NodeParts,
};
use crate::layout::{Grid, Layout, Shape};
use crate::pane::{Buffer, Kind, PaneState, Settings};

verus! {

/// A layout as it is kept between runs.
#[derive(Debug, PartialEq, Eq)]
pub enum Snapshot {
    /// Two parts side by side or one above the other; `ratio` is the share of
    /// `a`, as the bits of a single-precision number.
    Split { axis: pane_grid::Axis, ratio: u32, a: Box<Snapshot>, b: Box<Snapshot> },
    /// A pane that shows a resource.
    Buffer { buffer: Kind, settings: Settings },
    /// A pane that shows nothing.
    Empty,
}

impl Snapshot {
    /// What is kept of one pane: its resource and settings, or nothing but
    /// that it is empty.
    pub open spec fn of_pane(state: PaneState) -> Snapshot {
        match state.buffer.kind() {
            Some(buffer) => Snapshot::Buffer { buffer, settings: state.settings },
            None => Snapshot::Empty,
        }
    }

    /// What is kept of a layout whose panes have the given states. A leaf
    /// whose pane has no state is kept as empty.
    pub open spec fn of_layout(layout: Layout, panes: Map<nat, PaneState>) -> Snapshot
        decreases layout,
    {
        match layout {
            Layout::Split { axis, ratio, a, b, .. } => Snapshot::Split {
                axis,
                ratio,
                a: Box::new(Snapshot::of_layout(*a, panes)),
                b: Box::new(Snapshot::of_layout(*b, panes)),
            },
            Layout::Leaf { pane } => if panes.contains_key(pane) {
                Snapshot::of_pane(panes[pane])
            } else {
                Snapshot::Empty
            },
        }
    }

    /// What is kept of an arrangement.
    pub open spec fn of_shape(shape: Shape) -> Snapshot
        decreases shape,
    {
        match shape {
            Shape::Split { axis, ratio, a, b } => Snapshot::Split {
                axis,
                ratio,
                a: Box::new(Snapshot::of_shape(*a)),
                b: Box::new(Snapshot::of_shape(*b)),
            },
            Shape::Leaf { state } => Snapshot::of_pane(state),
        }
    }

    /// The state of the pane that a leaf of a snapshot is read back as: the
    /// buffer of the resource with the settings kept, or an empty buffer
    /// with the user list shown.
    pub open spec fn leaf_state(self) -> PaneState {
        match self {
            Snapshot::Buffer { buffer, settings } => PaneState {
                buffer: Buffer::of(buffer),
                settings,
            },
            _ => PaneState { buffer: Buffer::Empty, settings: Settings { show_user_list: true } },
        }
    }

    /// The arrangement that the snapshot is read back as.
    pub open spec fn shape(self) -> Shape
        decreases self,
    {
        match self {
            Snapshot::Split { axis, ratio, a, b } => Shape::Split {
                axis,
                ratio,
                a: Box::new(a.shape()),
                b: Box::new(b.shape()),
            },
            _ => Shape::Leaf { state: self.leaf_state() },
        }
    }

    /// What is kept of one pane.
    pub fn from_pane(state: &PaneState) -> (snapshot: Snapshot)
        ensures
            snapshot == Snapshot::of_pane(*state),
    {
        match state.buffer.data() {
            Some(buffer) => Snapshot::Buffer { buffer, settings: state.settings },
            None => Snapshot::Empty,
        }
    }

    /// What is kept of a grid that is made from the configuration.
    pub fn of_configuration(configuration: &pane_grid::Configuration<PaneState>) -> (snapshot:
        Snapshot)
        ensures
            snapshot == Snapshot::of_shape(config_view(*configuration)),
        decreases config_view(*configuration),
    {
        match configuration_parts(configuration) {
            ConfigurationParts::Split { axis, ratio, a, b } => Snapshot::Split {
                axis,
                ratio,
                a: Box::new(Snapshot::of_configuration(a)),
                b: Box::new(Snapshot::of_configuration(b)),
            },
            ConfigurationParts::Pane(state) => Snapshot::from_pane(state),
        }
    }

    /// The pane that a leaf of a snapshot is read back as.
    pub fn to_pane(&self) -> (state: PaneState)
        ensures
            state == self.leaf_state(),
    {
        match self {
            Snapshot::Buffer { buffer, settings } => PaneState::new(
                Buffer::from(buffer.clone()),
                *settings,
            ),
            _ => PaneState::new(Buffer::empty(), Settings::default()),
        }
    }
}

impl Grid {
    /// What is kept of the grid.
    pub open spec fn snapshot(self) -> Snapshot {
        Snapshot::of_layout(self.layout, self.panes)
    }
}

/// What is kept of the part of a grid below one node of its layout.
pub(crate) fn snapshot_node(state: &pane_grid::State<PaneState>, node: &pane_grid::Node) -> (snapshot:
    Snapshot)
    ensures
        snapshot == Snapshot::of_layout(node_view(*node), grid_view(*state).panes),
    decreases node_view(*node),
{
    match node_parts(node) {
        NodeParts::Split { id: _, axis, ratio, a, b } => Snapshot::Split {
            axis,
            ratio,
            a: Box::new(snapshot_node(state, a)),
            b: Box::new(snapshot_node(state, b)),
        },
        NodeParts::Pane(pane) => match grid_get(state, &pane) {
            Some(found) => Snapshot::from_pane(found),
            None => Snapshot::Empty,
        },
    }
}

/// What is kept of an arrangement once it has been numbered is what is kept
/// of the arrangement itself, whatever other panes have a state.
pub proof fn lemma_numbered_snapshot(shape: Shape, next: nat, panes: Map<nat, PaneState>)
    requires
        shape.panes_from(next).submap_of(panes),
    ensures
        Snapshot::of_layout(shape.layout_from(next), panes) == Snapshot::of_shape(shape),
    decreases shape,
{
    match shape {
        Shape::Leaf { state } => {
            assert(shape.panes_from(next).contains_key(next));
        },
        Shape::Split { a, b, .. } => {
            lemma_shape(*a, next);
            lemma_shape(*b, next + a.size());
            let left = a.panes_from(next);
            let right = b.panes_from(next + a.size());
            assert(left.submap_of(panes)) by {
                assert forall|pane: nat| #[trigger] left.dom().contains(pane) implies panes.dom().contains(
                    pane,
                ) && left[pane] == panes[pane] by {
                    assert(a.layout_from(next).panes().contains(pane));
                    assert(!b.layout_from(next + a.size()).panes().contains(pane));
                    assert(shape.panes_from(next).dom().contains(pane));
                }
            }
            assert(right.submap_of(panes)) by {
                assert forall|pane: nat| #[trigger] right.dom().contains(pane) implies panes.dom().contains(
                    pane,
                ) && right[pane] == panes[pane] by {
                    assert(shape.panes_from(next).dom().contains(pane));
                }
            }
            lemma_numbered_snapshot(*a, next, panes);
            lemma_numbered_snapshot(*b, next + a.size(), panes);
        },
    }
}

/// What is kept of a grid made from an arrangement is what is kept of the
/// arrangement.
pub proof fn lemma_from_shape_snapshot(shape: Shape)
    ensures
        Grid::from_shape(shape).snapshot() == Snapshot::of_shape(shape),
{
    lemma_numbered_snapshot(shape, 0, shape.panes_from(0));
}

/// Reading a snapshot back and keeping the result gives the snapshot again.
pub proof fn lemma_shape_of_snapshot(snapshot: Snapshot)
    ensures
        Snapshot::of_shape(snapshot.shape()) == snapshot,
    decreases snapshot,
{
    match snapshot {
        Snapshot::Split { a, b, .. } => {
            lemma_shape_of_snapshot(*a);
            lemma_shape_of_snapshot(*b);
        },
        _ => {},
    }
}

/// A grid made from the arrangement that a snapshot is read back as keeps
/// as that snapshot: nothing but the numbers of the panes is lost on the
/// way out and back.
pub proof fn law_snapshot_round_trip(snapshot: Snapshot)
    ensures
        Grid::from_shape(snapshot.shape()).snapshot() == snapshot,
{
    lemma_from_shape_snapshot(snapshot.shape());
    lemma_shape_of_snapshot(snapshot);
}

/// A grid written out, read back and written out again gives the same
/// snapshot both times: the axes, ratios, resources and settings survive.
pub proof fn law_grid_round_trip(grid: Grid)
    ensures
        Grid::from_shape(grid.snapshot().shape()).snapshot() == grid.snapshot(),
{
    law_snapshot_round_trip(grid.snapshot());
}

} // verus!
