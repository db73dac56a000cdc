//! The mathematical model of the pane grid: a binary tree of splits and
//! leaves, the state of each pane, and what each operation of the grid does
//! to them. Panes and splits are known by their numbers.
use vstd::prelude::*;
use iced::widget::pane_grid::{Axis, Edge, Region};
use crate::pane::{Buffer, Kind, KindView, PaneState};

verus! {

/// The ratio that a new split starts with: one half, as the bits of a
/// single-precision number.
pub const EVEN_RATIO: u32 = 0x3F00_0000;

/// The bits of the single-precision number one.
pub const WHOLE_RATIO: u32 = 0x3F80_0000;

/// Whether the bits are those of a number strictly between zero and one.
/// Positive single-precision numbers are ordered as their bits are.
pub open spec fn is_proper_ratio(bits: u32) -> bool {
    0 < bits < WHOLE_RATIO
}

/// The tree that arranges the panes on screen.
pub enum Layout {
    /// Two subtrees side by side (`Axis::Vertical`) or one above the other
    /// (`Axis::Horizontal`); `ratio` is the share of `a`, as bits.
    Split { id: nat, axis: Axis, ratio: u32, a: Box<Layout>, b: Box<Layout> },
    /// A single pane.
    Leaf { pane: nat },
}

impl Layout {
    /// The panes at the leaves of the tree.
    pub open spec fn panes(self) -> Set<nat>
        decreases self,
    {
        match self {
            Layout::Leaf { pane } => set![pane],
            Layout::Split { a, b, .. } => a.panes().union(b.panes()),
        }
    }

    /// The number of leaves that hold the given pane.
    pub open spec fn count(self, pane: nat) -> nat
        decreases self,
    {
        match self {
            Layout::Leaf { pane: own } => if own == pane { 1 } else { 0 },
            Layout::Split { a, b, .. } => a.count(pane) + b.count(pane),
        }
    }

    /// The number of leaves.
    pub open spec fn leaf_count(self) -> nat
        decreases self,
    {
        match self {
            Layout::Leaf { .. } => 1,
            Layout::Split { a, b, .. } => a.leaf_count() + b.leaf_count(),
        }
    }

    /// No pane is held by two leaves.
    pub open spec fn distinct(self) -> bool
        decreases self,
    {
        match self {
            Layout::Leaf { .. } => true,
            Layout::Split { a, b, .. } => {
                &&& a.distinct()
                &&& b.distinct()
                &&& a.panes().disjoint(b.panes())
            },
        }
    }

    /// Every ratio in the tree is strictly between zero and one.
    pub open spec fn proper(self) -> bool
        decreases self,
    {
        match self {
            Layout::Leaf { .. } => true,
            Layout::Split { ratio, a, b, .. } => is_proper_ratio(ratio) && a.proper() && b.proper(),
        }
    }

    /// The leftmost (topmost) pane: what `Node::first_pane` returns.
    pub open spec fn first_pane(self) -> nat
        decreases self,
    {
        match self {
            Layout::Leaf { pane } => pane,
            Layout::Split { a, .. } => a.first_pane(),
        }
    }

    /// The tree with the first leaf that holds `target` replaced by an even
    /// split of that leaf and a new leaf for `new_pane`; `None` if no leaf
    /// holds `target`. This is `Node::find`, which looks into `a` before
    /// `b`, followed by `Node::split` on the leaf found.
    pub open spec fn split_leaf(self, target: nat, split: nat, axis: Axis, new_pane: nat) -> Option<
        Layout,
    >
        decreases self,
    {
        match self {
            Layout::Leaf { pane } => if pane == target {
                Some(
                    Layout::Split {
                        id: split,
                        axis,
                        ratio: EVEN_RATIO,
                        a: Box::new(self),
                        b: Box::new(Layout::Leaf { pane: new_pane }),
                    },
                )
            } else {
                None
            },
            Layout::Split { id, axis: own, ratio, a, b } => match a.split_leaf(
                target,
                split,
                axis,
                new_pane,
            ) {
                Some(a2) => Some(Layout::Split { id, axis: own, ratio, a: Box::new(a2), b }),
                None => match b.split_leaf(target, split, axis, new_pane) {
                    Some(b2) => Some(Layout::Split { id, axis: own, ratio, a, b: Box::new(b2) }),
                    None => None,
                },
            },
        }
    }

    /// The tree without the leaf of `pane`, its sibling subtree standing where
    /// their split stood, and the first pane of that sibling; `None` if the
    /// tree is a single leaf or no leaf holds `pane`. This is `Node::remove`.
    pub open spec fn remove_leaf(self, pane: nat) -> Option<(Layout, nat)>
        decreases self,
    {
        match self {
            Layout::Leaf { .. } => None,
            Layout::Split { id, axis, ratio, a, b } => if *a == (Layout::Leaf { pane }) {
                Some((*b, b.first_pane()))
            } else if *b == (Layout::Leaf { pane }) {
                Some((*a, a.first_pane()))
            } else {
                match a.remove_leaf(pane) {
                    Some((a2, sibling)) => Some(
                        (Layout::Split { id, axis, ratio, a: Box::new(a2), b }, sibling),
                    ),
                    None => match b.remove_leaf(pane) {
                        Some((b2, sibling)) => Some(
                            (Layout::Split { id, axis, ratio, a, b: Box::new(b2) }, sibling),
                        ),
                        None => None,
                    },
                }
            },
        }
    }

    /// The tree with `first` written where `second` stood and `second` where
    /// `first` stood. This is `Node::update` with the closure of
    /// `State::swap`, which rewrites leaves only.
    pub open spec fn swap_leaves(self, first: nat, second: nat) -> Layout
        decreases self,
    {
        match self {
            Layout::Leaf { pane } => if pane == first {
                Layout::Leaf { pane: second }
            } else if pane == second {
                Layout::Leaf { pane: first }
            } else {
                self
            },
            Layout::Split { id, axis, ratio, a, b } => Layout::Split {
                id,
                axis,
                ratio,
                a: Box::new(a.swap_leaves(first, second)),
                b: Box::new(b.swap_leaves(first, second)),
            },
        }
    }

    /// The tree with the ratio of the first split numbered `split` set anew;
    /// `None` if there is no such split. This is `Node::resize`, which tries
    /// a split before its parts and `a` before `b`.
    pub open spec fn set_ratio(self, split: nat, ratio: u32) -> Option<Layout>
        decreases self,
    {
        match self {
            Layout::Leaf { .. } => None,
            Layout::Split { id, axis, ratio: own, a, b } => if id == split {
                Some(Layout::Split { id, axis, ratio, a, b })
            } else {
                match a.set_ratio(split, ratio) {
                    Some(a2) => Some(Layout::Split { id, axis, ratio: own, a: Box::new(a2), b }),
                    None => match b.set_ratio(split, ratio) {
                        Some(b2) => Some(
                            Layout::Split { id, axis, ratio: own, a, b: Box::new(b2) },
                        ),
                        None => None,
                    },
                }
            },
        }
    }
}

/// An arrangement of panes that have no numbers yet: what a grid is made
/// from.
pub enum Shape {
    Split { axis: Axis, ratio: u32, a: Box<Shape>, b: Box<Shape> },
    Leaf { state: PaneState },
}

impl Shape {
    /// The number of leaves and splits: how many numbers the arrangement
    /// takes.
    pub open spec fn size(self) -> nat
        decreases self,
    {
        match self {
            Shape::Leaf { .. } => 1,
            Shape::Split { a, b, .. } => a.size() + b.size() + 1,
        }
    }

    /// Every ratio in the arrangement is strictly between zero and one.
    pub open spec fn proper(self) -> bool
        decreases self,
    {
        match self {
            Shape::Leaf { .. } => true,
            Shape::Split { ratio, a, b, .. } => is_proper_ratio(ratio) && a.proper() && b.proper(),
        }
    }

    /// The layout of the arrangement when its numbers start at `next`: the
    /// leaves of `a` come first, then those of `b`, and their split takes
    /// the number after both. This is the layout that
    /// `Internal::from_configuration` builds.
    pub open spec fn layout_from(self, next: nat) -> Layout
        decreases self,
    {
        match self {
            Shape::Leaf { .. } => Layout::Leaf { pane: next },
            Shape::Split { axis, ratio, a, b } => Layout::Split {
                id: next + a.size() + b.size(),
                axis,
                ratio,
                a: Box::new(a.layout_from(next)),
                b: Box::new(b.layout_from(next + a.size())),
            },
        }
    }

    /// The states of the panes by the numbers that `layout_from` gives them:
    /// what `Internal::from_configuration` puts into the map of panes.
    pub open spec fn panes_from(self, next: nat) -> Map<nat, PaneState>
        decreases self,
    {
        match self {
            Shape::Leaf { state } => map![next => state],
            Shape::Split { a, b, .. } => a.panes_from(next).union_prefer_right(
                b.panes_from(next + a.size()),
            ),
        }
    }
}

/// Whether the number is in the set and no number of the set is higher.
pub open spec fn is_highest(numbers: Set<nat>, number: nat) -> bool {
    &&& numbers.contains(number)
    &&& forall|other: nat| numbers.contains(other) ==> other <= number
}

/// The highest number of a set that has one.
pub open spec fn highest(numbers: Set<nat>) -> nat {
    choose|number: nat| is_highest(numbers, number)
}

/// What a grid holds.
pub struct Grid {
    /// The arrangement of the panes.
    pub layout: Layout,
    /// The state of each pane.
    pub panes: Map<nat, PaneState>,
    /// The pane that alone is drawn, if one is.
    pub maximized: Option<nat>,
    /// The number last given out; a new pane or split takes a higher one.
    pub last_id: nat,
}

/// The axis along which a pane dropped on the given edge splits its target.
pub open spec fn edge_axis(edge: Edge) -> Axis {
    match edge {
        Edge::Top | Edge::Bottom => Axis::Horizontal,
        Edge::Left | Edge::Right => Axis::Vertical,
    }
}

/// Whether a pane dropped on the given edge comes before its target.
pub open spec fn edge_leads(edge: Edge) -> bool {
    match edge {
        Edge::Top | Edge::Left => true,
        Edge::Bottom | Edge::Right => false,
    }
}

impl Grid {
    /// The grid made from an arrangement, as `State::with_configuration`
    /// makes it: numbered from zero, no pane maximized, and the number last
    /// given out one past the highest in use.
    pub open spec fn from_shape(shape: Shape) -> Grid {
        Grid {
            layout: shape.layout_from(0),
            panes: shape.panes_from(0),
            maximized: None,
            last_id: shape.size(),
        }
    }

    /// Every pane of the grid is held by exactly one leaf, every leaf holds a
    /// pane of the grid, and no number above `last_id` is in use.
    pub open spec fn wf(self) -> bool {
        &&& self.layout.distinct()
        &&& self.panes.dom() == self.layout.panes()
        &&& forall|pane: nat| self.layout.panes().contains(pane) ==> pane <= self.last_id
    }

    /// Splitting the leaf of `target`: the grid afterwards, and the numbers of
    /// the new pane and the new split if there are any. The new pane takes
    /// the number after `last_id`, the split the one after that; nothing is
    /// split when no leaf holds `target` or a number would not fit. This is
    /// `State::split`: the leaf is looked for first, then each number is
    /// taken with a checked addition, so that a first number that fits stays
    /// taken when the second does not.
    pub open spec fn split(self, axis: Axis, target: nat, state: PaneState) -> (Grid, Option<(nat, nat)>) {
        match self.layout.split_leaf(target, self.last_id + 2, axis, self.last_id + 1) {
            None => (self, None),
            Some(layout) => if self.last_id + 1 > usize::MAX {
                (self, None)
            } else if self.last_id + 2 > usize::MAX {
                (Grid { last_id: self.last_id + 1, ..self }, None)
            } else {
                (
                    Grid {
                        layout,
                        panes: self.panes.insert(self.last_id + 1, state),
                        maximized: None,
                        last_id: self.last_id + 2,
                    },
                    Some((self.last_id + 1, self.last_id + 2)),
                )
            },
        }
    }

    /// Closing `pane`: the grid afterwards, and the state of the pane with the
    /// first pane of its sibling if it was closed. This is `State::close`:
    /// a maximized pane that is closed is maximized no more, whether it
    /// could be closed or not.
    pub open spec fn close(self, pane: nat) -> (Grid, Option<(PaneState, nat)>) {
        let maximized = if self.maximized == Some(pane) {
            None
        } else {
            self.maximized
        };
        match self.layout.remove_leaf(pane) {
            Some((layout, sibling)) => (
                Grid { layout, panes: self.panes.remove(pane), maximized, last_id: self.last_id },
                if self.panes.contains_key(pane) {
                    Some((self.panes[pane], sibling))
                } else {
                    None
                },
            ),
            None => (Grid { maximized, ..self }, None),
        }
    }

    /// The grid with the places of two panes exchanged. This is
    /// `State::swap`.
    pub open spec fn swap(self, first: nat, second: nat) -> Grid {
        Grid { layout: self.layout.swap_leaves(first, second), ..self }
    }

    /// The grid with the ratio of a split set anew, unchanged if there is no
    /// such split. This is `State::resize`.
    pub open spec fn resize(self, split: nat, ratio: u32) -> Grid {
        match self.layout.set_ratio(split, ratio) {
            Some(layout) => Grid { layout, ..self },
            None => self,
        }
    }

    /// The grid with `pane` taken from its place and put beside `target`:
    /// `pane` is closed, `target` is split along `axis` with the state of
    /// `pane` in a new pane, and with `lead` the new pane and `target` change
    /// places. This is `State::split_and_swap`; where `pane` cannot be
    /// closed nothing happens, and where `target` cannot be split `pane`
    /// stays closed.
    pub open spec fn split_and_swap(self, axis: Axis, target: nat, pane: nat, lead: bool) -> Grid {
        let (closed, removed) = self.close(pane);
        match removed {
            Some((state, _)) => {
                let (split, made) = closed.split(axis, target, state);
                match made {
                    Some((new_pane, _)) => if lead {
                        split.swap(target, new_pane)
                    } else {
                        split
                    },
                    None => split,
                }
            },
            None => closed,
        }
    }

    /// The grid after `pane` is dropped on a region of `target`: on the
    /// centre the two change places, on an edge `pane` moves beside `target`.
    /// This is `State::split_with`.
    pub open spec fn split_with(self, target: nat, pane: nat, region: Region) -> Grid {
        match region {
            Region::Center => self.swap(pane, target),
            Region::Edge(edge) => self.split_and_swap(edge_axis(edge), target, pane, edge_leads(edge)),
        }
    }

    /// The grid with `pane` as the one that alone is drawn. This is
    /// `State::maximize`, which takes any pane.
    pub open spec fn maximize(self, pane: nat) -> Grid {
        Grid { maximized: Some(pane), ..self }
    }

    /// The grid with every pane drawn again. This is `State::restore`.
    pub open spec fn restore(self) -> Grid {
        Grid { maximized: None, ..self }
    }

    /// Whether some pane of the grid needs the history of the resource.
    pub open spec fn tracks(self, kind: Kind) -> bool {
        exists|pane: nat|
            #![trigger self.panes[pane]]
            self.panes.contains_key(pane) && self.panes[pane].buffer.kind() == Some(kind)
    }

    /// Whether the grid has the pane and the pane shows the resource.
    pub open spec fn shown_in(self, pane: nat, kind: KindView) -> bool {
        self.panes.contains_key(pane) && self.panes[pane].buffer.shows(kind)
    }

    /// Whether some pane of the grid shows the resource.
    pub open spec fn shows(self, kind: KindView) -> bool {
        exists|pane: nat| self.shown_in(pane, kind)
    }

    /// The only pane of the grid, if the grid has one pane and that pane is
    /// empty.
    pub open spec fn sole_empty_pane(self) -> Option<nat> {
        match self.layout {
            Layout::Leaf { pane } => if self.panes.contains_key(pane) && self.panes[pane].buffer
                == Buffer::Empty {
                Some(pane)
            } else {
                None
            },
            Layout::Split { .. } => None,
        }
    }

    /// Whether the pane is the one of the grid that was made last: the one
    /// with the highest number.
    pub open spec fn is_newest(self, pane: nat) -> bool {
        is_highest(self.panes.dom(), pane)
    }

    /// The pane of the grid that was made last.
    pub open spec fn newest(self) -> nat {
        highest(self.panes.dom())
    }

    /// The grid with the states of two of its panes exchanged: each pane
    /// stays where it is and shows what the other showed. Nothing changes
    /// unless the grid has both.
    pub open spec fn exchange(self, first: nat, second: nat) -> Grid {
        if self.panes.contains_key(first) && self.panes.contains_key(second) {
            self.with_state(first, self.panes[second]).with_state(second, self.panes[first])
        } else {
            self
        }
    }

    /// The grid with the state of one of its panes replaced.
    pub open spec fn with_state(self, pane: nat, state: PaneState) -> Grid {
        Grid { panes: self.panes.insert(pane, state), ..self }
    }
}

} // verus!
