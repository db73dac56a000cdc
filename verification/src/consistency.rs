//! What every operation of the grid keeps: each pane is held by exactly one
//! leaf of the layout.
use vstd::prelude::*;
use vstd::set_lib::{lemma_set_disjoint_lens, lemma_set_empty_equivalency_len};
use iced::widget::pane_grid::{Axis, Region};
use crate::layout::{Grid, Layout, Shape};
use crate::pane::PaneState;

verus! {

/// The pane that stands where `pane` stood once `first` and `second` have
/// changed places.
pub open spec fn exchanged(pane: nat, first: nat, second: nat) -> nat {
    if pane == first {
        second
    } else if pane == second {
        first
    } else {
        pane
    }
}

/// A layout has finitely many panes and at least one, its first pane among
/// them; where no pane is held twice it has as many panes as leaves.
pub proof fn lemma_leaves(layout: Layout)
    ensures
        layout.panes().finite(),
        layout.panes().contains(layout.first_pane()),
        layout.panes().len() >= 1,
        layout.leaf_count() >= 1,
        layout.distinct() ==> layout.panes().len() == layout.leaf_count(),
        layout is Split ==> layout.leaf_count() >= 2,
    decreases layout,
{
    match layout {
        Layout::Leaf { pane } => {
            assert(set![pane].len() == 1);
        },
        Layout::Split { a, b, .. } => {
            lemma_leaves(*a);
            lemma_leaves(*b);
            lemma_set_disjoint_lens(a.panes(), b.panes());
        },
    }
    lemma_set_empty_equivalency_len(layout.panes());
}

/// A pane is counted at least once exactly when it is among the panes of the
/// layout, and at most once where no pane is held twice.
pub proof fn lemma_count(layout: Layout, pane: nat)
    ensures
        layout.count(pane) > 0 <==> layout.panes().contains(pane),
        layout.distinct() ==> layout.count(pane) <= 1,
    decreases layout,
{
    match layout {
        Layout::Leaf { .. } => {},
        Layout::Split { a, b, .. } => {
            lemma_count(*a, pane);
            lemma_count(*b, pane);
        },
    }
}

/// A leaf can be split exactly when the layout holds it; the split adds the
/// new pane and nothing else, and holds no pane twice if the new pane is new.
pub proof fn lemma_split_leaf(layout: Layout, target: nat, split: nat, axis: Axis, new_pane: nat)
    ensures
        layout.split_leaf(target, split, axis, new_pane).is_some() <==> layout.panes().contains(
            target,
        ),
        match layout.split_leaf(target, split, axis, new_pane) {
            Some(after) => {
                &&& after is Split
                &&& after.panes() == layout.panes().insert(new_pane)
                &&& layout.distinct() && !layout.panes().contains(new_pane) ==> after.distinct()
            },
            None => true,
        },
    decreases layout,
{
    match layout {
        Layout::Leaf { pane } => {
            if pane == target {
                let after = layout.split_leaf(target, split, axis, new_pane).unwrap();
                let added = Layout::Leaf { pane: new_pane };
                assert(added.panes() == set![new_pane]);
                assert(after.panes() == layout.panes().union(added.panes()));
                assert(after.panes() =~= layout.panes().insert(new_pane));
                assert(after == Layout::Split {
                    id: split,
                    axis,
                    ratio: crate::layout::EVEN_RATIO,
                    a: Box::new(layout),
                    b: Box::new(added),
                });
                if !layout.panes().contains(new_pane) {
                    assert(layout.panes().disjoint(added.panes()));
                    assert(layout.distinct());
                    assert(added.distinct());
                    assert(after.distinct());
                }
            }
        },
        Layout::Split { a, b, .. } => {
            lemma_split_leaf(*a, target, split, axis, new_pane);
            lemma_split_leaf(*b, target, split, axis, new_pane);
            match layout.split_leaf(target, split, axis, new_pane) {
                Some(after) => {
                    assert(after.panes() =~= layout.panes().insert(new_pane));
                },
                None => {},
            }
        },
    }
}

/// A pane can be removed exactly when the layout is a split that holds it;
/// what is left holds every other pane once, the returned sibling among them.
pub proof fn lemma_remove_leaf(layout: Layout, pane: nat)
    requires
        layout.distinct(),
    ensures
        layout.remove_leaf(pane).is_some() <==> (layout is Split && layout.panes().contains(pane)),
        match layout.remove_leaf(pane) {
            Some((after, sibling)) => {
                &&& after.distinct()
                &&& after.panes() == layout.panes().remove(pane)
                &&& after.panes().contains(sibling)
                &&& after.leaf_count() + 1 == layout.leaf_count()
            },
            None => true,
        },
    decreases layout,
{
    match layout {
        Layout::Leaf { .. } => {},
        Layout::Split { a, b, .. } => {
            lemma_leaves(*a);
            lemma_leaves(*b);
            if *a == (Layout::Leaf { pane }) {
                assert(b.panes() =~= layout.panes().remove(pane));
            } else if *b == (Layout::Leaf { pane }) {
                assert(a.panes() =~= layout.panes().remove(pane));
            } else {
                lemma_remove_leaf(*a, pane);
                lemma_remove_leaf(*b, pane);
                match layout.remove_leaf(pane) {
                    Some((after, _)) => {
                        assert(after.panes() =~= layout.panes().remove(pane));
                    },
                    None => {},
                }
            }
        },
    }
}

/// After two panes have changed places the layout holds a pane exactly
/// where it held the other before, and still holds no pane twice.
pub proof fn lemma_swap_leaves(layout: Layout, first: nat, second: nat)
    ensures
        forall|pane: nat| #[trigger]
            layout.swap_leaves(first, second).panes().contains(pane) <==> layout.panes().contains(
                exchanged(pane, first, second),
            ),
        layout.distinct() ==> layout.swap_leaves(first, second).distinct(),
        layout.swap_leaves(first, second).leaf_count() == layout.leaf_count(),
        layout.swap_leaves(first, second) is Split <==> layout is Split,
    decreases layout,
{
    match layout {
        Layout::Leaf { pane } => {
            let after = layout.swap_leaves(first, second);
            assert(after.panes() == set![exchanged(pane, first, second)]);
            assert forall|other: nat| #[trigger]
                after.panes().contains(other) <==> layout.panes().contains(
                    exchanged(other, first, second),
                ) by {
                assert(layout.panes() == set![pane]);
            }
        },
        Layout::Split { a, b, .. } => {
            lemma_swap_leaves(*a, first, second);
            lemma_swap_leaves(*b, first, second);
            let a2 = a.swap_leaves(first, second);
            let b2 = b.swap_leaves(first, second);
            let after = layout.swap_leaves(first, second);
            assert(after.panes() == a2.panes().union(b2.panes()));
            assert forall|other: nat| #[trigger]
                after.panes().contains(other) <==> layout.panes().contains(
                    exchanged(other, first, second),
                ) by {
                assert(a2.panes().contains(other) <==> a.panes().contains(
                    exchanged(other, first, second),
                ));
                assert(b2.panes().contains(other) <==> b.panes().contains(
                    exchanged(other, first, second),
                ));
            }
            if layout.distinct() {
                assert forall|pane: nat| a2.panes().contains(pane) implies !b2.panes().contains(
                    pane,
                ) by {
                    assert(a.panes().contains(exchanged(pane, first, second)));
                }
            }
        },
    }
}

/// Setting a ratio leaves the panes of the layout where they are.
pub proof fn lemma_set_ratio(layout: Layout, split: nat, ratio: u32)
    ensures
        match layout.set_ratio(split, ratio) {
            Some(after) => {
                &&& after.panes() == layout.panes()
                &&& after.distinct() == layout.distinct()
                &&& after.leaf_count() == layout.leaf_count()
                &&& after is Split
            },
            None => true,
        },
    decreases layout,
{
    match layout {
        Layout::Leaf { .. } => {},
        Layout::Split { a, b, .. } => {
            lemma_set_ratio(*a, split, ratio);
            lemma_set_ratio(*b, split, ratio);
        },
    }
}

/// The layout made from an arrangement holds no pane twice, its panes are
/// those that have a state, and their numbers are the next ones.
pub proof fn lemma_shape(shape: Shape, next: nat)
    ensures
        shape.layout_from(next).distinct(),
        shape.panes_from(next).dom() == shape.layout_from(next).panes(),
        forall|pane: nat| #[trigger]
            shape.layout_from(next).panes().contains(pane) ==> next <= pane < next + shape.size(),
    decreases shape,
{
    match shape {
        Shape::Leaf { state } => {
            assert(shape.panes_from(next).dom() =~= shape.layout_from(next).panes());
        },
        Shape::Split { a, b, .. } => {
            lemma_shape(*a, next);
            lemma_shape(*b, next + a.size());
            assert(shape.panes_from(next).dom() =~= shape.layout_from(next).panes());
        },
    }
}

/// A grid made from an arrangement is well formed.
pub proof fn lemma_from_shape(shape: Shape)
    ensures
        Grid::from_shape(shape).wf(),
{
    lemma_shape(shape, 0);
}

/// Splitting keeps a grid well formed. It succeeds exactly when the grid has
/// the target and two more numbers fit; the new pane is then one that the
/// grid did not have.
pub proof fn lemma_split(grid: Grid, axis: Axis, target: nat, state: PaneState)
    requires
        grid.wf(),
    ensures
        grid.split(axis, target, state).0.wf(),
        grid.split(axis, target, state).1.is_some() <==> (grid.panes.contains_key(target)
            && grid.last_id + 2 <= usize::MAX),
        grid.split(axis, target, state).1.is_some() ==> !grid.panes.contains_key(
            (grid.last_id + 1) as nat,
        ),
        grid.split(axis, target, state).1.is_none() ==> grid.split(axis, target, state).0.layout
            == grid.layout && grid.split(axis, target, state).0.panes == grid.panes,
{
    lemma_split_leaf(
        grid.layout,
        target,
        (grid.last_id + 2) as nat,
        axis,
        (grid.last_id + 1) as nat,
    );
    let after = grid.split(axis, target, state).0;
    if grid.split(axis, target, state).1.is_some() {
        assert(after.panes.dom() =~= after.layout.panes());
    }
}

/// Closing keeps a grid well formed. It succeeds exactly when the grid has
/// the pane and another one; the sibling is then a pane that remains.
pub proof fn lemma_close(grid: Grid, pane: nat)
    requires
        grid.wf(),
    ensures
        grid.close(pane).0.wf(),
        grid.close(pane).1.is_some() <==> (grid.panes.contains_key(pane) && grid.layout is Split),
        match grid.close(pane).1 {
            Some((state, sibling)) => {
                &&& state == grid.panes[pane]
                &&& sibling != pane
                &&& grid.close(pane).0.panes == grid.panes.remove(pane)
                &&& grid.close(pane).0.panes.contains_key(sibling)
                &&& grid.close(pane).0.layout.leaf_count() + 1 == grid.layout.leaf_count()
            },
            None => {
                &&& grid.close(pane).0.layout == grid.layout
                &&& grid.close(pane).0.panes == grid.panes
            },
        },
{
    lemma_remove_leaf(grid.layout, pane);
    let after = grid.close(pane).0;
    match grid.layout.remove_leaf(pane) {
        Some((layout, sibling)) => {
            assert(after.panes.dom() =~= after.layout.panes());
        },
        None => {},
    }
}

/// Exchanging two panes of a grid keeps it well formed.
pub proof fn lemma_swap(grid: Grid, first: nat, second: nat)
    requires
        grid.wf(),
        grid.panes.contains_key(first) <==> grid.panes.contains_key(second),
    ensures
        grid.swap(first, second).wf(),
        grid.swap(first, second).layout.leaf_count() == grid.layout.leaf_count(),
{
    lemma_swap_leaves(grid.layout, first, second);
    let after = grid.swap(first, second);
    assert(after.layout.panes() =~= grid.layout.panes()) by {
        assert forall|pane: nat| after.layout.panes().contains(pane) == grid.layout.panes().contains(
            pane,
        ) by {
            let other = exchanged(pane, first, second);
        }
    }
}

/// Giving a pane of a grid another state keeps the grid well formed.
pub proof fn lemma_with_state(grid: Grid, pane: nat, state: PaneState)
    requires
        grid.wf(),
        grid.panes.contains_key(pane),
    ensures
        grid.with_state(pane, state).wf(),
{
    assert(grid.with_state(pane, state).panes.dom() =~= grid.panes.dom());
}

/// Exchanging the states of two panes keeps a grid well formed and its
/// layout as it is.
pub proof fn lemma_exchange(grid: Grid, first: nat, second: nat)
    requires
        grid.wf(),
    ensures
        grid.exchange(first, second).wf(),
        grid.exchange(first, second).layout == grid.layout,
        grid.exchange(first, second).panes.dom() == grid.panes.dom(),
{
    if grid.panes.contains_key(first) && grid.panes.contains_key(second) {
        lemma_with_state(grid, first, grid.panes[second]);
        lemma_with_state(grid.with_state(first, grid.panes[second]), second, grid.panes[first]);
        assert(grid.exchange(first, second).panes.dom() =~= grid.panes.dom());
    }
}

/// Resizing keeps a grid well formed and its panes in place.
pub proof fn lemma_resize(grid: Grid, split: nat, ratio: u32)
    requires
        grid.wf(),
    ensures
        grid.resize(split, ratio).wf(),
        grid.resize(split, ratio).layout.leaf_count() == grid.layout.leaf_count(),
{
    lemma_set_ratio(grid.layout, split, ratio);
}

/// Dropping one pane of a grid on another keeps the grid well formed.
pub proof fn lemma_split_with(grid: Grid, target: nat, pane: nat, region: Region)
    requires
        grid.wf(),
        grid.panes.contains_key(target),
        grid.panes.contains_key(pane),
    ensures
        grid.split_with(target, pane, region).wf(),
{
    match region {
        Region::Center => {
            lemma_swap(grid, pane, target);
        },
        Region::Edge(edge) => {
            let axis = crate::layout::edge_axis(edge);
            lemma_close(grid, pane);
            let (closed, removed) = grid.close(pane);
            match removed {
                Some((state, _)) => {
                    lemma_split(closed, axis, target, state);
                    let (split, made) = closed.split(axis, target, state);
                    match made {
                        Some((new_pane, _)) => {
                            lemma_swap(split, target, new_pane);
                        },
                        None => {},
                    }
                },
                None => {},
            }
        },
    }
}

/// Splitting a leaf, removing one, exchanging two and setting a ratio that
/// is strictly between zero and one keep every ratio of a layout strictly
/// between zero and one.
pub proof fn lemma_layout_stays_proper(
    layout: Layout,
    target: nat,
    split: nat,
    axis: Axis,
    other: nat,
    ratio: u32,
)
    requires
        layout.proper(),
    ensures
        match layout.split_leaf(target, split, axis, other) {
            Some(after) => after.proper(),
            None => true,
        },
        match layout.remove_leaf(target) {
            Some((after, _)) => after.proper(),
            None => true,
        },
        layout.swap_leaves(target, other).proper(),
        match layout.set_ratio(split, ratio) {
            Some(after) => crate::layout::is_proper_ratio(ratio) ==> after.proper(),
            None => true,
        },
    decreases layout,
{
    match layout {
        Layout::Leaf { .. } => {
            assert(crate::layout::is_proper_ratio(crate::layout::EVEN_RATIO));
            match layout.split_leaf(target, split, axis, other) {
                Some(after) => {
                    let added = Layout::Leaf { pane: other };
                    assert(added.proper());
                    assert(after.proper());
                },
                None => {},
            }
        },
        Layout::Split { a, b, .. } => {
            lemma_layout_stays_proper(*a, target, split, axis, other, ratio);
            lemma_layout_stays_proper(*b, target, split, axis, other, ratio);
        },
    }
}

/// The layout made from an arrangement has the ratios of the arrangement.
pub proof fn lemma_shape_proper(shape: Shape, next: nat)
    ensures
        shape.layout_from(next).proper() == shape.proper(),
    decreases shape,
{
    match shape {
        Shape::Leaf { .. } => {},
        Shape::Split { a, b, .. } => {
            lemma_shape_proper(*a, next);
            lemma_shape_proper(*b, next + a.size());
        },
    }
}

/// What the grid does to its layout keeps every ratio strictly between zero
/// and one, as long as no other ratio is set.
pub proof fn lemma_grid_stays_proper(
    grid: Grid,
    axis: Axis,
    target: nat,
    pane: nat,
    state: PaneState,
    region: Region,
    split: nat,
    ratio: u32,
)
    requires
        grid.layout.proper(),
    ensures
        grid.split(axis, target, state).0.layout.proper(),
        grid.close(pane).0.layout.proper(),
        grid.swap(target, pane).layout.proper(),
        crate::layout::is_proper_ratio(ratio) ==> grid.resize(split, ratio).layout.proper(),
        grid.split_with(target, pane, region).layout.proper(),
{
    lemma_layout_stays_proper(
        grid.layout,
        target,
        (grid.last_id + 2) as nat,
        axis,
        (grid.last_id + 1) as nat,
        ratio,
    );
    lemma_layout_stays_proper(grid.layout, pane, split, axis, target, ratio);
    lemma_layout_stays_proper(grid.layout, target, split, axis, pane, ratio);
    match region {
        Region::Center => {},
        Region::Edge(edge) => {
            let along = crate::layout::edge_axis(edge);
            let (closed, removed) = grid.close(pane);
            match removed {
                Some((moved, _)) => {
                    lemma_layout_stays_proper(
                        closed.layout,
                        target,
                        (closed.last_id + 2) as nat,
                        along,
                        (closed.last_id + 1) as nat,
                        ratio,
                    );
                    let (made, new) = closed.split(along, target, moved);
                    match new {
                        Some((new_pane, _)) => {
                            lemma_layout_stays_proper(
                                made.layout,
                                target,
                                split,
                                along,
                                new_pane,
                                ratio,
                            );
                        },
                        None => {},
                    }
                },
                None => {},
            }
        },
    }
}

} // verus!
