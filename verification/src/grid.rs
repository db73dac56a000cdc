//! The calls into `iced`'s pane grid. Nothing in this module is proved: each
//! function states what the grid's source shows of the call it makes, over
//! the model of the `layout` module.
use vstd::prelude::*;
use iced::widget::pane_grid;
use crate::pane::PaneState;
use crate::layout::{Grid, Layout, Shape};

verus! {

/// `pane_grid::State`: the grid, with a state of type `T` for each pane.
#[verifier::external_type_specification]
#[verifier::external_body]
#[verifier::reject_recursive_types(T)]
pub struct ExState<T>(pane_grid::State<T>);

/// `pane_grid::Configuration`: an arrangement of panes to make a grid from.
#[verifier::external_type_specification]
#[verifier::external_body]
#[verifier::reject_recursive_types(T)]
pub struct ExConfiguration<T>(pane_grid::Configuration<T>);

/// `pane_grid::Node`: a node of a grid's layout.
#[verifier::external_type_specification]
#[verifier::external_body]
pub struct ExNode(pane_grid::Node);

/// `pane_grid::Pane`: the identifier of a pane, a number that only the grid
/// gives out.
#[verifier::external_type_specification]
#[verifier::external_body]
pub struct ExPane(pane_grid::Pane);

/// `pane_grid::Split`: the identifier of a split, a number that only the
/// grid gives out.
#[verifier::external_type_specification]
#[verifier::external_body]
pub struct ExSplit(pane_grid::Split);

/// `pane_grid::ResizeEvent`: a split and the ratio that the user dragged
/// it to.
#[verifier::external_type_specification]
#[verifier::external_body]
pub struct ExResizeEvent(pane_grid::ResizeEvent);

/// `pane_grid::Axis`: `Horizontal` or `Vertical`.
#[verifier::external_type_specification]
pub struct ExAxis(pane_grid::Axis);

/// `pane_grid::Edge`: `Top`, `Left`, `Right` or `Bottom`.
#[verifier::external_type_specification]
pub struct ExEdge(pane_grid::Edge);

/// `pane_grid::Region`: the centre of a pane or one of its edges.
#[verifier::external_type_specification]
pub struct ExRegion(pane_grid::Region);

/// The number inside a pane's identifier.
pub uninterp spec fn pane_number(pane: pane_grid::Pane) -> nat;

/// The number inside a split's identifier.
pub uninterp spec fn split_number(split: pane_grid::Split) -> nat;

/// What a grid holds.
pub uninterp spec fn grid_view(state: pane_grid::State<PaneState>) -> Grid;

/// The tree below a node of a grid's layout.
pub uninterp spec fn node_view(node: pane_grid::Node) -> Layout;

/// The arrangement that a configuration describes.
pub uninterp spec fn config_view(config: pane_grid::Configuration<PaneState>) -> Shape;

/// The split that a resize event names.
pub uninterp spec fn resize_split(event: pane_grid::ResizeEvent) -> nat;

/// The ratio that a resize event asks for, as bits.
pub uninterp spec fn resize_ratio(event: pane_grid::ResizeEvent) -> u32;

/// What one node of a layout holds.
pub(crate) enum NodeParts<'a> {
    Split {
        id: pane_grid::Split,
        axis: pane_grid::Axis,
        ratio: u32,
        a: &'a pane_grid::Node,
        b: &'a pane_grid::Node,
    },
    Pane(pane_grid::Pane),
}

/// What one node of a configuration holds.
pub(crate) enum ConfigurationParts<'a> {
    Split {
        axis: pane_grid::Axis,
        ratio: u32,
        a: &'a pane_grid::Configuration<PaneState>,
        b: &'a pane_grid::Configuration<PaneState>,
    },
    Pane(&'a PaneState),
}

/// `PartialEq::eq` of `pane_grid::Pane`, which is derived: two identifiers
/// are equal when their numbers are.
#[verifier::external_body]
pub(crate) fn same_pane(a: &pane_grid::Pane, b: &pane_grid::Pane) -> (same: bool)
    ensures
        same == (pane_number(*a) == pane_number(*b)),
{
    a == b
}

/// `PartialOrd::lt` of `pane_grid::Pane`, which is derived: identifiers are
/// ordered as their numbers are.
#[verifier::external_body]
pub(crate) fn pane_precedes(a: &pane_grid::Pane, b: &pane_grid::Pane) -> (precedes: bool)
    ensures
        precedes == (pane_number(*a) < pane_number(*b)),
{
    a < b
}

/// `State::new`: a grid of one pane, which has the number zero.
#[verifier::external_body]
pub(crate) fn grid_new(first: PaneState) -> (made: (pane_grid::State<PaneState>, pane_grid::Pane))
    ensures
        grid_view(made.0) == Grid::from_shape(Shape::Leaf { state: first }),
        pane_number(made.1) == 0,
{
    pane_grid::State::new(first)
}

/// `State::with_configuration`: the grid of the arrangement, numbered from
/// zero, with no pane maximized.
#[verifier::external_body]
pub(crate) fn grid_with_configuration(config: pane_grid::Configuration<PaneState>) -> (state:
    pane_grid::State<PaneState>)
    ensures
        grid_view(state) == Grid::from_shape(config_view(config)),
{
    pane_grid::State::with_configuration(config)
}

/// `State::len`: the number of panes that have a state.
#[verifier::external_body]
pub(crate) fn grid_len(state: &pane_grid::State<PaneState>) -> (len: usize)
    ensures
        len == grid_view(*state).panes.dom().len(),
{
    state.len()
}

/// `State::get`: the state of a pane, if the grid has one for it.
#[verifier::external_body]
pub(crate) fn grid_get<'a>(state: &'a pane_grid::State<PaneState>, pane: &pane_grid::Pane) -> (found:
    Option<&'a PaneState>)
    ensures
        found == if grid_view(*state).panes.contains_key(pane_number(*pane)) {
            Some(&grid_view(*state).panes[pane_number(*pane)])
        } else {
            None
        },
{
    state.get(pane)
}

/// `State::get_mut`: the state of a pane, to be changed in place. Nothing
/// else of the grid changes.
#[verifier::external_body]
pub(crate) fn grid_get_mut<'a>(
    state: &'a mut pane_grid::State<PaneState>,
    pane: &pane_grid::Pane,
) -> (found: Option<&'a mut PaneState>)
    ensures
        match found {
            Some(own) => {
                &&& grid_view(*old(state)).panes.contains_key(pane_number(*pane))
                &&& *own == grid_view(*old(state)).panes[pane_number(*pane)]
                &&& grid_view(*final(state)) == grid_view(*old(state)).with_state(
                    pane_number(*pane),
                    *final(own),
                )
            },
            None => {
                &&& !grid_view(*old(state)).panes.contains_key(pane_number(*pane))
                &&& grid_view(*final(state)) == grid_view(*old(state))
            },
        },
{
    state.get_mut(pane)
}

/// `State::iter`, of which the identifiers are kept: every pane that has a
/// state comes once, in an order that is not fixed.
#[verifier::external_body]
pub(crate) fn grid_ids(state: &pane_grid::State<PaneState>) -> (ids: Vec<pane_grid::Pane>)
    ensures
        forall|i: int, j: int|
            0 <= i < j < ids@.len() ==> pane_number(#[trigger] ids@[i]) != pane_number(
                #[trigger] ids@[j],
            ),
        forall|i: int|
            0 <= i < ids@.len() ==> grid_view(*state).panes.contains_key(
                pane_number(#[trigger] ids@[i]),
            ),
        forall|pane: nat| #[trigger]
            grid_view(*state).panes.contains_key(pane) ==> exists|i: int|
                0 <= i < ids@.len() && pane_number(#[trigger] ids@[i]) == pane,
{
    state.iter().map(|(id, _)| *id).collect()
}

/// `State::layout`: the root of the grid's layout.
#[verifier::external_body]
pub(crate) fn grid_layout<'a>(state: &'a pane_grid::State<PaneState>) -> (root: &'a pane_grid::Node)
    ensures
        node_view(*root) == grid_view(*state).layout,
{
    state.layout()
}

/// The fields of a `Node`: of a split its identifier, axis, ratio and two
/// children, of a leaf its pane.
#[verifier::external_body]
pub(crate) fn node_parts<'a>(node: &'a pane_grid::Node) -> (parts: NodeParts<'a>)
    ensures
        match parts {
            NodeParts::Split { id, axis, ratio, a, b } => node_view(*node) == (Layout::Split {
                id: split_number(id),
                axis,
                ratio,
                a: Box::new(node_view(*a)),
                b: Box::new(node_view(*b)),
            }),
            NodeParts::Pane(pane) => node_view(*node) == (Layout::Leaf { pane: pane_number(pane) }),
        },
{
    match node {
        pane_grid::Node::Split { id, axis, ratio, a, b } => NodeParts::Split {
            id: *id,
            axis: *axis,
            ratio: ratio.to_bits(),
            a: &**a,
            b: &**b,
        },
        pane_grid::Node::Pane(pane) => NodeParts::Pane(*pane),
    }
}

/// The fields of a `Configuration`: of a split its axis, ratio and two
/// parts, of a pane its state.
#[verifier::external_body]
pub(crate) fn configuration_parts<'a>(config: &'a pane_grid::Configuration<PaneState>) -> (parts:
    ConfigurationParts<'a>)
    ensures
        match parts {
            ConfigurationParts::Split { axis, ratio, a, b } => config_view(*config) == (Shape::Split {
                axis,
                ratio,
                a: Box::new(config_view(*a)),
                b: Box::new(config_view(*b)),
            }),
            ConfigurationParts::Pane(state) => config_view(*config) == (Shape::Leaf { state: *state }),
        },
{
    match config {
        pane_grid::Configuration::Split { axis, ratio, a, b } => ConfigurationParts::Split {
            axis: *axis,
            ratio: ratio.to_bits(),
            a: &**a,
            b: &**b,
        },
        pane_grid::Configuration::Pane(state) => ConfigurationParts::Pane(state),
    }
}

/// `State::split`: the first leaf of the given pane becomes an even split of
/// that pane and a new one, which gets the given state; the new pane and
/// the new split take the next two numbers, and no pane is maximized any
/// more. Nothing is split if no leaf holds the pane or a number would not
/// fit. `Grid::split` says the same in full.
#[verifier::external_body]
pub(crate) fn grid_split(
    state: &mut pane_grid::State<PaneState>,
    axis: pane_grid::Axis,
    pane: &pane_grid::Pane,
    new_state: PaneState,
) -> (made: Option<(pane_grid::Pane, pane_grid::Split)>)
    ensures
        grid_view(*final(state)) == grid_view(*old(state)).split(
            axis,
            pane_number(*pane),
            new_state,
        ).0,
        match made {
            Some((new_pane, new_split)) => grid_view(*old(state)).split(
                axis,
                pane_number(*pane),
                new_state,
            ).1 == Some((pane_number(new_pane), split_number(new_split))),
            None => grid_view(*old(state)).split(axis, pane_number(*pane), new_state).1.is_none(),
        },
{
    state.split(axis, pane, new_state)
}

/// `State::split_with`: on the centre of the target the two panes change
/// places in the layout; on an edge the pane is closed, the target is split
/// along that edge with the state of the pane in a new pane, and on the top
/// or left edge the new pane and the target change places.
/// `Grid::split_with` says the same in full.
#[verifier::external_body]
pub(crate) fn grid_split_with(
    state: &mut pane_grid::State<PaneState>,
    target: &pane_grid::Pane,
    pane: &pane_grid::Pane,
    region: pane_grid::Region,
)
    ensures
        grid_view(*final(state)) == grid_view(*old(state)).split_with(
            pane_number(*target),
            pane_number(*pane),
            region,
        ),
{
    state.split_with(target, pane, region)
}

/// `State::resize` with the split and the ratio of a resize event: the
/// first split of that identifier gets the ratio as it is.
#[verifier::external_body]
pub(crate) fn grid_resize(state: &mut pane_grid::State<PaneState>, event: &pane_grid::ResizeEvent)
    ensures
        grid_view(*final(state)) == grid_view(*old(state)).resize(
            resize_split(*event),
            resize_ratio(*event),
        ),
{
    state.resize(&event.split, event.ratio)
}

/// The field `ratio` of a resize event, as the bits of the number.
#[verifier::external_body]
pub(crate) fn event_ratio(event: &pane_grid::ResizeEvent) -> (ratio: u32)
    ensures
        ratio == resize_ratio(*event),
{
    event.ratio.to_bits()
}

/// `State::close`: the leaf of the pane leaves the layout, its sibling
/// subtree takes the place of their split, and the state of the pane is
/// returned with the first pane of that sibling. The only leaf of a layout
/// does not leave. A maximized pane that is closed is maximized no more.
/// `Grid::close` says the same in full.
#[verifier::external_body]
pub(crate) fn grid_close(state: &mut pane_grid::State<PaneState>, pane: &pane_grid::Pane) -> (closed:
    Option<(PaneState, pane_grid::Pane)>)
    ensures
        grid_view(*final(state)) == grid_view(*old(state)).close(pane_number(*pane)).0,
        match closed {
            Some((removed, sibling)) => grid_view(*old(state)).close(pane_number(*pane)).1 == Some(
                (removed, pane_number(sibling)),
            ),
            None => grid_view(*old(state)).close(pane_number(*pane)).1.is_none(),
        },
{
    state.close(pane)
}

/// `State::maximize`: the pane becomes the one that alone is drawn.
#[verifier::external_body]
pub(crate) fn grid_maximize(state: &mut pane_grid::State<PaneState>, pane: &pane_grid::Pane)
    ensures
        grid_view(*final(state)) == grid_view(*old(state)).maximize(pane_number(*pane)),
{
    state.maximize(pane)
}

/// `State::restore`: every pane is drawn again.
#[verifier::external_body]
pub(crate) fn grid_restore(state: &mut pane_grid::State<PaneState>)
    ensures
        grid_view(*final(state)) == grid_view(*old(state)).restore(),
{
    state.restore()
}

/// `State::maximized`: the pane that alone is drawn, if one is.
#[verifier::external_body]
pub(crate) fn grid_maximized(state: &pane_grid::State<PaneState>) -> (pane: Option<pane_grid::Pane>)
    ensures
        match pane {
            Some(pane) => grid_view(*state).maximized == Some(pane_number(pane)),
            None => grid_view(*state).maximized.is_none(),
        },
{
    state.maximized()
}

} // verus!
