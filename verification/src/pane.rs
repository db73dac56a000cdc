//! What a single pane holds: the buffer it shows and its display settings.
use vstd::prelude::*;
use iced::widget::pane_grid;

verus! {

/// What the user did to the grid or to one of its panes.
#[derive(Debug)]
pub enum Message {
    /// A pane was clicked.
    PaneClicked(pane_grid::Pane),
    /// The divider of a split was dragged.
    PaneResized(pane_grid::ResizeEvent),
    /// A pane was dragged.
    PaneDragged(Drag),
    /// The focused pane is to be closed.
    ClosePane,
    /// The focused pane is to be split along the axis.
    SplitPane(pane_grid::Axis),
    /// Something happened inside the buffer of a pane.
    Buffer(pane_grid::Pane),
    /// The list of users of the focused pane is to be shown or hidden.
    ToggleShowUserList,
    /// The focused pane is to be drawn alone, or all panes again.
    MaximizePane,
}

/// A step of dragging a pane.
#[derive(Debug)]
pub enum Drag {
    /// The pane was dropped on a region of another pane.
    Dropped { pane: pane_grid::Pane, target: pane_grid::Pane, region: pane_grid::Region },
    /// The pane was picked up, or let go where nothing takes it.
    Unfinished,
}

/// The resource a buffer shows. It is also the key under which the history
/// of that resource is tracked.
#[derive(Debug, PartialEq, Eq)]
pub enum Kind {
    Server { server: String },
    Channel { server: String, channel: String },
    Query { server: String, nick: String },
}

/// A `Kind` with its names as sequences of characters.
pub enum KindView {
    Server { server: Seq<char> },
    Channel { server: Seq<char>, channel: Seq<char> },
    Query { server: Seq<char>, nick: Seq<char> },
}

impl View for Kind {
    type V = KindView;

    open spec fn view(&self) -> KindView {
        match *self {
            Kind::Server { server } => KindView::Server { server: server@ },
            Kind::Channel { server, channel } => KindView::Channel {
                server: server@,
                channel: channel@,
            },
            Kind::Query { server, nick } => KindView::Query { server: server@, nick: nick@ },
        }
    }
}

impl Clone for Kind {
    fn clone(&self) -> (copy: Kind)
        ensures
            copy == *self,
    {
        match self {
            Kind::Server { server } => Kind::Server { server: server.clone() },
            Kind::Channel { server, channel } => Kind::Channel {
                server: server.clone(),
                channel: channel.clone(),
            },
            Kind::Query { server, nick } => Kind::Query {
                server: server.clone(),
                nick: nick.clone(),
            },
        }
    }
}

impl Kind {
    /// Whether two kinds name the same resource.
    pub fn same(&self, other: &Kind) -> (same: bool)
        ensures
            same == (self@ == other@),
    {
        match (self, other) {
            (Kind::Server { server: a }, Kind::Server { server: b }) => *a == *b,
            (
                Kind::Channel { server: a, channel: c },
                Kind::Channel { server: b, channel: d },
            ) => *a == *b && *c == *d,
            (Kind::Query { server: a, nick: c }, Kind::Query { server: b, nick: d }) => *a == *b
                && *c == *d,
            _ => false,
        }
    }
}

/// The content of a pane.
#[derive(Debug, PartialEq, Eq)]
pub enum Buffer {
    Empty,
    Server { server: String },
    Channel { server: String, channel: String },
    Query { server: String, nick: String },
}

impl Clone for Buffer {
    fn clone(&self) -> (copy: Buffer)
        ensures
            copy == *self,
    {
        match self {
            Buffer::Empty => Buffer::Empty,
            Buffer::Server { server } => Buffer::Server { server: server.clone() },
            Buffer::Channel { server, channel } => Buffer::Channel {
                server: server.clone(),
                channel: channel.clone(),
            },
            Buffer::Query { server, nick } => Buffer::Query {
                server: server.clone(),
                nick: nick.clone(),
            },
        }
    }
}

impl Buffer {
    /// The buffer that shows the given resource.
    pub open spec fn of(kind: Kind) -> Buffer {
        match kind {
            Kind::Server { server } => Buffer::Server { server },
            Kind::Channel { server, channel } => Buffer::Channel { server, channel },
            Kind::Query { server, nick } => Buffer::Query { server, nick },
        }
    }

    /// The resource the buffer shows, if it shows one.
    pub open spec fn kind(self) -> Option<Kind> {
        match self {
            Buffer::Empty => None,
            Buffer::Server { server } => Some(Kind::Server { server }),
            Buffer::Channel { server, channel } => Some(Kind::Channel { server, channel }),
            Buffer::Query { server, nick } => Some(Kind::Query { server, nick }),
        }
    }

    /// Whether the buffer shows a resource with the given names.
    pub open spec fn shows(self, kind: KindView) -> bool {
        match self.kind() {
            Some(own) => own@ == kind,
            None => false,
        }
    }

    pub fn empty() -> (buffer: Buffer)
        ensures
            buffer == Buffer::Empty,
    {
        Buffer::Empty
    }

    pub fn is_empty(&self) -> (empty: bool)
        ensures
            empty == (*self == Buffer::Empty),
    {
        match self {
            Buffer::Empty => true,
            _ => false,
        }
    }

    /// The resource the buffer shows, if it shows one.
    pub fn data(&self) -> (data: Option<Kind>)
        ensures
            data == self.kind(),
    {
        match self {
            Buffer::Empty => None,
            Buffer::Server { server } => Some(Kind::Server { server: server.clone() }),
            Buffer::Channel { server, channel } => Some(
                Kind::Channel { server: server.clone(), channel: channel.clone() },
            ),
            Buffer::Query { server, nick } => Some(
                Kind::Query { server: server.clone(), nick: nick.clone() },
            ),
        }
    }

    /// Whether the buffer shows the given resource.
    pub fn is_showing(&self, kind: &Kind) -> (showing: bool)
        ensures
            showing == self.shows(kind@),
    {
        match self.data() {
            Some(own) => own.same(kind),
            None => false,
        }
    }
}

impl From<Kind> for Buffer {
    fn from(kind: Kind) -> (buffer: Buffer) {
        match kind {
            Kind::Server { server } => Buffer::Server { server },
            Kind::Channel { server, channel } => Buffer::Channel { server, channel },
            Kind::Query { server, nick } => Buffer::Query { server, nick },
        }
    }
}

impl vstd::std_specs::convert::FromSpecImpl<Kind> for Buffer {
    open spec fn obeys_from_spec() -> bool {
        true
    }

    open spec fn from_spec(kind: Kind) -> Buffer {
        Buffer::of(kind)
    }
}

/// How a pane displays its buffer.
#[derive(Clone, Copy, Debug, PartialEq, Eq)]
pub struct Settings {
    /// Whether the list of users is shown beside a channel.
    pub show_user_list: bool,
}

impl Default for Settings {
    fn default() -> (settings: Settings)
        ensures
            settings == (Settings { show_user_list: true }),
    {
        Settings { show_user_list: true }
    }
}

impl Settings {
    /// The settings with the list of users shown if it was hidden, and hidden if
    /// it was shown.
    pub open spec fn toggled(self) -> Settings {
        Settings { show_user_list: !self.show_user_list }
    }

    pub fn toggle_user_list(&mut self)
        ensures
            *final(self) == old(self).toggled(),
    {
        self.show_user_list = !self.show_user_list;
    }
}

/// What the user has set for the whole client, as far as the workspace
/// reads it.
#[derive(Clone, Copy, Debug, PartialEq, Eq)]
pub struct Config {
    /// The settings that a new pane starts with.
    pub new_buffer: Settings,
}

/// The state of one pane of the grid.
#[derive(Debug, PartialEq, Eq)]
pub struct PaneState {
    pub buffer: Buffer,
    pub settings: Settings,
}

impl Clone for PaneState {
    fn clone(&self) -> (copy: PaneState)
        ensures
            copy == *self,
    {
        PaneState { buffer: self.buffer.clone(), settings: self.settings }
    }
}

impl PaneState {
    pub fn new(buffer: Buffer, settings: Settings) -> (pane: PaneState)
        ensures
            pane == (PaneState { buffer, settings }),
    {
        PaneState { buffer, settings }
    }

    /// The resource whose history the pane needs, if its buffer shows one.
    pub fn resource(&self) -> (resource: Option<Kind>)
        ensures
            resource == self.buffer.kind(),
    {
        self.buffer.data()
    }
}

} // verus!
