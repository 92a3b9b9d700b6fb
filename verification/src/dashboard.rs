//! What the dashboard panels show.
//!
//! A panel turns the counts it is given into a status, a message and the search
//! that a click on it starts. Drawing is left to the panel; here are the
//! decisions.

use vstd::prelude::*;
use vstd::string::*;

verus! {

/// The product that a remote runs.
#[derive(Clone, Copy, Debug, PartialEq, Eq, Structural)]
pub enum RemoteType {
    Pve,
    Pbs,
}

impl RemoteType {
    pub open spec fn name(self) -> Seq<char> {
        match self {
            RemoteType::Pve => "pve"@,
            RemoteType::Pbs => "pbs"@,
        }
    }

    /// The name of the product, as searches use it.
    pub fn as_str(&self) -> (r: &'static str)
        ensures
            r@ == self.name(),
    {
        match self {
            RemoteType::Pve => "pve",
            RemoteType::Pbs => "pbs",
        }
    }
}

/// How many nodes are in which state.
#[derive(Clone, Copy, Debug, PartialEq, Eq, Structural)]
pub struct NodeStatusCount {
    pub online: u64,
    pub offline: u64,
    pub unknown: u64,
}

/// How bad things are.
#[derive(Clone, Copy, Debug, PartialEq, Eq, Structural)]
pub enum Status {
    Success,
    Warning,
    Unknown,
    Error,
}

/// What the node panel says.
#[derive(Clone, Copy, Debug, PartialEq, Eq, Structural)]
pub enum NodeMessage {
    /// So many of so many nodes are offline.
    Offline { offline: u64, total: u128 },
    /// So many nodes have an unknown status.
    UnknownStatus { unknown: u64 },
    /// So many of an unknown number of nodes are online.
    OnlineOfUnknown { online: u64 },
    /// So many remotes failed.
    RemotesFailed { failed: usize },
    /// So many nodes are online.
    Online { online: u64 },
}

/// One term of a search: a value, and the category it is looked for in.
#[derive(Debug, PartialEq, Eq)]
pub struct SearchTerm {
    pub value: String,
    pub category: Option<&'static str>,
}

pub struct SearchTermView {
    pub value: Seq<char>,
    pub category: Option<Seq<char>>,
}

impl View for SearchTerm {
    type V = SearchTermView;

    open spec fn view(&self) -> SearchTermView {
        SearchTermView {
            value: self.value@,
            category: match self.category {
                Some(c) => Some(c@),
                None => None,
            },
        }
    }
}

/// The views of a list of search terms.
pub open spec fn term_views(terms: Seq<SearchTerm>) -> Seq<SearchTermView> {
    Seq::new(terms.len(), |i: int| terms[i]@)
}

/// The term that looks for `value` in `category`.
pub open spec fn term(value: Seq<char>, category: Seq<char>) -> SearchTermView {
    SearchTermView { value, category: Some(category) }
}

fn new_term(value: &str, category: &'static str) -> (r: SearchTerm)
    ensures
        r@ == term(value@, category@),
{
    SearchTerm { value: value.to_owned(), category: Some(category) }
}

/// What the node panel shows.
#[derive(Debug)]
pub struct NodeSummary {
    pub status: Status,
    pub message: NodeMessage,
    pub search_terms: Vec<SearchTerm>,
}

/// The status of the nodes: an offline node is an error, a node of unknown
/// status a warning; remotes that failed leave the number of nodes of a
/// virtualization cluster unknown and are an error for backup servers.
pub open spec fn node_status(
    status: NodeStatusCount,
    remote_type: RemoteType,
    failed_remotes: usize,
) -> (Status, NodeMessage) {
    if status.offline > 0 {
        (
            Status::Error,
            NodeMessage::Offline {
                offline: status.offline,
                total: (status.online + status.offline + status.unknown) as u128,
            },
        )
    } else if status.unknown > 0 {
        (Status::Warning, NodeMessage::UnknownStatus { unknown: status.unknown })
    } else if failed_remotes > 0 {
        match remote_type {
            RemoteType::Pve => (
                Status::Unknown,
                NodeMessage::OnlineOfUnknown { online: status.online },
            ),
            RemoteType::Pbs => (Status::Error, NodeMessage::RemotesFailed { failed: failed_remotes }),
        }
    } else {
        (Status::Success, NodeMessage::Online { online: status.online })
    }
}

/// The search behind the node panel: nodes of the remote type, narrowed to the
/// state that the panel complains about.
pub open spec fn node_search(status: NodeStatusCount, remote_type: RemoteType) -> Seq<
    SearchTermView,
> {
    let base = seq![term("node"@, "type"@), term(remote_type.name(), "remote-type"@)];
    if status.offline > 0 {
        base.push(term("offline"@, "status"@))
    } else if status.unknown > 0 {
        base.push(term("unknown"@, "status"@))
    } else {
        base
    }
}

/// What the node panel shows for the given counts.
pub fn map_status(status: &NodeStatusCount, remote_type: RemoteType, failed_remotes: usize) -> (r:
    NodeSummary)
    ensures
        (r.status, r.message) == node_status(*status, remote_type, failed_remotes),
        term_views(r.search_terms@) == node_search(*status, remote_type),
{
    let mut search_terms: Vec<SearchTerm> = Vec::new();
    search_terms.push(new_term("node", "type"));
    search_terms.push(new_term(remote_type.as_str(), "remote-type"));
    let (level, message) = if status.offline > 0 {
        search_terms.push(new_term("offline", "status"));
        let total: u128 = status.online as u128 + status.offline as u128 + status.unknown as u128;
        (Status::Error, NodeMessage::Offline { offline: status.offline, total })
    } else if status.unknown > 0 {
        search_terms.push(new_term("unknown", "status"));
        (Status::Warning, NodeMessage::UnknownStatus { unknown: status.unknown })
    } else if failed_remotes > 0 {
        match remote_type {
            RemoteType::Pve => (
                Status::Unknown,
                NodeMessage::OnlineOfUnknown { online: status.online },
            ),
            RemoteType::Pbs => (Status::Error, NodeMessage::RemotesFailed { failed: failed_remotes }),
        }
    } else {
        (Status::Success, NodeMessage::Online { online: status.online })
    };
    assert(term_views(search_terms@) =~= node_search(*status, remote_type));
    NodeSummary { status: level, message, search_terms }
}

/// The state of a guest.
#[derive(Clone, Copy, Debug, PartialEq, Eq, Structural)]
pub enum GuestState {
    Running,
    Paused,
    Stopped,
    Template,
    Unknown,
}

/// How many guests are in which state.
#[derive(Clone, Copy, Debug, PartialEq, Eq, Structural)]
pub struct GuestStatusCount {
    pub running: u64,
    pub stopped: u64,
    pub template: u64,
    pub unknown: u64,
}

/// A row of the guest panel: the guests in one state, or all guests.
#[derive(Clone, Copy, Debug, PartialEq, Eq, Structural)]
pub enum StatusRow {
    State(GuestState, u64),
    All(u64),
}

/// The number of all guests.
pub open spec fn guest_total(status: GuestStatusCount) -> int {
    status.running + status.stopped + status.template + status.unknown
}

/// The rows of the guest panel: one for each state that is counted, and one
/// for all guests.
pub open spec fn guest_rows(status: GuestStatusCount) -> Seq<StatusRow> {
    seq![
        StatusRow::State(GuestState::Running, status.running),
        StatusRow::State(GuestState::Stopped, status.stopped),
        StatusRow::State(GuestState::Template, status.template),
        StatusRow::State(GuestState::Unknown, status.unknown),
        StatusRow::All(guest_total(status) as u64),
    ]
}

/// The rows of the guest panel, or `None` where the number of all guests does
/// not fit 64 bits.
pub fn status_rows(status: &GuestStatusCount) -> (r: Option<Vec<StatusRow>>)
    ensures
        match r {
            Some(rows) => guest_total(*status) <= u64::MAX && rows@ == guest_rows(*status),
            None => guest_total(*status) > u64::MAX,
        },
{
    let total: u128 = status.running as u128 + status.stopped as u128 + status.template as u128
        + status.unknown as u128;
    if total > u64::MAX as u128 {
        return None;
    }
    let mut rows: Vec<StatusRow> = Vec::new();
    rows.push(StatusRow::State(GuestState::Running, status.running));
    rows.push(StatusRow::State(GuestState::Stopped, status.stopped));
    rows.push(StatusRow::State(GuestState::Template, status.template));
    rows.push(StatusRow::State(GuestState::Unknown, status.unknown));
    rows.push(StatusRow::All(total as u64));
    assert(rows@ =~= guest_rows(*status));
    Some(rows)
}

/// What a tile of the guest panel is labelled with.
#[derive(Clone, Copy, Debug, PartialEq, Eq, Structural)]
pub enum TileLabel {
    Running,
    Stopped,
    Template,
    Unknown,
    All,
}

/// What a tile of the guest panel shows, and what a click on it searches for.
/// A tile without a state stands for all guests and shows the icon of their
/// type.
#[derive(Clone, Copy, Debug, PartialEq, Eq)]
pub struct ListTile {
    pub state: Option<GuestState>,
    pub label: TileLabel,
    pub count: u64,
    pub status: Option<&'static str>,
    pub template: Option<bool>,
}

pub struct ListTileView {
    pub state: Option<GuestState>,
    pub label: TileLabel,
    pub count: u64,
    pub status: Option<Seq<char>>,
    pub template: Option<bool>,
}

impl View for ListTile {
    type V = ListTileView;

    open spec fn view(&self) -> ListTileView {
        ListTileView {
            state: self.state,
            label: self.label,
            count: self.count,
            status: match self.status {
                Some(s) => Some(s@),
                None => None,
            },
            template: self.template,
        }
    }
}

/// The tile for a row. Rows for templates and for guests of unknown state are
/// only shown when there are such guests; paused guests have no row.
pub open spec fn tile_of(row: StatusRow) -> Option<ListTileView> {
    match row {
        StatusRow::State(state, count) => match state {
            GuestState::Paused => None,
            GuestState::Running => Some(
                ListTileView {
                    state: Some(state),
                    label: TileLabel::Running,
                    count,
                    status: Some("running"@),
                    template: Some(false),
                },
            ),
            GuestState::Stopped => Some(
                ListTileView {
                    state: Some(state),
                    label: TileLabel::Stopped,
                    count,
                    status: Some("stopped"@),
                    template: Some(false),
                },
            ),
            GuestState::Template => if count == 0 {
                None
            } else {
                Some(
                    ListTileView {
                        state: Some(state),
                        label: TileLabel::Template,
                        count,
                        status: None,
                        template: Some(true),
                    },
                )
            },
            GuestState::Unknown => if count == 0 {
                None
            } else {
                Some(
                    ListTileView {
                        state: Some(state),
                        label: TileLabel::Unknown,
                        count,
                        status: Some("unknown"@),
                        template: None,
                    },
                )
            },
        },
        StatusRow::All(count) => Some(
            ListTileView { state: None, label: TileLabel::All, count, status: None, template: None },
        ),
    }
}

/// The tile for a row, if the row is shown.
pub fn create_list_tile(row: StatusRow) -> (r: Option<ListTile>)
    ensures
        match r {
            Some(tile) => tile_of(row) == Some(tile@),
            None => tile_of(row) is None,
        },
{
    match row {
        StatusRow::State(state, count) => match state {
            GuestState::Paused => None,
            GuestState::Running => Some(
                ListTile {
                    state: Some(state),
                    label: TileLabel::Running,
                    count,
                    status: Some("running"),
                    template: Some(false),
                },
            ),
            GuestState::Stopped => Some(
                ListTile {
                    state: Some(state),
                    label: TileLabel::Stopped,
                    count,
                    status: Some("stopped"),
                    template: Some(false),
                },
            ),
            GuestState::Template => {
                if count == 0 {
                    None
                } else {
                    Some(
                        ListTile {
                            state: Some(state),
                            label: TileLabel::Template,
                            count,
                            status: None,
                            template: Some(true),
                        },
                    )
                }
            },
            GuestState::Unknown => {
                if count == 0 {
                    None
                } else {
                    Some(
                        ListTile {
                            state: Some(state),
                            label: TileLabel::Unknown,
                            count,
                            status: Some("unknown"),
                            template: None,
                        },
                    )
                }
            },
        },
        StatusRow::All(count) => Some(
            ListTile { state: None, label: TileLabel::All, count, status: None, template: None },
        ),
    }
}

/// The name of a truth value.
pub open spec fn bool_name(b: bool) -> Seq<char> {
    if b {
        "true"@
    } else {
        "false"@
    }
}

/// The search for guests of a type: the type first, then whether they are
/// templates, then their status, as far as each is given.
pub open spec fn guest_search(
    resource_type: Seq<char>,
    status: Option<Seq<char>>,
    template: Option<bool>,
) -> Seq<SearchTermView> {
    let by_type = seq![term(resource_type, "type"@)];
    let by_template = match template {
        Some(t) => by_type.push(term(bool_name(t), "template"@)),
        None => by_type,
    };
    match status {
        Some(s) => by_template.push(term(s, "status"@)),
        None => by_template,
    }
}

/// The search that a click on a tile of the guest panel starts.
pub fn create_guest_search_term(
    resource_type: &str,
    status: Option<&'static str>,
    template: Option<bool>,
) -> (r: Vec<SearchTerm>)
    ensures
        term_views(r@) == guest_search(
            resource_type@,
            match status {
                Some(s) => Some(s@),
                None => None,
            },
            template,
        ),
{
    let mut terms: Vec<SearchTerm> = Vec::new();
    terms.push(new_term(resource_type, "type"));
    match template {
        Some(true) => {
            terms.push(new_term("true", "template"));
        },
        Some(false) => {
            terms.push(new_term("false", "template"));
        },
        None => {},
    }
    match status {
        Some(s) => {
            terms.push(new_term(s, "status"));
        },
        None => {},
    }
    assert(term_views(terms@) =~= guest_search(
        resource_type@,
        match status {
            Some(s) => Some(s@),
            None => None,
        },
        template,
    ));
    terms
}

} // verus!
