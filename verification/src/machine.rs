use crate::query::{apply_filter, empty_query, FilterUpdate, FilterUpdateView, Query, QueryView};
use crate::records::{OrbitTemplate, PageView, QueryResult, TemplateView};
use vstd::prelude::*;

verus! {

/// Why one search came back without a usable result page: the request
/// never reached the server, the server answered with a non-success
/// status, or the body did not decode as a result page.
#[derive(Clone, Copy, Debug, PartialEq, Eq, Structural)]
pub enum FailureKind {
    Network,
    ServerStatus(u16),
    Decode,
}

/// One event consumed by the reducer: a filter edit, the user triggering a
/// search, or the outcome of a previously issued search.
#[derive(Clone, Debug, PartialEq, Eq)]
pub enum Msg {
    QueryFilterUpdate(FilterUpdate),
    SearchAction,
    SearchResults(QueryResult),
    SearchFailed(FailureKind),
}

/// Mathematical image of a [`Msg`].
pub enum MsgView {
    QueryFilterUpdate(FilterUpdateView),
    SearchAction,
    SearchResults(PageView),
    SearchFailed(FailureKind),
}

impl View for Msg {
    type V = MsgView;

    open spec fn view(&self) -> MsgView {
        match self {
            Msg::QueryFilterUpdate(u) => MsgView::QueryFilterUpdate(u@),
            Msg::SearchAction => MsgView::SearchAction,
            Msg::SearchResults(p) => MsgView::SearchResults(p@),
            Msg::SearchFailed(k) => MsgView::SearchFailed(*k),
        }
    }
}

impl From<FilterUpdate> for Msg {
    /// A filter edit, wrapped as the event the reducer consumes.
    fn from(filter: FilterUpdate) -> (m: Msg)
        ensures
            m@ == MsgView::QueryFilterUpdate(filter@),
    {
        Msg::QueryFilterUpdate(filter)
    }
}

impl vstd::std_specs::convert::FromSpecImpl<FilterUpdate> for Msg {
    open spec fn obeys_from_spec() -> bool {
        true
    }

    open spec fn from_spec(filter: FilterUpdate) -> Msg {
        Msg::QueryFilterUpdate(filter)
    }
}

/// The single authoritative snapshot driving rendering: the filters as
/// currently edited, the rows of the last successfully received page, and
/// whether a search is in flight.
#[derive(Clone, Debug, PartialEq, Eq)]
pub struct ViewState {
    pub filters: Query,
    pub rows: Vec<OrbitTemplate>,
    pub pending: bool,
}

/// Mathematical image of a [`ViewState`].
pub struct StateView {
    pub filters: QueryView,
    pub rows: Seq<TemplateView>,
    pub pending: bool,
}

impl View for ViewState {
    type V = StateView;

    open spec fn view(&self) -> StateView {
        StateView { filters: self.filters@, rows: self.rows.deep_view(), pending: self.pending }
    }
}

/// The state a session starts in: no constraints, no rows, no search in
/// flight.
pub open spec fn initial_state() -> StateView {
    StateView { filters: empty_query(), rows: Seq::empty(), pending: false }
}

impl Default for ViewState {
    /// The startup state: empty filters, empty table, nothing in flight.
    fn default() -> (s: ViewState)
        ensures
            s@ == initial_state(),
    {
        let s = ViewState { filters: Query::default(), rows: Vec::new(), pending: false };
        proof {
            assert(s@.rows =~= Seq::<TemplateView>::empty());
        }
        s
    }
}

/// The pure transition function of the view-state machine.
///
/// * A filter edit replaces the named filter field; rows and the in-flight
///   flag are untouched.
/// * A search trigger only raises the in-flight flag; issuing the actual
///   request is the surrounding driver's side effect.
/// * A successful search installs the page's records as the new rows, in
///   the server's order, and clears the in-flight flag.
/// * A failed search only clears the in-flight flag: the previously
///   displayed rows are deliberately preserved, and nothing is surfaced to
///   the user.
pub open spec fn reduce_spec(s: StateView, e: MsgView) -> StateView {
    match e {
        MsgView::QueryFilterUpdate(u) => StateView { filters: apply_filter(s.filters, u), ..s },
        MsgView::SearchAction => StateView { pending: true, ..s },
        MsgView::SearchResults(p) => StateView { rows: p.objects, pending: false, ..s },
        MsgView::SearchFailed(_) => StateView { pending: false, ..s },
    }
}

/// Consumes one event and produces the next state snapshot. Pure: the
/// result is exactly `reduce_spec` of the images of the inputs, and the
/// function performs no I/O. Every event warrants a re-render.
pub fn reduce(state: ViewState, msg: Msg) -> (next: ViewState)
    ensures
        next@ == reduce_spec(state@, msg@),
{
    match msg {
        Msg::QueryFilterUpdate(u) => {
            let mut filters = state.filters;
            filters.update(u);
            ViewState { filters, rows: state.rows, pending: state.pending }
        },
        Msg::SearchAction => ViewState {
            filters: state.filters,
            rows: state.rows,
            pending: true,
        },
        Msg::SearchResults(page) => ViewState {
            filters: state.filters,
            rows: page.objects,
            pending: false,
        },
        Msg::SearchFailed(_) => ViewState {
            filters: state.filters,
            rows: state.rows,
            pending: false,
        },
    }
}

/// How one resolved transport call becomes an event, given the response
/// status and the decoded body if there was one: a non-success status is a
/// server-status failure whatever the body; a success status without a
/// decoded page is a decode failure; a success status with a decoded page
/// is a successful search.
pub open spec fn classify_spec(status: u16, body: Option<PageView>) -> MsgView {
    if 200 <= status < 300 {
        match body {
            Some(p) => MsgView::SearchResults(p),
            None => MsgView::SearchFailed(FailureKind::Decode),
        }
    } else {
        MsgView::SearchFailed(FailureKind::ServerStatus(status))
    }
}

/// Turns the outcome of one transport call into the event the reducer
/// consumes. The driver calls this after the HTTP response has arrived and
/// its body, on a success status, has been handed to the decoder; a call
/// that never produced a response becomes `SearchFailed(Network)` in the
/// driver directly.
pub fn classify_response(status: u16, body: Option<QueryResult>) -> (m: Msg)
    ensures
        m@ == classify_spec(status, body.deep_view()),
{
    if 200 <= status && status < 300 {
        match body {
            Some(p) => Msg::SearchResults(p),
            None => Msg::SearchFailed(FailureKind::Decode),
        }
    } else {
        Msg::SearchFailed(FailureKind::ServerStatus(status))
    }
}

/// Law: the reducer is a function of its two arguments alone — equal
/// states and equal events give equal successor states.
pub proof fn lemma_reduce_deterministic(s1: StateView, e1: MsgView, s2: StateView, e2: MsgView)
    requires
        s1 == s2,
        e1 == e2,
    ensures
        reduce_spec(s1, e1) == reduce_spec(s2, e2),
{
}

/// Law: a failed search never destroys previously displayed data — the
/// rows and the filters survive unchanged, and the in-flight flag is
/// cleared, whatever the kind of failure.
pub proof fn lemma_failure_preserves_rows(s: StateView, k: FailureKind)
    ensures
        reduce_spec(s, MsgView::SearchFailed(k)).rows == s.rows,
        reduce_spec(s, MsgView::SearchFailed(k)).filters == s.filters,
        reduce_spec(s, MsgView::SearchFailed(k)).pending == false,
{
}

/// Law: triggering a search raises the in-flight flag and touches nothing
/// else.
pub proof fn lemma_trigger_raises_pending(s: StateView)
    ensures
        reduce_spec(s, MsgView::SearchAction).pending == true,
        reduce_spec(s, MsgView::SearchAction).filters == s.filters,
        reduce_spec(s, MsgView::SearchAction).rows == s.rows,
{
}

/// Law: a successful search installs exactly the page's records — same
/// sequence, same order, same count — clears the in-flight flag, and
/// leaves the filters alone.
pub proof fn lemma_success_installs_rows(s: StateView, p: PageView)
    ensures
        reduce_spec(s, MsgView::SearchResults(p)).rows == p.objects,
        reduce_spec(s, MsgView::SearchResults(p)).rows.len() == p.objects.len(),
        reduce_spec(s, MsgView::SearchResults(p)).pending == false,
        reduce_spec(s, MsgView::SearchResults(p)).filters == s.filters,
{
}

} // verus!
