use template_search::machine::{
    classify_response, reduce, FailureKind, Msg, ViewState,
};
use template_search::query::{none_if_empty, FilterUpdate, Query};
use template_search::records::{OrbitTemplate, QueryResult};
use template_search::render::render;

fn record(id: &str, subject: &str) -> OrbitTemplate {
    OrbitTemplate {
        id: id.to_owned(),
        matter: "m".to_owned(),
        brand: "b".to_owned(),
        language: "l".to_owned(),
        medium: "md".to_owned(),
        subject: subject.to_owned(),
        body: "bd".to_owned(),
        created_at: "c".to_owned(),
        changed_at: "ch".to_owned(),
        mime_type: "mt".to_owned(),
    }
}

fn page_of(objects: Vec<OrbitTemplate>) -> QueryResult {
    let n = objects.len() as i32;
    QueryResult { objects, page: 1, per_page: 10, num_results: n }
}

#[test]
fn apply_changes_exactly_one_field() {
    let mut q = Query {
        matter: Some("m0".to_owned()),
        language: Some("l0".to_owned()),
        brand: None,
        medium: Some("d0".to_owned()),
        mime_type: None,
    };
    let before = q.clone();
    q.update(FilterUpdate::Brand(Some("acme".to_owned())));
    assert_eq!(q.brand, Some("acme".to_owned()));
    assert_eq!(q.matter, before.matter);
    assert_eq!(q.language, before.language);
    assert_eq!(q.medium, before.medium);
    assert_eq!(q.mime_type, before.mime_type);
}

#[test]
fn apply_same_update_twice_is_idempotent() {
    let mut once = Query::default();
    once.update(FilterUpdate::Language(Some("en".to_owned())));
    let mut twice = Query::default();
    twice.update(FilterUpdate::Language(Some("en".to_owned())));
    twice.update(FilterUpdate::Language(Some("en".to_owned())));
    assert_eq!(once, twice);
}

#[test]
fn reduce_is_deterministic() {
    let state = ViewState {
        filters: Query::default(),
        rows: vec![record("1", "S")],
        pending: false,
    };
    let msg = Msg::SearchResults(page_of(vec![record("2", "T")]));
    let a = reduce(state.clone(), msg.clone());
    let b = reduce(state, msg);
    assert_eq!(a, b);
}

#[test]
fn failure_preserves_rows() {
    let rows = vec![record("1", "S"), record("2", "T")];
    let state = ViewState { filters: Query::default(), rows: rows.clone(), pending: false };
    let next = reduce(state, Msg::SearchFailed(FailureKind::Decode));
    assert_eq!(next.rows, rows);
    assert!(!next.pending);
}

#[test]
fn trigger_raises_pending_only() {
    let rows = vec![record("1", "S")];
    let filters = Query { matter: Some("glass".to_owned()), ..Query::default() };
    let state = ViewState { filters: filters.clone(), rows: rows.clone(), pending: false };
    let next = reduce(state, Msg::SearchAction);
    assert!(next.pending);
    assert_eq!(next.filters, filters);
    assert_eq!(next.rows, rows);
}

#[test]
fn success_installs_page_rows_in_order() {
    let state = ViewState {
        filters: Query::default(),
        rows: vec![record("9", "old")],
        pending: true,
    };
    let fresh = vec![record("1", "A"), record("2", "B"), record("3", "C")];
    let next = reduce(state, Msg::SearchResults(page_of(fresh.clone())));
    assert!(!next.pending);
    assert_eq!(next.rows.len(), 3);
    assert_eq!(next.rows, fresh);
}

#[test]
fn render_is_deterministic_and_shaped() {
    let state = ViewState {
        filters: Query { brand: Some("acme".to_owned()), ..Query::default() },
        rows: vec![record("1", "S"), record("2", "T")],
        pending: false,
    };
    let a = render(&state);
    let b = render(&state);
    assert_eq!(a, b);
    assert_eq!(a.rows.len(), state.rows.len());
    let names: Vec<&str> = a.headers.iter().map(|s| s.as_str()).collect();
    assert_eq!(
        names,
        vec![
            "Subject",
            "Brand",
            "Language",
            "Medium",
            "Matter",
            "MIME Type",
            "Created At",
            "Changed At",
            "Body"
        ]
    );
}

#[test]
fn render_row_cells_are_verbatim_fields() {
    let t = record("1", "hello");
    let state = ViewState { filters: Query::default(), rows: vec![t.clone()], pending: false };
    let d = render(&state);
    assert_eq!(d.rows.len(), 1);
    assert_eq!(
        d.rows[0],
        vec![
            t.subject, t.brand, t.language, t.medium, t.matter, t.mime_type, t.created_at,
            t.changed_at, t.body
        ]
    );
}

#[test]
fn scenario_filter_edit_from_default() {
    let state = ViewState::default();
    assert_eq!(state.filters, Query::default());
    assert!(state.rows.is_empty());
    assert!(!state.pending);

    let edit = none_if_empty("glass".to_owned());
    let next = reduce(state, Msg::QueryFilterUpdate(FilterUpdate::Matter(edit)));
    assert_eq!(next.filters.matter, Some("glass".to_owned()));
    assert!(next.rows.is_empty());
    assert!(!next.pending);

    let d = render(&next);
    assert_eq!(d.inputs[0].name, "Matter".to_owned());
    assert_eq!(d.inputs[0].value, "glass".to_owned());
    assert_eq!(d.rows.len(), 0);
}

#[test]
fn scenario_search_success() {
    let mut state = ViewState::default();
    state = reduce(
        state,
        Msg::QueryFilterUpdate(FilterUpdate::Matter(none_if_empty("glass".to_owned()))),
    );
    state = reduce(state, Msg::SearchAction);
    assert!(state.pending);

    let page = page_of(vec![record("1", "S")]);
    state = reduce(state, Msg::SearchResults(page));
    assert!(!state.pending);
    assert_eq!(state.rows.len(), 1);

    let d = render(&state);
    assert_eq!(d.rows.len(), 1);
    assert_eq!(d.rows[0][0], "S".to_owned());
}

#[test]
fn scenario_search_failure_keeps_rows() {
    let row_a = record("a", "A");
    let mut state = ViewState {
        filters: Query::default(),
        rows: vec![row_a.clone()],
        pending: false,
    };
    state = reduce(state, Msg::SearchAction);
    assert!(state.pending);
    state = reduce(state, Msg::SearchFailed(FailureKind::Network));
    assert!(!state.pending);
    assert_eq!(state.rows, vec![row_a]);
}

#[test]
fn empty_string_normalizes_to_absent() {
    assert_eq!(none_if_empty(String::new()), None);
    assert_eq!(none_if_empty("x".to_owned()), Some("x".to_owned()));
}

#[test]
fn classify_non_success_status() {
    let m = classify_response(500, None);
    assert_eq!(m, Msg::SearchFailed(FailureKind::ServerStatus(500)));
    let m = classify_response(404, Some(page_of(vec![])));
    assert_eq!(m, Msg::SearchFailed(FailureKind::ServerStatus(404)));
}

#[test]
fn classify_undecodable_body() {
    let m = classify_response(200, None);
    assert_eq!(m, Msg::SearchFailed(FailureKind::Decode));
}

#[test]
fn classify_success() {
    let page = page_of(vec![record("1", "S")]);
    let m = classify_response(200, Some(page.clone()));
    assert_eq!(m, Msg::SearchResults(page));
}

#[test]
fn network_failure_clears_pending() {
    let state = ViewState { filters: Query::default(), rows: vec![], pending: true };
    let next = reduce(state, Msg::SearchFailed(FailureKind::Network));
    assert!(!next.pending);
    assert!(next.rows.is_empty());
}

#[test]
fn filter_update_converts_into_event() {
    let u = FilterUpdate::Medium(Some("mail".to_owned()));
    let m = Msg::from(u.clone());
    assert_eq!(m, Msg::QueryFilterUpdate(u));
}
