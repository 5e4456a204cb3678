use crate::machine::{StateView, ViewState};
use crate::query::QueryView;
use crate::records::TemplateView;
use vstd::prelude::*;

verus! {

/// One text input of the filter form: its display name and its current
/// contents (the corresponding filter field, or empty when absent).
#[derive(Clone, Debug, PartialEq, Eq)]
pub struct FilterInput {
    pub name: String,
    pub value: String,
}

/// Mathematical image of a [`FilterInput`].
pub struct FilterInputView {
    pub name: Seq<char>,
    pub value: Seq<char>,
}

impl View for FilterInput {
    type V = FilterInputView;

    open spec fn view(&self) -> FilterInputView {
        FilterInputView { name: self.name@, value: self.value@ }
    }
}

impl DeepView for FilterInput {
    type V = FilterInputView;

    open spec fn deep_view(&self) -> FilterInputView {
        self.view()
    }
}

/// What the rendering host displays, as plain data: the five filter
/// inputs, the fixed header line, and one row of cells per record. The
/// host alone turns this into actual markup.
#[derive(Clone, Debug, PartialEq, Eq)]
pub struct ViewDescription {
    pub inputs: Vec<FilterInput>,
    pub headers: Vec<String>,
    pub rows: Vec<Vec<String>>,
}

/// Mathematical image of a [`ViewDescription`].
pub struct DescriptionView {
    pub inputs: Seq<FilterInputView>,
    pub headers: Seq<Seq<char>>,
    pub rows: Seq<Seq<Seq<char>>>,
}

impl View for ViewDescription {
    type V = DescriptionView;

    open spec fn view(&self) -> DescriptionView {
        DescriptionView {
            inputs: self.inputs.deep_view(),
            headers: self.headers.deep_view(),
            rows: self.rows.deep_view(),
        }
    }
}

/// What a text input shows for an optional filter field: the value when
/// present, the empty string when absent.
pub open spec fn input_text(v: Option<Seq<char>>) -> Seq<char> {
    match v {
        Some(s) => s,
        None => Seq::empty(),
    }
}

/// The five filter inputs, in the fixed order of the form.
pub open spec fn form_inputs(q: QueryView) -> Seq<FilterInputView> {
    seq![
        FilterInputView { name: "Matter"@, value: input_text(q.matter) },
        FilterInputView { name: "Language"@, value: input_text(q.language) },
        FilterInputView { name: "Brand"@, value: input_text(q.brand) },
        FilterInputView { name: "Medium"@, value: input_text(q.medium) },
        FilterInputView { name: "MimeType"@, value: input_text(q.mime_type) },
    ]
}

/// The fixed header line of the result table, in its canonical order.
pub open spec fn header_names() -> Seq<Seq<char>> {
    seq![
        "Subject"@,
        "Brand"@,
        "Language"@,
        "Medium"@,
        "Matter"@,
        "MIME Type"@,
        "Created At"@,
        "Changed At"@,
        "Body"@,
    ]
}

/// The cells of one table row: the record's display fields, verbatim, in
/// the same order as the header line.
pub open spec fn row_cells(t: TemplateView) -> Seq<Seq<char>> {
    seq![
        t.subject,
        t.brand,
        t.language,
        t.medium,
        t.matter,
        t.mime_type,
        t.created_at,
        t.changed_at,
        t.body,
    ]
}

/// The complete derivation of the displayed form and table from a state:
/// the filter inputs mirror the filters, the header line is fixed, and the
/// table holds one row per record in the state's row order.
pub open spec fn render_spec(s: StateView) -> DescriptionView {
    DescriptionView {
        inputs: form_inputs(s.filters),
        headers: header_names(),
        rows: s.rows.map_values(|t: TemplateView| row_cells(t)),
    }
}

/// What a text input shows for an optional filter field, executably.
fn input_value(v: &Option<String>) -> (r: String)
    ensures
        r@ == input_text(v.deep_view()),
{
    match v {
        Some(s) => s.clone(),
        None => String::new(),
    }
}

/// Derives the displayed form and table from the given state. Pure: the
/// result is exactly `render_spec` of the state's image, so identical
/// states always yield identical descriptions.
pub fn render(state: &ViewState) -> (d: ViewDescription)
    ensures
        d@ == render_spec(state@),
{
    let mut inputs: Vec<FilterInput> = Vec::new();
    inputs.push(FilterInput { name: "Matter".to_owned(), value: input_value(&state.filters.matter) });
    inputs.push(FilterInput { name: "Language".to_owned(), value: input_value(&state.filters.language) });
    inputs.push(FilterInput { name: "Brand".to_owned(), value: input_value(&state.filters.brand) });
    inputs.push(FilterInput { name: "Medium".to_owned(), value: input_value(&state.filters.medium) });
    inputs.push(FilterInput { name: "MimeType".to_owned(), value: input_value(&state.filters.mime_type) });

    let mut headers: Vec<String> = Vec::new();
    headers.push("Subject".to_owned());
    headers.push("Brand".to_owned());
    headers.push("Language".to_owned());
    headers.push("Medium".to_owned());
    headers.push("Matter".to_owned());
    headers.push("MIME Type".to_owned());
    headers.push("Created At".to_owned());
    headers.push("Changed At".to_owned());
    headers.push("Body".to_owned());

    let mut rows: Vec<Vec<String>> = Vec::new();
    let mut i: usize = 0;
    while i < state.rows.len()
        invariant
            i <= state.rows.len(),
            rows.deep_view().len() == i,
            forall|j: int| 0 <= j < i ==> rows.deep_view()[j] == row_cells(state@.rows[j]),
        decreases state.rows.len() - i,
    {
        let t = &state.rows[i];
        let mut cells: Vec<String> = Vec::new();
        cells.push(t.subject.clone());
        cells.push(t.brand.clone());
        cells.push(t.language.clone());
        cells.push(t.medium.clone());
        cells.push(t.matter.clone());
        cells.push(t.mime_type.clone());
        cells.push(t.created_at.clone());
        cells.push(t.changed_at.clone());
        cells.push(t.body.clone());
        proof {
            assert(cells.deep_view() =~= row_cells(state@.rows[i as int]));
        }
        let ghost prev = rows.deep_view();
        rows.push(cells);
        proof {
            assert(rows.deep_view() =~= prev.push(row_cells(state@.rows[i as int])));
        }
        i += 1;
    }

    let d = ViewDescription { inputs, headers, rows };
    proof {
        assert(d@.inputs =~= form_inputs(state@.filters));
        assert(d@.headers =~= header_names());
        assert(d@.rows =~= render_spec(state@).rows);
    }
    d
}

/// Law: rendering is a function of the state alone — equal states yield
/// equal view descriptions.
pub proof fn lemma_render_deterministic(s1: StateView, s2: StateView)
    requires
        s1 == s2,
    ensures
        render_spec(s1) == render_spec(s2),
{
}

/// Law: the rendered table has exactly one row per record, each row the
/// cells of the record in that position, and the header line is exactly
/// the nine canonical names in their fixed order.
pub proof fn lemma_render_shape(s: StateView)
    ensures
        render_spec(s).rows.len() == s.rows.len(),
        forall|i: int| 0 <= i < s.rows.len() ==> render_spec(s).rows[i] == row_cells(s.rows[i]),
        render_spec(s).headers == header_names(),
        render_spec(s).headers.len() == 9,
        render_spec(s).inputs.len() == 5,
{
}

} // verus!
