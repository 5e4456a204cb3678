use vstd::prelude::*;

verus! {

/// The optional search constraints the user has entered: one per
/// searchable field, `None` meaning "no constraint on this field".
#[derive(Clone, Debug, PartialEq, Eq)]
pub struct Query {
    pub matter: Option<String>,
    pub language: Option<String>,
    pub brand: Option<String>,
    pub medium: Option<String>,
    pub mime_type: Option<String>,
}

/// Mathematical image of a [`Query`]: each field as an optional character
/// sequence.
pub struct QueryView {
    pub matter: Option<Seq<char>>,
    pub language: Option<Seq<char>>,
    pub brand: Option<Seq<char>>,
    pub medium: Option<Seq<char>>,
    pub mime_type: Option<Seq<char>>,
}

impl View for Query {
    type V = QueryView;

    open spec fn view(&self) -> QueryView {
        QueryView {
            matter: self.matter.deep_view(),
            language: self.language.deep_view(),
            brand: self.brand.deep_view(),
            medium: self.medium.deep_view(),
            mime_type: self.mime_type.deep_view(),
        }
    }
}

/// The query with no constraints at all.
pub open spec fn empty_query() -> QueryView {
    QueryView { matter: None, language: None, brand: None, medium: None, mime_type: None }
}

impl Default for Query {
    /// The query with no constraints: all five fields absent.
    fn default() -> (q: Query)
        ensures
            q@ == empty_query(),
    {
        Query { matter: None, language: None, brand: None, medium: None, mime_type: None }
    }
}

/// Identifies one query field together with the optional value that is to
/// replace it.
#[derive(Clone, Debug, PartialEq, Eq)]
pub enum FilterUpdate {
    Matter(Option<String>),
    Language(Option<String>),
    Brand(Option<String>),
    Medium(Option<String>),
    MimeType(Option<String>),
}

/// Mathematical image of a [`FilterUpdate`].
pub enum FilterUpdateView {
    Matter(Option<Seq<char>>),
    Language(Option<Seq<char>>),
    Brand(Option<Seq<char>>),
    Medium(Option<Seq<char>>),
    MimeType(Option<Seq<char>>),
}

impl View for FilterUpdate {
    type V = FilterUpdateView;

    open spec fn view(&self) -> FilterUpdateView {
        match self {
            FilterUpdate::Matter(s) => FilterUpdateView::Matter(s.deep_view()),
            FilterUpdate::Language(s) => FilterUpdateView::Language(s.deep_view()),
            FilterUpdate::Brand(s) => FilterUpdateView::Brand(s.deep_view()),
            FilterUpdate::Medium(s) => FilterUpdateView::Medium(s.deep_view()),
            FilterUpdate::MimeType(s) => FilterUpdateView::MimeType(s.deep_view()),
        }
    }
}

/// The query that results from replacing exactly the field named by `u`
/// with `u`'s value; every other field keeps its value.
pub open spec fn apply_filter(q: QueryView, u: FilterUpdateView) -> QueryView {
    match u {
        FilterUpdateView::Matter(s) => QueryView { matter: s, ..q },
        FilterUpdateView::Language(s) => QueryView { language: s, ..q },
        FilterUpdateView::Brand(s) => QueryView { brand: s, ..q },
        FilterUpdateView::Medium(s) => QueryView { medium: s, ..q },
        FilterUpdateView::MimeType(s) => QueryView { mime_type: s, ..q },
    }
}

impl Query {
    /// Replaces exactly the field that `filter` names; all other fields
    /// keep their previous contents.
    pub fn update(&mut self, filter: FilterUpdate)
        ensures
            final(self)@ == apply_filter(old(self)@, filter@),
    {
        match filter {
            FilterUpdate::Matter(s) => self.matter = s,
            FilterUpdate::Language(s) => self.language = s,
            FilterUpdate::Brand(s) => self.brand = s,
            FilterUpdate::Medium(s) => self.medium = s,
            FilterUpdate::MimeType(s) => self.mime_type = s,
        }
    }
}

/// Names one of the five query fields, independently of an update's
/// payload; used to state which field an update touches.
pub enum FilterField {
    Matter,
    Language,
    Brand,
    Medium,
    MimeType,
}

/// The field that an update targets.
pub open spec fn target_field(u: FilterUpdateView) -> FilterField {
    match u {
        FilterUpdateView::Matter(_) => FilterField::Matter,
        FilterUpdateView::Language(_) => FilterField::Language,
        FilterUpdateView::Brand(_) => FilterField::Brand,
        FilterUpdateView::Medium(_) => FilterField::Medium,
        FilterUpdateView::MimeType(_) => FilterField::MimeType,
    }
}

/// The value that an update carries.
pub open spec fn update_value(u: FilterUpdateView) -> Option<Seq<char>> {
    match u {
        FilterUpdateView::Matter(s) => s,
        FilterUpdateView::Language(s) => s,
        FilterUpdateView::Brand(s) => s,
        FilterUpdateView::Medium(s) => s,
        FilterUpdateView::MimeType(s) => s,
    }
}

/// The contents of one named field of a query.
pub open spec fn field_value(q: QueryView, f: FilterField) -> Option<Seq<char>> {
    match f {
        FilterField::Matter => q.matter,
        FilterField::Language => q.language,
        FilterField::Brand => q.brand,
        FilterField::Medium => q.medium,
        FilterField::MimeType => q.mime_type,
    }
}

/// Law: applying an update changes the query in exactly the targeted
/// field, which afterwards holds exactly the update's value; every other
/// field is untouched.
pub proof fn lemma_apply_targets_one_field(q: QueryView, u: FilterUpdateView, f: FilterField)
    ensures
        f == target_field(u) ==> field_value(apply_filter(q, u), f) == update_value(u),
        f != target_field(u) ==> field_value(apply_filter(q, u), f) == field_value(q, f),
{
}

/// Law: applying the same update twice is the same as applying it once.
pub proof fn lemma_apply_idempotent(q: QueryView, u: FilterUpdateView)
    ensures
        apply_filter(apply_filter(q, u), u) == apply_filter(q, u),
{
}

/// Normalizes raw form input: an empty string stands for "no constraint"
/// and becomes `None`; any other string is kept as entered.
pub fn none_if_empty(s: String) -> (r: Option<String>)
    ensures
        s@.len() == 0 ==> r is None,
        s@.len() != 0 ==> r == Some(s),
{
    if s.as_str().is_empty() {
        None
    } else {
        Some(s)
    }
}

} // verus!
