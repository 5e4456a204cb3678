use vstd::prelude::*;

verus! {

/// One catalog entry as the search endpoint reports it. `id` is an opaque
/// unique key; the timestamps are opaque strings that this core neither
/// parses nor validates.
#[derive(Clone, Debug, PartialEq, Eq)]
pub struct OrbitTemplate {
    pub id: String,
    pub matter: String,
    pub brand: String,
    pub language: String,
    pub medium: String,
    pub subject: String,
    pub body: String,
    pub created_at: String,
    pub changed_at: String,
    pub mime_type: String,
}

/// Mathematical image of an [`OrbitTemplate`]: each field as a character
/// sequence.
pub struct TemplateView {
    pub id: Seq<char>,
    pub matter: Seq<char>,
    pub brand: Seq<char>,
    pub language: Seq<char>,
    pub medium: Seq<char>,
    pub subject: Seq<char>,
    pub body: Seq<char>,
    pub created_at: Seq<char>,
    pub changed_at: Seq<char>,
    pub mime_type: Seq<char>,
}

impl View for OrbitTemplate {
    type V = TemplateView;

    open spec fn view(&self) -> TemplateView {
        TemplateView {
            id: self.id@,
            matter: self.matter@,
            brand: self.brand@,
            language: self.language@,
            medium: self.medium@,
            subject: self.subject@,
            body: self.body@,
            created_at: self.created_at@,
            changed_at: self.changed_at@,
            mime_type: self.mime_type@,
        }
    }
}

impl DeepView for OrbitTemplate {
    type V = TemplateView;

    open spec fn deep_view(&self) -> TemplateView {
        self.view()
    }
}

/// The answer to one search: the records in the order the server sent
/// them, plus pagination numbers that are passed through unused.
#[derive(Clone, Debug, PartialEq, Eq)]
pub struct QueryResult {
    pub objects: Vec<OrbitTemplate>,
    pub page: i32,
    pub per_page: i32,
    pub num_results: i32,
}

/// Mathematical image of a [`QueryResult`].
pub struct PageView {
    pub objects: Seq<TemplateView>,
    pub page: int,
    pub per_page: int,
    pub num_results: int,
}

impl View for QueryResult {
    type V = PageView;

    open spec fn view(&self) -> PageView {
        PageView {
            objects: self.objects.deep_view(),
            page: self.page as int,
            per_page: self.per_page as int,
            num_results: self.num_results as int,
        }
    }
}

impl DeepView for QueryResult {
    type V = PageView;

    open spec fn deep_view(&self) -> PageView {
        self.view()
    }
}

} // verus!
