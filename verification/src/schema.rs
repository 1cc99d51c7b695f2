use vstd::prelude::*;

verus! {

/// Body of a create request: title and content are required, category is
/// optional and defaults to the empty string.
pub struct CreateNoteSchema {
    pub title: String,
    pub content: String,
    pub category: Option<String>,
}

/// Body of an edit request: a full overwrite, so every field the note ends
/// up with is here; absent optional fields clear rather than merge.
pub struct EditNoteSchema {
    pub title: String,
    pub content: String,
    pub category: Option<String>,
    pub published: Option<bool>,
}

/// Pagination query parameters; both are optional.
#[derive(Clone, Copy)]
pub struct FilterOptions {
    pub page: Option<usize>,
    pub limit: Option<usize>,
}

/// The 1-based page a list request asks for; 1 when absent.
pub open spec fn requested_page(opts: FilterOptions) -> int {
    match opts.page {
        Some(p) => p as int,
        None => 1,
    }
}

/// The page size a list request asks for; 10 when absent.
pub open spec fn requested_limit(opts: FilterOptions) -> int {
    match opts.limit {
        Some(l) => l as int,
        None => 10,
    }
}

} // verus!
