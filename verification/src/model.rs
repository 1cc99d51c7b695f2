use vstd::prelude::*;

verus! {

/// Mathematical image of a stored note: every text field is a sequence of
/// characters and both timestamps are microseconds since the Unix epoch.
pub ghost struct NoteView {
    pub id: u128,
    pub title: Seq<char>,
    pub content: Seq<char>,
    pub category: Option<Seq<char>>,
    pub published: Option<bool>,
    pub created_at: Option<i64>,
    pub updated_at: Option<i64>,
}

/// A note record as the storage layer hands it out. The identifier is the
/// 128-bit value of the key under which the row is stored; timestamps are
/// microseconds since the Unix epoch.
pub struct NoteModel {
    pub id: u128,
    pub title: String,
    pub content: String,
    pub category: Option<String>,
    pub published: Option<bool>,
    pub created_at: Option<i64>,
    pub updated_at: Option<i64>,
}

impl View for NoteModel {
    type V = NoteView;

    open spec fn view(&self) -> NoteView {
        NoteView {
            id: self.id,
            title: self.title@,
            content: self.content@,
            category: self.category.deep_view(),
            published: self.published,
            created_at: self.created_at,
            updated_at: self.updated_at,
        }
    }
}

impl NoteModel {
    /// Field-by-field copy; the copy denotes the same note.
    pub fn duplicate(&self) -> (r: NoteModel)
        ensures
            r@ == self@,
    {
        NoteModel {
            id: self.id,
            title: self.title.clone(),
            content: self.content.clone(),
            category: match &self.category {
                Some(c) => Some(c.clone()),
                None => None,
            },
            published: self.published,
            created_at: self.created_at,
            updated_at: self.updated_at,
        }
    }
}

/// The category text a write stores: the supplied one, or empty when absent.
pub open spec fn defaulted_category(category: Option<Seq<char>>) -> Seq<char> {
    match category {
        Some(c) => c,
        None => Seq::empty(),
    }
}

/// The note a create with these inputs stores: the storage layer assigns the
/// identifier and stamps both timestamps; `published` starts unset.
pub open spec fn created_note(
    id: u128,
    title: Seq<char>,
    content: Seq<char>,
    category: Option<Seq<char>>,
    now: i64,
) -> NoteView {
    NoteView {
        id,
        title,
        content,
        category: Some(defaulted_category(category)),
        published: None,
        created_at: Some(now),
        updated_at: Some(now),
    }
}

/// The note an edit leaves behind: a full overwrite of title, content,
/// category and published (absent optional fields clear, they do not merge),
/// with `updated_at` refreshed; identifier and `created_at` are immutable.
pub open spec fn edited_note(
    prev: NoteView,
    title: Seq<char>,
    content: Seq<char>,
    category: Option<Seq<char>>,
    published: Option<bool>,
    now: i64,
) -> NoteView {
    NoteView {
        id: prev.id,
        title,
        content,
        category: Some(defaulted_category(category)),
        published,
        created_at: prev.created_at,
        updated_at: Some(now),
    }
}

} // verus!
