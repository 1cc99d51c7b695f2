use vstd::prelude::*;

use crate::model::NoteModel;
use crate::model::NoteView;
use crate::model::created_note;
use crate::model::edited_note;

verus! {

/// Mathematical image of the whole notes table: the rows in their stable
/// identifier order, and the next identifier the store will assign.
pub ghost struct StoreView {
    pub notes: Seq<NoteView>,
    pub next_id: u128,
}

/// The outcome of a write the storage layer refuses.
#[derive(Debug, Clone, Copy, PartialEq, Eq)]
pub enum StoreError {
    /// The unique-title constraint would be violated.
    TitleTaken,
    /// No row carries the requested identifier.
    NotFound,
}

/// The rows' mathematical images, in table order.
pub open spec fn notes_view(ns: Seq<NoteModel>) -> Seq<NoteView> {
    ns.map_values(|n: NoteModel| n@)
}

proof fn lemma_notes_view_len(ns: Seq<NoteModel>)
    ensures
        notes_view(ns).len() == ns.len(),
{
}

proof fn lemma_notes_view_index(ns: Seq<NoteModel>, j: int)
    requires
        0 <= j < ns.len(),
    ensures
        notes_view(ns).len() == ns.len(),
        notes_view(ns)[j] == ns[j]@,
{
}

/// Some row carries this title.
pub open spec fn title_taken(notes: Seq<NoteView>, title: Seq<char>) -> bool {
    exists|i: int| 0 <= i < notes.len() && notes[i].title == title
}

/// Some row other than the one with identifier `id` carries this title.
pub open spec fn title_taken_by_other(notes: Seq<NoteView>, title: Seq<char>, id: u128) -> bool {
    exists|i: int| 0 <= i < notes.len() && notes[i].title == title && notes[i].id != id
}

/// Some row carries this identifier.
pub open spec fn has_id(notes: Seq<NoteView>, id: u128) -> bool {
    exists|i: int| 0 <= i < notes.len() && notes[i].id == id
}

/// The position of the row with this identifier (unique when identifiers
/// increase along the sequence).
pub open spec fn index_of_id(notes: Seq<NoteView>, id: u128) -> int {
    choose|i: int| 0 <= i < notes.len() && notes[i].id == id
}

/// The row with this identifier.
pub open spec fn note_at(notes: Seq<NoteView>, id: u128) -> NoteView {
    notes[index_of_id(notes, id)]
}

/// Identifiers strictly increase along the sequence, so each occurs once and
/// the order of rows is the order in which they were created.
pub open spec fn ids_increasing(notes: Seq<NoteView>) -> bool {
    forall|i: int, j: int|
        0 <= i < j < notes.len() ==> (#[trigger] notes[i]).id < (#[trigger] notes[j]).id
}

/// No two rows carry the same title.
pub open spec fn titles_distinct(notes: Seq<NoteView>) -> bool {
    forall|i: int, j: int|
        0 <= i < j < notes.len() ==> (#[trigger] notes[i]).title != (#[trigger] notes[j]).title
}

/// Every identifier already issued lies below the next one to be issued.
pub open spec fn ids_bounded(notes: Seq<NoteView>, next_id: u128) -> bool {
    forall|i: int| 0 <= i < notes.len() ==> (#[trigger] notes[i]).id < next_id
}

/// Invariant of the notes table.
pub open spec fn store_wf(s: StoreView) -> bool {
    &&& ids_increasing(s.notes)
    &&& titles_distinct(s.notes)
    &&& ids_bounded(s.notes, s.next_id)
}

/// The slice of rows a paginated list returns: rows `(page - 1) * limit`
/// through `(page - 1) * limit + limit - 1` of the table order, clipped to
/// the table's end.
pub open spec fn page_slice(notes: Seq<NoteView>, page: int, limit: int) -> Seq<NoteView> {
    let offset = (page - 1) * limit;
    let start = if offset > notes.len() {
        notes.len() as int
    } else {
        offset
    };
    let end = if offset + limit > notes.len() {
        notes.len() as int
    } else {
        offset + limit
    };
    notes.subrange(start, end)
}

/// A row's position under an increasing identifier order is the only one
/// carrying its identifier.
pub proof fn lemma_index_of_id_unique(notes: Seq<NoteView>, k: int, id: u128)
    requires
        ids_increasing(notes),
        0 <= k < notes.len(),
        notes[k].id == id,
    ensures
        has_id(notes, id),
        index_of_id(notes, id) == k,
        note_at(notes, id) == notes[k],
{
    assert(has_id(notes, id));
    let c = index_of_id(notes, id);
    assert(0 <= c < notes.len() && notes[c].id == id);
    if c < k {
        assert(notes[c].id < notes[k].id);
    } else if k < c {
        assert(notes[k].id < notes[c].id);
    }
}

/// The notes table. Rows are kept in increasing identifier order — the order
/// in which they were created — and titles are unique, as the storage
/// layer's constraints demand.
pub struct NoteStore {
    notes: Vec<NoteModel>,
    next_id: u128,
}

impl View for NoteStore {
    type V = StoreView;

    closed spec fn view(&self) -> StoreView {
        StoreView { notes: notes_view(self.notes@), next_id: self.next_id }
    }
}

impl NoteStore {
    /// The table's invariant, stated over its mathematical image.
    pub open spec fn wf(&self) -> bool {
        store_wf(self@)
    }

    /// An empty table; the first identifier to be issued is 1.
    pub fn new() -> (s: NoteStore)
        ensures
            s.wf(),
            s@.notes == Seq::<NoteView>::empty(),
            s@.next_id == 1,
    {
        let s = NoteStore { notes: Vec::new(), next_id: 1 };
        proof {
            assert(s@.notes =~= Seq::<NoteView>::empty());
        }
        s
    }

    /// How many rows the table holds.
    pub fn count(&self) -> (r: usize)
        ensures
            r == self@.notes.len(),
    {
        self.notes.len()
    }

    /// Whether the store can still issue an identifier; only when the whole
    /// 128-bit space has been issued is the answer no.
    pub fn can_issue_id(&self) -> (r: bool)
        ensures
            r == (self@.next_id < u128::MAX),
    {
        self.next_id < u128::MAX
    }

    fn find_index(&self, id: u128) -> (r: Option<usize>)
        ensures
            match r {
                Some(i) => 0 <= i < self@.notes.len() && self@.notes[i as int].id == id,
                None => !has_id(self@.notes, id),
            },
    {
        let mut i: usize = 0;
        while i < self.notes.len()
            invariant
                0 <= i <= self.notes.len(),
                self@.notes.len() == self.notes.len(),
                forall|j: int| 0 <= j < i ==> (#[trigger] self@.notes[j]).id != id,
            decreases self.notes.len() - i,
        {
            if self.notes[i].id == id {
                return Some(i);
            }
            i = i + 1;
        }
        None
    }

    fn title_exists(&self, title: &String) -> (r: bool)
        ensures
            r == title_taken(self@.notes, title@),
    {
        let mut i: usize = 0;
        while i < self.notes.len()
            invariant
                0 <= i <= self.notes.len(),
                self@.notes.len() == self.notes.len(),
                forall|j: int| 0 <= j < i ==> (#[trigger] self@.notes[j]).title != title@,
            decreases self.notes.len() - i,
        {
            if self.notes[i].title == *title {
                proof {
                    assert(self@.notes[i as int].title == title@);
                }
                return true;
            }
            i = i + 1;
        }
        false
    }

    fn title_exists_elsewhere(&self, title: &String, id: u128) -> (r: bool)
        ensures
            r == title_taken_by_other(self@.notes, title@, id),
    {
        let mut i: usize = 0;
        while i < self.notes.len()
            invariant
                0 <= i <= self.notes.len(),
                self@.notes.len() == self.notes.len(),
                forall|j: int|
                    0 <= j < i ==> !((#[trigger] self@.notes[j]).title == title@
                        && self@.notes[j].id != id),
            decreases self.notes.len() - i,
        {
            if self.notes[i].title == *title && self.notes[i].id != id {
                proof {
                    assert(self@.notes[i as int].title == title@ && self@.notes[i as int].id
                        != id);
                }
                return true;
            }
            i = i + 1;
        }
        false
    }

    /// Fetch one row by identifier. Returns the note stored under `id`, and
    /// nothing when no row carries `id`.
    pub fn get(&self, id: u128) -> (r: Option<NoteModel>)
        requires
            self.wf(),
        ensures
            has_id(self@.notes, id) ==> (r matches Some(n) && n@ == note_at(self@.notes, id)),
            !has_id(self@.notes, id) ==> r is None,
    {
        match self.find_index(id) {
            Some(i) => {
                proof {
                    lemma_index_of_id_unique(self@.notes, i as int, id);
                }
                Some(self.notes[i].duplicate())
            },
            None => None,
        }
    }

    /// The paginated list: rows `(page - 1) * limit` onward, at most `limit`
    /// of them, in the table order.
    pub fn list(&self, page: usize, limit: usize) -> (r: Vec<NoteModel>)
        requires
            page >= 1,
            (page - 1) * limit <= usize::MAX,
        ensures
            notes_view(r@) == page_slice(self@.notes, page as int, limit as int),
    {
        let len = self.notes.len();
        let offset = (page - 1) * limit;
        let start = if offset > len {
            len
        } else {
            offset
        };
        let take = if len - start < limit {
            len - start
        } else {
            limit
        };
        let end = start + take;
        let mut out: Vec<NoteModel> = Vec::new();
        let mut i = start;
        proof {
            assert(notes_view(out@) =~= self@.notes.subrange(start as int, start as int));
        }
        while i < end
            invariant
                start <= i <= end <= self.notes.len(),
                self@.notes.len() == self.notes@.len(),
                notes_view(out@) == self@.notes.subrange(start as int, i as int),
            decreases end - i,
        {
            let m = self.notes[i].duplicate();
            let ghost taken = out@;
            let ghost copied = m@;
            out.push(m);
            proof {
                assert(copied == self@.notes[i as int]);
                lemma_notes_view_len(taken);
                lemma_notes_view_len(out@);
                assert(taken.len() == i - start);
                assert(out@.len() == i + 1 - start);
                assert((i + 1) as int <= self@.notes.len());
                assert forall|j: int| 0 <= j < out@.len() implies notes_view(out@)[j]
                    == self@.notes.subrange(start as int, (i + 1) as int)[j] by {
                    lemma_notes_view_index(out@, j);
                    assert(self@.notes.subrange(start as int, (i + 1) as int)[j] == self@.notes[
                        start + j]);
                    if j < taken.len() {
                        assert(out@[j] == taken[j]);
                        lemma_notes_view_index(taken, j);
                        assert(self@.notes.subrange(start as int, i as int)[j] == self@.notes[
                            start + j]);
                        assert(out@[j]@ == self@.notes[start + j]);
                    } else {
                        assert(j == i - start);
                        assert(out@[j]@ == copied);
                        assert(out@[j]@ == self@.notes[start + j]);
                    }
                }
                assert(notes_view(out@) =~= self@.notes.subrange(start as int, (i + 1) as int));
            }
            i = i + 1;
        }
        proof {
            assert(notes_view(out@) =~= page_slice(self@.notes, page as int, limit as int));
        }
        out
    }

    /// Insert a new row. The store assigns the identifier — the next never
    /// yet issued value — and stamps both timestamps with `now`; a missing
    /// category is stored as the empty string and `published` starts unset.
    /// Refused exactly when some row already carries the title.
    pub fn create(
        &mut self,
        title: String,
        content: String,
        category: Option<String>,
        now: i64,
    ) -> (r: Result<NoteModel, StoreError>)
        requires
            old(self).wf(),
            old(self)@.next_id < u128::MAX,
        ensures
            final(self).wf(),
            final(self)@.next_id >= old(self)@.next_id,
            title_taken(old(self)@.notes, title@) ==> (r matches Err(e) && e
                == StoreError::TitleTaken) && final(self)@ == old(self)@,
            !title_taken(old(self)@.notes, title@) ==> (r matches Ok(note) && note@
                == created_note(
                old(self)@.next_id,
                title@,
                content@,
                category.deep_view(),
                now,
            ) && final(self)@.notes == old(self)@.notes.push(note@) && final(self)@.next_id
                == old(self)@.next_id + 1),
    {
        if self.title_exists(&title) {
            return Err(StoreError::TitleTaken);
        }
        let id = self.next_id;
        let cat = match category {
            Some(c) => c,
            None => String::new(),
        };
        let m = NoteModel {
            id,
            title,
            content,
            category: Some(cat),
            published: None,
            created_at: Some(now),
            updated_at: Some(now),
        };
        let out = m.duplicate();
        let ghost prev = self@;
        self.notes.push(m);
        self.next_id = id + 1;
        proof {
            assert(self@.notes =~= prev.notes.push(out@));
            assert forall|i: int, j: int| 0 <= i < j < self@.notes.len() implies (
            #[trigger] self@.notes[i]).id < (#[trigger] self@.notes[j]).id by {
                if j < prev.notes.len() as int {
                    assert(prev.notes[i].id < prev.notes[j].id);
                } else {
                    assert(self@.notes[i] == prev.notes[i]);
                    assert(prev.notes[i].id < prev.next_id);
                }
            }
            assert forall|i: int, j: int| 0 <= i < j < self@.notes.len() implies (
            #[trigger] self@.notes[i]).title != (#[trigger] self@.notes[j]).title by {
                if j < prev.notes.len() as int {
                    assert(prev.notes[i].title != prev.notes[j].title);
                } else {
                    assert(self@.notes[i] == prev.notes[i]);
                    assert(!title_taken(prev.notes, self@.notes[j].title));
                }
            }
            assert forall|i: int| 0 <= i < self@.notes.len() implies (
            #[trigger] self@.notes[i]).id < self@.next_id by {
                if i < prev.notes.len() as int {
                    assert(prev.notes[i].id < prev.next_id);
                }
            }
        }
        Ok(out)
    }

    /// Overwrite the row stored under `id` in full — title, content,
    /// category (empty string when absent), published — refreshing
    /// `updated_at` with `now` and keeping identifier and `created_at`.
    /// Refused when no row carries `id`, and when some other row already
    /// carries the title.
    pub fn edit(
        &mut self,
        id: u128,
        title: String,
        content: String,
        category: Option<String>,
        published: Option<bool>,
        now: i64,
    ) -> (r: Result<NoteModel, StoreError>)
        requires
            old(self).wf(),
        ensures
            final(self).wf(),
            final(self)@.next_id == old(self)@.next_id,
            !has_id(old(self)@.notes, id) ==> (r matches Err(e) && e == StoreError::NotFound)
                && final(self)@ == old(self)@,
            has_id(old(self)@.notes, id) && title_taken_by_other(old(self)@.notes, title@, id)
                ==> (r matches Err(e) && e == StoreError::TitleTaken) && final(self)@ == old(
                self,
            )@,
            has_id(old(self)@.notes, id) && !title_taken_by_other(old(self)@.notes, title@, id)
                ==> (r matches Ok(note) && note@ == edited_note(
                note_at(old(self)@.notes, id),
                title@,
                content@,
                category.deep_view(),
                published,
                now,
            ) && final(self)@.notes == old(self)@.notes.update(
                index_of_id(old(self)@.notes, id),
                note@,
            )),
    {
        let k = match self.find_index(id) {
            Some(k) => k,
            None => {
                return Err(StoreError::NotFound);
            },
        };
        if self.title_exists_elsewhere(&title, id) {
            return Err(StoreError::TitleTaken);
        }
        proof {
            lemma_index_of_id_unique(self@.notes, k as int, id);
        }
        let cat = match category {
            Some(c) => c,
            None => String::new(),
        };
        let created_at = self.notes[k].created_at;
        let m = NoteModel {
            id,
            title,
            content,
            category: Some(cat),
            published,
            created_at,
            updated_at: Some(now),
        };
        let out = m.duplicate();
        let ghost prev = self@;
        self.notes[k] = m;
        proof {
            assert(self@.notes =~= prev.notes.update(k as int, out@));
            assert forall|i: int, j: int| 0 <= i < j < self@.notes.len() implies (
            #[trigger] self@.notes[i]).id < (#[trigger] self@.notes[j]).id by {
                assert(prev.notes[i].id < prev.notes[j].id);
                assert(self@.notes[i].id == prev.notes[i].id);
                assert(self@.notes[j].id == prev.notes[j].id);
            }
            assert forall|i: int, j: int| 0 <= i < j < self@.notes.len() implies (
            #[trigger] self@.notes[i]).title != (#[trigger] self@.notes[j]).title by {
                if i != k as int && j != k as int {
                    assert(prev.notes[i].title != prev.notes[j].title);
                } else if i == k as int {
                    assert(!(prev.notes[j].title == title@ && prev.notes[j].id != id));
                    assert(prev.notes[k as int].id < prev.notes[j].id);
                } else {
                    assert(!(prev.notes[i].title == title@ && prev.notes[i].id != id));
                    assert(prev.notes[i].id < prev.notes[k as int].id);
                }
            }
            assert forall|i: int| 0 <= i < self@.notes.len() implies (
            #[trigger] self@.notes[i]).id < self@.next_id by {
                assert(self@.notes[i].id == prev.notes[i].id);
                assert(prev.notes[i].id < prev.next_id);
            }
        }
        Ok(out)
    }

    /// Remove the row stored under `id`, physically and irreversibly, and
    /// report how many rows went: one when the row existed, none otherwise.
    pub fn delete(&mut self, id: u128) -> (r: u64)
        requires
            old(self).wf(),
        ensures
            final(self).wf(),
            final(self)@.next_id == old(self)@.next_id,
            has_id(old(self)@.notes, id) ==> r == 1 && final(self)@.notes == old(
                self,
            )@.notes.remove(index_of_id(old(self)@.notes, id)),
            !has_id(old(self)@.notes, id) ==> r == 0 && final(self)@ == old(self)@,
    {
        let k = match self.find_index(id) {
            Some(k) => k,
            None => {
                return 0;
            },
        };
        proof {
            lemma_index_of_id_unique(self@.notes, k as int, id);
        }
        let ghost prev = self@;
        self.notes.remove(k);
        proof {
            assert(self@.notes =~= prev.notes.remove(k as int));
            assert forall|i: int, j: int| 0 <= i < j < self@.notes.len() implies (
            #[trigger] self@.notes[i]).id < (#[trigger] self@.notes[j]).id by {
                let i0 = if i < k as int { i } else { i + 1 };
                let j0 = if j < k as int { j } else { j + 1 };
                assert(self@.notes[i] == prev.notes[i0]);
                assert(self@.notes[j] == prev.notes[j0]);
                assert(prev.notes[i0].id < prev.notes[j0].id);
            }
            assert forall|i: int, j: int| 0 <= i < j < self@.notes.len() implies (
            #[trigger] self@.notes[i]).title != (#[trigger] self@.notes[j]).title by {
                let i0 = if i < k as int { i } else { i + 1 };
                let j0 = if j < k as int { j } else { j + 1 };
                assert(self@.notes[i] == prev.notes[i0]);
                assert(self@.notes[j] == prev.notes[j0]);
                assert(prev.notes[i0].title != prev.notes[j0].title);
            }
            assert forall|i: int| 0 <= i < self@.notes.len() implies (
            #[trigger] self@.notes[i]).id < self@.next_id by {
                let i0 = if i < k as int { i } else { i + 1 };
                assert(self@.notes[i] == prev.notes[i0]);
                assert(prev.notes[i0].id < prev.next_id);
            }
        }
        1
    }
}

} // verus!
