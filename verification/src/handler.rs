use vstd::prelude::*;

use crate::clock::now_micros;
use crate::model::created_note;
use crate::model::edited_note;
use crate::response::NoteResponse;
use crate::response::ResponseBody;
use crate::response::create_conflict;
use crate::response::delete_not_found;
use crate::response::delete_success;
use crate::response::get_fetch_error;
use crate::response::list_success;
use crate::response::note_success;
use crate::response::update_error;
use crate::schema::CreateNoteSchema;
use crate::schema::EditNoteSchema;
use crate::schema::FilterOptions;
use crate::schema::requested_page;
use crate::schema::requested_limit;
use crate::store::NoteStore;
use crate::store::has_id;
use crate::store::index_of_id;
use crate::store::note_at;
use crate::store::notes_view;
use crate::store::page_slice;
use crate::store::title_taken;
use crate::store::title_taken_by_other;

verus! {

/// The list endpoint: answers 200 with the requested page of the table — the
/// rows `(page - 1) * limit` onward, at most `limit` of them, in the stable
/// identifier order — and with `results` counting exactly the notes carried.
pub fn note_list_handler(store: &NoteStore, opts: FilterOptions) -> (r: NoteResponse)
    requires
        requested_page(opts) >= 1,
        (requested_page(opts) - 1) * requested_limit(opts) <= usize::MAX,
    ensures
        r.code == 200,
        r.body matches ResponseBody::NoteList { results, notes } && notes_view(notes@)
            == page_slice(store@.notes, requested_page(opts), requested_limit(opts)) && results
            == notes@.len(),
{
    let page = match opts.page {
        Some(p) => p,
        None => 1,
    };
    let limit = match opts.limit {
        Some(l) => l,
        None => 10,
    };
    let notes = store.list(page, limit);
    list_success(notes)
}

/// The fetch-by-identifier endpoint: 200 with the note stored under `id`;
/// when no row carries `id` the failure is a plain 500, indistinguishable
/// from any other storage failure.
pub fn get_note_handler(store: &NoteStore, id: u128) -> (r: NoteResponse)
    requires
        store.wf(),
    ensures
        has_id(store@.notes, id) ==> r.code == 200 && (r.body matches ResponseBody::SingleNote {
            note,
        } && note@ == note_at(store@.notes, id)),
        !has_id(store@.notes, id) ==> r.code == 500 && (r.body
            matches ResponseBody::ServerError { message } && message@
            == "Failed to fetch note."@),
{
    match store.get(id) {
        Some(n) => note_success(n),
        None => get_fetch_error(),
    }
}

/// The create endpoint at a given instant `now`: inserts the note — title
/// and content as supplied, category defaulting to the empty string,
/// `published` unset, a never yet issued identifier, both timestamps `now` —
/// and answers 200 with it; when the title is already taken, answers 400 and
/// leaves the table as it was.
pub fn create_note_at(store: &mut NoteStore, body: CreateNoteSchema, now: i64) -> (r:
    NoteResponse)
    requires
        old(store).wf(),
        old(store)@.next_id < u128::MAX,
    ensures
        final(store).wf(),
        final(store)@.next_id >= old(store)@.next_id,
        title_taken(old(store)@.notes, body.title@) ==> r.code == 400 && (r.body
            matches ResponseBody::Fail { message } && message@
            == "Note with that title already exists"@) && final(store)@ == old(store)@,
        !title_taken(old(store)@.notes, body.title@) ==> r.code == 200 && (r.body
            matches ResponseBody::SingleNote { note } && note@ == created_note(
            old(store)@.next_id,
            body.title@,
            body.content@,
            body.category.deep_view(),
            now,
        ) && final(store)@.notes == old(store)@.notes.push(note@)) && final(store)@.next_id
            == old(store)@.next_id + 1,
{
    match store.create(body.title, body.content, body.category, now) {
        Ok(note) => note_success(note),
        Err(_) => create_conflict(),
    }
}

/// The create endpoint: as `create_note_at`, at the instant the wall clock
/// reads when the insert happens.
pub fn create_note_handler(store: &mut NoteStore, body: CreateNoteSchema) -> (r: NoteResponse)
    requires
        old(store).wf(),
        old(store)@.next_id < u128::MAX,
    ensures
        final(store).wf(),
        final(store)@.next_id >= old(store)@.next_id,
        title_taken(old(store)@.notes, body.title@) ==> r.code == 400 && (r.body
            matches ResponseBody::Fail { message } && message@
            == "Note with that title already exists"@) && final(store)@ == old(store)@,
        !title_taken(old(store)@.notes, body.title@) ==> r.code == 200 && (r.body
            matches ResponseBody::SingleNote { note } && (exists|t: i64|
                note@ == created_note(
                    old(store)@.next_id,
                    body.title@,
                    body.content@,
                    body.category.deep_view(),
                    t,
                )) && final(store)@.notes == old(store)@.notes.push(note@)) && final(store)@.next_id
            == old(store)@.next_id + 1,
{
    let now = now_micros();
    create_note_at(store, body, now)
}

/// The edit endpoint at a given instant `now`: overwrites the row stored
/// under `id` in full with the supplied fields (category defaulting to the
/// empty string), refreshes `updated_at` to `now`, and answers 200 with the
/// note as written back. When no row carries `id`, or the new title belongs
/// to another row, the answer is a plain 500 — the two causes are not told
/// apart — and the table is left as it was.
pub fn edit_note_at(store: &mut NoteStore, id: u128, body: EditNoteSchema, now: i64) -> (r:
    NoteResponse)
    requires
        old(store).wf(),
    ensures
        final(store).wf(),
        final(store)@.next_id == old(store)@.next_id,
        has_id(old(store)@.notes, id) && !title_taken_by_other(
            old(store)@.notes,
            body.title@,
            id,
        ) ==> r.code == 200 && (r.body matches ResponseBody::SingleNote { note } && note@
            == edited_note(
            note_at(old(store)@.notes, id),
            body.title@,
            body.content@,
            body.category.deep_view(),
            body.published,
            now,
        ) && final(store)@.notes == old(store)@.notes.update(
            index_of_id(old(store)@.notes, id),
            note@,
        )),
        !(has_id(old(store)@.notes, id) && !title_taken_by_other(
            old(store)@.notes,
            body.title@,
            id,
        )) ==> r.code == 500 && (r.body matches ResponseBody::ServerError { message } && message@
            == "Failed to update note."@) && final(store)@ == old(store)@,
{
    match store.edit(id, body.title, body.content, body.category, body.published, now) {
        Ok(note) => note_success(note),
        Err(_) => update_error(),
    }
}

/// The edit endpoint: as `edit_note_at`, at the instant the wall clock reads
/// when the update happens.
pub fn edit_note_handler(store: &mut NoteStore, id: u128, body: EditNoteSchema) -> (r:
    NoteResponse)
    requires
        old(store).wf(),
    ensures
        final(store).wf(),
        final(store)@.next_id == old(store)@.next_id,
        has_id(old(store)@.notes, id) && !title_taken_by_other(
            old(store)@.notes,
            body.title@,
            id,
        ) ==> r.code == 200 && (r.body matches ResponseBody::SingleNote { note } && (exists|
            t: i64,
        |
            note@ == edited_note(
                note_at(old(store)@.notes, id),
                body.title@,
                body.content@,
                body.category.deep_view(),
                body.published,
                t,
            )) && final(store)@.notes == old(store)@.notes.update(
            index_of_id(old(store)@.notes, id),
            note@,
        )),
        !(has_id(old(store)@.notes, id) && !title_taken_by_other(
            old(store)@.notes,
            body.title@,
            id,
        )) ==> r.code == 500 && (r.body matches ResponseBody::ServerError { message } && message@
            == "Failed to update note."@) && final(store)@ == old(store)@,
{
    let now = now_micros();
    edit_note_at(store, id, body, now)
}

/// The delete endpoint: removes the row stored under `id` — physically and
/// irreversibly — and answers an empty 204. When no row carries `id` (or,
/// equally, when the statement fails, the two being collapsed into the same
/// zero-rows outcome) the answer is a 404 and the table is left as it was.
pub fn delete_note_handler(store: &mut NoteStore, id: u128) -> (r: NoteResponse)
    requires
        old(store).wf(),
    ensures
        final(store).wf(),
        final(store)@.next_id == old(store)@.next_id,
        has_id(old(store)@.notes, id) ==> r.code == 204 && r.body is Empty && final(store)@.notes
            == old(store)@.notes.remove(index_of_id(old(store)@.notes, id)),
        !has_id(old(store)@.notes, id) ==> r.code == 404 && (r.body matches ResponseBody::Fail {
            message,
        } && message@ == "Note with ID: not found"@) && final(store)@ == old(store)@,
{
    let rows_deleted = store.delete(id);
    if rows_deleted == 0 {
        return delete_not_found();
    }
    delete_success()
}

} // verus!
