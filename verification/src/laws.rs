use vstd::prelude::*;

use crate::model::NoteView;
use crate::model::created_note;
use crate::model::defaulted_category;
use crate::model::edited_note;
use crate::store::has_id;
use crate::store::ids_bounded;
use crate::store::ids_increasing;
use crate::store::note_at;
use crate::store::title_taken;

verus! {

/// A created note's identifier is fresh: while every identifier already
/// issued lies below the next one to be issued — which every table operation
/// maintains, and the next identifier never decreases — no row carries the
/// identifier the next create returns. An identifier once issued is
/// therefore never issued again, even after its row is deleted.
pub proof fn lemma_created_id_fresh(notes: Seq<NoteView>, next_id: u128)
    requires
        ids_bounded(notes, next_id),
    ensures
        !has_id(notes, next_id),
{
}

/// Creating two notes with the same title cannot succeed twice: once a
/// create of `title` has succeeded — leaving the table with its note
/// appended — that title is taken, and the create operation refuses a taken
/// title with the "already exists" conflict.
pub proof fn lemma_second_create_conflicts(
    notes: Seq<NoteView>,
    id: u128,
    title: Seq<char>,
    content: Seq<char>,
    category: Option<Seq<char>>,
    now: i64,
)
    ensures
        title_taken(notes.push(created_note(id, title, content, category, now)), title),
{
    let grown = notes.push(created_note(id, title, content, category, now));
    assert(grown[notes.len() as int].title == title);
}

/// A fetch finds what a create wrote: once a note with a fresh identifier is
/// appended, that identifier is stored, and the note looked up under it is
/// exactly the appended one.
pub proof fn lemma_get_after_create(notes: Seq<NoteView>, n: NoteView)
    requires
        !has_id(notes, n.id),
    ensures
        has_id(notes.push(n), n.id),
        note_at(notes.push(n), n.id) == n,
{
    let grown = notes.push(n);
    assert(grown[notes.len() as int] == n);
    assert(has_id(grown, n.id));
    let c = choose|i: int| 0 <= i < grown.len() && grown[i].id == n.id;
    if c < notes.len() {
        assert(notes[c].id == n.id);
    }
}

/// A fetch finds what an edit wrote: after the row at position `k` is
/// overwritten with a note carrying the same identifier, the note looked up
/// under that identifier is exactly the overwriting one.
pub proof fn lemma_get_after_edit(notes: Seq<NoteView>, k: int, n: NoteView)
    requires
        ids_increasing(notes),
        0 <= k < notes.len(),
        n.id == notes[k].id,
    ensures
        has_id(notes.update(k, n), n.id),
        note_at(notes.update(k, n), n.id) == n,
{
    let written = notes.update(k, n);
    assert(written[k] == n);
    assert(has_id(written, n.id));
    let c = choose|i: int| 0 <= i < written.len() && written[i].id == n.id;
    if c < k {
        assert(notes[c].id < notes[k].id);
    } else if k < c {
        assert(notes[k].id < notes[c].id);
    }
}

/// An edit refreshes `updated_at`: whenever the clock has advanced past the
/// note's previous `updated_at`, the overwritten note's `updated_at` is
/// strictly greater than it was — and every supplied field lands in the note
/// exactly, a full overwrite with absent optional fields clearing rather
/// than merging. (When the clock has not advanced — two edits within the
/// same microsecond — the new stamp is not strictly greater, so that case is
/// left out here.)
pub proof fn lemma_edit_refreshes_updated_at(
    prev: NoteView,
    title: Seq<char>,
    content: Seq<char>,
    category: Option<Seq<char>>,
    published: Option<bool>,
    before: i64,
    now: i64,
)
    requires
        prev.updated_at == Some(before),
        now > before,
    ensures
        edited_note(prev, title, content, category, published, now).updated_at == Some(now),
        now > before,
        edited_note(prev, title, content, category, published, now).title == title,
        edited_note(prev, title, content, category, published, now).content == content,
        edited_note(prev, title, content, category, published, now).category == Some(
            defaulted_category(category),
        ),
        edited_note(prev, title, content, category, published, now).published == published,
        edited_note(prev, title, content, category, published, now).id == prev.id,
        edited_note(prev, title, content, category, published, now).created_at == prev.created_at,
{
}

/// A delete removes the row for good: once the row at position `k` — the one
/// carrying `id` — is removed, no row carries `id` any more, so a subsequent
/// fetch under `id` no longer returns it and a subsequent delete of `id`
/// reports not-found.
pub proof fn lemma_delete_removes(notes: Seq<NoteView>, k: int, id: u128)
    requires
        ids_increasing(notes),
        0 <= k < notes.len(),
        notes[k].id == id,
    ensures
        !has_id(notes.remove(k), id),
{
    let shrunk = notes.remove(k);
    assert forall|i: int| 0 <= i < shrunk.len() implies (#[trigger] shrunk[i]).id != id by {
        let i0 = if i < k {
            i
        } else {
            i + 1
        };
        assert(shrunk[i] == notes[i0]);
        if i0 < k {
            assert(notes[i0].id < notes[k].id);
        } else {
            assert(notes[k].id < notes[i0].id);
        }
    }
}

} // verus!
