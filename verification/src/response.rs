use vstd::prelude::*;

use crate::model::NoteModel;

verus! {

/// The payload of a response, one of the three envelope shapes (success,
/// client failure, server error) plus the bodiless shape of a successful
/// delete. A success carries either the listed notes with their count, or a
/// single note.
pub enum ResponseBody {
    NoteList { results: usize, notes: Vec<NoteModel> },
    SingleNote { note: NoteModel },
    Fail { message: String },
    ServerError { message: String },
    Empty,
}

/// What a handler answers: an HTTP status code and the envelope to
/// serialize.
pub struct NoteResponse {
    pub code: u16,
    pub body: ResponseBody,
}

/// The envelope's `status` field for each shape; a bodiless response has
/// none.
pub open spec fn spec_status_label(body: ResponseBody) -> Seq<char> {
    match body {
        ResponseBody::NoteList { .. } => "success"@,
        ResponseBody::SingleNote { .. } => "success"@,
        ResponseBody::Fail { .. } => "fail"@,
        ResponseBody::ServerError { .. } => "error"@,
        ResponseBody::Empty => ""@,
    }
}

/// The envelope's `status` field for this payload.
pub fn status_label(body: &ResponseBody) -> (r: &'static str)
    ensures
        r@ == spec_status_label(*body),
{
    match body {
        ResponseBody::NoteList { .. } => "success",
        ResponseBody::SingleNote { .. } => "success",
        ResponseBody::Fail { .. } => "fail",
        ResponseBody::ServerError { .. } => "error",
        ResponseBody::Empty => "",
    }
}

///200 with the listed notes and their count.
pub fn list_success(notes: Vec<NoteModel>) -> (r: NoteResponse)
    ensures
        r.code == 200,
        r.body matches ResponseBody::NoteList { results, notes: ns } && results == notes@.len()
            && ns == notes,
{
    let results = notes.len();
    NoteResponse { code: 200, body: ResponseBody::NoteList { results, notes } }
}

/// 500 when the rows cannot be fetched for a list.
pub fn list_fetch_error() -> (r: NoteResponse)
    ensures
        r.code == 500,
        r.body matches ResponseBody::ServerError { message } && message@
            == "Failed to fetch notes."@,
{
    NoteResponse {
        code: 500,
        body: ResponseBody::ServerError { message: String::from_str("Failed to fetch notes.") },
    }
}

/// 200 with one note.
pub fn note_success(note: NoteModel) -> (r: NoteResponse)
    ensures
        r.code == 200,
        r.body matches ResponseBody::SingleNote { note: n } && n == note,
{
    NoteResponse { code: 200, body: ResponseBody::SingleNote { note } }
}

/// 500 when a single note cannot be fetched, the missing row included: the
/// lookup does not tell "not found" apart from any other storage failure.
pub fn get_fetch_error() -> (r: NoteResponse)
    ensures
        r.code == 500,
        r.body matches ResponseBody::ServerError { message } && message@
            == "Failed to fetch note."@,
{
    NoteResponse {
        code: 500,
        body: ResponseBody::ServerError { message: String::from_str("Failed to fetch note.") },
    }
}

/// 400 when a create collides with an existing title.
pub fn create_conflict() -> (r: NoteResponse)
    ensures
        r.code == 400,
        r.body matches ResponseBody::Fail { message } && message@
            == "Note with that title already exists"@,
{
    NoteResponse {
        code: 400,
        body: ResponseBody::Fail {
            message: String::from_str("Note with that title already exists"),
        },
    }
}

/// 500 for any other create failure, carrying the storage layer's own words.
pub fn create_error(message: String) -> (r: NoteResponse)
    ensures
        r.code == 500,
        r.body matches ResponseBody::ServerError { message: m } && m == message,
{
    NoteResponse { code: 500, body: ResponseBody::ServerError { message } }
}

/// 500 when an edit cannot be applied, the missing row included: the update
/// does not tell "not found" apart from any other storage failure.
pub fn update_error() -> (r: NoteResponse)
    ensures
        r.code == 500,
        r.body matches ResponseBody::ServerError { message } && message@
            == "Failed to update note."@,
{
    NoteResponse {
        code: 500,
        body: ResponseBody::ServerError { message: String::from_str("Failed to update note.") },
    }
}

/// 404 when a delete finds no row to remove.
pub fn delete_not_found() -> (r: NoteResponse)
    ensures
        r.code == 404,
        r.body matches ResponseBody::Fail { message } && message@ == "Note with ID: not found"@,
{
    NoteResponse {
        code: 404,
        body: ResponseBody::Fail { message: String::from_str("Note with ID: not found") },
    }
}

/// 204 with no body after a successful delete.
pub fn delete_success() -> (r: NoteResponse)
    ensures
        r.code == 204,
        r.body is Empty,
{
    NoteResponse { code: 204, body: ResponseBody::Empty }
}

} // verus!
