use notes_api::handler::create_note_at;
use notes_api::handler::create_note_handler;
use notes_api::handler::delete_note_handler;
use notes_api::handler::edit_note_at;
use notes_api::handler::edit_note_handler;
use notes_api::handler::get_note_handler;
use notes_api::handler::note_list_handler;
use notes_api::response::status_label;
use notes_api::response::NoteResponse;
use notes_api::response::ResponseBody;
use notes_api::schema::CreateNoteSchema;
use notes_api::schema::EditNoteSchema;
use notes_api::schema::FilterOptions;
use notes_api::store::NoteStore;

fn create_body(title: &str, content: &str, category: Option<&str>) -> CreateNoteSchema {
    CreateNoteSchema {
        title: title.to_string(),
        content: content.to_string(),
        category: category.map(|c| c.to_string()),
    }
}

fn edit_body(
    title: &str,
    content: &str,
    category: Option<&str>,
    published: Option<bool>,
) -> EditNoteSchema {
    EditNoteSchema {
        title: title.to_string(),
        content: content.to_string(),
        category: category.map(|c| c.to_string()),
        published,
    }
}

fn single_note_id(r: &NoteResponse) -> u128 {
    match &r.body {
        ResponseBody::SingleNote { note } => note.id,
        _ => panic!("expected a single-note response"),
    }
}

#[test]
fn create_echoes_input() {
    let mut store = NoteStore::new();
    let r = create_note_at(&mut store, create_body("Shopping", "milk and eggs", Some("home")), 1_000);
    assert_eq!(r.code, 200);
    assert_eq!(status_label(&r.body), "success");
    match r.body {
        ResponseBody::SingleNote { note } => {
            assert_eq!(note.title, "Shopping");
            assert_eq!(note.content, "milk and eggs");
            assert_eq!(note.category.as_deref(), Some("home"));
            assert_eq!(note.published, None);
            assert_eq!(note.created_at, Some(1_000));
            assert_eq!(note.updated_at, Some(1_000));
            assert_eq!(note.id, 1);
        }
        _ => panic!("expected a single-note response"),
    }
}

#[test]
fn create_defaults_category_to_empty() {
    let mut store = NoteStore::new();
    let r = create_note_at(&mut store, create_body("Todo", "write tests", None), 5);
    assert_eq!(r.code, 200);
    match r.body {
        ResponseBody::SingleNote { note } => {
            assert_eq!(note.category.as_deref(), Some(""));
            assert_eq!(note.published, None);
        }
        _ => panic!("expected a single-note response"),
    }
}

#[test]
fn duplicate_title_is_a_conflict() {
    let mut store = NoteStore::new();
    let first = create_note_at(&mut store, create_body("Unique", "one", None), 1);
    assert_eq!(first.code, 200);
    let second = create_note_at(&mut store, create_body("Unique", "two", None), 2);
    assert_eq!(second.code, 400);
    assert_eq!(status_label(&second.body), "fail");
    match second.body {
        ResponseBody::Fail { message } => {
            assert_eq!(message, "Note with that title already exists");
        }
        _ => panic!("expected a fail response"),
    }
    assert_eq!(store.count(), 1);
}

#[test]
fn get_returns_the_note_last_written() {
    let mut store = NoteStore::new();
    let created = create_note_at(&mut store, create_body("Draft", "v1", None), 10);
    let id = single_note_id(&created);

    let fetched = get_note_handler(&store, id);
    assert_eq!(fetched.code, 200);
    match fetched.body {
        ResponseBody::SingleNote { note } => assert_eq!(note.content, "v1"),
        _ => panic!("expected a single-note response"),
    }

    let edited = edit_note_at(&mut store, id, edit_body("Draft", "v2", Some("work"), Some(true)), 20);
    assert_eq!(edited.code, 200);

    let fetched_again = get_note_handler(&store, id);
    assert_eq!(fetched_again.code, 200);
    match fetched_again.body {
        ResponseBody::SingleNote { note } => {
            assert_eq!(note.content, "v2");
            assert_eq!(note.category.as_deref(), Some("work"));
            assert_eq!(note.published, Some(true));
        }
        _ => panic!("expected a single-note response"),
    }
}

#[test]
fn edit_overwrites_in_full_and_refreshes_updated_at() {
    let mut store = NoteStore::new();
    let created = create_note_at(&mut store, create_body("Plan", "old", Some("work")), 100);
    let id = single_note_id(&created);

    let r = edit_note_at(&mut store, id, edit_body("Plan B", "new", None, None), 250);
    assert_eq!(r.code, 200);
    match r.body {
        ResponseBody::SingleNote { note } => {
            assert_eq!(note.id, id);
            assert_eq!(note.title, "Plan B");
            assert_eq!(note.content, "new");
            // absent optional fields clear; they do not keep the old values
            assert_eq!(note.category.as_deref(), Some(""));
            assert_eq!(note.published, None);
            assert_eq!(note.created_at, Some(100));
            assert_eq!(note.updated_at, Some(250));
            assert!(note.updated_at.unwrap() > 100);
        }
        _ => panic!("expected a single-note response"),
    }
}

#[test]
fn edit_of_missing_id_is_a_plain_server_error() {
    let mut store = NoteStore::new();
    let r = edit_note_at(&mut store, 42, edit_body("X", "y", None, None), 1);
    assert_eq!(r.code, 500);
    assert_eq!(status_label(&r.body), "error");
    match r.body {
        ResponseBody::ServerError { message } => assert_eq!(message, "Failed to update note."),
        _ => panic!("expected a server-error response"),
    }
}

#[test]
fn edit_to_a_title_of_another_row_is_a_plain_server_error() {
    let mut store = NoteStore::new();
    create_note_at(&mut store, create_body("First", "a", None), 1);
    let created = create_note_at(&mut store, create_body("Second", "b", None), 2);
    let id = single_note_id(&created);
    let r = edit_note_at(&mut store, id, edit_body("First", "b", None, None), 3);
    assert_eq!(r.code, 500);
    match r.body {
        ResponseBody::ServerError { message } => assert_eq!(message, "Failed to update note."),
        _ => panic!("expected a server-error response"),
    }
}

#[test]
fn delete_removes_and_second_lookups_fail() {
    let mut store = NoteStore::new();
    let created = create_note_at(&mut store, create_body("Gone", "soon", None), 1);
    let id = single_note_id(&created);

    let deleted = delete_note_handler(&mut store, id);
    assert_eq!(deleted.code, 204);
    assert!(matches!(deleted.body, ResponseBody::Empty));

    let fetched = get_note_handler(&store, id);
    assert_eq!(fetched.code, 500);
    match fetched.body {
        ResponseBody::ServerError { message } => assert_eq!(message, "Failed to fetch note."),
        _ => panic!("expected a server-error response"),
    }

    let deleted_again = delete_note_handler(&mut store, id);
    assert_eq!(deleted_again.code, 404);
    assert_eq!(status_label(&deleted_again.body), "fail");
    match deleted_again.body {
        ResponseBody::Fail { message } => assert_eq!(message, "Note with ID: not found"),
        _ => panic!("expected a fail response"),
    }
}

#[test]
fn identifiers_are_never_reissued() {
    let mut store = NoteStore::new();
    let first = create_note_at(&mut store, create_body("One", "a", None), 1);
    let first_id = single_note_id(&first);
    delete_note_handler(&mut store, first_id);
    let second = create_note_at(&mut store, create_body("Two", "b", None), 2);
    assert_ne!(single_note_id(&second), first_id);
}

#[test]
fn list_returns_the_requested_page() {
    let mut store = NoteStore::new();
    for i in 1..=12u32 {
        let r = create_note_at(&mut store, create_body(&format!("note {i}"), "c", None), i as i64);
        assert_eq!(r.code, 200);
    }
    let r = note_list_handler(&store, FilterOptions { page: Some(2), limit: Some(5) });
    assert_eq!(r.code, 200);
    assert_eq!(status_label(&r.body), "success");
    match r.body {
        ResponseBody::NoteList { results, notes } => {
            assert_eq!(results, 5);
            assert_eq!(results, notes.len());
            let titles: Vec<&str> = notes.iter().map(|n| n.title.as_str()).collect();
            assert_eq!(titles, vec!["note 6", "note 7", "note 8", "note 9", "note 10"]);
        }
        _ => panic!("expected a note-list response"),
    }
}

#[test]
fn list_defaults_to_first_page_of_ten() {
    let mut store = NoteStore::new();
    for i in 1..=12u32 {
        create_note_at(&mut store, create_body(&format!("note {i}"), "c", None), i as i64);
    }
    let r = note_list_handler(&store, FilterOptions { page: None, limit: None });
    match r.body {
        ResponseBody::NoteList { results, notes } => {
            assert_eq!(results, 10);
            assert_eq!(notes.first().unwrap().title, "note 1");
            assert_eq!(notes.last().unwrap().title, "note 10");
        }
        _ => panic!("expected a note-list response"),
    }
}

#[test]
fn list_past_the_end_is_empty() {
    let mut store = NoteStore::new();
    create_note_at(&mut store, create_body("only", "one", None), 1);
    let r = note_list_handler(&store, FilterOptions { page: Some(3), limit: Some(10) });
    match r.body {
        ResponseBody::NoteList { results, notes } => {
            assert_eq!(results, 0);
            assert!(notes.is_empty());
        }
        _ => panic!("expected a note-list response"),
    }
}

#[test]
fn wall_clock_handlers_stamp_the_current_instant() {
    let mut store = NoteStore::new();
    let created = create_note_handler(&mut store, create_body("Clocked", "tick", None));
    assert_eq!(created.code, 200);
    let (id, created_at) = match &created.body {
        ResponseBody::SingleNote { note } => (note.id, note.created_at.unwrap()),
        _ => panic!("expected a single-note response"),
    };
    assert!(created_at > 0);

    let edited = edit_note_handler(&mut store, id, edit_body("Clocked", "tock", None, None));
    assert_eq!(edited.code, 200);
    match edited.body {
        ResponseBody::SingleNote { note } => {
            assert!(note.updated_at.unwrap() >= created_at);
            assert_eq!(note.created_at, Some(created_at));
        }
        _ => panic!("expected a single-note response"),
    }
}

#[test]
fn full_round_trip_scenario() {
    let mut store = NoteStore::new();

    let created = create_note_at(&mut store, create_body("A", "x", None), 7);
    assert_eq!(created.code, 200);
    let id = match &created.body {
        ResponseBody::SingleNote { note } => {
            assert_eq!(note.category.as_deref(), Some(""));
            assert_eq!(note.published, None);
            note.id
        }
        _ => panic!("expected a single-note response"),
    };

    let conflicting = create_note_at(&mut store, create_body("A", "y", None), 8);
    assert_eq!(conflicting.code, 400);
    assert_eq!(status_label(&conflicting.body), "fail");
    match conflicting.body {
        ResponseBody::Fail { message } => {
            assert_eq!(message, "Note with that title already exists");
        }
        _ => panic!("expected a fail response"),
    }

    let deleted = delete_note_handler(&mut store, id);
    assert_eq!(deleted.code, 204);
    assert!(matches!(deleted.body, ResponseBody::Empty));

    // the collapsed error behaviour: a fetch after the delete is a 500, not a 404
    let fetched = get_note_handler(&store, id);
    assert_eq!(fetched.code, 500);
    assert_eq!(status_label(&fetched.body), "error");
}
