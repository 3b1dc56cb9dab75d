use notes::error::ServiceError;
use notes::note::{NewNote, Note, UpdateNote};
use notes::repository::{InMemoryNoteRepository, NoteRepository};
use notes::service::{NoteService, NoteServiceImpl};

fn note(id: &str, title: &str, content: &str, created_at: &str) -> NewNote {
    NewNote {
        id: String::from(id),
        title: String::from(title),
        content: String::from(content),
        created_at: String::from(created_at),
    }
}

fn repository_with(notes: &[NewNote]) -> InMemoryNoteRepository {
    let mut repository = InMemoryNoteRepository::new();
    for n in notes {
        repository.create(n).unwrap();
    }
    repository
}

#[test]
fn test_all() {
    let repository = repository_with(&[note(
        "14322988-32fe-447c-ac38-06fb6c699b4a",
        "Note 1",
        "This is note #1.",
        "2021-01-01T00:00:00Z",
    )]);
    let service = NoteServiceImpl::new(repository);
    let notes: Vec<Note> = service.all().unwrap();
    assert_eq!(notes.len(), 1);
    assert_eq!(notes[0].id, "14322988-32fe-447c-ac38-06fb6c699b4a")
}

#[test]
fn test_get() {
    let expected_id = "some-id";
    let repository = repository_with(&[note(
        "some-id",
        "Note 1",
        "This is note #2.",
        "2021-01-01T00:00:00Z",
    )]);
    let service = NoteServiceImpl::new(repository);
    let note = service.get(expected_id).unwrap();
    assert_eq!(note.id, expected_id);
}

#[test]
fn test_create() {
    let mut service = NoteServiceImpl::new(InMemoryNoteRepository::new());
    let new_note = note("new-id", "Note 1", "This is note #2.", "2021-01-01T00:00:00Z");
    let note = service.create(&new_note).unwrap();
    assert_eq!(note.id, "new-id");
    assert_eq!(note.title, "Note 1");
    assert_eq!(note.content, "This is note #2.");
    assert_eq!(note.created_at, "2021-01-01T00:00:00Z");
}

#[test]
fn test_create_with_invalid_note() {
    let mut service = NoteServiceImpl::new(InMemoryNoteRepository::new());
    let invalid_note = NewNote {
        id: String::from("new-id"),
        title: String::new(),
        content: String::from("This is a new note."),
        created_at: String::from("2021-01-01T00:00:00Z"),
    };
    let result = service.create(&invalid_note);
    assert!(result.is_err(), "Expected an error due to validation");
    assert!(matches!(result, Err(ServiceError::Validation(_))));
    assert_eq!(service.all().unwrap().len(), 0);
}

#[test]
fn test_update() {
    let note_id = "update-id";
    let repository = repository_with(&[note(
        "update-id",
        "Old title",
        "Old content",
        "2021-01-01T00:00:00Z",
    )]);
    let mut service = NoteServiceImpl::new(repository);
    let update_note = UpdateNote {
        title: String::from("Note 1"),
        content: String::from("This is note #1."),
    };
    let note = service.update(note_id, &update_note).unwrap();
    assert_eq!(note.id, note_id);
    assert_eq!(note.title, "Note 1");
    assert_eq!(note.content, "This is note #1.");
    assert_eq!(note.created_at, "2021-01-01T00:00:00Z");
}

#[test]
fn test_update_with_invalid_note() {
    let mut service = NoteServiceImpl::new(InMemoryNoteRepository::new());
    let invalid_note = UpdateNote { title: String::new(), content: String::from("") };
    let result = service.update("id", &invalid_note);
    assert!(result.is_err(), "Expected an error due to validation");
    assert!(matches!(result, Err(ServiceError::Validation(_))));
}

#[test]
fn test_delete() {
    let delete_id = "delete-id";
    let repository = repository_with(&[note(
        "delete-id",
        "Note 1",
        "This is note #1.",
        "2021-01-01T00:00:00Z",
    )]);
    let mut service = NoteServiceImpl::new(repository);
    let note = service.delete(delete_id).unwrap();
    assert_eq!(note.id, delete_id);
    assert!(matches!(service.get(delete_id), Err(ServiceError::NotFound)));
}

#[test]
fn validation_reports_the_rule() {
    let mut service = NoteServiceImpl::new(InMemoryNoteRepository::new());
    match service.create(&note("x", "", "x", "2021-01-01T00:00:00Z")) {
        Err(ServiceError::Validation(rule)) => assert_eq!(rule, "title must not be empty"),
        _ => panic!("expected a validation error"),
    }
}

#[test]
fn whitespace_title_is_accepted() {
    let mut service = NoteServiceImpl::new(InMemoryNoteRepository::new());
    assert!(service.create(&note("x", "   ", "", "2021-01-01T00:00:00Z")).is_ok());
}

#[test]
fn duplicate_id_is_a_storage_error() {
    let mut service = NoteServiceImpl::new(InMemoryNoteRepository::new());
    service.create(&note("x", "A", "a", "2021-01-01T00:00:00Z")).unwrap();
    let again = service.create(&note("x", "B", "b", "2021-01-02T00:00:00Z"));
    assert!(matches!(again, Err(ServiceError::Storage(_))));
    let kept = service.get("x").unwrap();
    assert_eq!(kept.title, "A");
    assert_eq!(service.all().unwrap().len(), 1);
}

#[test]
fn get_missing_is_not_found() {
    let service = NoteServiceImpl::new(InMemoryNoteRepository::new());
    assert!(matches!(service.get("does-not-exist"), Err(ServiceError::NotFound)));
}

#[test]
fn delete_missing_is_not_found() {
    let mut service = NoteServiceImpl::new(InMemoryNoteRepository::new());
    assert!(matches!(service.delete("does-not-exist"), Err(ServiceError::NotFound)));
}

#[test]
fn update_missing_creates_nothing() {
    let mut service = NoteServiceImpl::new(InMemoryNoteRepository::new());
    let u = UpdateNote { title: String::from("T"), content: String::from("C") };
    assert!(matches!(service.update("does-not-exist", &u), Err(ServiceError::NotFound)));
    assert_eq!(service.all().unwrap().len(), 0);
}

#[test]
fn create_then_get_returns_equal_note() {
    let mut service = NoteServiceImpl::new(InMemoryNoteRepository::new());
    let created = service.create(&note("a", "Note 1", "This is note #1.", "2021-01-01T00:00:00Z")).unwrap();
    let fetched = service.get("a").unwrap();
    assert_eq!(fetched.id, created.id);
    assert_eq!(fetched.title, created.title);
    assert_eq!(fetched.content, created.content);
    assert_eq!(fetched.created_at, created.created_at);
}

#[test]
fn update_keeps_id_and_creation_time() {
    let mut service = NoteServiceImpl::new(InMemoryNoteRepository::new());
    service.create(&note("a", "Note 1", "one", "2021-01-01T00:00:00Z")).unwrap();
    service.create(&note("b", "Note 2", "two", "2021-01-02T00:00:00Z")).unwrap();
    let u = UpdateNote { title: String::from("Updated"), content: String::from("new") };
    service.update("b", &u).unwrap();
    let fetched = service.get("b").unwrap();
    assert_eq!(fetched.id, "b");
    assert_eq!(fetched.created_at, "2021-01-02T00:00:00Z");
    assert_eq!(fetched.title, "Updated");
    assert_eq!(fetched.content, "new");
    let other = service.get("a").unwrap();
    assert_eq!(other.title, "Note 1");
}

#[test]
fn list_holds_every_stored_note_once() {
    let mut service = NoteServiceImpl::new(InMemoryNoteRepository::new());
    service.create(&note("a", "Note 1", "one", "2021-01-01T00:00:00Z")).unwrap();
    service.create(&note("b", "Note 2", "two", "2021-01-02T00:00:00Z")).unwrap();
    service.create(&note("c", "Note 3", "three", "2021-01-03T00:00:00Z")).unwrap();
    service.delete("b").unwrap();
    let mut ids: Vec<String> = service.all().unwrap().into_iter().map(|n| n.id).collect();
    ids.sort();
    assert_eq!(ids, vec![String::from("a"), String::from("c")]);
}
