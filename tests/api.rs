use notes::http::{
    create_note, delete_note, handle, handle_now, list_notes, not_found, put_note, NoteRequest,
    Request, Response, ResponseBody,
};
use notes::note::NewNote;
use notes::repository::{InMemoryNoteRepository, NoteRepository};
use notes::routing::{route, Endpoint, Method};
use notes::error::ServiceError;
use notes::http::error_response;
use notes::service::NoteServiceImpl;

fn stored(id: &str, title: &str, content: &str) -> NewNote {
    NewNote {
        id: String::from(id),
        title: String::from(title),
        content: String::from(content),
        created_at: String::from("2021-01-01T00:00:00Z"),
    }
}

fn service_with(notes: &[NewNote]) -> NoteServiceImpl<InMemoryNoteRepository> {
    let mut repository = InMemoryNoteRepository::new();
    for n in notes {
        repository.create(n).unwrap();
    }
    NoteServiceImpl::new(repository)
}

fn request(method: Method, path: &str, title: &str, content: &str) -> Request {
    Request {
        method,
        path: String::from(path),
        body: Ok(NoteRequest { title: String::from(title), content: String::from(content) }),
    }
}

fn bodiless(method: Method, path: &str) -> Request {
    Request { method, path: String::from(path), body: Err(String::from("EOF while parsing")) }
}

fn is_success(resp: &Response) -> bool {
    (200..300).contains(&resp.status)
}

fn message_of(resp: &Response) -> String {
    match &resp.body {
        ResponseBody::Message(m) => m.clone(),
        ResponseBody::Failure(m, _) => m.clone(),
        _ => panic!("no message in the body"),
    }
}

fn count(service: &mut NoteServiceImpl<InMemoryNoteRepository>) -> usize {
    match handle(service, &bodiless(Method::Get, "/notes"), String::new(), String::new()).body {
        ResponseBody::ManyNotes(v) => v.len(),
        _ => panic!("expected a list"),
    }
}

#[test]
fn test_list_notes() {
    let service = service_with(&[stored(
        "14322988-32fe-447c-ac38-06fb6c699b4a",
        "Note 1",
        "This is note #1.",
    )]);
    let resp = list_notes(&service);
    assert!(is_success(&resp));
    match resp.body {
        ResponseBody::ManyNotes(v) => {
            assert_eq!(v.len(), 1);
            assert_eq!(v[0].id, "14322988-32fe-447c-ac38-06fb6c699b4a");
        }
        _ => panic!("expected a list"),
    }
}

#[test]
fn test_create_note() {
    let mut service = service_with(&[]);
    let note = NoteRequest { title: "Note 1".to_string(), content: "This is note #1.".to_string() };
    let resp = create_note(
        &mut service,
        &note,
        String::from("new-id"),
        String::from("2021-01-01T00:00:00Z"),
    );
    assert!(is_success(&resp));
    assert_eq!(resp.status, 201);
    match resp.body {
        ResponseBody::OneNote(returned_note) => {
            assert_eq!(returned_note.id, "new-id");
            assert_eq!(returned_note.title, "Note 1");
            assert_eq!(returned_note.content, "This is note #1.");
            assert_eq!(returned_note.created_at, "2021-01-01T00:00:00Z");
        }
        _ => panic!("expected a note"),
    }
}

#[test]
fn test_update_note() {
    let note_id = "some-id";
    let mut service = service_with(&[stored("some-id", "Note 1", "This is note #1.")]);
    let update_request = NoteRequest {
        title: "Updated Title".to_string(),
        content: "Updated content".to_string(),
    };
    let resp = put_note(&mut service, note_id, &update_request);
    assert!(is_success(&resp));
    match resp.body {
        ResponseBody::OneNote(returned_note) => {
            assert_eq!(returned_note.title, update_request.title);
            assert_eq!(returned_note.content, update_request.content);
        }
        _ => panic!("expected a note"),
    }
}

#[test]
fn test_delete_note() {
    let note_id = "some-id";
    let mut service = service_with(&[stored("some-id", "Note 1", "This is note #1.")]);
    let resp = delete_note(&mut service, note_id);
    assert!(is_success(&resp));
    assert_eq!(resp.status, 204);
    assert!(matches!(resp.body, ResponseBody::Empty));
}

#[test]
fn test_delete_student_not_found() {
    let mut service = service_with(&[]);
    let resp = handle(&mut service, &bodiless(Method::Delete, "/students/some_id"), String::new(), String::new());
    assert_eq!(resp.status, 404);
}

#[test]
fn create_then_get_over_http() {
    let mut service = service_with(&[]);
    let resp = handle_now(&mut service, &request(Method::Post, "/notes", "Note 1", "This is note #1."));
    assert_eq!(resp.status, 201);
    let created = match resp.body {
        ResponseBody::OneNote(n) => n,
        _ => panic!("expected a note"),
    };
    assert_eq!(created.title, "Note 1");
    assert_eq!(created.content, "This is note #1.");
    let id: Vec<char> = created.id.chars().collect();
    assert_eq!(id.len(), 36);
    for (i, c) in id.iter().enumerate() {
        if i == 8 || i == 13 || i == 18 || i == 23 {
            assert_eq!(*c, '-');
        } else {
            assert!(c.is_ascii_digit() || ('a'..='f').contains(c));
        }
    }
    assert_eq!(id[14], '4');
    assert!(['8', '9', 'a', 'b'].contains(&id[19]));
    let stamp: Vec<char> = created.created_at.chars().collect();
    assert_eq!(stamp.len(), 20);
    assert_eq!(stamp[4], '-');
    assert_eq!(stamp[10], 'T');
    assert_eq!(stamp[19], 'Z');
    let path = format!("/notes/{}", created.id);
    let got = handle(&mut service, &bodiless(Method::Get, &path), String::new(), String::new());
    assert_eq!(got.status, 200);
    match got.body {
        ResponseBody::OneNote(n) => {
            assert_eq!(n.id, created.id);
            assert_eq!(n.title, created.title);
            assert_eq!(n.content, created.content);
            assert_eq!(n.created_at, created.created_at);
        }
        _ => panic!("expected a note"),
    }
}

#[test]
fn fresh_ids_differ() {
    let mut service = service_with(&[]);
    let a = handle_now(&mut service, &request(Method::Post, "/notes", "A", "a"));
    let b = handle_now(&mut service, &request(Method::Post, "/notes", "B", "b"));
    match (a.body, b.body) {
        (ResponseBody::OneNote(x), ResponseBody::OneNote(y)) => assert_ne!(x.id, y.id),
        _ => panic!("expected two notes"),
    }
}

#[test]
fn list_after_two_creates() {
    let mut service = service_with(&[]);
    handle(&mut service, &request(Method::Post, "/notes", "First", "1"), String::from("id-1"), String::from("2021-01-01T00:00:00Z"));
    handle(&mut service, &request(Method::Post, "/notes", "Second", "2"), String::from("id-2"), String::from("2021-01-01T00:00:01Z"));
    let resp = handle(&mut service, &bodiless(Method::Get, "/notes"), String::new(), String::new());
    assert_eq!(resp.status, 200);
    match resp.body {
        ResponseBody::ManyNotes(v) => {
            assert_eq!(v.len(), 2);
            assert!(v.iter().any(|n| n.title == "First"));
            assert!(v.iter().any(|n| n.title == "Second"));
        }
        _ => panic!("expected a list"),
    }
}

#[test]
fn update_existing_then_get() {
    let mut service = service_with(&[stored("X", "Note 1", "This is note #1.")]);
    let resp = handle(&mut service, &request(Method::Put, "/notes/X", "Updated", "..."), String::new(), String::new());
    assert_eq!(resp.status, 200);
    match resp.body {
        ResponseBody::OneNote(n) => assert_eq!(n.title, "Updated"),
        _ => panic!("expected a note"),
    }
    let got = handle(&mut service, &bodiless(Method::Get, "/notes/X"), String::new(), String::new());
    assert_eq!(got.status, 200);
    match got.body {
        ResponseBody::OneNote(n) => {
            assert_eq!(n.title, "Updated");
            assert_eq!(n.content, "...");
            assert_eq!(n.id, "X");
            assert_eq!(n.created_at, "2021-01-01T00:00:00Z");
        }
        _ => panic!("expected a note"),
    }
}

#[test]
fn update_missing_over_http() {
    let mut service = service_with(&[]);
    let resp = handle(&mut service, &request(Method::Put, "/notes/does-not-exist", "T", "C"), String::new(), String::new());
    assert_eq!(resp.status, 404);
    assert_eq!(message_of(&resp), "note not found");
    assert_eq!(count(&mut service), 0);
}

#[test]
fn delete_missing_over_http() {
    let mut service = service_with(&[]);
    let resp = handle(&mut service, &bodiless(Method::Delete, "/notes/does-not-exist"), String::new(), String::new());
    assert_eq!(resp.status, 404);
    assert_eq!(message_of(&resp), "note not found");
}

#[test]
fn delete_then_get_is_not_found() {
    let mut service = service_with(&[stored("X", "Note 1", "one")]);
    let resp = handle(&mut service, &bodiless(Method::Delete, "/notes/X"), String::new(), String::new());
    assert_eq!(resp.status, 204);
    let got = handle(&mut service, &bodiless(Method::Get, "/notes/X"), String::new(), String::new());
    assert_eq!(got.status, 404);
    assert_eq!(message_of(&got), "note not found");
}

#[test]
fn validation_failure_over_http() {
    let mut service = service_with(&[]);
    let resp = handle(&mut service, &request(Method::Post, "/notes", "", "x"), String::from("id"), String::from("2021-01-01T00:00:00Z"));
    assert_eq!(resp.status, 400);
    match &resp.body {
        ResponseBody::Failure(m, e) => {
            assert_eq!(m, "body not valid");
            assert!(!e.is_empty());
        }
        _ => panic!("expected an error body"),
    }
    assert_eq!(count(&mut service), 0);
}

#[test]
fn unknown_route() {
    let mut service = service_with(&[]);
    let resp = handle(&mut service, &bodiless(Method::Get, "/unknown"), String::new(), String::new());
    assert_eq!(resp.status, 404);
    assert_eq!(message_of(&resp), "not found");
    assert!(matches!(resp.body, ResponseBody::Message(_)));
    let direct = not_found();
    assert_eq!(direct.status, 404);
    assert_eq!(message_of(&direct), "not found");
}

#[test]
fn malformed_body_is_bad_request() {
    let mut service = service_with(&[stored("X", "Note 1", "one")]);
    let resp = handle(&mut service, &bodiless(Method::Post, "/notes"), String::from("id"), String::from("t"));
    assert_eq!(resp.status, 400);
    let resp = handle(&mut service, &bodiless(Method::Put, "/notes/X"), String::new(), String::new());
    assert_eq!(resp.status, 400);
    assert_eq!(count(&mut service), 1);
}

#[test]
fn storage_error_hides_cause() {
    let resp = error_response(ServiceError::Storage(String::from("disk I/O error")));
    assert_eq!(resp.status, 500);
    assert_eq!(message_of(&resp), "internal error");
    assert_eq!(resp.cause, Some(String::from("disk I/O error")));
    let resp = error_response(ServiceError::NotFound);
    assert_eq!(resp.status, 404);
    assert_eq!(resp.cause, None);
    let resp = error_response(ServiceError::Validation(String::from("title must not be empty")));
    assert_eq!(resp.status, 400);
    match resp.body {
        ResponseBody::Failure(m, e) => {
            assert_eq!(m, "body not valid");
            assert_eq!(e, "title must not be empty");
        }
        _ => panic!("expected an error body"),
    }
}

#[test]
fn routes_bind_verbs_and_paths() {
    assert!(route(Method::Get, "/notes").endpoint == Endpoint::ListNotes);
    assert!(route(Method::Post, "/notes").endpoint == Endpoint::CreateNote);
    assert!(route(Method::Delete, "/notes").endpoint == Endpoint::Unmatched);
    let r = route(Method::Get, "/notes/abc");
    assert!(r.endpoint == Endpoint::GetNote);
    assert_eq!(r.id, "abc");
    let r = route(Method::Put, "/notes/é-1");
    assert!(r.endpoint == Endpoint::UpdateNote);
    assert_eq!(r.id, "é-1");
    assert!(route(Method::Delete, "/notes/abc").endpoint == Endpoint::DeleteNote);
    assert!(route(Method::Post, "/notes/abc").endpoint == Endpoint::Unmatched);
    assert!(route(Method::Get, "/notes/").endpoint == Endpoint::Unmatched);
    assert!(route(Method::Get, "/notes/a/b").endpoint == Endpoint::Unmatched);
    assert!(route(Method::Get, "/notesx").endpoint == Endpoint::Unmatched);
    assert!(route(Method::Get, "/note").endpoint == Endpoint::Unmatched);
    assert!(route(Method::Get, "").endpoint == Endpoint::Unmatched);
    assert!(route(Method::Other, "/notes").endpoint == Endpoint::Unmatched);
}
