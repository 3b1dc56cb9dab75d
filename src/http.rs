use vstd::prelude::*;

use crate::error::{service_error_of, DbError, ServiceError};
use crate::note::{views, NewNote, Note, NoteView, UpdateNote, UpdateNoteView};
use crate::repository::ids_unique;
use crate::routing::{endpoint_of, item_id, route, Endpoint, Method};
use crate::service::{
    service_create_outcome, service_delete_outcome, service_get_outcome, service_list_outcome,
    empty_title_rule, service_update_outcome, title_valid, NoteService,
};
use crate::stamps::{current_timestamp, fresh_note_id, is_utc_timestamp_text, is_uuid_v4_text};

verus! {

/// The JSON body of a create or update request: `{"title":..,"content":..}`.
#[derive(Debug)]
pub struct NoteRequest {
    pub title: String,
    pub content: String,
}

/// A request as the transport hands it over: verb, path, and the body when it
/// parsed (else the parser's complaint).
#[derive(Debug)]
pub struct Request {
    pub method: Method,
    pub path: String,
    pub body: Result<NoteRequest, String>,
}

/// The JSON body of a response.
#[derive(Debug)]
pub enum ResponseBody {
    /// No body.
    Empty,
    /// `{"note": Note}`
    OneNote(Note),
    /// `{"notes": [Note, ...]}`
    ManyNotes(Vec<Note>),
    /// `{"message": ..}`
    Message(String),
    /// `{"message": .., "error": ..}`
    Failure(String, String),
}

/// A response: status, body, and the cause to write to the log (server faults only).
#[derive(Debug)]
pub struct Response {
    pub status: u16,
    pub body: ResponseBody,
    pub cause: Option<String>,
}

pub open spec fn note_not_found_message() -> Seq<char> {
    "note not found"@
}

pub open spec fn route_not_found_message() -> Seq<char> {
    "not found"@
}

pub open spec fn body_not_valid_message() -> Seq<char> {
    "body not valid"@
}

pub open spec fn internal_error_message() -> Seq<char> {
    "internal error"@
}

/// `resp` carries `{"message": m}` with status `status` and nothing to log.
pub open spec fn message_reply(status: u16, m: Seq<char>, resp: Response) -> bool {
    &&& resp.status == status
    &&& resp.body matches ResponseBody::Message(x) && x@ == m
    &&& resp.cause is None
}

/// `resp` is `e` translated for the client: not-found is 404, a broken rule 400 with
/// the rule, anything else 500 with the cause kept for the log only.
pub open spec fn error_reply(e: ServiceError, resp: Response) -> bool {
    match e {
        ServiceError::NotFound => message_reply(404, note_not_found_message(), resp),
        ServiceError::Validation(d) => {
            &&& resp.status == 400
            &&& resp.body matches ResponseBody::Failure(m, x) && m@ == body_not_valid_message()
                && x@ == d@
            &&& resp.cause is None
        },
        ServiceError::Storage(c) => {
            &&& resp.status == 500
            &&& resp.body matches ResponseBody::Message(x) && x@ == internal_error_message()
            &&& resp.cause matches Some(x) && x@ == c@
        },
    }
}

/// `resp` answers the single-note result `r`, with `status` on success.
pub open spec fn note_reply(r: Result<Note, ServiceError>, status: u16, resp: Response) -> bool {
    match r {
        Ok(n) => {
            &&& resp.status == status
            &&& resp.body matches ResponseBody::OneNote(m) && m@ == n@
            &&& resp.cause is None
        },
        Err(e) => error_reply(e, resp),
    }
}

/// `resp` answers the deletion result `r`: 204 with no body on success.
pub open spec fn deleted_reply(r: Result<Note, ServiceError>, resp: Response) -> bool {
    match r {
        Ok(_) => resp.status == 204 && resp.body is Empty && resp.cause is None,
        Err(e) => error_reply(e, resp),
    }
}

/// `resp` answers the listing result `r`.
pub open spec fn list_reply(r: Result<Vec<Note>, ServiceError>, resp: Response) -> bool {
    match r {
        Ok(v) => {
            &&& resp.status == 200
            &&& resp.body matches ResponseBody::ManyNotes(w) && views(w@) == views(v@)
            &&& resp.cause is None
        },
        Err(e) => error_reply(e, resp),
    }
}

/// `resp` refuses a body that did not parse.
pub open spec fn bad_request_reply(detail: Seq<char>, resp: Response) -> bool {
    &&& resp.status == 400
    &&& resp.body matches ResponseBody::Failure(m, x) && m@ == body_not_valid_message() && x@
        == detail
    &&& resp.cause is None
}

fn message(status: u16, text: &str) -> (r: Response)
    ensures
        message_reply(status, text@, r),
{
    Response { status, body: ResponseBody::Message(text.to_owned()), cause: None }
}

/// The reply to a request that matches no route: 404 `{"message":"not found"}`.
pub fn not_found() -> (r: Response)
    ensures
        message_reply(404, route_not_found_message(), r),
{
    message(404, "not found")
}

/// The reply to a request whose body did not parse.
pub fn bad_request(detail: String) -> (r: Response)
    ensures
        bad_request_reply(detail@, r),
{
    Response {
        status: 400,
        body: ResponseBody::Failure("body not valid".to_owned(), detail),
        cause: None,
    }
}

/// Translates a service error into the reply the client sees.
pub fn error_response(e: ServiceError) -> (r: Response)
    ensures
        error_reply(e, r),
{
    match e {
        ServiceError::NotFound => message(404, "note not found"),
        ServiceError::Validation(d) => Response {
            status: 400,
            body: ResponseBody::Failure("body not valid".to_owned(), d),
            cause: None,
        },
        ServiceError::Storage(c) => Response {
            status: 500,
            body: ResponseBody::Message("internal error".to_owned()),
            cause: Some(c),
        },
    }
}

/// Answers a single-note result with `status` on success.
pub fn reply_with_note(r: Result<Note, ServiceError>, status: u16) -> (resp: Response)
    ensures
        note_reply(r, status, resp),
{
    match r {
        Ok(n) => Response { status, body: ResponseBody::OneNote(n), cause: None },
        Err(e) => error_response(e),
    }
}

/// `GET /notes`
pub fn list_notes<S: NoteService>(service: &S) -> (resp: Response)
    requires
        ids_unique(service.stored()),
    ensures
        exists|r: Result<Vec<Note>, ServiceError>|
            service_list_outcome(service.stored(), r, service.faultless()) && #[trigger] list_reply(r, resp),
{
    let r = service.all();
    let ghost g = r;
    let resp = match r {
        Ok(v) => Response { status: 200, body: ResponseBody::ManyNotes(v), cause: None },
        Err(e) => error_response(e),
    };
    assert(list_reply(g, resp));
    resp
}

/// `GET /notes/{id}`
pub fn get_note<S: NoteService>(service: &S, id: &str) -> (resp: Response)
    requires
        ids_unique(service.stored()),
    ensures
        exists|r: Result<Note, ServiceError>|
            service_get_outcome(service.stored(), id@, r, service.faultless())
                && #[trigger] note_reply(r, 200, resp),
{
    let r = service.get(id);
    let ghost g = r;
    let resp = reply_with_note(r, 200);
    assert(note_reply(g, 200, resp));
    resp
}

/// The note that a create request becomes, given the id and time assigned to it.
pub open spec fn requested_note(
    id: Seq<char>,
    title: Seq<char>,
    content: Seq<char>,
    created_at: Seq<char>,
) -> NoteView {
    NoteView { id, title, content, created_at }
}

/// `POST /notes`, with the id and creation time already chosen.
pub fn create_note<S: NoteService>(
    service: &mut S,
    body: &NoteRequest,
    id: String,
    created_at: String,
) -> (resp: Response)
    requires
        ids_unique(old(service).stored()),
    ensures
        ids_unique(final(service).stored()),
        final(service).faultless() == old(service).faultless(),
        exists|r: Result<Note, ServiceError>|
            service_create_outcome(
                old(service).stored(),
                requested_note(id@, body.title@, body.content@, created_at@),
                r,
                final(service).stored(),
                old(service).faultless(),
            ) && #[trigger] note_reply(r, 201, resp),
{
    let new_note = NewNote {
        id,
        title: body.title.clone(),
        content: body.content.clone(),
        created_at,
    };
    let r = service.create(&new_note);
    let ghost g = r;
    let resp = reply_with_note(r, 201);
    assert(note_reply(g, 201, resp));
    resp
}

/// `PUT /notes/{id}`
pub fn put_note<S: NoteService>(
    service: &mut S,
    id: &str,
    body: &NoteRequest,
) -> (resp: Response)
    requires
        ids_unique(old(service).stored()),
    ensures
        ids_unique(final(service).stored()),
        final(service).faultless() == old(service).faultless(),
        exists|r: Result<Note, ServiceError>|
            service_update_outcome(
                old(service).stored(),
                id@,
                UpdateNoteView { title: body.title@, content: body.content@ },
                r,
                final(service).stored(),
                old(service).faultless(),
            ) && #[trigger] note_reply(r, 200, resp),
{
    let update = UpdateNote { title: body.title.clone(), content: body.content.clone() };
    let r = service.update(id, &update);
    let ghost g = r;
    let resp = reply_with_note(r, 200);
    assert(note_reply(g, 200, resp));
    resp
}

/// `DELETE /notes/{id}`
pub fn delete_note<S: NoteService>(service: &mut S, id: &str) -> (resp: Response)
    requires
        ids_unique(old(service).stored()),
    ensures
        ids_unique(final(service).stored()),
        final(service).faultless() == old(service).faultless(),
        exists|r: Result<Note, ServiceError>|
            service_delete_outcome(
                old(service).stored(),
                id@,
                r,
                final(service).stored(),
                old(service).faultless(),
            ) && #[trigger] deleted_reply(r, resp),
{
    let r = service.delete(id);
    let ghost g = r;
    let resp = match r {
        Ok(_) => Response { status: 204, body: ResponseBody::Empty, cause: None },
        Err(e) => error_response(e),
    };
    assert(deleted_reply(g, resp));
    resp
}

/// The store `s2` and reply `resp` that handling a request may produce from the
/// store `s`, when a created note would get the id `id` and the time `created_at`
/// and the store is `faultless` or not.
pub open spec fn handled(
    s: Seq<NoteView>,
    method: Method,
    path: Seq<char>,
    body: Result<NoteRequest, String>,
    id: Seq<char>,
    created_at: Seq<char>,
    resp: Response,
    s2: Seq<NoteView>,
    faultless: bool,
) -> bool {
    match endpoint_of(method, path) {
        Endpoint::Unmatched => s2 == s && message_reply(404, route_not_found_message(), resp),
        Endpoint::ListNotes => s2 == s && exists|r: Result<Vec<Note>, ServiceError>|
            service_list_outcome(s, r, faultless) && #[trigger] list_reply(r, resp),
        Endpoint::GetNote => s2 == s && exists|r: Result<Note, ServiceError>|
            service_get_outcome(s, item_id(path)->0, r, faultless)
                && #[trigger] note_reply(r, 200, resp),
        Endpoint::CreateNote => match body {
            Err(d) => s2 == s && bad_request_reply(d@, resp),
            Ok(b) => exists|r: Result<Note, ServiceError>|
                service_create_outcome(
                    s,
                    requested_note(id, b.title@, b.content@, created_at),
                    r,
                    s2,
                    faultless,
                ) && #[trigger] note_reply(r, 201, resp),
        },
        Endpoint::UpdateNote => match body {
            Err(d) => s2 == s && bad_request_reply(d@, resp),
            Ok(b) => exists|r: Result<Note, ServiceError>|
                service_update_outcome(
                    s,
                    item_id(path)->0,
                    UpdateNoteView { title: b.title@, content: b.content@ },
                    r,
                    s2,
                    faultless,
                ) && #[trigger] note_reply(r, 200, resp),
        },
        Endpoint::DeleteNote => exists|r: Result<Note, ServiceError>|
            service_delete_outcome(s, item_id(path)->0, r, s2, faultless)
                && #[trigger] deleted_reply(r, resp),
    }
}

/// Routes `request` and runs the bound operation; a created note gets `id` and
/// `created_at`.
pub fn handle<S: NoteService>(
    service: &mut S,
    request: &Request,
    id: String,
    created_at: String,
) -> (resp: Response)
    requires
        ids_unique(old(service).stored()),
    ensures
        ids_unique(final(service).stored()),
        final(service).faultless() == old(service).faultless(),
        handled(
            old(service).stored(),
            request.method,
            request.path@,
            request.body,
            id@,
            created_at@,
            resp,
            final(service).stored(),
            old(service).faultless(),
        ),
{
    let target = route(request.method, request.path.as_str());
    match target.endpoint {
        Endpoint::Unmatched => not_found(),
        Endpoint::ListNotes => list_notes(service),
        Endpoint::GetNote => get_note(service, target.id.as_str()),
        Endpoint::CreateNote => match &request.body {
            Err(d) => bad_request(d.clone()),
            Ok(b) => create_note(service, b, id, created_at),
        },
        Endpoint::UpdateNote => match &request.body {
            Err(d) => bad_request(d.clone()),
            Ok(b) => put_note(service, target.id.as_str(), b),
        },
        Endpoint::DeleteNote => delete_note(service, target.id.as_str()),
    }
}

/// Handles `request`, drawing a fresh id and the current time for a note it creates.
pub fn handle_now<S: NoteService>(service: &mut S, request: &Request) -> (resp: Response)
    requires
        ids_unique(old(service).stored()),
    ensures
        ids_unique(final(service).stored()),
        final(service).faultless() == old(service).faultless(),
        exists|id: Seq<char>, created_at: Seq<char>|
            is_uuid_v4_text(id) && is_utc_timestamp_text(created_at) && #[trigger] handled(
                old(service).stored(),
                request.method,
                request.path@,
                request.body,
                id,
                created_at,
                resp,
                final(service).stored(),
                old(service).faultless(),
            ),
{
    let id = fresh_note_id();
    let created_at = current_timestamp();
    let ghost (i, c) = (id@, created_at@);
    let resp = handle(service, request, id, created_at);
    assert(is_uuid_v4_text(i) && is_utc_timestamp_text(c));
    resp
}

/// One repository operation that a request comes down to.
#[derive(Debug)]
pub enum Action {
    List,
    Get(String),
    Create(NewNote),
    Update(String, UpdateNote),
    Delete(String),
}

/// What to do with a request: answer it at once, or run one repository operation
/// and answer with its result.
#[derive(Debug)]
pub enum Plan {
    Reply(Response),
    Run(Action),
}

/// `resp` refuses an input whose title is empty.
pub open spec fn invalid_title_reply(resp: Response) -> bool {
    &&& resp.status == 400
    &&& resp.body matches ResponseBody::Failure(m, x) && m@ == body_not_valid_message() && x@
        == empty_title_rule()
    &&& resp.cause is None
}

/// The plan for a request; a note it creates gets `id` and `created_at`. Input
/// that breaks the rules is answered without reaching the repository.
pub open spec fn planned(
    method: Method,
    path: Seq<char>,
    body: Result<NoteRequest, String>,
    id: Seq<char>,
    created_at: Seq<char>,
    p: Plan,
) -> bool {
    match endpoint_of(method, path) {
        Endpoint::Unmatched => p matches Plan::Reply(resp) && message_reply(
            404,
            route_not_found_message(),
            resp,
        ),
        Endpoint::ListNotes => p matches Plan::Run(a) && a is List,
        Endpoint::GetNote => p matches Plan::Run(Action::Get(x)) && x@ == item_id(path)->0,
        Endpoint::DeleteNote => p matches Plan::Run(Action::Delete(x)) && x@ == item_id(path)->0,
        Endpoint::CreateNote => match body {
            Err(d) => p matches Plan::Reply(resp) && bad_request_reply(d@, resp),
            Ok(b) => if title_valid(b.title@) {
                p matches Plan::Run(Action::Create(n)) && n@ == requested_note(
                    id,
                    b.title@,
                    b.content@,
                    created_at,
                )
            } else {
                p matches Plan::Reply(resp) && invalid_title_reply(resp)
            },
        },
        Endpoint::UpdateNote => match body {
            Err(d) => p matches Plan::Reply(resp) && bad_request_reply(d@, resp),
            Ok(b) => if title_valid(b.title@) {
                p matches Plan::Run(Action::Update(x, u)) && x@ == item_id(path)->0 && u@
                    == UpdateNoteView { title: b.title@, content: b.content@ }
            } else {
                p matches Plan::Reply(resp) && invalid_title_reply(resp)
            },
        },
    }
}

/// Routes and validates `request`, deciding what the repository is to do.
pub fn plan(request: &Request, id: String, created_at: String) -> (p: Plan)
    ensures
        planned(request.method, request.path@, request.body, id@, created_at@, p),
{
    let target = route(request.method, request.path.as_str());
    match target.endpoint {
        Endpoint::Unmatched => Plan::Reply(not_found()),
        Endpoint::ListNotes => Plan::Run(Action::List),
        Endpoint::GetNote => Plan::Run(Action::Get(target.id)),
        Endpoint::DeleteNote => Plan::Run(Action::Delete(target.id)),
        Endpoint::CreateNote => match &request.body {
            Err(d) => Plan::Reply(bad_request(d.clone())),
            Ok(b) => {
                let new_note = NewNote {
                    id,
                    title: b.title.clone(),
                    content: b.content.clone(),
                    created_at,
                };
                match new_note.validate() {
                    Ok(()) => Plan::Run(Action::Create(new_note)),
                    Err(e) => {
                        proof {
                            assert(!title_valid(b.title@));
                        }
                        Plan::Reply(error_response(e))
                    },
                }
            },
        },
        Endpoint::UpdateNote => match &request.body {
            Err(d) => Plan::Reply(bad_request(d.clone())),
            Ok(b) => {
                let update = UpdateNote { title: b.title.clone(), content: b.content.clone() };
                match update.validate() {
                    Ok(()) => Plan::Run(Action::Update(target.id, update)),
                    Err(e) => Plan::Reply(error_response(e)),
                }
            },
        },
    }
}

/// Plans `request`, drawing a fresh id and the current time for a note it creates.
pub fn plan_now(request: &Request) -> (p: Plan)
    ensures
        exists|id: Seq<char>, created_at: Seq<char>|
            is_uuid_v4_text(id) && is_utc_timestamp_text(created_at) && #[trigger] planned(
                request.method,
                request.path@,
                request.body,
                id,
                created_at,
                p,
            ),
{
    let id = fresh_note_id();
    let created_at = current_timestamp();
    let ghost (i, c) = (id@, created_at@);
    let p = plan(request, id, created_at);
    assert(is_uuid_v4_text(i) && is_utc_timestamp_text(c));
    p
}

/// A repository result as the service reports it.
pub open spec fn as_service_result<T>(r: Result<T, DbError>) -> Result<T, ServiceError> {
    match r {
        Ok(v) => Ok(v),
        Err(e) => Err(service_error_of(e)),
    }
}

/// Answers the result of listing the store.
pub fn respond_list(r: Result<Vec<Note>, DbError>) -> (resp: Response)
    ensures
        list_reply(as_service_result(r), resp),
{
    match r {
        Ok(v) => Response { status: 200, body: ResponseBody::ManyNotes(v), cause: None },
        Err(e) => error_response(ServiceError::from_db(e)),
    }
}

/// Answers the result of a get (`status` 200), create (201) or update (200).
pub fn respond_note(r: Result<Note, DbError>, status: u16) -> (resp: Response)
    ensures
        note_reply(as_service_result(r), status, resp),
{
    match r {
        Ok(n) => Response { status, body: ResponseBody::OneNote(n), cause: None },
        Err(e) => error_response(ServiceError::from_db(e)),
    }
}

/// Answers the result of a delete.
pub fn respond_deleted(r: Result<Note, DbError>) -> (resp: Response)
    ensures
        deleted_reply(as_service_result(r), resp),
{
    match r {
        Ok(_) => Response { status: 204, body: ResponseBody::Empty, cause: None },
        Err(e) => error_response(ServiceError::from_db(e)),
    }
}

} // verus!
