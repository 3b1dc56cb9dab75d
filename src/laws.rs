use vstd::prelude::*;

use crate::error::ServiceError;
use crate::http::{
    handled, invalid_title_reply, message_reply, planned, route_not_found_message, NoteRequest, Plan,
    Response,
};
use crate::note::{updated, Note, NoteView, UpdateNoteView};
use crate::repository::{has_id, ids_unique, index_of, lemma_push_keeps_ids_unique};
use crate::routing::{endpoint_of, Method};
use crate::service::{
    empty_title_rule, service_create_outcome, service_delete_outcome, service_get_outcome,
    service_update_outcome, title_valid,
};

verus! {

/// In a store with distinct ids, the note at `i` is the one found by its id.
pub proof fn lemma_index_of_unique(s: Seq<NoteView>, id: Seq<char>, i: int)
    requires
        ids_unique(s),
        0 <= i < s.len(),
        s[i].id == id,
    ensures
        has_id(s, id),
        index_of(s, id) == i,
{
    assert(has_id(s, id));
    let k = index_of(s, id);
    assert(0 <= k < s.len() && s[k].id == id);
    if k != i {
        assert(s[k].id != s[i].id);
    }
}

/// A note that was just created is found by its id, equal to what `create`
/// returned; only a store that can fault may report a storage error instead.
pub proof fn lemma_create_then_get(
    s0: Seq<NoteView>,
    new: NoteView,
    created: Result<Note, ServiceError>,
    s1: Seq<NoteView>,
    fetched: Result<Note, ServiceError>,
    faultless: bool,
)
    requires
        ids_unique(s0),
        service_create_outcome(s0, new, created, s1, faultless),
        created is Ok,
        service_get_outcome(s1, new.id, fetched, faultless),
    ensures
        (fetched matches Ok(n) && n@ == created->Ok_0@)
            || (!faultless && (fetched matches Err(e) && e is Storage)),
{
    lemma_push_keeps_ids_unique(s0, new);
    lemma_index_of_unique(s1, new.id, s0.len() as int);
}

/// After a successful delete, the id is gone from the store, and `get` on it
/// reports not-found; only a store that can fault may report a storage error instead.
pub proof fn lemma_delete_then_get(
    s0: Seq<NoteView>,
    id: Seq<char>,
    deleted: Result<Note, ServiceError>,
    s1: Seq<NoteView>,
    fetched: Result<Note, ServiceError>,
    faultless: bool,
)
    requires
        ids_unique(s0),
        service_delete_outcome(s0, id, deleted, s1, faultless),
        deleted is Ok,
        service_get_outcome(s1, id, fetched, faultless),
    ensures
        !has_id(s1, id),
        (fetched matches Err(e) && e is NotFound)
            || (!faultless && (fetched matches Err(e) && e is Storage)),
{
    let k = index_of(s0, id);
    assert(0 <= k < s0.len() && s0[k].id == id);
    assert(s1 == s0.remove(k));
    if has_id(s1, id) {
        let j = choose|j: int| 0 <= j < s1.len() && (#[trigger] s1[j]).id == id;
        let j0 = if j < k { j } else { j + 1 };
        assert(s1[j] == s0[j0]);
        assert(s0[j0].id != s0[k].id);
    }
}

/// Updating an id that no note has changes nothing and reports not-found; only a
/// store that can fault may report a storage error instead. (A title that breaks
/// the rules is refused first.)
pub proof fn lemma_update_missing(
    s0: Seq<NoteView>,
    id: Seq<char>,
    u: UpdateNoteView,
    r: Result<Note, ServiceError>,
    s1: Seq<NoteView>,
    faultless: bool,
)
    requires
        !has_id(s0, id),
        title_valid(u.title),
        service_update_outcome(s0, id, u, r, s1, faultless),
    ensures
        s1 == s0,
        (r matches Err(e) && e is NotFound)
            || (!faultless && (r matches Err(e) && e is Storage)),
{
}

/// No update changes the id or the creation time of any stored note, nor how
/// many notes there are.
pub proof fn lemma_update_keeps_identity(
    s0: Seq<NoteView>,
    id: Seq<char>,
    u: UpdateNoteView,
    r: Result<Note, ServiceError>,
    s1: Seq<NoteView>,
    faultless: bool,
)
    requires
        service_update_outcome(s0, id, u, r, s1, faultless),
    ensures
        s1.len() == s0.len(),
        forall|i: int|
            0 <= i < s0.len() ==> (#[trigger] s1[i]).id == s0[i].id && s1[i].created_at
                == s0[i].created_at,
{
    if r is Ok && title_valid(u.title) {
        let k = index_of(s0, id);
        assert(0 <= k < s0.len() && s0[k].id == id);
    }
}

/// A create whose title breaks the rules is refused, naming the rule, and stores nothing.
pub proof fn lemma_invalid_create_refused(
    s0: Seq<NoteView>,
    new: NoteView,
    r: Result<Note, ServiceError>,
    s1: Seq<NoteView>,
    faultless: bool,
)
    requires
        !title_valid(new.title),
        service_create_outcome(s0, new, r, s1, faultless),
    ensures
        s1 == s0,
        r matches Err(ServiceError::Validation(d)) && d@ == empty_title_rule(),
{
}

/// An update whose title breaks the rules is refused, naming the rule, and changes nothing.
pub proof fn lemma_invalid_update_refused(
    s0: Seq<NoteView>,
    id: Seq<char>,
    u: UpdateNoteView,
    r: Result<Note, ServiceError>,
    s1: Seq<NoteView>,
    faultless: bool,
)
    requires
        !title_valid(u.title),
        service_update_outcome(s0, id, u, r, s1, faultless),
    ensures
        s1 == s0,
        r matches Err(ServiceError::Validation(d)) && d@ == empty_title_rule(),
{
}

/// Create, then update with a new body, then get: the note found has the new
/// title and content and the id and creation time it was created with; only a
/// store that can fault may report a storage error instead.
pub proof fn lemma_create_update_get(
    s0: Seq<NoteView>,
    new: NoteView,
    created: Result<Note, ServiceError>,
    s1: Seq<NoteView>,
    u: UpdateNoteView,
    changed: Result<Note, ServiceError>,
    s2: Seq<NoteView>,
    fetched: Result<Note, ServiceError>,
    faultless: bool,
)
    requires
        ids_unique(s0),
        service_create_outcome(s0, new, created, s1, faultless),
        created is Ok,
        service_update_outcome(s1, new.id, u, changed, s2, faultless),
        changed is Ok,
        service_get_outcome(s2, new.id, fetched, faultless),
    ensures
        (fetched matches Ok(n) && n@.id == new.id && n@.created_at == new.created_at && n@.title
            == u.title && n@.content == u.content)
            || (!faultless && (fetched matches Err(e) && e is Storage)),
{
    let k = s0.len() as int;
    lemma_push_keeps_ids_unique(s0, new);
    lemma_index_of_unique(s1, new.id, k);
    assert(s2 == s1.update(k, updated(new, u)));
    assert(ids_unique(s2)) by {
        assert forall|i: int, j: int|
            0 <= i < s2.len() && 0 <= j < s2.len() && i != j implies (#[trigger] s2[i]).id != (
            #[trigger] s2[j]).id by {
            assert(s2[i].id == s1[i].id && s2[j].id == s1[j].id);
        }
    }
    lemma_index_of_unique(s2, new.id, k);
}

/// A request that no route binds is answered 404 `{"message":"not found"}` and
/// leaves the store as it was.
pub proof fn lemma_unmatched_is_not_found(
    s: Seq<NoteView>,
    method: Method,
    path: Seq<char>,
    body: Result<NoteRequest, String>,
    id: Seq<char>,
    created_at: Seq<char>,
    resp: Response,
    s2: Seq<NoteView>,
    faultless: bool,
)
    requires
        endpoint_of(method, path) is Unmatched,
        handled(s, method, path, body, id, created_at, resp, s2, faultless),
    ensures
        s2 == s,
        message_reply(404, route_not_found_message(), resp),
{
}

/// A create or update whose title breaks the rules is answered 400 at once: the
/// plan runs nothing on the repository.
pub proof fn lemma_invalid_input_not_run(
    method: Method,
    path: Seq<char>,
    body: Result<NoteRequest, String>,
    id: Seq<char>,
    created_at: Seq<char>,
    p: Plan,
)
    requires
        endpoint_of(method, path) is CreateNote || endpoint_of(method, path) is UpdateNote,
        body matches Ok(b) && !title_valid(b.title@),
        planned(method, path, body, id, created_at, p),
    ensures
        p matches Plan::Reply(resp) && invalid_title_reply(resp),
{
}

} // verus!
