use vstd::prelude::*;

use crate::error::{service_error_of, DbError, ServiceError};
use crate::note::{NewNote, Note, NoteView, UpdateNote, UpdateNoteView};
use crate::repository::{
    create_outcome, delete_outcome, get_outcome, ids_unique, list_outcome, update_outcome,
    NoteRepository,
};

verus! {

/// The description attached to a rejected title.
pub open spec fn empty_title_rule() -> Seq<char> {
    "title must not be empty"@
}

/// A title is accepted when it holds at least one character; it is not trimmed.
pub open spec fn title_valid(title: Seq<char>) -> bool {
    title.len() > 0
}

/// Checks the one rule on titles.
pub fn validate_title(title: &String) -> (r: Result<(), ServiceError>)
    ensures
        r is Ok <==> title_valid(title@),
        r matches Err(e) ==> e matches ServiceError::Validation(d) && d@ == empty_title_rule(),
{
    if title.as_str().is_empty() {
        Err(ServiceError::Validation("title must not be empty".to_owned()))
    } else {
        Ok(())
    }
}

impl NewNote {
    /// Checks this input against the domain rules.
    pub fn validate(&self) -> (r: Result<(), ServiceError>)
        ensures
            r is Ok <==> title_valid(self@.title),
            r matches Err(e) ==> e matches ServiceError::Validation(d) && d@ == empty_title_rule(),
    {
        validate_title(&self.title)
    }
}

impl UpdateNote {
    /// Checks this input against the domain rules.
    pub fn validate(&self) -> (r: Result<(), ServiceError>)
        ensures
            r is Ok <==> title_valid(self@.title),
            r matches Err(e) ==> e matches ServiceError::Validation(d) && d@ == empty_title_rule(),
    {
        validate_title(&self.title)
    }
}

/// The repository result that a service result stands for; a validation error
/// has no counterpart and is read as a storage fault.
pub open spec fn db_result<T>(r: Result<T, ServiceError>) -> Result<T, DbError> {
    match r {
        Ok(v) => Ok(v),
        Err(ServiceError::NotFound) => Err(DbError::NotFound),
        Err(ServiceError::Storage(c)) => Err(DbError::Storage(c)),
        Err(ServiceError::Validation(c)) => Err(DbError::Storage(c)),
    }
}

/// The service result was rejected by validation.
pub open spec fn is_validation<T>(r: Result<T, ServiceError>) -> bool {
    r matches Err(e) && e is Validation
}

/// The service result refuses an empty title, naming the rule.
pub open spec fn refused_for_title<T>(r: Result<T, ServiceError>) -> bool {
    r matches Err(ServiceError::Validation(d)) && d@ == empty_title_rule()
}

/// What the service's `all` may return when the store holds `s`: the
/// repository's result, its error kind kept.
pub open spec fn service_list_outcome(
    s: Seq<NoteView>,
    r: Result<Vec<Note>, ServiceError>,
    faultless: bool,
) -> bool {
    !is_validation(r) && list_outcome(s, db_result(r), faultless)
}

/// What the service's `get(id)` may return when the store holds `s`.
pub open spec fn service_get_outcome(
    s: Seq<NoteView>,
    id: Seq<char>,
    r: Result<Note, ServiceError>,
    faultless: bool,
) -> bool {
    !is_validation(r) && get_outcome(s, id, db_result(r), faultless)
}

/// What the service's `create(new)` may return and leave in the store:
/// an invalid note is refused before the repository is reached.
pub open spec fn service_create_outcome(
    s: Seq<NoteView>,
    new: NoteView,
    r: Result<Note, ServiceError>,
    s2: Seq<NoteView>,
    faultless: bool,
) -> bool {
    if title_valid(new.title) {
        !is_validation(r) && create_outcome(s, new, db_result(r), s2, faultless)
    } else {
        refused_for_title(r) && s2 == s
    }
}

/// What the service's `update(id, u)` may return and leave in the store:
/// an invalid update is refused before the repository is reached.
pub open spec fn service_update_outcome(
    s: Seq<NoteView>,
    id: Seq<char>,
    u: UpdateNoteView,
    r: Result<Note, ServiceError>,
    s2: Seq<NoteView>,
    faultless: bool,
) -> bool {
    if title_valid(u.title) {
        !is_validation(r) && update_outcome(s, id, u, db_result(r), s2, faultless)
    } else {
        refused_for_title(r) && s2 == s
    }
}

/// What the service's `delete(id)` may return and leave in the store.
pub open spec fn service_delete_outcome(
    s: Seq<NoteView>,
    id: Seq<char>,
    r: Result<Note, ServiceError>,
    s2: Seq<NoteView>,
    faultless: bool,
) -> bool {
    !is_validation(r) && delete_outcome(s, id, db_result(r), s2, faultless)
}

/// Carries a repository result up, classifying its error.
fn lift<T>(r: Result<T, DbError>) -> (out: Result<T, ServiceError>)
    ensures
        !is_validation(out),
        db_result(out) == r,
{
    match r {
        Ok(v) => Ok(v),
        Err(e) => {
            let out = ServiceError::from_db(e);
            assert(service_error_of(e) == out);
            Err(out)
        },
    }
}

/// The domain layer: each operation of a repository, with inputs validated first.
pub trait NoteService {
    /// The notes in the underlying store.
    spec fn stored(&self) -> Seq<NoteView>;

    /// The underlying store never faults.
    spec fn faultless(&self) -> bool;

    fn all(&self) -> (r: Result<Vec<Note>, ServiceError>)
        requires
            ids_unique(self.stored()),
        ensures
            service_list_outcome(self.stored(), r, self.faultless()),
    ;

    fn get(&self, id: &str) -> (r: Result<Note, ServiceError>)
        requires
            ids_unique(self.stored()),
        ensures
            service_get_outcome(self.stored(), id@, r, self.faultless()),
    ;

    fn create(&mut self, note: &NewNote) -> (r: Result<Note, ServiceError>)
        requires
            ids_unique(old(self).stored()),
        ensures
            service_create_outcome(
                old(self).stored(),
                note@, r,
                final(self).stored(),
                old(self).faultless(),
            ),
            ids_unique(final(self).stored()),
            final(self).faultless() == old(self).faultless(),
    ;

    fn update(&mut self, id: &str, note: &UpdateNote) -> (r: Result<Note, ServiceError>)
        requires
            ids_unique(old(self).stored()),
        ensures
            service_update_outcome(
                old(self).stored(),
                id@, note@, r,
                final(self).stored(),
                old(self).faultless(),
            ),
            ids_unique(final(self).stored()),
            final(self).faultless() == old(self).faultless(),
    ;

    fn delete(&mut self, id: &str) -> (r: Result<Note, ServiceError>)
        requires
            ids_unique(old(self).stored()),
        ensures
            service_delete_outcome(
                old(self).stored(),
                id@, r,
                final(self).stored(),
                old(self).faultless(),
            ),
            ids_unique(final(self).stored()),
            final(self).faultless() == old(self).faultless(),
    ;
}

/// The service over a repository: validates inputs, otherwise delegates.
pub struct NoteServiceImpl<R: NoteRepository> {
    pub repository: R,
}

impl<R: NoteRepository> NoteServiceImpl<R> {
    pub fn new(repository: R) -> (r: Self)
        ensures
            r.repository == repository,
    {
        NoteServiceImpl { repository }
    }
}

impl<R: NoteRepository> NoteService for NoteServiceImpl<R> {
    open spec fn stored(&self) -> Seq<NoteView> {
        self.repository.stored()
    }

    open spec fn faultless(&self) -> bool {
        self.repository.faultless()
    }

    fn all(&self) -> (r: Result<Vec<Note>, ServiceError>) {
        lift(self.repository.all())
    }

    fn get(&self, id: &str) -> (r: Result<Note, ServiceError>) {
        lift(self.repository.get(id))
    }

    fn create(&mut self, note: &NewNote) -> (r: Result<Note, ServiceError>) {
        match note.validate() {
            Err(e) => Err(e),
            Ok(()) => lift(self.repository.create(note)),
        }
    }

    fn update(&mut self, id: &str, note: &UpdateNote) -> (r: Result<Note, ServiceError>) {
        match note.validate() {
            Err(e) => Err(e),
            Ok(()) => lift(self.repository.update(id, note)),
        }
    }

    fn delete(&mut self, id: &str) -> (r: Result<Note, ServiceError>) {
        lift(self.repository.delete(id))
    }
}

} // verus!
