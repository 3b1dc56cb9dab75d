use vstd::prelude::*;

use crate::error::DbError;
use crate::note::{updated, views, NewNote, Note, NoteView, UpdateNote, UpdateNoteView};

verus! {

/// Some stored note has the id `id`.
pub open spec fn has_id(s: Seq<NoteView>, id: Seq<char>) -> bool {
    exists|i: int| 0 <= i < s.len() && (#[trigger] s[i]).id == id
}

/// The position of the note with id `id`, or -1 when there is none.
pub open spec fn index_of(s: Seq<NoteView>, id: Seq<char>) -> int {
    if has_id(s, id) {
        choose|i: int| 0 <= i < s.len() && (#[trigger] s[i]).id == id
    } else {
        -1
    }
}

/// No two stored notes share an id.
pub open spec fn ids_unique(s: Seq<NoteView>) -> bool {
    forall|i: int, j: int|
        0 <= i < s.len() && 0 <= j < s.len() && i != j ==> (#[trigger] s[i]).id != (#[trigger] s[j]).id
}

/// Appending a note whose id is free keeps the ids distinct.
pub proof fn lemma_push_keeps_ids_unique(s: Seq<NoteView>, n: NoteView)
    requires
        ids_unique(s),
        !has_id(s, n.id),
    ensures
        ids_unique(s.push(n)),
{
    let s2 = s.push(n);
    assert forall|i: int, j: int|
        0 <= i < s2.len() && 0 <= j < s2.len() && i != j implies (#[trigger] s2[i]).id != (
        #[trigger] s2[j]).id by {
        if i == s.len() {
            assert(s2[j] == s[j]);
        } else if j == s.len() {
            assert(s2[i] == s[i]);
        } else {
            assert(s2[i] == s[i] && s2[j] == s[j]);
        }
    }
}

/// What `all` may return when the store holds `s`: every stored note, each once.
/// A faultless store always succeeds.
pub open spec fn list_outcome(s: Seq<NoteView>, r: Result<Vec<Note>, DbError>, faultless: bool) -> bool {
    match r {
        Ok(v) => views(v@).to_multiset() == s.to_multiset(),
        Err(e) => e is Storage && !faultless,
    }
}

/// What `get(id)` may return when the store holds `s`.
/// A faultless store reports no storage fault.
pub open spec fn get_outcome(
    s: Seq<NoteView>,
    id: Seq<char>,
    r: Result<Note, DbError>,
    faultless: bool,
) -> bool {
    match r {
        Ok(n) => has_id(s, id) && n@ == s[index_of(s, id)],
        Err(DbError::NotFound) => !has_id(s, id),
        Err(DbError::Storage(_)) => !faultless,
    }
}

/// What `create(new)` may return, and leave in the store, when the store held `s`.
/// A note whose id is taken is never stored; a faultless store refuses nothing else.
pub open spec fn create_outcome(
    s: Seq<NoteView>,
    new: NoteView,
    r: Result<Note, DbError>,
    s2: Seq<NoteView>,
    faultless: bool,
) -> bool {
    match r {
        Ok(n) => !has_id(s, new.id) && n@ == new && s2 == s.push(new),
        Err(DbError::NotFound) => false,
        Err(DbError::Storage(_)) => s2 == s && (faultless ==> has_id(s, new.id)),
    }
}

/// What `update(id, u)` may return, and leave in the store, when the store held `s`.
/// A faultless store reports no storage fault.
pub open spec fn update_outcome(
    s: Seq<NoteView>,
    id: Seq<char>,
    u: UpdateNoteView,
    r: Result<Note, DbError>,
    s2: Seq<NoteView>,
    faultless: bool,
) -> bool {
    match r {
        Ok(n) => has_id(s, id) && n@ == updated(s[index_of(s, id)], u) && s2 == s.update(
            index_of(s, id),
            n@,
        ),
        Err(DbError::NotFound) => !has_id(s, id) && s2 == s,
        Err(DbError::Storage(_)) => s2 == s && !faultless,
    }
}

/// What `delete(id)` may return, and leave in the store, when the store held `s`.
/// A faultless store reports no storage fault.
pub open spec fn delete_outcome(
    s: Seq<NoteView>,
    id: Seq<char>,
    r: Result<Note, DbError>,
    s2: Seq<NoteView>,
    faultless: bool,
) -> bool {
    match r {
        Ok(n) => has_id(s, id) && n@ == s[index_of(s, id)] && s2 == s.remove(index_of(s, id)),
        Err(DbError::NotFound) => !has_id(s, id) && s2 == s,
        Err(DbError::Storage(_)) => s2 == s && !faultless,
    }
}

/// Durable storage of notes. The store is modelled as a sequence of notes with
/// distinct ids; a storage fault leaves it as it was.
pub trait NoteRepository {
    /// The notes in the store.
    spec fn stored(&self) -> Seq<NoteView>;

    /// The store never faults: every operation gives its result or not-found,
    /// and a create fails only on a taken id.
    spec fn faultless(&self) -> bool;

    fn all(&self) -> (r: Result<Vec<Note>, DbError>)
        requires
            ids_unique(self.stored()),
        ensures
            list_outcome(self.stored(), r, self.faultless()),
    ;

    fn get(&self, id: &str) -> (r: Result<Note, DbError>)
        requires
            ids_unique(self.stored()),
        ensures
            get_outcome(self.stored(), id@, r, self.faultless()),
    ;

    fn create(&mut self, note: &NewNote) -> (r: Result<Note, DbError>)
        requires
            ids_unique(old(self).stored()),
        ensures
            create_outcome(old(self).stored(), note@, r, final(self).stored(), old(self).faultless()),
            ids_unique(final(self).stored()),
            final(self).faultless() == old(self).faultless(),
    ;

    fn update(&mut self, id: &str, note: &UpdateNote) -> (r: Result<Note, DbError>)
        requires
            ids_unique(old(self).stored()),
        ensures
            update_outcome(old(self).stored(), id@, note@, r, final(self).stored(), old(self).faultless()),
            ids_unique(final(self).stored()),
            final(self).faultless() == old(self).faultless(),
    ;

    fn delete(&mut self, id: &str) -> (r: Result<Note, DbError>)
        requires
            ids_unique(old(self).stored()),
        ensures
            delete_outcome(old(self).stored(), id@, r, final(self).stored(), old(self).faultless()),
            ids_unique(final(self).stored()),
            final(self).faultless() == old(self).faultless(),
    ;
}

/// A repository that keeps its notes in memory, in order of creation.
/// It never fails but for a create whose id is taken.
pub struct InMemoryNoteRepository {
    notes: Vec<Note>,
}

impl InMemoryNoteRepository {
    /// An empty store.
    pub fn new() -> (r: InMemoryNoteRepository)
        ensures
            r.stored() == Seq::<NoteView>::empty(),
    {
        let r = InMemoryNoteRepository { notes: Vec::new() };
        assert(views(r.notes@) =~= Seq::<NoteView>::empty());
        r
    }

    /// Where the note with id `id` stands, if any.
    fn position(&self, id: &String) -> (r: Option<usize>)
        requires
            ids_unique(self.stored()),
        ensures
            match r {
                Some(i) => has_id(self.stored(), id@) && i as int == index_of(self.stored(), id@)
                    && i < self.notes@.len(),
                None => !has_id(self.stored(), id@),
            },
    {
        let ghost s = self.stored();
        let mut i: usize = 0;
        while i < self.notes.len()
            invariant
                s == self.stored(),
                ids_unique(s),
                s.len() == self.notes@.len(),
                0 <= i <= s.len(),
                forall|j: int| 0 <= j < i ==> (#[trigger] s[j]).id != id@,
            decreases self.notes@.len() - i,
        {
            if self.notes[i].id == *id {
                proof {
                    assert(s[i as int] == self.notes@[i as int]@);
                    assert(s[i as int].id == id@);
                    assert(has_id(s, id@));
                    let k = index_of(s, id@);
                    assert(0 <= k < s.len() && s[k].id == id@);
                    assert(k == i as int) by {
                        if k != i as int {
                            assert(s[k].id != s[i as int].id);
                        }
                    }
                }
                return Some(i);
            }
            i += 1;
        }
        None
    }
}

impl NoteRepository for InMemoryNoteRepository {
    closed spec fn stored(&self) -> Seq<NoteView> {
        views(self.notes@)
    }

    open spec fn faultless(&self) -> bool {
        true
    }

    fn all(&self) -> (r: Result<Vec<Note>, DbError>) {
        InMemoryNoteRepository::all(self)
    }

    fn get(&self, id: &str) -> (r: Result<Note, DbError>) {
        InMemoryNoteRepository::get(self, id)
    }

    fn create(&mut self, note: &NewNote) -> (r: Result<Note, DbError>) {
        InMemoryNoteRepository::create(self, note)
    }

    fn update(&mut self, id: &str, note: &UpdateNote) -> (r: Result<Note, DbError>) {
        InMemoryNoteRepository::update(self, id, note)
    }

    fn delete(&mut self, id: &str) -> (r: Result<Note, DbError>) {
        InMemoryNoteRepository::delete(self, id)
    }
}

/// The operations of the store, each with the repository contract and what this
/// store adds to it: no fault but a taken id.
impl InMemoryNoteRepository {
    pub fn all(&self) -> (r: Result<Vec<Note>, DbError>)
        requires
            ids_unique(self.stored()),
        ensures
            list_outcome(self.stored(), r, self.faultless()),
            r matches Ok(v) && views(v@) == self.stored(),
    {
        let mut v: Vec<Note> = Vec::new();
        let mut i: usize = 0;
        while i < self.notes.len()
            invariant
                0 <= i <= self.notes@.len(),
                views(v@) == views(self.notes@).subrange(0, i as int),
            decreases self.notes@.len() - i,
        {
            let ghost before = v@;
            v.push(self.notes[i].duplicate());
            assert(views(v@) =~= views(before).push(self.notes@[i as int]@));
            assert(views(self.notes@).subrange(0, i + 1) =~= views(self.notes@).subrange(
                0,
                i as int,
            ).push(views(self.notes@)[i as int]));
            i += 1;
        }
        assert(views(self.notes@).subrange(0, i as int) =~= views(self.notes@));
        Ok(v)
    }

    pub fn get(&self, id: &str) -> (r: Result<Note, DbError>)
        requires
            ids_unique(self.stored()),
        ensures
            get_outcome(self.stored(), id@, r, self.faultless()),
            r is Ok <==> has_id(self.stored(), id@),
            r matches Err(e) ==> e is NotFound,
    {
        let key = id.to_owned();
        match self.position(&key) {
            Some(i) => Ok(self.notes[i].duplicate()),
            None => Err(DbError::NotFound),
        }
    }

    pub fn create(&mut self, note: &NewNote) -> (r: Result<Note, DbError>)
        requires
            ids_unique(old(self).stored()),
        ensures
            create_outcome(old(self).stored(), note@, r, final(self).stored(), old(self).faultless()),
            ids_unique(final(self).stored()),
            final(self).faultless() == old(self).faultless(),
            r is Ok <==> !has_id(old(self).stored(), note@.id),
    {
        match self.position(&note.id) {
            Some(_) => Err(DbError::Storage("UNIQUE constraint failed: note.id".to_owned())),
            None => {
                let ghost s = self.stored();
                self.notes.push(note.to_note());
                assert(self.stored() =~= s.push(note@));
                proof {
                    lemma_push_keeps_ids_unique(s, note@);
                }
                Ok(note.to_note())
            },
        }
    }

    pub fn update(&mut self, id: &str, note: &UpdateNote) -> (r: Result<Note, DbError>)
        requires
            ids_unique(old(self).stored()),
        ensures
            update_outcome(old(self).stored(), id@, note@, r, final(self).stored(), old(self).faultless()),
            ids_unique(final(self).stored()),
            final(self).faultless() == old(self).faultless(),
            r is Ok <==> has_id(old(self).stored(), id@),
            r matches Err(e) ==> e is NotFound,
    {
        let key = id.to_owned();
        match self.position(&key) {
            Some(i) => {
                let ghost s = self.stored();
                let changed = note.apply_to(&self.notes[i]);
                let result = changed.duplicate();
                self.notes.remove(i);
                self.notes.insert(i, changed);
                assert(self.stored() =~= s.update(i as int, result@));
                assert forall|a: int, b: int|
                    0 <= a < self.stored().len() && 0 <= b < self.stored().len() && a != b
                        implies (#[trigger] self.stored()[a]).id != (#[trigger] self.stored()[b]).id by {
                    assert(s[a].id == self.stored()[a].id);
                    assert(s[b].id == self.stored()[b].id);
                }
                Ok(result)
            },
            None => Err(DbError::NotFound),
        }
    }

    pub fn delete(&mut self, id: &str) -> (r: Result<Note, DbError>)
        requires
            ids_unique(old(self).stored()),
        ensures
            delete_outcome(old(self).stored(), id@, r, final(self).stored(), old(self).faultless()),
            ids_unique(final(self).stored()),
            final(self).faultless() == old(self).faultless(),
            r is Ok <==> has_id(old(self).stored(), id@),
            r matches Err(e) ==> e is NotFound,
    {
        let key = id.to_owned();
        match self.position(&key) {
            Some(i) => {
                let ghost s = self.stored();
                let removed = self.notes.remove(i);
                assert(self.stored() =~= s.remove(i as int));
                assert forall|a: int, b: int|
                    0 <= a < self.stored().len() && 0 <= b < self.stored().len() && a != b
                        implies (#[trigger] self.stored()[a]).id != (#[trigger] self.stored()[b]).id by {
                    let a0 = if a < i { a } else { a + 1 };
                    let b0 = if b < i { b } else { b + 1 };
                    assert(s[a0].id != s[b0].id);
                }
                Ok(removed)
            },
            None => Err(DbError::NotFound),
        }
    }
}

} // verus!
