use vstd::prelude::*;

verus! {

/// A stored note: an immutable id and creation time, and an editable title and content.
#[derive(Debug, PartialEq, Eq)]
pub struct Note {
    pub id: String,
    pub title: String,
    pub content: String,
    pub created_at: String,
}

/// The mathematical value of a note: its four fields as character sequences.
pub struct NoteView {
    pub id: Seq<char>,
    pub title: Seq<char>,
    pub content: Seq<char>,
    pub created_at: Seq<char>,
}

impl View for Note {
    type V = NoteView;

    open spec fn view(&self) -> NoteView {
        NoteView {
            id: self.id@,
            title: self.title@,
            content: self.content@,
            created_at: self.created_at@,
        }
    }
}

impl Note {
    /// A copy of this note, field for field.
    pub fn duplicate(&self) -> (r: Note)
        ensures
            r@ == self@,
    {
        Note {
            id: self.id.clone(),
            title: self.title.clone(),
            content: self.content.clone(),
            created_at: self.created_at.clone(),
        }
    }
}

/// The input to `create`: every field is filled in before it reaches the repository.
#[derive(Debug)]
pub struct NewNote {
    pub id: String,
    pub title: String,
    pub content: String,
    pub created_at: String,
}

impl View for NewNote {
    type V = NoteView;

    /// A new note is viewed as the note it asks to store.
    open spec fn view(&self) -> NoteView {
        NoteView {
            id: self.id@,
            title: self.title@,
            content: self.content@,
            created_at: self.created_at@,
        }
    }
}

impl NewNote {
    /// The note that storing this input produces.
    pub fn to_note(&self) -> (r: Note)
        ensures
            r@ == self@,
    {
        Note {
            id: self.id.clone(),
            title: self.title.clone(),
            content: self.content.clone(),
            created_at: self.created_at.clone(),
        }
    }
}

/// The input to `update`: the two editable fields.
#[derive(Debug)]
pub struct UpdateNote {
    pub title: String,
    pub content: String,
}

/// The mathematical value of an update.
pub struct UpdateNoteView {
    pub title: Seq<char>,
    pub content: Seq<char>,
}

impl View for UpdateNote {
    type V = UpdateNoteView;

    open spec fn view(&self) -> UpdateNoteView {
        UpdateNoteView { title: self.title@, content: self.content@ }
    }
}

/// `n` after the update `u`: title and content replaced, id and creation time kept.
pub open spec fn updated(n: NoteView, u: UpdateNoteView) -> NoteView {
    NoteView { id: n.id, title: u.title, content: u.content, created_at: n.created_at }
}

impl UpdateNote {
    /// Applies this update to `n`.
    pub fn apply_to(&self, n: &Note) -> (r: Note)
        ensures
            r@ == updated(n@, self@),
    {
        Note {
            id: n.id.clone(),
            title: self.title.clone(),
            content: self.content.clone(),
            created_at: n.created_at.clone(),
        }
    }
}

/// The views of a sequence of notes.
pub open spec fn views(s: Seq<Note>) -> Seq<NoteView> {
    s.map_values(|n: Note| n@)
}

} // verus!
