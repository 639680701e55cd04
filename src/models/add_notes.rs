use vstd::prelude::*;
use vstd::string::*;

verus! {

/// Version of the flashcard service's protocol carried by every request.
pub const PROTOCOL_VERSION: u32 = 6;

/// An `addNotes` request: the notes to be filed.
#[derive(Debug)]
pub struct AddNotes {
    pub action: String,
    pub version: u32,
    pub params: NotesParams,
}

#[derive(Debug)]
pub struct NotesParams {
    pub notes: Vec<Note>,
}

#[derive(Debug)]
pub struct Note {
    pub deck_name: String,
    pub model_name: String,
    pub fields: NoteFields,
    pub tags: Option<Vec<String>>,
    pub audio: Option<Vec<Media>>,
    pub video: Option<Vec<Media>>,
    pub picture: Option<Vec<Media>>,
}

#[derive(Debug)]
pub struct NoteFields {
    pub front: String,
    pub back: String,
}

/// A media attachment of a note.
#[derive(Debug)]
pub struct Media {
    pub url: String,
    pub filename: String,
    pub skip_hash: String,
    pub fields: Vec<String>,
}

pub open spec fn add_notes_action() -> Seq<char> {
    seq!['a', 'd', 'd', 'N', 'o', 't', 'e', 's']
}

pub open spec fn basic_model() -> Seq<char> {
    seq!['B', 'a', 's', 'i', 'c']
}

impl AddNotes {
    /// The request holds exactly one "Basic" note with the given deck, front and back,
    /// and no tags or media.
    pub open spec fn is_single_note(&self, deck: Seq<char>, front: Seq<char>, back: Seq<char>) -> bool {
        &&& self.action@ == add_notes_action()
        &&& self.version == PROTOCOL_VERSION
        &&& self.params.notes@.len() == 1
        &&& self.params.notes@[0].deck_name@ == deck
        &&& self.params.notes@[0].model_name@ == basic_model()
        &&& self.params.notes@[0].fields.front@ == front
        &&& self.params.notes@[0].fields.back@ == back
        &&& self.params.notes@[0].tags is None
        &&& self.params.notes@[0].audio is None
        &&& self.params.notes@[0].video is None
        &&& self.params.notes@[0].picture is None
    }

    pub fn new(deck_name: String, front: String, back: String) -> (r: Self)
        ensures
            r.is_single_note(deck_name@, front@, back@),
    {
        let action = String::from_str("addNotes");
        let model_name = String::from_str("Basic");
        proof {
            reveal_strlit("addNotes");
            reveal_strlit("Basic");
            assert(action@ =~= add_notes_action());
            assert(model_name@ =~= basic_model());
        }
        AddNotes {
            action,
            version: PROTOCOL_VERSION,
            params: NotesParams {
                notes: vec![Note {
                    deck_name,
                    model_name,
                    fields: NoteFields { front, back },
                    tags: None,
                    audio: None,
                    video: None,
                    picture: None,
                }],
            },
        }
    }
}

} // verus!
