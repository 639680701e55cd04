use vstd::prelude::*;
use vstd::string::*;

use crate::json::{has_key, JsonValue};
use crate::models::add_notes::{AddNotes, Note};
use crate::models::create_deck::CreateDeck;
use crate::models::deck_name::DeckName;
use crate::models::find_notes::FindNotes;

verus! {

/// How many times the front of a note may already carry a disambiguating
/// trailing space before a conflict is given up on.
pub const MAX_TRAILING_SPACES: u8 = 5;

/// The `result` and `error` fields of the flashcard service's answer.
#[derive(Debug)]
pub struct RemoteResponse {
    pub result: JsonValue,
    pub error: Option<String>,
}

/// What came back from one request to the flashcard service.
#[derive(Debug)]
pub enum Reply {
    Response(RemoteResponse),
    /// The request did not reach the service, timed out, or its body was not JSON.
    TransportError,
}

/// How an attempt to file a note ended.
#[derive(PartialEq, Eq, Structural, Clone, Copy, Debug)]
pub enum Outcome {
    Created,
    AlreadyExistsLocally,
    AlreadyExistsElsewhereUnresolved,
    TransportFailed,
}

/// What the answer to an `addNotes` request says of the note.
#[derive(PartialEq, Eq, Structural, Clone, Copy, Debug)]
pub enum AddResult {
    /// The service assigned the note an id.
    Assigned,
    /// The service holds a note with the same front in another deck.
    Conflict,
    /// The request failed, or the answer has no id list.
    Failed,
}

/// Where a note creation stands: the answer to which request it waits for.
#[derive(PartialEq, Eq, Structural, Clone, Copy, Debug)]
pub enum Stage {
    ListingDecks,
    CreatingDeck,
    FindingNotes,
    AddingNotes,
    Finished(Outcome),
}

/// A request to the flashcard service.
#[derive(Debug)]
pub enum Request {
    ListDecks(DeckName),
    CreateDeck(CreateDeck),
    FindNotes(FindNotes),
    AddNotes(AddNotes),
}

/// What the caller does next: send a request and hand its reply back, or stop.
#[derive(Debug)]
pub enum Step {
    Send(Request),
    Done(Outcome),
}

/// The request a step sends, as values.
pub enum StepView {
    ListDecks,
    CreateDeck(Seq<char>),
    FindNotes(Seq<char>),
    AddNotes(Seq<char>, Seq<char>, Seq<char>),
    Done(Outcome),
}

/// A note creation as values: the note being filed and the stage reached.
pub struct CreationView {
    pub deck: Seq<char>,
    pub front: Seq<char>,
    pub back: Seq<char>,
    pub stage: Stage,
}

/// The search that finds the notes of `deck` whose text holds `front`.
pub open spec fn note_query(deck: Seq<char>, front: Seq<char>) -> Seq<char> {
    seq!['d', 'e', 'c', 'k', ':'] + deck + seq![' '] + front
}

/// The number of space characters that `s` ends with.
pub open spec fn trailing_spaces(s: Seq<char>) -> nat
    decreases s.len(),
{
    if s.len() > 0 && s.last() == ' ' {
        1 + trailing_spaces(s.drop_last())
    } else {
        0
    }
}

/// The reply to `deckNamesAndIds` names `deck` and reports no error.
pub open spec fn deck_listed(reply: Reply, deck: Seq<char>) -> bool {
    match reply {
        Reply::Response(r) => r.error is None && has_key(r.result, deck),
        Reply::TransportError => false,
    }
}

/// The reply to `findNotes` lists at least one note and reports no error.
pub open spec fn notes_found(reply: Reply) -> bool {
    match reply {
        Reply::Response(r) => r.error is None && match r.result {
            JsonValue::Array(ids) => ids@.len() > 0,
            _ => false,
        },
        Reply::TransportError => false,
    }
}

/// What the reply to `addNotes` says of the one note sent.
pub open spec fn add_result(reply: Reply) -> AddResult {
    match reply {
        Reply::Response(r) => if r.error is Some {
            AddResult::Failed
        } else {
            match r.result {
                JsonValue::Array(ids) => if ids@.len() == 0 {
                    AddResult::Failed
                } else if ids@[0] is Null {
                    AddResult::Conflict
                } else {
                    AddResult::Assigned
                },
                _ => AddResult::Failed,
            }
        },
        Reply::TransportError => AddResult::Failed,
    }
}

/// The exec step is the request that `v` describes.
pub open spec fn carries(step: Step, v: StepView) -> bool {
    match v {
        StepView::ListDecks => step matches Step::Send(Request::ListDecks(d)) && d.lists_decks(),
        StepView::CreateDeck(deck) => step matches Step::Send(Request::CreateDeck(c)) && c.creates(deck),
        StepView::FindNotes(q) => step matches Step::Send(Request::FindNotes(f)) && f.searches(q),
        StepView::AddNotes(d, f, b) => step matches Step::Send(Request::AddNotes(a))
            && a.is_single_note(d, f, b),
        StepView::Done(o) => step matches Step::Done(p) && p == o,
    }
}

pub open spec fn with_stage(s: CreationView, stage: Stage) -> CreationView {
    CreationView { deck: s.deck, front: s.front, back: s.back, stage }
}

pub open spec fn finish(s: CreationView, o: Outcome) -> (CreationView, StepView) {
    (with_stage(s, Stage::Finished(o)), StepView::Done(o))
}

/// The note creation for `deck`, `front`, `back` before any request.
pub open spec fn start(deck: Seq<char>, front: Seq<char>, back: Seq<char>) -> CreationView {
    CreationView { deck, front, back, stage: Stage::ListingDecks }
}

/// One move of a note creation: the state it reaches on `reply`, and what it asks next.
///
/// A deck that the listing does not name is created (also when listing failed);
/// a note that the search finds is not sent; a conflict appends one space to the
/// front and starts over, unless the front already ends in more than five spaces.
pub open spec fn next(s: CreationView, reply: Reply) -> (CreationView, StepView) {
    match s.stage {
        Stage::ListingDecks => if deck_listed(reply, s.deck) {
            (with_stage(s, Stage::FindingNotes), StepView::FindNotes(note_query(s.deck, s.front)))
        } else {
            (with_stage(s, Stage::CreatingDeck), StepView::CreateDeck(s.deck))
        },
        Stage::CreatingDeck => if reply is TransportError {
            finish(s, Outcome::TransportFailed)
        } else {
            (with_stage(s, Stage::FindingNotes), StepView::FindNotes(note_query(s.deck, s.front)))
        },
        Stage::FindingNotes => if notes_found(reply) {
            finish(s, Outcome::AlreadyExistsLocally)
        } else {
            (with_stage(s, Stage::AddingNotes), StepView::AddNotes(s.deck, s.front, s.back))
        },
        Stage::AddingNotes => match add_result(reply) {
            AddResult::Assigned => finish(s, Outcome::Created),
            AddResult::Failed => finish(s, Outcome::TransportFailed),
            AddResult::Conflict => if trailing_spaces(s.front) > MAX_TRAILING_SPACES {
                finish(s, Outcome::AlreadyExistsElsewhereUnresolved)
            } else {
                (
                    CreationView {
                        deck: s.deck,
                        front: s.front.push(' '),
                        back: s.back,
                        stage: Stage::ListingDecks,
                    },
                    StepView::ListDecks,
                )
            },
        },
        Stage::Finished(o) => (s, StepView::Done(o)),
    }
}

/// Reads the reply to `deckNamesAndIds`: whether it names `deck`.
pub fn deck_exists(reply: &Reply, deck: &String) -> (r: bool)
    ensures
        r == deck_listed(*reply, deck@),
{
    match reply {
        Reply::Response(resp) => resp.error.is_none() && resp.result.contains_key(deck),
        Reply::TransportError => false,
    }
}

/// Reads the reply to `findNotes`: whether it lists a note.
pub fn note_exists(reply: &Reply) -> (r: bool)
    ensures
        r == notes_found(*reply),
{
    match reply {
        Reply::Response(resp) => {
            if resp.error.is_some() {
                return false;
            }
            match &resp.result {
                JsonValue::Array(ids) => ids.len() > 0,
                _ => false,
            }
        },
        Reply::TransportError => false,
    }
}

/// Reads the reply to `addNotes`: whether the note got an id or met a conflict.
pub fn already_exists(reply: &Reply) -> (r: AddResult)
    ensures
        r == add_result(*reply),
{
    match reply {
        Reply::Response(resp) => {
            if resp.error.is_some() {
                return AddResult::Failed;
            }
            match &resp.result {
                JsonValue::Array(ids) => {
                    if ids.len() == 0 {
                        AddResult::Failed
                    } else {
                        match &ids[0] {
                            JsonValue::Null => AddResult::Conflict,
                            _ => AddResult::Assigned,
                        }
                    }
                },
                _ => AddResult::Failed,
            }
        },
        Reply::TransportError => AddResult::Failed,
    }
}

/// Builds the search `deck:<deck> <front>`.
pub fn notes_query(deck: &str, front: &str) -> (r: String)
    ensures
        r@ == note_query(deck@, front@),
{
    let mut q = String::from_str("deck:");
    q.append(deck);
    q.append(" ");
    q.append(front);
    proof {
        reveal_strlit("deck:");
        reveal_strlit(" ");
        assert(q@ =~= note_query(deck@, front@));
    }
    q
}

/// Whether `s` ends in more than `MAX_TRAILING_SPACES` spaces.
pub fn too_many_trailing_spaces(s: &str) -> (r: bool)
    ensures
        r == (trailing_spaces(s@) > MAX_TRAILING_SPACES),
{
    let cap: u8 = MAX_TRAILING_SPACES + 1;
    let mut count: u8 = 0;
    for c in it: s.chars()
        invariant
            it.seq() == s@,
            cap == MAX_TRAILING_SPACES + 1,
            count as nat == if trailing_spaces(s@.take(it.index() as int)) > cap {
                cap as nat
            } else {
                trailing_spaces(s@.take(it.index() as int))
            },
    {
        proof {
            assert(s@.take(it.index() + 1).drop_last() == s@.take(it.index() as int));
        }
        if c == ' ' {
            if count < cap {
                count = count + 1;
            }
        } else {
            count = 0;
        }
    }
    proof {
        assert(s@.take(s@.len() as int) == s@);
    }
    count > MAX_TRAILING_SPACES
}

/// `b` is `a` with the front of its first note replaced by `front`.
pub open spec fn same_but_front(a: AddNotes, b: AddNotes, front: Seq<char>) -> bool {
    &&& b.action == a.action
    &&& b.version == a.version
    &&& b.params.notes@.len() == a.params.notes@.len()
    &&& forall|i: int| 1 <= i < a.params.notes@.len() ==> b.params.notes@[i] == a.params.notes@[i]
    &&& b.params.notes@[0].deck_name == a.params.notes@[0].deck_name
    &&& b.params.notes@[0].model_name == a.params.notes@[0].model_name
    &&& b.params.notes@[0].fields.back == a.params.notes@[0].fields.back
    &&& b.params.notes@[0].tags == a.params.notes@[0].tags
    &&& b.params.notes@[0].audio == a.params.notes@[0].audio
    &&& b.params.notes@[0].video == a.params.notes@[0].video
    &&& b.params.notes@[0].picture == a.params.notes@[0].picture
    &&& b.params.notes@[0].fields.front@ == front
}

/// Appends one space to the front of the first note, so that it differs from a
/// note of another deck; refuses once the front ends in more than
/// `MAX_TRAILING_SPACES` spaces.
pub fn add_space_to_note(add_note: AddNotes) -> (r: Result<AddNotes, String>)
    requires
        add_note.params.notes@.len() >= 1,
    ensures
        r is Err <==> trailing_spaces(add_note.params.notes@[0].fields.front@) > MAX_TRAILING_SPACES,
        r matches Ok(n) ==> same_but_front(
            add_note,
            n,
            add_note.params.notes@[0].fields.front@.push(' '),
        ),
{
    if too_many_trailing_spaces(add_note.params.notes[0].fields.front.as_str()) {
        return Err(String::from_str("Too many instances"));
    }
    let AddNotes { action, version, params } = add_note;
    let mut notes = params.notes;
    let first = notes.remove(0);
    let Note { deck_name, model_name, fields, tags, audio, video, picture } = first;
    let mut front = fields.front;
    let ghost before = front@;
    front.append(" ");
    proof {
        reveal_strlit(" ");
        assert(front@ =~= before.push(' '));
    }
    let note = Note {
        deck_name,
        model_name,
        fields: crate::models::add_notes::NoteFields { front, back: fields.back },
        tags,
        audio,
        video,
        picture,
    };
    notes.insert(0, note);
    proof {
        assert(forall|i: int| 1 <= i < notes@.len() ==> notes@[i] == add_note.params.notes@[i]);
    }
    Ok(AddNotes { action, version, params: crate::models::add_notes::NotesParams { notes } })
}

/// The filing of one note: ensure its deck, look for it in the deck, send it, and
/// on a conflict with another deck retry with one more trailing space on the front.
/// The caller sends each requested step and hands the reply back to `advance`.
#[derive(Debug)]
pub struct NoteCreation {
    pub note: AddNotes,
    pub stage: Stage,
}

impl View for NoteCreation {
    type V = CreationView;

    open spec fn view(&self) -> CreationView {
        CreationView {
            deck: self.note.params.notes@[0].deck_name@,
            front: self.note.params.notes@[0].fields.front@,
            back: self.note.params.notes@[0].fields.back@,
            stage: self.stage,
        }
    }
}

impl NoteCreation {
    /// The note held is the single "Basic" note that is sent.
    pub open spec fn wf(&self) -> bool {
        self.note.is_single_note(self@.deck, self@.front, self@.back)
    }

    /// Starts filing the first note of `add_cards`; the first step lists the decks.
    pub fn new(add_cards: AddNotes) -> (r: (NoteCreation, Step))
        requires
            add_cards.params.notes@.len() >= 1,
        ensures
            r.0.wf(),
            r.0@ == start(
                add_cards.params.notes@[0].deck_name@,
                add_cards.params.notes@[0].fields.front@,
                add_cards.params.notes@[0].fields.back@,
            ),
            carries(r.1, StepView::ListDecks),
    {
        let first = &add_cards.params.notes[0];
        let note = AddNotes::new(
            first.deck_name.clone(),
            first.fields.front.clone(),
            first.fields.back.clone(),
        );
        (NoteCreation { note, stage: Stage::ListingDecks }, Step::Send(Request::ListDecks(DeckName::new())))
    }

    /// Takes the reply to the last request and moves on, as `next` says.
    pub fn advance(self, reply: &Reply) -> (r: (NoteCreation, Step))
        requires
            self.wf(),
        ensures
            r.0.wf(),
            r.0@ == next(self@, *reply).0,
            carries(r.1, next(self@, *reply).1),
    {
        let stage = self.stage;
        match stage {
            Stage::ListingDecks => {
                let deck = &self.note.params.notes[0].deck_name;
                if deck_exists(reply, deck) {
                    let q = notes_query(deck.as_str(), self.note.params.notes[0].fields.front.as_str());
                    let find = FindNotes::new(q.as_str());
                    (NoteCreation { note: self.note, stage: Stage::FindingNotes }, Step::Send(Request::FindNotes(find)))
                } else {
                    let create = CreateDeck::new(deck.clone());
                    (NoteCreation { note: self.note, stage: Stage::CreatingDeck }, Step::Send(Request::CreateDeck(create)))
                }
            },
            Stage::CreatingDeck => {
                if let Reply::TransportError = reply {
                    (NoteCreation { note: self.note, stage: Stage::Finished(Outcome::TransportFailed) }, Step::Done(Outcome::TransportFailed))
                } else {
                    let q = notes_query(
                        self.note.params.notes[0].deck_name.as_str(),
                        self.note.params.notes[0].fields.front.as_str(),
                    );
                    let find = FindNotes::new(q.as_str());
                    (NoteCreation { note: self.note, stage: Stage::FindingNotes }, Step::Send(Request::FindNotes(find)))
                }
            },
            Stage::FindingNotes => {
                if note_exists(reply) {
                    (NoteCreation { note: self.note, stage: Stage::Finished(Outcome::AlreadyExistsLocally) }, Step::Done(Outcome::AlreadyExistsLocally))
                } else {
                    let first = &self.note.params.notes[0];
                    let add = AddNotes::new(
                        first.deck_name.clone(),
                        first.fields.front.clone(),
                        first.fields.back.clone(),
                    );
                    (NoteCreation { note: self.note, stage: Stage::AddingNotes }, Step::Send(Request::AddNotes(add)))
                }
            },
            Stage::AddingNotes => {
                match already_exists(reply) {
                    AddResult::Assigned => (NoteCreation { note: self.note, stage: Stage::Finished(Outcome::Created) }, Step::Done(Outcome::Created)),
                    AddResult::Failed => (NoteCreation { note: self.note, stage: Stage::Finished(Outcome::TransportFailed) }, Step::Done(Outcome::TransportFailed)),
                    AddResult::Conflict => {
                        if too_many_trailing_spaces(self.note.params.notes[0].fields.front.as_str()) {
                            let unresolved = Outcome::AlreadyExistsElsewhereUnresolved;
                            (NoteCreation { note: self.note, stage: Stage::Finished(unresolved) }, Step::Done(unresolved))
                        } else {
                            match add_space_to_note(self.note) {
                                Ok(note) => (NoteCreation { note, stage: Stage::ListingDecks }, Step::Send(Request::ListDecks(DeckName::new()))),
                                Err(_) => {
                                    // The trailing spaces were counted just above: no refusal here.
                                    proof {
                                        assert(false);
                                    }
                                    let failed = Outcome::TransportFailed;
                                    let note = AddNotes::new(String::new(), String::new(), String::new());
                                    (NoteCreation { note, stage: Stage::Finished(failed) }, Step::Done(failed))
                                },
                            }
                        }
                    },
                }
            },
            Stage::Finished(o) => (NoteCreation { note: self.note, stage: Stage::Finished(o) }, Step::Done(o)),
        }
    }
}

} // verus!
