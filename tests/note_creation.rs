use anki_notes::anki::{
    add_space_to_note, already_exists, deck_exists, note_exists, notes_query, too_many_trailing_spaces, AddResult,
    NoteCreation, Outcome, RemoteResponse, Reply, Request, Stage, Step,
};
use anki_notes::json::{JsonValue, Member};
use anki_notes::models::add_notes::AddNotes;
use anki_notes::models::create_deck::CreateDeck;
use anki_notes::models::deck_name::DeckName;
use anki_notes::models::find_notes::FindNotes;

const WORD: &str = "application";
const TRANSLATION: &str = "εφαρμογή";
const EXISTING_DECK: &str = "DeckTesting";
const NEW_DECK: &str = "DifferentDeck";

fn ok(result: JsonValue) -> Reply {
    Reply::Response(RemoteResponse { result, error: None })
}

fn ids(values: Vec<JsonValue>) -> Reply {
    ok(JsonValue::Array(values))
}

fn id(n: u64) -> JsonValue {
    JsonValue::Number(n.to_string())
}

fn deck_list() -> Reply {
    let member = |key: &str, n: u64| Member { key: key.to_string(), value: JsonValue::Array(vec![id(n)]) };
    ok(JsonValue::Object(vec![
        member("Default", 1496198395707),
        member("English", 1676819787730),
        member(EXISTING_DECK, 1690315099005),
    ]))
}

fn expect_list_decks(step: &Step) {
    match step {
        Step::Send(Request::ListDecks(d)) => {
            assert_eq!(d.action, "deckNamesAndIds");
            assert_eq!(d.version, 6);
        }
        other => panic!("expected deckNamesAndIds, got {:?}", other),
    }
}

fn expect_find(step: &Step, query: &str) {
    match step {
        Step::Send(Request::FindNotes(f)) => {
            assert_eq!(f.action, "findNotes");
            assert_eq!(f.version, 6);
            assert_eq!(f.params.query, query);
        }
        other => panic!("expected findNotes, got {:?}", other),
    }
}

fn expect_add(step: &Step, deck: &str, front: &str, back: &str) {
    match step {
        Step::Send(Request::AddNotes(a)) => {
            assert_eq!(a.action, "addNotes");
            assert_eq!(a.version, 6);
            assert_eq!(a.params.notes.len(), 1);
            let n = &a.params.notes[0];
            assert_eq!(n.deck_name, deck);
            assert_eq!(n.model_name, "Basic");
            assert_eq!(n.fields.front, front);
            assert_eq!(n.fields.back, back);
            assert!(n.tags.is_none() && n.audio.is_none() && n.video.is_none() && n.picture.is_none());
        }
        other => panic!("expected addNotes, got {:?}", other),
    }
}

fn expect_done(step: &Step, outcome: Outcome) {
    match step {
        Step::Done(o) => assert_eq!(*o, outcome),
        other => panic!("expected the end, got {:?}", other),
    }
}

fn start(deck: &str, front: &str) -> (NoteCreation, Step) {
    NoteCreation::new(AddNotes::new(deck.to_string(), front.to_string(), TRANSLATION.to_string()))
}

fn is_add(step: &Step) -> bool {
    matches!(step, Step::Send(Request::AddNotes(_)))
}

#[test]
fn existing_deck_new_note() {
    let (c, step) = start(EXISTING_DECK, WORD);
    expect_list_decks(&step);
    let (c, step) = c.advance(&deck_list());
    expect_find(&step, "deck:DeckTesting application");
    let (c, step) = c.advance(&ids(vec![]));
    expect_add(&step, EXISTING_DECK, WORD, TRANSLATION);
    let (c, step) = c.advance(&ids(vec![id(1692010871488)]));
    expect_done(&step, Outcome::Created);
    assert_eq!(c.stage, Stage::Finished(Outcome::Created));
}

#[test]
fn new_deck_new_note() {
    let (c, step) = start(NEW_DECK, WORD);
    expect_list_decks(&step);
    let (c, step) = c.advance(&deck_list());
    match &step {
        Step::Send(Request::CreateDeck(d)) => {
            assert_eq!(d.action, "createDeck");
            assert_eq!(d.version, 6);
            assert_eq!(d.params.deck, NEW_DECK);
        }
        other => panic!("expected createDeck, got {:?}", other),
    }
    let (c, step) = c.advance(&ok(id(1692010870564)));
    expect_find(&step, "deck:DifferentDeck application");
    let (c, step) = c.advance(&ids(vec![]));
    expect_add(&step, NEW_DECK, WORD, TRANSLATION);
    let (_, step) = c.advance(&ids(vec![id(1692010871488)]));
    expect_done(&step, Outcome::Created);
}

#[test]
fn conflict_then_created_with_one_space() {
    let (c, _) = start(EXISTING_DECK, WORD);
    let (c, _) = c.advance(&deck_list());
    let (c, step) = c.advance(&ids(vec![]));
    expect_add(&step, EXISTING_DECK, "application", TRANSLATION);
    let (c, step) = c.advance(&ids(vec![JsonValue::Null]));
    expect_list_decks(&step);
    let (c, step) = c.advance(&deck_list());
    expect_find(&step, "deck:DeckTesting application ");
    let (c, step) = c.advance(&ids(vec![]));
    expect_add(&step, EXISTING_DECK, "application ", TRANSLATION);
    let (c, step) = c.advance(&ids(vec![id(1700000000000)]));
    expect_done(&step, Outcome::Created);
    assert_eq!(c.note.params.notes[0].fields.front, "application ");
}

#[test]
fn found_note_is_not_sent() {
    let (c, _) = start(EXISTING_DECK, WORD);
    let (c, _) = c.advance(&deck_list());
    let (c, step) = c.advance(&ids(vec![id(1)]));
    expect_done(&step, Outcome::AlreadyExistsLocally);
    let (_, step) = c.advance(&ids(vec![]));
    expect_done(&step, Outcome::AlreadyExistsLocally);
}

#[test]
fn second_creation_of_same_note_sends_nothing() {
    let (c, _) = start(EXISTING_DECK, WORD);
    let (c, _) = c.advance(&deck_list());
    let (c, _) = c.advance(&ids(vec![]));
    let (_, step) = c.advance(&ids(vec![id(1692010871488)]));
    expect_done(&step, Outcome::Created);

    let (c, _) = start(EXISTING_DECK, WORD);
    let (c, step) = c.advance(&deck_list());
    expect_find(&step, "deck:DeckTesting application");
    let (_, step) = c.advance(&ids(vec![id(1692010871488)]));
    assert!(!is_add(&step));
    expect_done(&step, Outcome::AlreadyExistsLocally);
}

fn count_adds_under_conflict(front: &str) -> (usize, Outcome) {
    let (mut c, mut step) = start(EXISTING_DECK, front);
    let mut adds = 0;
    for _ in 0..100 {
        let reply = match &step {
            Step::Done(o) => return (adds, *o),
            Step::Send(Request::ListDecks(_)) => deck_list(),
            Step::Send(Request::CreateDeck(_)) => ok(id(1)),
            Step::Send(Request::FindNotes(_)) => ids(vec![]),
            Step::Send(Request::AddNotes(_)) => {
                adds += 1;
                ids(vec![JsonValue::Null])
            }
        };
        let (c2, s2) = c.advance(&reply);
        c = c2;
        step = s2;
    }
    panic!("the creation did not end");
}

#[test]
fn persistent_conflict_ends_unresolved() {
    assert_eq!(count_adds_under_conflict("application "), (6, Outcome::AlreadyExistsElsewhereUnresolved));
    assert_eq!(count_adds_under_conflict("application"), (7, Outcome::AlreadyExistsElsewhereUnresolved));
    assert_eq!(count_adds_under_conflict("application      "), (1, Outcome::AlreadyExistsElsewhereUnresolved));
}

#[test]
fn listing_failure_still_creates_deck() {
    let (c, _) = start(EXISTING_DECK, WORD);
    let (c, step) = c.advance(&Reply::TransportError);
    assert!(matches!(step, Step::Send(Request::CreateDeck(_))));
    let (_, step) = c.advance(&Reply::TransportError);
    expect_done(&step, Outcome::TransportFailed);
}

#[test]
fn deck_creation_error_reply_goes_on() {
    let (c, _) = start(NEW_DECK, WORD);
    let (c, _) = c.advance(&deck_list());
    let reply = Reply::Response(RemoteResponse { result: JsonValue::Null, error: Some("exists".to_string()) });
    let (_, step) = c.advance(&reply);
    expect_find(&step, "deck:DifferentDeck application");
}

#[test]
fn add_failures_end_transport_failed() {
    let failures = vec![
        Reply::TransportError,
        Reply::Response(RemoteResponse { result: JsonValue::Array(vec![id(5)]), error: Some("boom".to_string()) }),
        ok(JsonValue::Null),
        ids(vec![]),
    ];
    for reply in failures {
        let (c, _) = start(EXISTING_DECK, WORD);
        let (c, _) = c.advance(&deck_list());
        let (c, _) = c.advance(&ids(vec![]));
        let (_, step) = c.advance(&reply);
        expect_done(&step, Outcome::TransportFailed);
    }
}

#[test]
fn readers_of_replies() {
    assert!(deck_exists(&deck_list(), &EXISTING_DECK.to_string()));
    assert!(!deck_exists(&deck_list(), &NEW_DECK.to_string()));
    assert!(!deck_exists(&Reply::TransportError, &EXISTING_DECK.to_string()));
    assert!(note_exists(&ids(vec![id(3)])));
    assert!(!note_exists(&ids(vec![])));
    let with_error = Reply::Response(RemoteResponse { result: JsonValue::Array(vec![id(3)]), error: Some("e".to_string()) });
    assert!(!note_exists(&with_error));
    assert_eq!(already_exists(&ids(vec![JsonValue::Null])), AddResult::Conflict);
    assert_eq!(already_exists(&ids(vec![id(9)])), AddResult::Assigned);
    assert_eq!(already_exists(&with_error), AddResult::Failed);
}

#[test]
fn query_and_spaces() {
    assert_eq!(notes_query("DeckTesting", "application"), "deck:DeckTesting application");
    assert!(!too_many_trailing_spaces("a     "));
    assert!(too_many_trailing_spaces("a      "));
    assert!(!too_many_trailing_spaces(""));
    assert!(!too_many_trailing_spaces("      a"));
}

#[test]
fn add_space_to_note_appends_or_refuses() {
    let n = add_space_to_note(AddNotes::new("D".to_string(), "w".to_string(), "b".to_string())).unwrap();
    assert_eq!(n.params.notes[0].fields.front, "w ");
    assert_eq!(n.params.notes[0].fields.back, "b");
    assert_eq!(n.params.notes[0].deck_name, "D");
    let full = AddNotes::new("D".to_string(), "w      ".to_string(), "b".to_string());
    assert!(add_space_to_note(full).is_err());
}

#[test]
fn request_constructors() {
    let d = DeckName::new();
    assert_eq!((d.action.as_str(), d.version), ("deckNamesAndIds", 6));
    let c = CreateDeck::new("X".to_string());
    assert_eq!((c.action.as_str(), c.params.deck.as_str()), ("createDeck", "X"));
    let f = FindNotes::new("deck:X y");
    assert_eq!((f.action.as_str(), f.params.query.as_str()), ("findNotes", "deck:X y"));
}
