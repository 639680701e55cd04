use vstd::prelude::*;
use vstd::string::*;

use crate::models::add_notes::PROTOCOL_VERSION;

verus! {

/// A `createDeck` request.
#[derive(Debug)]
pub struct CreateDeck {
    pub action: String,
    pub version: u32,
    pub params: DeckName,
}

/// The parameters of a `createDeck` request: the deck to create.
#[derive(Debug)]
pub struct DeckName {
    pub deck: String,
}

pub open spec fn create_deck_action() -> Seq<char> {
    seq!['c', 'r', 'e', 'a', 't', 'e', 'D', 'e', 'c', 'k']
}

impl CreateDeck {
    /// The request creates the deck named `deck`.
    pub open spec fn creates(&self, deck: Seq<char>) -> bool {
        &&& self.action@ == create_deck_action()
        &&& self.version == PROTOCOL_VERSION
        &&& self.params.deck@ == deck
    }

    pub fn new(deck: String) -> (r: Self)
        ensures
            r.creates(deck@),
    {
        let action = String::from_str("createDeck");
        proof {
            reveal_strlit("createDeck");
            assert(action@ =~= create_deck_action());
        }
        CreateDeck { action, version: PROTOCOL_VERSION, params: DeckName { deck } }
    }
}

} // verus!
