use vstd::prelude::*;
use vstd::string::*;

use crate::models::add_notes::PROTOCOL_VERSION;

verus! {

/// A `deckNamesAndIds` request, which lists the decks by name.
#[derive(Debug)]
pub struct DeckName {
    pub action: String,
    pub version: u32,
}

pub open spec fn list_decks_action() -> Seq<char> {
    seq!['d', 'e', 'c', 'k', 'N', 'a', 'm', 'e', 's', 'A', 'n', 'd', 'I', 'd', 's']
}

impl DeckName {
    pub open spec fn lists_decks(&self) -> bool {
        &&& self.action@ == list_decks_action()
        &&& self.version == PROTOCOL_VERSION
    }

    pub fn new() -> (r: Self)
        ensures
            r.lists_decks(),
    {
        let action = String::from_str("deckNamesAndIds");
        proof {
            reveal_strlit("deckNamesAndIds");
            assert(action@ =~= list_decks_action());
        }
        DeckName { action, version: PROTOCOL_VERSION }
    }
}

} // verus!
