use vstd::prelude::*;
use vstd::string::*;

use crate::models::add_notes::PROTOCOL_VERSION;

verus! {

/// A `findNotes` request: a search in the flashcard service's query language.
#[derive(Debug)]
pub struct FindNotes {
    pub action: String,
    pub version: u32,
    pub params: QueryParams,
}

#[derive(Debug)]
pub struct QueryParams {
    pub query: String,
}

pub open spec fn find_notes_action() -> Seq<char> {
    seq!['f', 'i', 'n', 'd', 'N', 'o', 't', 'e', 's']
}

impl FindNotes {
    pub open spec fn searches(&self, query: Seq<char>) -> bool {
        &&& self.action@ == find_notes_action()
        &&& self.version == PROTOCOL_VERSION
        &&& self.params.query@ == query
    }

    pub fn new(query: &str) -> (r: Self)
        ensures
            r.searches(query@),
    {
        let action = String::from_str("findNotes");
        proof {
            reveal_strlit("findNotes");
            assert(action@ =~= find_notes_action());
        }
        FindNotes { action, version: PROTOCOL_VERSION, params: QueryParams { query: query.to_owned() } }
    }
}

} // verus!
