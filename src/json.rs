use vstd::prelude::*;

verus! {

/// A JSON value as the flashcard and translation services send it. Numbers keep
/// their text: the logic only tells them apart from `null`.
#[derive(Debug)]
pub enum JsonValue {
    Null,
    Bool(bool),
    Number(String),
    Text(String),
    Array(Vec<JsonValue>),
    Object(Vec<Member>),
}

/// One `"key": value` pair of a JSON object.
#[derive(Debug)]
pub struct Member {
    pub key: String,
    pub value: JsonValue,
}

/// The object `v` has a member named `key`.
pub open spec fn has_key(v: JsonValue, key: Seq<char>) -> bool {
    match v {
        JsonValue::Object(ms) => exists|i: int| 0 <= i < ms@.len() && #[trigger] ms@[i].key@ == key,
        _ => false,
    }
}

/// The value of the first member of `ms` named `key`.
pub open spec fn lookup(ms: Seq<Member>, key: Seq<char>) -> Option<JsonValue>
    decreases ms.len(),
{
    if ms.len() == 0 {
        None
    } else if ms[0].key@ == key {
        Some(ms[0].value)
    } else {
        lookup(ms.drop_first(), key)
    }
}

/// The value of the member `key` of the object `v`.
pub open spec fn member(v: JsonValue, key: Seq<char>) -> Option<JsonValue> {
    match v {
        JsonValue::Object(ms) => lookup(ms@, key),
        _ => None,
    }
}

impl JsonValue {
    pub fn get(&self, key: &String) -> (r: Option<&JsonValue>)
        ensures
            r matches Some(v) ==> member(*self, key@) == Some(*v),
            r is None ==> member(*self, key@) is None,
    {
        match self {
            JsonValue::Object(ms) => {
                let mut i: usize = 0;
                assert(ms@.skip(0) =~= ms@);
                while i < ms.len()
                    invariant
                        i <= ms@.len(),
                        *self == JsonValue::Object(*ms),
                        lookup(ms@, key@) == lookup(ms@.skip(i as int), key@),
                    decreases ms@.len() - i,
                {
                    proof {
                        assert(ms@.skip(i as int).drop_first() =~= ms@.skip(i + 1));
                    }
                    if ms[i].key.eq(key) {
                        return Some(&ms[i].value);
                    }
                    i = i + 1;
                }
                None
            },
            _ => None,
        }
    }

    pub fn contains_key(&self, key: &String) -> (r: bool)
        ensures
            r == has_key(*self, key@),
    {
        match self {
            JsonValue::Object(ms) => {
                let mut i: usize = 0;
                while i < ms.len()
                    invariant
                        i <= ms@.len(),
                        *self == JsonValue::Object(*ms),
                        forall|j: int| 0 <= j < i ==> #[trigger] ms@[j].key@ != key@,
                    decreases ms@.len() - i,
                {
                    if ms[i].key.eq(key) {
                        assert(ms@[i as int].key@ == key@);
                        return true;
                    }
                    i = i + 1;
                }
                false
            },
            _ => false,
        }
    }
}

} // verus!
