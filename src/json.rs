//! A JSON document as plain values.
use vstd::prelude::*;

verus! {

/// A JSON value. Numbers keep their decimal text; an object keeps its members
/// in order, each key once.
#[derive(Debug)]
pub enum Json {
    Null,
    Bool(bool),
    Number(String),
    Str(String),
    Array(Vec<Json>),
    Object(Vec<(String, Json)>),
}

/// The value of the first member of `fields` whose key is `key`.
pub open spec fn member_of(fields: Seq<(String, Json)>, key: Seq<char>) -> Option<Json>
    decreases fields.len(),
{
    if fields.len() == 0 {
        None
    } else if fields[0].0@ == key {
        Some(fields[0].1)
    } else {
        member_of(fields.drop_first(), key)
    }
}

impl Json {
    /// What `get(key)` returns: the member `key` of an object, nothing for any
    /// other value.
    pub open spec fn field(self, key: Seq<char>) -> Option<Json> {
        match self {
            Json::Object(fields) => member_of(fields@, key),
            _ => None,
        }
    }

    /// Looks up the member `key` of an object.
    pub fn get(&self, key: &str) -> (r: Option<&Json>)
        ensures
            r is Some <==> self.field(key@) is Some,
            r is Some ==> r->0 == self.field(key@)->0,
    {
        match self {
            Json::Object(fields) => {
                let wanted = key.to_owned();
                let mut i: usize = 0;
                assert(fields@.subrange(0, fields@.len() as int) =~= fields@);
                while i < fields.len()
                    invariant
                        i <= fields@.len(),
                        wanted@ == key@,
                        self.field(key@) == member_of(fields@, key@),
                        member_of(fields@, key@) == member_of(fields@.subrange(i as int, fields@.len() as int), key@),
                    decreases fields@.len() - i,
                {
                    assert(fields@.subrange(i as int, fields@.len() as int).drop_first()
                        =~= fields@.subrange(i + 1, fields@.len() as int));
                    assert(fields@.subrange(i as int, fields@.len() as int)[0] == fields@[i as int]);
                    if fields[i].0 == wanted {
                        return Some(&fields[i].1);
                    }
                    i = i + 1;
                }
                None
            },
            _ => None,
        }
    }

    /// The elements of an array.
    pub fn as_array(&self) -> (r: Option<&Vec<Json>>)
        ensures
            match self {
                Json::Array(items) => r is Some && r->0 == items,
                _ => r is None,
            },
    {
        match self {
            Json::Array(items) => Some(items),
            _ => None,
        }
    }

    /// The text of a string.
    pub fn as_str(&self) -> (r: Option<&str>)
        ensures
            match self {
                Json::Str(s) => r is Some && r->0@ == s@,
                _ => r is None,
            },
    {
        match self {
            Json::Str(s) => Some(s.as_str()),
            _ => None,
        }
    }
}

} // verus!
