//! JSON values as this library reads them.
//!
//! [`Json`] mirrors `serde_json::Value` variant for variant, so that verified
//! code can look inside a document. Reading and printing JSON text is left to
//! `serde_json`.

use vstd::prelude::*;

verus! {

/// `serde_json::Number`, carried through unread.
#[verifier::external_type_specification]
#[verifier::external_body]
pub struct ExNumber(serde_json::Number);

/// A JSON value.
///
/// An object lists its members in order. Where a key occurs more than once,
/// the last member with that key is the one that counts.
#[derive(Debug, PartialEq, Eq)]
pub enum Json {
    Null,
    Bool(bool),
    Number(serde_json::Number),
    Text(String),
    Array(Vec<Json>),
    Object(Vec<(String, Json)>),
}

/// The value of the last member of `members` whose key is `key`.
pub open spec fn member(members: Seq<(String, Json)>, key: Seq<char>) -> Option<Json>
    decreases members.len(),
{
    if members.len() == 0 {
        None
    } else if members.last().0@ == key {
        Some(members.last().1)
    } else {
        member(members.drop_last(), key)
    }
}

impl Json {
    /// What `key` maps to, if this value is an object that has the key.
    pub open spec fn spec_get(self, key: Seq<char>) -> Option<Json> {
        match self {
            Json::Object(members) => member(members@, key),
            _ => None,
        }
    }

    /// The characters of this value, if it is a string.
    pub open spec fn spec_as_str(self) -> Option<Seq<char>> {
        match self {
            Json::Text(s) => Some(s@),
            _ => None,
        }
    }

    /// Looks `key` up in an object. Any other kind of value has no members.
    pub fn get(&self, key: &str) -> (found: Option<&Json>)
        ensures
            match found {
                Some(value) => self.spec_get(key@) == Some(*value),
                None => self.spec_get(key@) is None,
            },
    {
        match self {
            Json::Object(members) => {
                let wanted = key.to_owned();
                let mut i: usize = members.len();
                assert(members@.take(i as int) =~= members@);
                while i > 0
                    invariant
                        i <= members.len(),
                        wanted@ == key@,
                        self.spec_get(key@) == member(members@, key@),
                        member(members@, key@) == member(members@.take(i as int), key@),
                    decreases i,
                {
                    i = i - 1;
                    proof {
                        let upto = members@.take(i + 1);
                        assert(upto.last() == members@[i as int]);
                        assert(upto.drop_last() =~= members@.take(i as int));
                    }
                    if members[i].0 == wanted {
                        return Some(&members[i].1);
                    }
                }
                None
            },
            _ => None,
        }
    }

    /// The string slice inside a string value.
    pub fn as_str(&self) -> (text: Option<&str>)
        ensures
            match text {
                Some(s) => self.spec_as_str() == Some(s@),
                None => self.spec_as_str() is None,
            },
    {
        match self {
            Json::Text(s) => Some(s.as_str()),
            _ => None,
        }
    }
}

/// The characters of an optional string.
pub open spec fn text_of(text: Option<String>) -> Option<Seq<char>> {
    match text {
        Some(s) => Some(s@),
        None => None,
    }
}

/// The string that `value` holds under `field`, if there is one.
pub open spec fn string_field(value: Json, field: Seq<char>) -> Option<Seq<char>> {
    match value.spec_get(field) {
        Some(inner) => inner.spec_as_str(),
        None => None,
    }
}

/// Reads the member `field` of `value` as a string. There is none when
/// `value` is no object, has no such member, or the member is no string.
pub fn get_field_as_string(value: &Json, field: &str) -> (text: Option<String>)
    ensures
        text_of(text) == string_field(*value, field@),
{
    match value.get(field) {
        Some(inner) => match inner.as_str() {
            Some(s) => Some(s.to_owned()),
            None => None,
        },
        None => None,
    }
}

} // verus!
