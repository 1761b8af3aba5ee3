use crate::text::str_equal;
use vstd::prelude::*;
use vstd::string::*;

verus! {

/// A value of a self-describing record format, as it came off the wire.
/// A number keeps the text in which it was written. An object keeps its
/// members in order; where a key occurs twice, the first member counts.
#[derive(Debug, PartialEq, Eq)]
pub enum JsonValue {
    Null,
    Bool(bool),
    Number(String),
    Text(String),
    Array(Vec<JsonValue>),
    Object(Vec<(String, JsonValue)>),
}

/// The value of the first member named `key` at or after `start`.
pub open spec fn member_from(members: Seq<(String, JsonValue)>, key: Seq<char>, start: int)
    -> Option<JsonValue>
    decreases members.len() - start,
{
    if start < 0 || start >= members.len() {
        None
    } else if members[start].0@ == key {
        Some(members[start].1)
    } else {
        member_from(members, key, start + 1)
    }
}

impl JsonValue {
    /// The member named `key`, where the value is an object that has one.
    pub open spec fn member(self, key: Seq<char>) -> Option<JsonValue> {
        match self {
            JsonValue::Object(members) => member_from(members@, key, 0),
            _ => None,
        }
    }

    /// The characters, where the value is a text.
    pub open spec fn text(self) -> Option<Seq<char>> {
        match self {
            JsonValue::Text(text) => Some(text@),
            _ => None,
        }
    }

    /// The items, where the value is an array.
    pub open spec fn items(self) -> Option<Seq<JsonValue>> {
        match self {
            JsonValue::Array(items) => Some(items@),
            _ => None,
        }
    }

    /// The characters of the member named `key`, where that member is a text.
    pub open spec fn member_text(self, key: Seq<char>) -> Option<Seq<char>> {
        match self.member(key) {
            Some(value) => value.text(),
            None => None,
        }
    }

    /// The items of the member named `key`, where that member is an array.
    pub open spec fn member_items(self, key: Seq<char>) -> Option<Seq<JsonValue>> {
        match self.member(key) {
            Some(value) => value.items(),
            None => None,
        }
    }

    pub fn get(&self, key: &str) -> (res: Option<&JsonValue>)
        ensures
            match res {
                Some(value) => self.member(key@) == Some(*value),
                None => self.member(key@) is None,
            },
    {
        match self {
            JsonValue::Object(members) => {
                let mut i: usize = 0;
                while i < members.len()
                    invariant
                        i <= members.len(),
                        self.member(key@) == member_from(members@, key@, i as int),
                    decreases members.len() - i,
                {
                    if str_equal(members[i].0.as_str(), key) {
                        return Some(&members[i].1);
                    }
                    i += 1;
                }
                None
            },
            _ => None,
        }
    }

    pub fn as_str(&self) -> (res: Option<&str>)
        ensures
            match res {
                Some(text) => self.text() == Some(text@),
                None => self.text() is None,
            },
    {
        match self {
            JsonValue::Text(text) => Some(text.as_str()),
            _ => None,
        }
    }

    pub fn as_array(&self) -> (res: Option<&Vec<JsonValue>>)
        ensures
            match res {
                Some(items) => self.items() == Some(items@),
                None => self.items() is None,
            },
    {
        match self {
            JsonValue::Array(items) => Some(items),
            _ => None,
        }
    }

    /// The text of the member named `key`.
    pub fn get_str(&self, key: &str) -> (res: Option<&str>)
        ensures
            match res {
                Some(text) => self.member_text(key@) == Some(text@),
                None => self.member_text(key@) is None,
            },
    {
        match self.get(key) {
            Some(value) => value.as_str(),
            None => None,
        }
    }

    /// The items of the member named `key`.
    pub fn get_array(&self, key: &str) -> (res: Option<&Vec<JsonValue>>)
        ensures
            match res {
                Some(items) => self.member_items(key@) == Some(items@),
                None => self.member_items(key@) is None,
            },
    {
        match self.get(key) {
            Some(value) => value.as_array(),
            None => None,
        }
    }
}

impl JsonValue {
    /// Takes the member named `key` out of the value.
    pub fn take_member(self, key: &str) -> (res: Option<JsonValue>)
        ensures
            res == self.member(key@),
    {
        let ghost wanted = self.member(key@);
        match self {
            JsonValue::Object(members) => {
                let mut members = members;
                let ghost all = members@;
                let mut i: usize = 0;
                while i < members.len()
                    invariant
                        i <= members.len(),
                        members@ == all,
                        wanted == self.member(key@),
                        wanted == member_from(all, key@, i as int),
                    decreases members.len() - i,
                {
                    if str_equal(members[i].0.as_str(), key) {
                        let member = members.swap_remove(i);
                        return Some(member.1);
                    }
                    i += 1;
                }
                None
            },
            _ => None,
        }
    }

    /// Takes the items out of the value.
    pub fn into_array(self) -> (res: Option<Vec<JsonValue>>)
        ensures
            match res {
                Some(items) => self.items() == Some(items@),
                None => self.items() is None,
            },
    {
        match self {
            JsonValue::Array(items) => Some(items),
            _ => None,
        }
    }
}

} // verus!
