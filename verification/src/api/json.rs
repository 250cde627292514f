//! A parsed document, as far as the fetchers read it.

use vstd::prelude::*;
use sonic_rs::{JsonContainerTrait, JsonValueTrait};

verus! {

/// A parsed document. Numbers are kept as a mark only: nothing here reads
/// their value.
#[derive(Debug)]
pub enum Json {
    Null,
    Bool(bool),
    Number,
    Text(String),
    Array(Vec<Json>),
    /// The members in the order of the text, repeated names included.
    Object(Vec<(String, Json)>),
}

/// The document that the outside crate holds.
#[verifier::external_type_specification]
#[verifier::external_body]
pub struct ExValue(sonic_rs::Value);

/// The document that `sonic_rs::from_str` reads from `text`, or `None`
/// where it rejects the text.
pub uninterp spec fn json_of(text: Seq<char>) -> Option<Json>;

/// Copies a `sonic_rs::Value`, kind by kind, as its methods `as_str`,
/// `as_array`, `as_object`, `as_bool` and `is_null` tell them apart: a text,
/// the elements of an array in order, the members of an object in order, a
/// truth value, null; what is left is a number. Nothing is claimed of the
/// copy here; `read_json` names what it hands out.
#[verifier::external_body]
fn convert_json(value: &sonic_rs::Value) -> Json {
    if let Some(text) = value.as_str() {
        Json::Text(text.to_string())
    } else if let Some(array) = value.as_array() {
        Json::Array(array.iter().map(convert_json).collect())
    } else if let Some(object) = value.as_object() {
        Json::Object(object.iter().map(|(k, v)| (k.to_string(), convert_json(v))).collect())
    } else if let Some(truth) = value.as_bool() {
        Json::Bool(truth)
    } else if value.is_null() {
        Json::Null
    } else {
        Json::Number
    }
}

/// Calls `sonic_rs::from_str` for a whole `sonic_rs::Value` and copies what
/// it read. The result depends on the text alone: it is the named document.
#[verifier::external_body]
fn read_json(text: &str) -> (r: Option<Json>)
    ensures
        r == json_of(text@),
{
    match sonic_rs::from_str::<sonic_rs::Value>(text) {
        Ok(value) => Some(convert_json(&value)),
        Err(_) => None,
    }
}

/// The value of the first member named `key`, if there is one.
pub open spec fn first_named(members: Seq<(String, Json)>, key: Seq<char>) -> Option<Json>
    decreases members.len(),
{
    if members.len() == 0 {
        None
    } else if members[0].0@ == key {
        Some(members[0].1)
    } else {
        first_named(members.drop_first(), key)
    }
}

proof fn lemma_first_named_found(members: Seq<(String, Json)>, key: Seq<char>, i: int)
    requires
        0 <= i < members.len(),
        members[i].0@ == key,
        forall|j: int| 0 <= j < i ==> members[j].0@ != key,
    ensures
        first_named(members, key) == Some(members[i].1),
    decreases i,
{
    if i > 0 {
        let rest = members.drop_first();
        assert forall|j: int| 0 <= j < i - 1 implies rest[j].0@ != key by {
            assert(rest[j] == members[j + 1]);
        }
        assert(rest[i - 1] == members[i]);
        lemma_first_named_found(rest, key, i - 1);
    }
}

proof fn lemma_first_named_missing(members: Seq<(String, Json)>, key: Seq<char>)
    requires
        forall|j: int| 0 <= j < members.len() ==> members[j].0@ != key,
    ensures
        first_named(members, key) is None,
    decreases members.len(),
{
    if members.len() > 0 {
        let rest = members.drop_first();
        assert forall|j: int| 0 <= j < rest.len() implies rest[j].0@ != key by {
            assert(rest[j] == members[j + 1]);
        }
        lemma_first_named_missing(rest, key);
    }
}

impl Json {
    /// The member named `key` of an object: the first, where the name is
    /// repeated. Anything but an object has no members.
    pub open spec fn member_spec(self, key: Seq<char>) -> Option<Json> {
        match self {
            Json::Object(members) => first_named(members@, key),
            _ => None,
        }
    }

    /// The element at `index` of an array. Anything but an array has no elements.
    pub open spec fn element_spec(self, index: int) -> Option<Json> {
        match self {
            Json::Array(elements) => if 0 <= index < elements.len() {
                Some(elements[index])
            } else {
                None
            },
            _ => None,
        }
    }

    /// The text of a text value. Anything else has none.
    pub open spec fn text_spec(self) -> Option<Seq<char>> {
        match self {
            Json::Text(text) => Some(text@),
            _ => None,
        }
    }

    /// The elements of an array. Anything else has none.
    pub open spec fn elements_spec(self) -> Option<Seq<Json>> {
        match self {
            Json::Array(elements) => Some(elements@),
            _ => None,
        }
    }

    /// The member named `key`, or null where there is none.
    pub open spec fn at(self, key: Seq<char>) -> Json {
        match self.member_spec(key) {
            Some(value) => value,
            None => Json::Null,
        }
    }

    /// Reads a whole document from its text.
    pub fn parse(text: &str) -> (r: Option<Json>)
        ensures
            r == json_of(text@),
    {
        read_json(text)
    }

    /// The member named `key` of an object.
    pub fn member(&self, key: &str) -> (r: Option<&Json>)
        ensures
            match r {
                Some(value) => self.member_spec(key@) == Some(*value),
                None => self.member_spec(key@) is None,
            },
    {
        match self {
            Json::Object(members) => {
                let name = key.to_owned();
                let mut i: usize = 0;
                while i < members.len()
                    invariant
                        i <= members.len(),
                        name@ == key@,
                        self.member_spec(key@) == first_named(members@, key@),
                        forall|j: int| 0 <= j < i ==> members[j].0@ != key@,
                    decreases members.len() - i,
                {
                    if members[i].0 == name {
                        let found = &members[i].1;
                        proof {
                            lemma_first_named_found(members@, key@, i as int);
                        }
                        return Some(found);
                    }
                    i += 1;
                }
                proof {
                    lemma_first_named_missing(members@, key@);
                }
                None
            },
            _ => None,
        }
    }

    /// The element at `index` of an array.
    pub fn element(&self, index: usize) -> (r: Option<&Json>)
        ensures
            match r {
                Some(value) => self.element_spec(index as int) == Some(*value),
                None => self.element_spec(index as int) is None,
            },
    {
        match self {
            Json::Array(elements) => if index < elements.len() {
                Some(&elements[index])
            } else {
                None
            },
            _ => None,
        }
    }

    /// The text of a text value.
    pub fn as_str(&self) -> (r: Option<String>)
        ensures
            match r {
                Some(text) => self.text_spec() == Some(text@),
                None => self.text_spec() is None,
            },
    {
        match self {
            Json::Text(text) => Some(text.clone()),
            _ => None,
        }
    }
}

/// The decimal digit `d` as text.
pub open spec fn digit_text(d: nat) -> Seq<char> {
    if d == 0 {
        "0"@
    } else if d == 1 {
        "1"@
    } else if d == 2 {
        "2"@
    } else if d == 3 {
        "3"@
    } else if d == 4 {
        "4"@
    } else if d == 5 {
        "5"@
    } else if d == 6 {
        "6"@
    } else if d == 7 {
        "7"@
    } else if d == 8 {
        "8"@
    } else {
        "9"@
    }
}

/// The decimal notation of `n`, without leading zeros.
pub open spec fn decimal(n: nat) -> Seq<char>
    decreases n,
{
    if n < 10 {
        digit_text(n)
    } else {
        decimal(n / 10) + digit_text(n % 10)
    }
}

fn digit_str(d: u32) -> (s: &'static str)
    requires
        d < 10,
    ensures
        s@ == digit_text(d as nat),
{
    if d == 0 {
        "0"
    } else if d == 1 {
        "1"
    } else if d == 2 {
        "2"
    } else if d == 3 {
        "3"
    } else if d == 4 {
        "4"
    } else if d == 5 {
        "5"
    } else if d == 6 {
        "6"
    } else if d == 7 {
        "7"
    } else if d == 8 {
        "8"
    } else {
        "9"
    }
}

/// Writes a number in decimal notation.
pub fn decimal_string(n: u32) -> (s: String)
    ensures
        s@ == decimal(n as nat),
    decreases n,
{
    if n < 10 {
        digit_str(n).to_owned()
    } else {
        let head = decimal_string(n / 10);
        vstd::string::StringExecFns::concat(head, digit_str(n % 10))
    }
}

} // verus!
