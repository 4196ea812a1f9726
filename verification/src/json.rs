//! A structured value as decoded from one text frame, and the envelope
//! unwrapping that descends through nested `"data"` members.

use vstd::prelude::*;

verus! {

/// What the session logic reads of a JSON number: its value as an unsigned
/// and as a signed 64-bit integer, each where the number is one.
#[derive(Clone, Copy, Debug, PartialEq, Eq)]
pub struct JsonNumber {
    pub unsigned: Option<u64>,
    pub signed: Option<i64>,
}

/// One member of a JSON object.
#[derive(Debug, PartialEq)]
pub struct Member {
    pub name: String,
    pub value: Json,
}

/// A decoded JSON value.
#[derive(Debug, PartialEq)]
pub enum Json {
    Null,
    Bool(bool),
    Number(JsonNumber),
    Text(String),
    Array(Vec<Json>),
    Object(Vec<Member>),
}

/// What `serde_json::from_str` makes of a text: the decoded value, or `None`
/// where the text is no JSON document.
pub uninterp spec fn parsed_value(text: Seq<char>) -> Option<Json>;

/// What a `serde_json::Value` holds.
pub uninterp spec fn value_contents(value: serde_json::Value) -> Json;

/// `serde_json::Value`, carried from the decoder to `json_of` and not looked
/// into.
#[verifier::external_type_specification]
#[verifier::external_body]
pub struct ExValue(serde_json::Value);

/// `serde_json::Error`, of which nothing is read.
#[verifier::external_type_specification]
#[verifier::external_body]
pub struct ExJsonError(serde_json::Error);

/// `serde_json::from_str` at `serde_json::Value`: the outcome depends on the
/// text alone, and a value that comes back holds what `parsed_value` names.
#[verifier::external_body]
fn value_from_str(text: &str) -> (r: Result<serde_json::Value, serde_json::Error>)
    ensures
        match r {
            Ok(value) => parsed_value(text@) == Some(value_contents(value)),
            Err(_) => parsed_value(text@) is None,
        },
{
    serde_json::from_str::<serde_json::Value>(text)
}

/// Copies a `serde_json::Value` out, variant by variant. A number keeps what
/// `Number::as_u64` and `Number::as_i64` give; an object's members come in
/// the order in which `Map::iter` hands them out.
#[verifier::external_body]
fn json_of(value: &serde_json::Value) -> (r: Json)
    ensures
        r == value_contents(*value),
{
    match value {
        serde_json::Value::Null => Json::Null,
        serde_json::Value::Bool(b) => Json::Bool(*b),
        serde_json::Value::Number(n) => Json::Number(
            JsonNumber { unsigned: n.as_u64(), signed: n.as_i64() },
        ),
        serde_json::Value::String(s) => Json::Text(s.clone()),
        serde_json::Value::Array(items) => Json::Array(items.iter().map(json_of).collect()),
        serde_json::Value::Object(map) => Json::Object(
            map.iter().map(|(k, v)| Member { name: k.clone(), value: json_of(v) }).collect(),
        ),
    }
}

/// Decodes a JSON text.
pub fn parse(text: &str) -> (r: Option<Json>)
    ensures
        r == parsed_value(text@),
{
    match value_from_str(text) {
        Ok(value) => Some(json_of(&value)),
        Err(_) => None,
    }
}

/// Index of the first member called `name`, if there is one.
pub open spec fn member_index(members: Seq<Member>, name: Seq<char>) -> Option<int>
    decreases members.len(),
{
    if members.len() == 0 {
        None
    } else if members[0].name@ == name {
        Some(0)
    } else {
        match member_index(members.skip(1), name) {
            Some(i) => Some(i + 1),
            None => None,
        }
    }
}

/// `member_index` finds a member with the name, and the first such.
pub proof fn lemma_member_index(members: Seq<Member>, name: Seq<char>)
    ensures
        match member_index(members, name) {
            Some(i) => 0 <= i < members.len() && members[i].name@ == name && forall|j: int|
                0 <= j < i ==> members[j].name@ != name,
            None => forall|j: int| 0 <= j < members.len() ==> members[j].name@ != name,
        },
    decreases members.len(),
{
    if members.len() != 0 && members[0].name@ != name {
        let rest = members.skip(1);
        lemma_member_index(rest, name);
        match member_index(rest, name) {
            Some(i) => {
                assert forall|j: int| 0 <= j < i + 1 implies members[j].name@ != name by {
                    if j > 0 {
                        assert(rest[j - 1] == members[j]);
                    }
                }
            },
            None => {
                assert forall|j: int| 0 <= j < members.len() implies members[j].name@ != name by {
                    if j > 0 {
                        assert(rest[j - 1] == members[j]);
                    }
                }
            },
        }
    }
}

/// Position of the first member called `name`.
pub fn find_member(members: &Vec<Member>, name: &String) -> (r: Option<usize>)
    ensures
        match r {
            Some(i) => member_index(members@, name@) == Some(i as int) && i < members.len(),
            None => member_index(members@, name@) is None,
        },
{
    let mut i: usize = 0;
    assert(members@.skip(0) == members@);
    while i < members.len()
        invariant
            i <= members.len(),
            member_index(members@, name@) == match member_index(members@.skip(i as int), name@) {
                Some(k) => Some(k + i),
                None => None,
            },
        decreases members.len() - i,
    {
        assert(members@.skip(i as int)[0] == members@[i as int]);
        assert(members@.skip(i as int).skip(1) == members@.skip(i as int + 1));
        if members[i].name == *name {
            return Some(i);
        }
        i += 1;
    }
    None
}

impl Json {
    /// The value of the member called `name`, where this is an object that
    /// has one; the first, should several carry the name.
    pub open spec fn member(self, name: Seq<char>) -> Option<Json> {
        match self {
            Json::Object(members) => match member_index(members@, name) {
                Some(i) => Some(members@[i].value),
                None => None,
            },
            _ => None,
        }
    }

    /// The innermost payload: the value reached by descending into the
    /// member `"data"` for as long as there is one.
    pub open spec fn unwrapped(self) -> Json
        decreases self,
        via Self::unwrapped_decreases
    {
        match self {
            Json::Object(members) => match member_index(members@, "data"@) {
                Some(i) => members@[i].value.unwrapped(),
                None => self,
            },
            _ => self,
        }
    }

    #[via_fn]
    proof fn unwrapped_decreases(self) {
        broadcast use vstd::std_specs::vec::group_vec_axioms;
        match self {
            Json::Object(members) => {
                lemma_member_index(members@, "data"@);
            },
            _ => {},
        }
    }

    /// Looks up the member called `name`.
    pub fn get(&self, name: &String) -> (r: Option<&Json>)
        ensures
            match r {
                Some(value) => self.member(name@) == Some(*value),
                None => self.member(name@) is None,
            },
    {
        match self {
            Json::Object(members) => match find_member(members, name) {
                Some(i) => Some(&members[i].value),
                None => None,
            },
            _ => None,
        }
    }

    /// The innermost payload of an envelope.
    pub fn innermost(&self) -> (r: &Json)
        ensures
            *r == self.unwrapped(),
        decreases self,
    {
        let key = "data".to_owned();
        match self.get(&key) {
            Some(inner) => {
                proof {
                    self.lemma_member_is_smaller("data"@);
                }
                inner.innermost()
            },
            None => self,
        }
    }

    /// The member called `name`, where it is a non-negative integer that fits
    /// in 64 bits.
    pub open spec fn unsigned_member(self, name: Seq<char>) -> Option<u64> {
        match self.member(name) {
            Some(Json::Number(number)) => number.unsigned,
            _ => None,
        }
    }

    /// The member called `name`, where it is an integer that fits in 64 bits
    /// with a sign.
    pub open spec fn signed_member(self, name: Seq<char>) -> Option<i64> {
        match self.member(name) {
            Some(Json::Number(number)) => number.signed,
            _ => None,
        }
    }

    /// The member called `name`, where it is a string.
    pub open spec fn text_member(self, name: Seq<char>) -> Option<String> {
        match self.member(name) {
            Some(Json::Text(text)) => Some(text),
            _ => None,
        }
    }

    /// Reads an unsigned integer member.
    pub fn get_unsigned(&self, name: &str) -> (r: Option<u64>)
        ensures
            r == self.unsigned_member(name@),
    {
        match self.get(&name.to_owned()) {
            Some(Json::Number(number)) => number.unsigned,
            _ => None,
        }
    }

    /// Reads a signed integer member.
    pub fn get_signed(&self, name: &str) -> (r: Option<i64>)
        ensures
            r == self.signed_member(name@),
    {
        match self.get(&name.to_owned()) {
            Some(Json::Number(number)) => number.signed,
            _ => None,
        }
    }

    /// Reads a string member.
    pub fn get_text(&self, name: &str) -> (r: Option<String>)
        ensures
            r == self.text_member(name@),
    {
        match self.get(&name.to_owned()) {
            Some(Json::Text(text)) => Some(text.clone()),
            _ => None,
        }
    }

    /// A member's value is structurally smaller than the object that holds it.
    pub proof fn lemma_member_is_smaller(self, name: Seq<char>)
        ensures
            self.member(name) matches Some(inner) ==> decreases_to!(self => inner),
    {
        broadcast use vstd::std_specs::vec::group_vec_axioms;
        match self {
            Json::Object(members) => {
                lemma_member_index(members@, name);
            },
            _ => {},
        }
    }

    /// An envelope is transparent: a value wrapped under `"data"` unwraps to
    /// what the wrapped value itself unwraps to.
    pub proof fn lemma_envelope_is_transparent(self, inner: Json)
        requires
            self.member("data"@) == Some(inner),
        ensures
            self.unwrapped() == inner.unwrapped(),
    {
    }

    /// What unwrapping yields has no `"data"` member left.
    pub proof fn lemma_unwrapped_has_no_data(self)
        ensures
            self.unwrapped().member("data"@) is None,
        decreases self,
    {
        if let Some(inner) = self.member("data"@) {
            self.lemma_member_is_smaller("data"@);
            inner.lemma_unwrapped_has_no_data();
        }
    }

    /// Unwrapping is idempotent: the unwrapped value is its own unwrapping,
    /// and a value without a `"data"` member is left as it is.
    pub proof fn lemma_unwrapped_idempotent(self)
        ensures
            self.unwrapped().unwrapped() == self.unwrapped(),
            self.member("data"@) is None ==> self.unwrapped() == self,
    {
        self.lemma_unwrapped_has_no_data();
    }
}

} // verus!
