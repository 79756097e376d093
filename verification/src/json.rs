use vstd::prelude::*;
use crate::text::{
    is_positive, is_positive_decimal, is_zero, is_zero_decimal, parse_decimal, parse_u64, parsed_decimal, parsed_u64,
    same_text,
};

verus! {

/// A JSON document as plain data. A number is kept as the text that writes
/// it; an object as its members in the order in which they are handed over,
/// each name once.
#[derive(Debug)]
pub enum Json {
    Null,
    Bool(bool),
    Num(String),
    Str(String),
    Arr(Vec<Json>),
    Obj(Vec<(String, Json)>),
}

/// The outside type of a parsed JSON document.
#[verifier::external_type_specification]
#[verifier::external_body]
pub struct ExJsonValue(serde_json::Value);

/// The document that a text parses to, or nothing where the text is no
/// single well-formed JSON document.
pub uninterp spec fn json_of(text: Seq<char>) -> Option<Json>;

/// Copies a document of `serde_json` into plain data, variant by variant
/// (`serde_json::Value`). A number comes as the text that its `Display`
/// writes. Nothing is claimed of the result.
#[verifier::external_body]
fn json_from_value(value: &serde_json::Value) -> (json: Json) {
    match value {
        serde_json::Value::Null => Json::Null,
        serde_json::Value::Bool(b) => Json::Bool(*b),
        serde_json::Value::Number(n) => Json::Num(n.to_string()),
        serde_json::Value::String(s) => Json::Str(s.clone()),
        serde_json::Value::Array(items) => Json::Arr(items.iter().map(json_from_value).collect()),
        serde_json::Value::Object(members) => Json::Obj(
            members.iter().map(|(name, v)| (name.clone(), json_from_value(v))).collect(),
        ),
    }
}

/// Parses a text with `serde_json::from_str`. The result depends on the
/// text alone: it is the document named `json_of`, and nothing where the
/// parser reports an error.
#[verifier::external_body]
pub(crate) fn parse_json(text: &str) -> (json: Option<Json>)
    ensures
        json == json_of(text@),
{
    match serde_json::from_str::<serde_json::Value>(text) {
        Ok(value) => Some(json_from_value(&value)),
        Err(_) => None,
    }
}

/// The place of the first member named `name`, or the number of members
/// where none has that name.
pub open spec fn member_index(members: Seq<(String, Json)>, name: Seq<char>) -> int
    decreases members.len(),
{
    if members.len() == 0 {
        0
    } else if members[0].0@ == name {
        0
    } else {
        1 + member_index(members.drop_first(), name)
    }
}

/// The first place of a name is a place that holds it, and none lies
/// before.
pub proof fn lemma_member_index(members: Seq<(String, Json)>, name: Seq<char>)
    ensures
        0 <= member_index(members, name) <= members.len(),
        member_index(members, name) < members.len() ==> members[member_index(members, name)].0@
            == name,
        forall|i: int| 0 <= i < member_index(members, name) ==> (#[trigger] members[i]).0@ != name,
    decreases members.len(),
{
    if members.len() > 0 && members[0].0@ != name {
        lemma_member_index(members.drop_first(), name);
        assert forall|i: int| 0 <= i < member_index(members, name) implies (#[trigger] members[i]).0@
            != name by {
            if i > 0 {
                assert(members[i] == members.drop_first()[i - 1]);
            }
        }
    }
}

/// A place that holds the name and has none of it before is its first
/// place.
pub proof fn lemma_member_index_is(members: Seq<(String, Json)>, name: Seq<char>, at: int)
    requires
        0 <= at <= members.len(),
        at < members.len() ==> members[at].0@ == name,
        forall|i: int| 0 <= i < at ==> (#[trigger] members[i]).0@ != name,
    ensures
        member_index(members, name) == at,
{
    lemma_member_index(members, name);
    let f = member_index(members, name);
    if f < at {
        assert(members[f].0@ != name);
    }
}

impl Json {
    /// The member `name` of an object; nothing for a name that the object
    /// lacks and for a document that is no object.
    pub open spec fn member(self, name: Seq<char>) -> Option<Json> {
        match self {
            Json::Obj(members) => {
                let at = member_index(members@, name);
                if at < members@.len() {
                    Some(members@[at].1)
                } else {
                    None
                }
            },
            _ => None,
        }
    }

    /// The items of an array; nothing for a document that is no array.
    pub open spec fn items(self) -> Option<Seq<Json>> {
        match self {
            Json::Arr(items) => Some(items@),
            _ => None,
        }
    }

    /// The characters of a string; nothing for a document that is no
    /// string.
    pub open spec fn text(self) -> Option<Seq<char>> {
        match self {
            Json::Str(s) => Some(s@),
            _ => None,
        }
    }

    /// The text of a number; nothing for a document that is no number.
    pub open spec fn number(self) -> Option<Seq<char>> {
        match self {
            Json::Num(s) => Some(s@),
            _ => None,
        }
    }

    /// The characters of the string member `name`.
    pub open spec fn text_member(self, name: Seq<char>) -> Option<Seq<char>> {
        match self.member(name) {
            Some(v) => v.text(),
            None => None,
        }
    }

    /// A number that is a whole number from zero to the 64-bit limit.
    pub open spec fn unsigned(self) -> Option<u64> {
        match self {
            Json::Num(s) => parsed_u64(s@),
            _ => None,
        }
    }

    /// A number written without exponent, as a whole number of units of ten
    /// to the minus `places`.
    pub open spec fn decimal(self, places: nat) -> Option<i64> {
        match self {
            Json::Num(s) => parsed_decimal(s@, places),
            _ => None,
        }
    }

    /// A string that writes a plain decimal number, read in the same units.
    pub open spec fn text_decimal(self, places: nat) -> Option<i64> {
        match self {
            Json::Str(s) => parsed_decimal(s@, places),
            _ => None,
        }
    }

    /// A number written without exponent that is zero.
    pub open spec fn zero(self) -> bool {
        match self {
            Json::Num(s) => is_zero_decimal(s@),
            _ => false,
        }
    }

    /// A string that writes a plain decimal number above zero.
    pub open spec fn text_positive(self) -> bool {
        match self {
            Json::Str(s) => is_positive_decimal(s@),
            _ => false,
        }
    }

    /// The member `name` of an object.
    pub fn get(&self, name: &str) -> (found: Option<&Json>)
        ensures
            match found {
                Some(v) => self.member(name@) == Some(*v),
                None => self.member(name@) is None,
            },
    {
        match self {
            Json::Obj(members) => {
                let mut i: usize = 0;
                while i < members.len()
                    invariant
                        i <= members@.len(),
                        self matches Json::Obj(m) && m@ == members@,
                        forall|j: int| 0 <= j < i ==> (#[trigger] members@[j]).0@ != name@,
                    decreases members@.len() - i,
                {
                    if same_text(members[i].0.as_str(), name) {
                        proof {
                            lemma_member_index_is(members@, name@, i as int);
                        }
                        return Some(&members[i].1);
                    }
                    i = i + 1;
                }
                proof {
                    lemma_member_index_is(members@, name@, members@.len() as int);
                }
                None
            },
            _ => None,
        }
    }

    /// The items of an array.
    pub fn as_array(&self) -> (found: Option<&Vec<Json>>)
        ensures
            match found {
                Some(items) => self.items() == Some(items@),
                None => self.items() is None,
            },
    {
        match self {
            Json::Arr(items) => Some(items),
            _ => None,
        }
    }

    /// The characters of a string.
    pub fn as_str(&self) -> (found: Option<&str>)
        ensures
            match found {
                Some(s) => self.text() == Some(s@),
                None => self.text() is None,
            },
    {
        match self {
            Json::Str(s) => Some(s.as_str()),
            _ => None,
        }
    }

    /// The characters of the string member `name`.
    pub fn get_str(&self, name: &str) -> (found: Option<&str>)
        ensures
            match found {
                Some(s) => self.text_member(name@) == Some(s@),
                None => self.text_member(name@) is None,
            },
    {
        match self.get(name) {
            Some(v) => v.as_str(),
            None => None,
        }
    }

    /// A number as an unsigned whole number.
    pub fn as_u64(&self) -> (found: Option<u64>)
        ensures
            found == self.unsigned(),
    {
        match self {
            Json::Num(s) => parse_u64(s.as_str()),
            _ => None,
        }
    }

    /// A number as a whole number of units of ten to the minus `places`.
    pub fn as_decimal(&self, places: u32) -> (found: Option<i64>)
        requires
            places <= 18,
        ensures
            found == self.decimal(places as nat),
    {
        match self {
            Json::Num(s) => parse_decimal(s.as_str(), places),
            _ => None,
        }
    }

    /// A string that writes a decimal number, in the same units.
    pub fn str_as_decimal(&self, places: u32) -> (found: Option<i64>)
        requires
            places <= 18,
        ensures
            found == self.text_decimal(places as nat),
    {
        match self {
            Json::Str(s) => parse_decimal(s.as_str(), places),
            _ => None,
        }
    }

    /// Whether a number is zero.
    pub fn is_zero_number(&self) -> (r: bool)
        ensures
            r == self.zero(),
    {
        match self {
            Json::Num(s) => is_zero(s.as_str()),
            _ => false,
        }
    }

    /// Whether a string writes a plain decimal number above zero.
    pub fn str_is_positive(&self) -> (positive: bool)
        ensures
            positive == self.text_positive(),
    {
        match self {
            Json::Str(s) => is_positive(s.as_str()),
            _ => false,
        }
    }
}

} // verus!
