//! JSON as far as the case API needs it: an object read into its members,
//! typed access to a member, and the framing of a small object.
//!
//! Reading JSON text and writing a JSON string are `serde_json`'s work.

use vstd::prelude::*;
use vstd::string::*;
use crate::text::{optional_text, same_text};

verus! {

#[verifier::external_type_specification]
#[verifier::external_body]
pub struct ExJsonError(serde_json::Error);

/// A JSON number: its text as `serde_json` prints it, and its value where it
/// is an integer that fits in 64 bits with a sign.
#[derive(Debug, Clone, PartialEq, Eq)]
pub struct JsonNumber {
    pub literal: String,
    pub whole: Option<i64>,
}

/// The value of one member of a JSON object. What an array or an object
/// holds is not kept.
#[derive(Debug, Clone, PartialEq, Eq)]
pub enum JsonValue {
    Null,
    Bool(bool),
    Number(JsonNumber),
    Text(String),
    Array,
    Object,
}

/// One member of a JSON object.
#[derive(Debug, Clone, PartialEq, Eq)]
pub struct JsonMember {
    pub name: String,
    pub value: JsonValue,
}

/// `JsonValue` with its texts as sequences of characters.
pub enum ValueSpec {
    Null,
    Bool(bool),
    Number { literal: Seq<char>, whole: Option<i64> },
    Text(Seq<char>),
    Array,
    Object,
}

/// `JsonMember` with its texts as sequences of characters.
pub struct MemberSpec {
    pub name: Seq<char>,
    pub value: ValueSpec,
}

impl View for JsonValue {
    type V = ValueSpec;

    open spec fn view(&self) -> ValueSpec {
        match self {
            JsonValue::Null => ValueSpec::Null,
            JsonValue::Bool(flag) => ValueSpec::Bool(*flag),
            JsonValue::Number(number) => ValueSpec::Number {
                literal: number.literal@,
                whole: number.whole,
            },
            JsonValue::Text(text) => ValueSpec::Text(text@),
            JsonValue::Array => ValueSpec::Array,
            JsonValue::Object => ValueSpec::Object,
        }
    }
}

impl View for JsonMember {
    type V = MemberSpec;

    open spec fn view(&self) -> MemberSpec {
        MemberSpec { name: self.name@, value: self.value@ }
    }
}

/// The members of a vector, each by its view.
pub open spec fn members_view(members: Seq<JsonMember>) -> Seq<MemberSpec> {
    members.map_values(|member: JsonMember| member@)
}

/// The members of the JSON object that `text` is, in the order in which
/// `serde_json` hands them out; `None` where it does not read `text` as an
/// object.
pub uninterp spec fn json_members(text: Seq<char>) -> Option<Seq<MemberSpec>>;

/// `serde_json::from_str` at the type `serde_json::Map<String, Value>`: the
/// members of the object that the text holds, each value brought over by its
/// variant, a number by its `Display` and its `as_i64`.
#[verifier::external_body]
pub(crate) fn parse_members(text: &str) -> (parsed: Result<Vec<JsonMember>, serde_json::Error>)
    ensures
        parsed matches Ok(members) ==> json_members(text@) == Some(members_view(members@)),
        parsed is Err ==> json_members(text@) is None,
{
    let object: serde_json::Map<String, serde_json::Value> = serde_json::from_str(text)?;
    Ok(object.into_iter().map(|(name, value)| JsonMember { name, value: match value {
        serde_json::Value::Null => JsonValue::Null,
        serde_json::Value::Bool(flag) => JsonValue::Bool(flag),
        serde_json::Value::Number(number) => JsonValue::Number(JsonNumber { literal: number.to_string(), whole: number.as_i64() }),
        serde_json::Value::String(text) => JsonValue::Text(text),
        serde_json::Value::Array(_) => JsonValue::Array,
        serde_json::Value::Object(_) => JsonValue::Object,
    } }).collect())
}

/// The text of the JSON string that holds `text`: between double quotes,
/// with what JSON cannot hold as it stands escaped.
pub uninterp spec fn json_string(text: Seq<char>) -> Seq<char>;

/// `serde_json::Value`'s `Display`, on the string value made of the text by
/// `Value::from`: the text as a JSON string.
#[verifier::external_body]
pub(crate) fn quoted(text: &str) -> (literal: String)
    ensures
        literal@ == json_string(text@),
{
    serde_json::Value::from(text).to_string()
}

/// The value of the first member called `name`.
pub open spec fn member(members: Seq<MemberSpec>, name: Seq<char>) -> Option<ValueSpec>
    decreases members.len(),
{
    if members.len() == 0 {
        None
    } else if members[0].name == name {
        Some(members[0].value)
    } else {
        member(members.drop_first(), name)
    }
}

/// The member as a truth value: it has to be there and be one.
pub open spec fn flag_member(members: Seq<MemberSpec>, name: Seq<char>) -> Option<bool> {
    match member(members, name) {
        Some(ValueSpec::Bool(flag)) => Some(flag),
        _ => None,
    }
}

/// The member as text: it has to be there and be a string.
pub open spec fn text_member(members: Seq<MemberSpec>, name: Seq<char>) -> Option<Seq<char>> {
    match member(members, name) {
        Some(ValueSpec::Text(text)) => Some(text),
        _ => None,
    }
}

/// The member as text that may be left out: absent or `null` it reads as no
/// text; present, it has to be a string.
pub open spec fn optional_text_member(members: Seq<MemberSpec>, name: Seq<char>) -> Option<
    Option<Seq<char>>,
> {
    match member(members, name) {
        None => Some(None),
        Some(ValueSpec::Null) => Some(None),
        Some(ValueSpec::Text(text)) => Some(Some(text)),
        _ => None,
    }
}

/// The member as a number, by its text: it has to be there and be a number.
pub open spec fn number_member(members: Seq<MemberSpec>, name: Seq<char>) -> Option<Seq<char>> {
    match member(members, name) {
        Some(ValueSpec::Number { literal, whole }) => Some(literal),
        _ => None,
    }
}

/// The member as a 32-bit integer: it has to be there and be an integer in
/// that range.
pub open spec fn integer_member(members: Seq<MemberSpec>, name: Seq<char>) -> Option<i32> {
    match member(members, name) {
        Some(ValueSpec::Number { literal, whole: Some(value) }) => if i32::MIN <= value
            <= i32::MAX {
            Some(value as i32)
        } else {
            None
        },
        _ => None,
    }
}

/// Finds the first member called `name`.
pub fn find<'a>(members: &'a Vec<JsonMember>, name: &str) -> (found: Option<&'a JsonValue>)
    ensures
        match found {
            Some(value) => member(members_view(members@), name@) == Some(value@),
            None => member(members_view(members@), name@) is None,
        },
{
    let ghost all = members_view(members@);
    let mut i: usize = 0;
    assert(all.skip(0) =~= all);
    while i < members.len()
        invariant
            i <= members.len(),
            all == members_view(members@),
            member(all, name@) == member(all.skip(i as int), name@),
        decreases members.len() - i,
    {
        proof {
            assert(all.skip(i as int)[0] == members@[i as int]@);
            assert(all.skip(i as int).drop_first() =~= all.skip(i as int + 1));
        }
        if same_text(members[i].name.as_str(), name) {
            return Some(&members[i].value);
        }
        i = i + 1;
    }
    assert(all.skip(i as int).len() == 0);
    None
}

/// Reads the member as a truth value.
pub fn flag_of(members: &Vec<JsonMember>, name: &str) -> (flag: Option<bool>)
    ensures
        flag == flag_member(members_view(members@), name@),
{
    match find(members, name) {
        Some(JsonValue::Bool(flag)) => Some(*flag),
        _ => None,
    }
}

/// Reads the member as text.
pub fn text_of(members: &Vec<JsonMember>, name: &str) -> (text: Option<String>)
    ensures
        optional_text(text) == text_member(members_view(members@), name@),
{
    match find(members, name) {
        Some(JsonValue::Text(text)) => Some(text.clone()),
        _ => None,
    }
}

/// Reads the member as text that may be left out.
pub fn optional_text_of(members: &Vec<JsonMember>, name: &str) -> (text: Option<Option<String>>)
    ensures
        match text {
            Some(inner) => optional_text_member(members_view(members@), name@) == Some(
                optional_text(inner),
            ),
            None => optional_text_member(members_view(members@), name@) is None,
        },
{
    match find(members, name) {
        None => Some(None),
        Some(JsonValue::Null) => Some(None),
        Some(JsonValue::Text(text)) => Some(Some(text.clone())),
        _ => None,
    }
}

/// Reads the member as a number, by its text.
pub fn number_of(members: &Vec<JsonMember>, name: &str) -> (literal: Option<String>)
    ensures
        optional_text(literal) == number_member(members_view(members@), name@),
{
    match find(members, name) {
        Some(JsonValue::Number(number)) => Some(number.literal.clone()),
        _ => None,
    }
}

/// Reads the member as a 32-bit integer.
pub fn integer_of(members: &Vec<JsonMember>, name: &str) -> (value: Option<i32>)
    ensures
        value == integer_member(members_view(members@), name@),
{
    match find(members, name) {
        Some(JsonValue::Number(number)) => match number.whole {
            Some(value) => if -2147483648 <= value && value <= 2147483647 {
                Some(value as i32)
            } else {
                None
            },
            None => None,
        },
        _ => None,
    }
}

/// The text of a JSON object with one member, given the member's value as
/// JSON text.
pub open spec fn object_of_one(name: Seq<char>, value: Seq<char>) -> Seq<char> {
    seq!['{', '"'] + name + seq!['"', ':'] + value + seq!['}']
}

/// The text of a JSON object with two members, given their values as JSON
/// text.
pub open spec fn object_of_two(
    first_name: Seq<char>,
    first_value: Seq<char>,
    second_name: Seq<char>,
    second_value: Seq<char>,
) -> Seq<char> {
    seq!['{', '"'] + first_name + seq!['"', ':'] + first_value + seq![',', '"'] + second_name
        + seq!['"', ':'] + second_value + seq!['}']
}

/// Frames one member as a JSON object. The name is written as it stands.
pub fn frame_one(name: &str, value: &str) -> (text: String)
    ensures
        text@ == object_of_one(name@, value@),
{
    proof {
        reveal_strlit("{\"");
        reveal_strlit("\":");
        reveal_strlit("}");
    }
    let mut text = String::from_str("{\"");
    text.append(name);
    text.append("\":");
    text.append(value);
    text.append("}");
    assert(text@ =~= object_of_one(name@, value@));
    text
}

/// Frames two members as a JSON object. The names are written as they stand.
pub fn frame_two(first_name: &str, first_value: &str, second_name: &str, second_value: &str) -> (text:
    String)
    ensures
        text@ == object_of_two(first_name@, first_value@, second_name@, second_value@),
{
    proof {
        reveal_strlit("{\"");
        reveal_strlit("\":");
        reveal_strlit(",\"");
        reveal_strlit("}");
    }
    let mut text = String::from_str("{\"");
    text.append(first_name);
    text.append("\":");
    text.append(first_value);
    text.append(",\"");
    text.append(second_name);
    text.append("\":");
    text.append(second_value);
    text.append("}");
    assert(text@ =~= object_of_two(first_name@, first_value@, second_name@, second_value@));
    text
}

} // verus!
