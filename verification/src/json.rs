//! A JSON document as the library reads it.

use crate::text::same_text;
use crate::text::views;
use vstd::prelude::*;

verus! {

/// A JSON document held as plain values.
///
/// A number is kept as its decimal text. An object keeps its members as a
/// list; where a key occurs more than once the last member with that key is
/// the one that counts.
#[derive(Debug)]
pub enum Json {
    Null,
    Bool(bool),
    Number(String),
    String(String),
    Array(Vec<Json>),
    Object(Vec<Member>),
}

/// One member of an object: a key and its value.
#[derive(Clone, Debug)]
pub struct Member {
    pub key: String,
    pub value: Json,
}

/// The mathematical value of a [`Json`] document.
pub enum JsonValue {
    Null,
    Bool(bool),
    Number(Seq<char>),
    String(Seq<char>),
    Array(Seq<JsonValue>),
    Object(Seq<MemberValue>),
}

/// The mathematical value of a [`Member`].
pub struct MemberValue {
    pub key: Seq<char>,
    pub value: JsonValue,
}

impl View for Json {
    type V = JsonValue;

    open spec fn view(&self) -> JsonValue
        decreases self,
    {
        match self {
            Json::Null => JsonValue::Null,
            Json::Bool(b) => JsonValue::Bool(*b),
            Json::Number(text) => JsonValue::Number(text@),
            Json::String(text) => JsonValue::String(text@),
            Json::Array(items) => JsonValue::Array(
                Seq::new(
                    items@.len(),
                    |i: int|
                        if 0 <= i < items@.len() {
                            items@[i].view()
                        } else {
                            JsonValue::Null
                        },
                ),
            ),
            Json::Object(members) => JsonValue::Object(
                Seq::new(
                    members@.len(),
                    |i: int|
                        if 0 <= i < members@.len() {
                            MemberValue { key: members@[i].key@, value: members@[i].value.view() }
                        } else {
                            MemberValue { key: Seq::empty(), value: JsonValue::Null }
                        },
                ),
            ),
        }
    }
}

impl View for Member {
    type V = MemberValue;

    open spec fn view(&self) -> MemberValue {
        MemberValue { key: self.key@, value: self.value@ }
    }
}

/// The value of the last member with the given key.
pub open spec fn find_member(members: Seq<MemberValue>, key: Seq<char>) -> Option<JsonValue>
    decreases members.len(),
{
    if members.len() == 0 {
        None
    } else if members.last().key == key {
        Some(members.last().value)
    } else {
        find_member(members.drop_last(), key)
    }
}

impl JsonValue {
    /// The member of an object with the given key; nothing for a key that
    /// the object lacks and for a value that is no object.
    pub open spec fn member(self, key: Seq<char>) -> Option<JsonValue> {
        match self {
            JsonValue::Object(members) => find_member(members, key),
            _ => None,
        }
    }

    /// Whether the value is an object with a member of the given key.
    pub open spec fn has_key(self, key: Seq<char>) -> bool {
        self.member(key) is Some
    }

    /// The text of a member that is a string.
    pub open spec fn text_member(self, key: Seq<char>) -> Option<Seq<char>> {
        match self.member(key) {
            Some(JsonValue::String(text)) => Some(text),
            _ => None,
        }
    }
}

/// The view of an array is the views of its items.
pub proof fn lemma_array_view(items: Vec<Json>)
    ensures
        Json::Array(items)@ == JsonValue::Array(views(items@)),
{
    assert(Json::Array(items)@->Array_0 =~= views(items@));
}

/// The view of an object is the views of its members.
pub proof fn lemma_object_view(members: Vec<Member>)
    ensures
        Json::Object(members)@ == JsonValue::Object(views(members@)),
{
    assert(Json::Object(members)@->Object_0 =~= views(members@));
}

impl Clone for Json {
    fn clone(&self) -> (r: Self)
        ensures
            r@ == self@,
        decreases self,
    {
        match self {
            Json::Null => Json::Null,
            Json::Bool(b) => Json::Bool(*b),
            Json::Number(text) => Json::Number(text.clone()),
            Json::String(text) => Json::String(text.clone()),
            Json::Array(items) => {
                let mut copy: Vec<Json> = Vec::new();
                let mut i: usize = 0;
                while i < items.len()
                    invariant
                        *self == Json::Array(*items),
                        i <= items.len(),
                        copy.len() == i,
                        forall|k: int| 0 <= k < i ==> copy@[k]@ == items@[k]@,
                    decreases items.len() - i,
                {
                    assert(decreases_to!(*self => self->Array_0));
                    assert(decreases_to!(*items => items[i as int]));
                    copy.push(items[i].clone());
                    i += 1;
                }
                let r = Json::Array(copy);
                assert(r@->Array_0 =~= self@->Array_0);
                r
            },
            Json::Object(members) => {
                let mut copy: Vec<Member> = Vec::new();
                let mut i: usize = 0;
                while i < members.len()
                    invariant
                        *self == Json::Object(*members),
                        i <= members.len(),
                        copy.len() == i,
                        forall|k: int|
                            0 <= k < i ==> copy@[k].key@ == members@[k].key@ && copy@[k].value@
                                == members@[k].value@,
                    decreases members.len() - i,
                {
                    assert(decreases_to!(*self => self->Object_0));
                    assert(decreases_to!(*members => members[i as int].value));
                    copy.push(Member { key: members[i].key.clone(), value: members[i].value.clone() });
                    i += 1;
                }
                let r = Json::Object(copy);
                assert(r@->Object_0 =~= self@->Object_0);
                r
            },
        }
    }
}

/// Where and why a byte buffer failed to parse as JSON.
#[derive(Clone, Debug)]
pub struct ParseFailure {
    /// The parser's own description of the failure.
    pub message: String,
    /// One-based line at which the parser stopped, or zero.
    pub line: usize,
    /// Column at which the parser stopped.
    pub column: usize,
}

/// The mathematical value of a [`ParseFailure`].
pub struct ParseFailureView {
    pub message: Seq<char>,
    pub line: nat,
    pub column: nat,
}

impl View for ParseFailure {
    type V = ParseFailureView;

    open spec fn view(&self) -> ParseFailureView {
        ParseFailureView {
            message: self.message@,
            line: self.line as nat,
            column: self.column as nat,
        }
    }
}

/// `serde_json::Value`, carried from the parser to [`lift`] and never read.
#[verifier::external_type_specification]
#[verifier::external_body]
pub struct ExValue(serde_json::Value);

/// What `serde_json::from_slice` makes of a byte buffer: the document, or the
/// parser's message with the line and column of the failure.
pub uninterp spec fn parsed(raw: Seq<u8>) -> Result<JsonValue, ParseFailureView>;

/// The document that a `serde_json::Value` holds.
pub uninterp spec fn lifted(value: serde_json::Value) -> JsonValue;

/// Calls `serde_json::from_slice` for a `serde_json::Value`. The parser is a
/// function of the bytes alone, so the outcome is the one that [`parsed`]
/// names; a failure is handed back as its message, line and column.
#[verifier::external_body]
fn read_value(raw: &[u8]) -> (r: Result<serde_json::Value, ParseFailure>)
    ensures
        match r {
            Ok(value) => parsed(raw@) == Ok::<JsonValue, ParseFailureView>(lifted(value)),
            Err(failure) => parsed(raw@) == Err::<JsonValue, ParseFailureView>(failure@),
        },
{
    match serde_json::from_slice::<serde_json::Value>(raw) {
        Ok(value) => Ok(value),
        Err(e) => Err(ParseFailure { message: e.to_string(), line: e.line(), column: e.column() }),
    }
}

/// Moves a `serde_json::Value` into a [`Json`], variant by variant. A number
/// is moved as the text that `serde_json::Number` displays, an object as its
/// members in the order in which `serde_json::Map` hands them out.
#[verifier::external_body]
fn lift(value: serde_json::Value) -> (r: Json)
    ensures
        r@ == lifted(value),
{
    match value {
        serde_json::Value::Null => Json::Null,
        serde_json::Value::Bool(b) => Json::Bool(b),
        serde_json::Value::Number(n) => Json::Number(n.to_string()),
        serde_json::Value::String(s) => Json::String(s),
        serde_json::Value::Array(items) => Json::Array(items.into_iter().map(lift).collect()),
        serde_json::Value::Object(map) => Json::Object(
            map.into_iter().map(|(key, v)| Member { key, value: lift(v) }).collect(),
        ),
    }
}

impl Json {
    /// The member of an object with the given key.
    pub fn get(&self, key: &str) -> (r: Option<&Json>)
        ensures
            match r {
                Some(found) => self@.member(key@) == Some(found@),
                None => self@.member(key@) is None,
            },
    {
        match self {
            Json::Object(members) => {
                proof {
                    lemma_object_view(*members);
                }
                let ghost all = views(members@);
                let mut i: usize = members.len();
                assert(all.take(i as int) =~= all);
                while i > 0
                    invariant
                        i <= members.len(),
                        all == views(members@),
                        self@ == JsonValue::Object(all),
                        find_member(all, key@) == find_member(all.take(i as int), key@),
                    decreases i,
                {
                    let ghost current = all.take(i as int);
                    assert(current.last() == all[i - 1]);
                    assert(current.drop_last() =~= all.take(i - 1));
                    if same_text(members[i - 1].key.as_str(), key) {
                        return Some(&members[i - 1].value);
                    }
                    i -= 1;
                }
                assert(all.take(0).len() == 0);
                None
            },
            _ => None,
        }
    }

    /// Whether the value is an object with a member of the given key.
    pub fn contains_key(&self, key: &str) -> (r: bool)
        ensures
            r == self@.has_key(key@),
    {
        self.get(key).is_some()
    }

    /// The text of a string.
    pub fn as_str(&self) -> (r: Option<&str>)
        ensures
            match r {
                Some(text) => self@ == JsonValue::String(text@),
                None => !(self@ is String),
            },
    {
        match self {
            Json::String(text) => Some(text.as_str()),
            _ => None,
        }
    }

    /// The items of an array.
    pub fn as_array(&self) -> (r: Option<&Vec<Json>>)
        ensures
            match r {
                Some(items) => self@ == JsonValue::Array(views(items@)),
                None => !(self@ is Array),
            },
    {
        match self {
            Json::Array(items) => {
                proof {
                    lemma_array_view(*items);
                }
                Some(items)
            },
            _ => None,
        }
    }

    /// Whether the value is an object without members.
    pub fn is_empty_object(&self) -> (r: bool)
        ensures
            r == (self@ == JsonValue::Object(Seq::empty())),
    {
        match self {
            Json::Object(members) => {
                proof {
                    lemma_object_view(*members);
                    if members@.len() == 0 {
                        assert(views(members@) =~= Seq::<MemberValue>::empty());
                    }
                }
                members.len() == 0
            },
            _ => false,
        }
    }

    /// The text of a member that is a string.
    pub fn get_str(&self, key: &str) -> (r: Option<&str>)
        ensures
            match r {
                Some(text) => self@.text_member(key@) == Some(text@),
                None => self@.text_member(key@) is None,
            },
    {
        match self.get(key) {
            Some(found) => found.as_str(),
            None => None,
        }
    }

    /// Parses a byte buffer as one JSON document.
    pub fn parse(raw: &[u8]) -> (r: Result<Json, ParseFailure>)
        ensures
            match r {
                Ok(value) => parsed(raw@) == Ok::<JsonValue, ParseFailureView>(value@),
                Err(failure) => parsed(raw@) == Err::<JsonValue, ParseFailureView>(failure@),
            },
    {
        match read_value(raw) {
            Ok(value) => Ok(lift(value)),
            Err(failure) => Err(failure),
        }
    }
}

} // verus!
