//! The JSON documents that the tool passes around.
//!
//! A search result is carried verbatim; the library only ever reads one named
//! field out of a document (the `hits` envelope of the CDN index) and builds
//! one fixed document (the error envelope shown by the command line). Numbers
//! are kept as their written tokens, so a document survives the trip through
//! the library unchanged.

use vstd::prelude::*;
use vstd::string::StringExecFns;
use crate::text::str_eq;

verus! {

/// A JSON document: the library's own model of the values that the registry
/// services return.
#[derive(Debug, PartialEq)]
pub enum JsonValue {
    /// The JSON `null`.
    Null,
    /// A JSON boolean.
    Bool(bool),
    /// A JSON number, kept as its written token.
    Num(String),
    /// A JSON string.
    Text(String),
    /// A JSON array.
    Arr(Vec<JsonValue>),
    /// A JSON object: named members in written order.
    Obj(Vec<(String, JsonValue)>),
}

/// The value of the first member of `fields` named `name`, if any.
pub open spec fn obj_lookup(fields: Seq<(String, JsonValue)>, name: Seq<char>) -> Option<
    JsonValue,
>
    decreases fields.len(),
{
    if fields.len() == 0 {
        None
    } else if fields.first().0@ == name {
        Some(fields.first().1)
    } else {
        obj_lookup(fields.drop_first(), name)
    }
}

/// The value of the member `name` of `v`: `None` when `v` is not an object
/// or has no such member.
pub open spec fn field_of(v: JsonValue, name: Seq<char>) -> Option<JsonValue> {
    match v {
        JsonValue::Obj(fields) => obj_lookup(fields@, name),
        _ => None,
    }
}

/// The error document that the command line prints in place of a result:
/// `{"items": [{"title": "Error", "subtitle": msg}]}`.
pub open spec fn is_error_envelope(v: JsonValue, msg: Seq<char>) -> bool {
    &&& v matches JsonValue::Obj(top)
    &&& top@.len() == 1
    &&& top@[0].0@ == "items"@
    &&& top@[0].1 matches JsonValue::Arr(items)
    &&& items@.len() == 1
    &&& items@[0] matches JsonValue::Obj(fields)
    &&& fields@.len() == 2
    &&& fields@[0].0@ == "title"@
    &&& fields@[0].1 matches JsonValue::Text(t) && t@ == "Error"@
    &&& fields@[1].0@ == "subtitle"@
    &&& fields@[1].1 matches JsonValue::Text(s) && s@ == msg
}

impl JsonValue {
    /// Moves the value of the first member named `name` out of an object;
    /// `None` when the document is not an object or has no such member.
    pub fn take_field(self, name: &str) -> (r: Option<JsonValue>)
        ensures
            r == field_of(self, name@),
    {
        match self {
            JsonValue::Obj(mut fields) => {
                let ghost orig = fields@;
                proof {
                    assert(field_of(self, name@) == obj_lookup(orig, name@));
                }
                let n = fields.len();
                let mut i: usize = 0;
                while i < n
                    invariant
                        i <= n,
                        n == fields.len(),
                        fields@ == orig,
                        field_of(self, name@) == obj_lookup(orig, name@),
                        forall|j: int| 0 <= j < i ==> orig[j].0@ != name@,
                    decreases n - i,
                {
                    if str_eq(fields[i].0.as_str(), name) {
                        proof {
                            lemma_obj_lookup_index(orig, name@, i as int);
                        }
                        let entry = fields.remove(i);
                        return Some(entry.1);
                    }
                    i += 1;
                }
                proof {
                    assert(field_of(self, name@) == obj_lookup(orig, name@));
                    lemma_obj_lookup_none(orig, name@);
                }
                None
            },
            _ => None,
        }
    }

    /// An empty JSON array.
    pub fn empty_array() -> (r: JsonValue)
        ensures
            r matches JsonValue::Arr(a) && a@ == Seq::<JsonValue>::empty(),
    {
        let a: Vec<JsonValue> = Vec::new();
        proof {
            assert(a@ =~= Seq::<JsonValue>::empty());
        }
        JsonValue::Arr(a)
    }
}

/// Builds the error document `{"items": [{"title": "Error", "subtitle":
/// msg}]}` that the command line prints when a search fails.
pub fn error_envelope(msg: &str) -> (r: JsonValue)
    ensures
        is_error_envelope(r, msg@),
{
    let mut fields: Vec<(String, JsonValue)> = Vec::new();
    fields.push((String::from_str("title"), JsonValue::Text(String::from_str("Error"))));
    fields.push((String::from_str("subtitle"), JsonValue::Text(String::from_str(msg))));
    let mut items: Vec<JsonValue> = Vec::new();
    items.push(JsonValue::Obj(fields));
    let mut top: Vec<(String, JsonValue)> = Vec::new();
    top.push((String::from_str("items"), JsonValue::Arr(items)));
    JsonValue::Obj(top)
}

/// When the first `i` members do not carry `name` and member `i` does, the
/// lookup finds member `i`.
proof fn lemma_obj_lookup_index(s: Seq<(String, JsonValue)>, name: Seq<char>, i: int)
    requires
        0 <= i < s.len(),
        s[i].0@ == name,
        forall|j: int| 0 <= j < i ==> s[j].0@ != name,
    ensures
        obj_lookup(s, name) == Some(s[i].1),
    decreases i,
{
    if i > 0 {
        assert(s.first().0@ != name);
        assert(s.drop_first()[i - 1] == s[i]);
        assert(forall|j: int| 0 <= j < i - 1 ==> s.drop_first()[j] == s[j + 1]);
        lemma_obj_lookup_index(s.drop_first(), name, i - 1);
    }
}

/// When no member carries `name`, the lookup finds nothing.
proof fn lemma_obj_lookup_none(s: Seq<(String, JsonValue)>, name: Seq<char>)
    requires
        forall|j: int| 0 <= j < s.len() ==> s[j].0@ != name,
    ensures
        obj_lookup(s, name) is None,
    decreases s.len(),
{
    if s.len() > 0 {
        assert(forall|j: int| 0 <= j < s.drop_first().len() ==> s.drop_first()[j] == s[j + 1]);
        lemma_obj_lookup_none(s.drop_first(), name);
    }
}

} // verus!
